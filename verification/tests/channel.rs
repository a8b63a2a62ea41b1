use tla2528::channel::{try_from_i2c_data, Channel};
use tla2528::error::Error;

const ALL: [Channel; 8] = [
    Channel::Channel0,
    Channel::Channel1,
    Channel::Channel2,
    Channel::Channel3,
    Channel::Channel4,
    Channel::Channel5,
    Channel::Channel6,
    Channel::Channel7,
];

#[test]
fn valid_raw_values_give_their_channel() {
    for raw in 0x00..=0x07u8 {
        let channel = Channel::try_from(raw).unwrap();
        assert_eq!(channel, ALL[raw as usize]);
        assert_eq!(channel.value(), raw);
    }
}

#[test]
fn channel_round_trips_through_its_value() {
    for channel in ALL {
        assert_eq!(Channel::try_from(channel.value()), Ok(channel));
    }
}

#[test]
fn raw_values_above_seven_are_rejected() {
    for raw in 0x08..=0xFFu8 {
        assert_eq!(Channel::try_from(raw), Err(()));
    }
}

#[test]
fn raw_value_is_not_clamped() {
    assert_eq!(Channel::try_from(8), Err(()));
    assert_eq!(Channel::try_from(0x13), Err(()));
    assert_eq!(Channel::try_from(0xFF), Err(()));
}

#[test]
fn tag_bytes_0x30_and_0x3f_decode_to_channel_3() {
    assert_eq!(try_from_i2c_data::<()>(0x30), Ok(Channel::Channel3));
    assert_eq!(try_from_i2c_data::<()>(0x3F), Ok(Channel::Channel3));
}

#[test]
fn tag_decoding_ignores_the_low_nibble() {
    for high in 0..8u8 {
        for low in 0..16u8 {
            let tag = (high << 4) | low;
            assert_eq!(try_from_i2c_data::<()>(tag), Ok(ALL[high as usize]));
        }
    }
}

#[test]
fn tag_decoding_does_not_read_the_byte_as_a_raw_value() {
    // 0x05 is channel 5 as a raw value, but its high nibble is 0.
    assert_eq!(try_from_i2c_data::<()>(0x05), Ok(Channel::Channel0));
    assert_eq!(try_from_i2c_data::<()>(0x50), Ok(Channel::Channel5));
}

#[test]
fn tag_with_high_nibble_above_seven_is_invalid() {
    for high in 8..16u8 {
        for low in 0..16u8 {
            let tag = (high << 4) | low;
            assert_eq!(try_from_i2c_data::<()>(tag), Err(Error::InvalidChannelAddress));
        }
    }
}

#[test]
fn bus_error_converts_into_i2c_error() {
    let error: Error<u32> = Error::from(17u32);
    assert_eq!(error, Error::I2cError(17));
}
