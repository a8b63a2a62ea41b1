use tla2528::channel::Channel;
use tla2528::chip_definitions::{
    DataConfig, GeneralConfigFlags, Oversampling, RegisterAddress, SamplingRate, SequenceConfig,
};
use tla2528::chip_interface::{
    data_channel_reply, data_reply, register_reply, sample, write_reply, ChipInterface,
    Transaction, FRAME_LENGTH, MAX_CHANNEL_READ_TRIES, SWEEP_FRAMES,
};
use tla2528::error::Error;

const ADDRESS: u8 = 0x13;

fn write(register: RegisterAddress, value: u8) -> Transaction {
    Transaction::RegisterWrite { address: ADDRESS, register, value }
}

#[test]
fn sample_decoding_is_big_endian() {
    assert_eq!(sample(0x01, 0x23), 0x0123);
}

#[test]
fn sample_decoding_covers_the_whole_range() {
    assert_eq!(sample(0x00, 0x00), 0x0000);
    assert_eq!(sample(0x00, 0xFF), 0x00FF);
    assert_eq!(sample(0xFF, 0x00), 0xFF00);
    assert_eq!(sample(0xFF, 0xFF), 0xFFFF);
    assert_eq!(sample(0x0F, 0xA5), u16::from_be_bytes([0x0F, 0xA5]));
}

#[test]
fn constants_of_the_stream() {
    assert_eq!(FRAME_LENGTH, 3);
    assert_eq!(SWEEP_FRAMES, 8);
    assert_eq!(MAX_CHANNEL_READ_TRIES, 32);
}

#[test]
fn register_read_sends_op_code_and_address_and_expects_one_byte() {
    let chip = ChipInterface::new(ADDRESS);
    let read = chip.register_read(RegisterAddress::GeneralConfig);
    assert_eq!(
        read,
        Transaction::RegisterRead { address: ADDRESS, register: RegisterAddress::GeneralConfig }
    );
    assert_eq!(read.address(), ADDRESS);
    assert_eq!(read.outgoing(), vec![0x10, 0x01]);
    assert_eq!(read.incoming(), 1);
}

#[test]
fn register_write_sends_op_code_address_and_value_and_expects_nothing() {
    let chip = ChipInterface::new(ADDRESS);
    let written = chip.register_write(RegisterAddress::ChannelSelect, 0xA7);
    assert_eq!(written, write(RegisterAddress::ChannelSelect, 0xA7));
    assert_eq!(written.address(), ADDRESS);
    assert_eq!(written.outgoing(), vec![0x08, 0x11, 0xA7]);
    assert_eq!(written.incoming(), 0);
}

#[test]
fn stream_reads_send_nothing_and_expect_three_bytes_for_each_frame() {
    let chip = ChipInterface::new(ADDRESS);
    let sweep = chip.data_read();
    assert_eq!(sweep, Transaction::StreamRead { address: ADDRESS, frames: 8 });
    assert_eq!(sweep.outgoing(), Vec::<u8>::new());
    assert_eq!(sweep.incoming(), 24);
    let single = chip.data_channel_read();
    assert_eq!(single, Transaction::StreamRead { address: ADDRESS, frames: 1 });
    assert_eq!(single.outgoing(), Vec::<u8>::new());
    assert_eq!(single.incoming(), 3);
    let most = Transaction::StreamRead { address: ADDRESS, frames: 255 };
    assert_eq!(most.incoming(), 765);
    assert_eq!(most.address(), ADDRESS);
}

#[test]
fn all_pins_become_analog_inputs_in_register_order() {
    let chip = ChipInterface::new(ADDRESS);
    assert_eq!(
        chip.configure_all_pins_as_analog_inputs(),
        vec![
            write(RegisterAddress::PinConfig, 0),
            write(RegisterAddress::GpioConfig, 0),
            write(RegisterAddress::GpioDriveConfig, 0),
        ]
    );
}

#[test]
fn auto_sequence_mode_writes() {
    let chip = ChipInterface::new(ADDRESS);
    assert_eq!(
        chip.configure_auto_sequence_mode(),
        vec![
            write(RegisterAddress::DataConfig, 0x10),
            write(RegisterAddress::SequenceConfig, 0x01),
            write(RegisterAddress::AutoSequenceChannelSelect, 0xFF),
        ]
    );
}

#[test]
fn manual_mode_writes() {
    let chip = ChipInterface::new(ADDRESS);
    assert_eq!(
        chip.configure_manual_mode(),
        vec![write(RegisterAddress::DataConfig, 0x10), write(RegisterAddress::SequenceConfig, 0x00)]
    );
}

#[test]
fn single_register_configuration_writes() {
    let chip = ChipInterface::new(ADDRESS);
    assert_eq!(
        chip.configure_oversampling(Oversampling::Ratio16),
        write(RegisterAddress::OsrConfig, 0x04)
    );
    assert_eq!(
        chip.configure_sampling_rate(SamplingRate::LowSpeedOscillator_1_95x_Sps),
        write(RegisterAddress::OpModeConfig, 0x18)
    );
    assert_eq!(chip.set_channel(Channel::Channel6), write(RegisterAddress::ChannelSelect, 0x06));
    assert_eq!(
        chip.write_data_config(DataConfig::FixedDataAddChannelID),
        write(RegisterAddress::DataConfig, 0x90)
    );
    assert_eq!(
        chip.write_sequence_config(SequenceConfig::StartedAuto),
        write(RegisterAddress::SequenceConfig, 0x11)
    );
}

#[test]
fn general_config_is_written_to_its_own_register_with_every_bit() {
    let chip = ChipInterface::new(ADDRESS);
    let flags = GeneralConfigFlags::from_bits_retain(0b1000_0010);
    let written = chip.write_general_config(flags);
    assert_eq!(written, write(RegisterAddress::GeneralConfig, 0b1000_0010));
    assert_eq!(written.outgoing(), vec![0x08, 0x01, 0x82]);
}

#[test]
fn status_and_general_config_reads() {
    let chip = ChipInterface::new(ADDRESS);
    assert_eq!(chip.read_system_status().outgoing(), vec![0x10, 0x00]);
    assert_eq!(chip.read_general_config().outgoing(), vec![0x10, 0x01]);
}

#[test]
fn register_reply_is_exactly_one_byte() {
    assert_eq!(register_reply::<()>(&[0x5A]), Ok(0x5A));
    assert_eq!(register_reply::<()>(&[]), Err(Error::UnexpectedReply));
    assert_eq!(register_reply::<()>(&[1, 2]), Err(Error::UnexpectedReply));
}

#[test]
fn write_reply_is_empty() {
    assert_eq!(write_reply::<()>(&[]), Ok(()));
    assert_eq!(write_reply::<()>(&[0]), Err(Error::UnexpectedReply));
}

#[test]
fn sweep_reply_gives_samples_in_frame_order() {
    let mut bytes = Vec::new();
    for frame in 0..8u8 {
        bytes.push(frame);
        bytes.push(0x10 + frame);
        bytes.push(frame << 4);
    }
    assert_eq!(
        data_reply::<()>(&bytes),
        Ok([0x0010, 0x0111, 0x0212, 0x0313, 0x0414, 0x0515, 0x0616, 0x0717])
    );
}

#[test]
fn sweep_reply_does_not_look_at_tags() {
    let mut bytes = Vec::new();
    for frame in 0..8u8 {
        bytes.push(0xAB);
        bytes.push(frame);
        bytes.push(0xF0);
    }
    assert_eq!(
        data_reply::<()>(&bytes),
        Ok([0xAB00, 0xAB01, 0xAB02, 0xAB03, 0xAB04, 0xAB05, 0xAB06, 0xAB07])
    );
}

#[test]
fn sweep_reply_of_another_length_is_refused() {
    assert_eq!(data_reply::<()>(&[0; 23]), Err(Error::UnexpectedReply));
    assert_eq!(data_reply::<()>(&[0; 25]), Err(Error::UnexpectedReply));
    assert_eq!(data_reply::<()>(&[]), Err(Error::UnexpectedReply));
}

#[test]
fn frame_of_the_desired_channel_ends_the_read() {
    assert_eq!(
        data_channel_reply::<()>(Channel::Channel2, 4, &[0x01, 0x23, 0x2F]),
        Ok(Some((0x0123, 4)))
    );
    assert_eq!(
        data_channel_reply::<()>(Channel::Channel2, 32, &[0x0F, 0xFF, 0x20]),
        Ok(Some((0x0FFF, 32)))
    );
}

#[test]
fn frame_of_another_channel_asks_for_one_more_while_budget_lasts() {
    assert_eq!(data_channel_reply::<()>(Channel::Channel2, 1, &[0x01, 0x23, 0x50]), Ok(None));
    assert_eq!(data_channel_reply::<()>(Channel::Channel2, 31, &[0x01, 0x23, 0x50]), Ok(None));
    assert_eq!(
        data_channel_reply::<()>(Channel::Channel2, 32, &[0x01, 0x23, 0x50]),
        Err(Error::IncorrectChannelAddress)
    );
}

#[test]
fn frame_with_unmappable_tag_is_fatal_at_any_attempt() {
    assert_eq!(
        data_channel_reply::<()>(Channel::Channel2, 1, &[0x01, 0x23, 0x90]),
        Err(Error::InvalidChannelAddress)
    );
    assert_eq!(
        data_channel_reply::<()>(Channel::Channel2, 32, &[0x01, 0x23, 0xFF]),
        Err(Error::InvalidChannelAddress)
    );
}

#[test]
fn frame_of_another_length_is_refused() {
    assert_eq!(
        data_channel_reply::<()>(Channel::Channel2, 1, &[0x01, 0x23]),
        Err(Error::UnexpectedReply)
    );
    assert_eq!(
        data_channel_reply::<()>(Channel::Channel2, 1, &[0x01, 0x23, 0x20, 0x00]),
        Err(Error::UnexpectedReply)
    );
}
