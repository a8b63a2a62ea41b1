use tla2528::channel::Channel;
use tla2528::chip_definitions::{Oversampling, RegisterAddress, SamplingRate};
use tla2528::chip_interface::Transaction;
use tla2528::error::Error;
use tla2528::{Outcome, Step, Tla2528};

const ADDRESS: u8 = 0x10;

type Reply = Result<Vec<u8>, u8>;

/// Plays the bus: answers the transactions of one operation with the scripted
/// replies, in order, and records every transaction the driver names.
fn play(
    driver: &mut Tla2528,
    first: Transaction,
    replies: Vec<Reply>,
) -> (Vec<Transaction>, Option<Result<Outcome, Error<u8>>>) {
    let mut log = vec![first];
    for reply in replies {
        match driver.resume(reply) {
            Step::Transfer(next) => log.push(next),
            Step::Finished(result) => return (log, Some(result)),
        }
    }
    (log, None)
}

fn write(register: RegisterAddress, value: u8) -> Transaction {
    Transaction::RegisterWrite { address: ADDRESS, register, value }
}

fn read(register: RegisterAddress) -> Transaction {
    Transaction::RegisterRead { address: ADDRESS, register }
}

fn frame_read() -> Transaction {
    Transaction::StreamRead { address: ADDRESS, frames: 1 }
}

fn ack() -> Reply {
    Ok(Vec::new())
}

fn frame(sample: u16, tag: u8) -> Reply {
    let bytes = sample.to_be_bytes();
    Ok(vec![bytes[0], bytes[1], tag])
}

fn reads_of_general_config(log: &[Transaction]) -> usize {
    log.iter().filter(|t| **t == read(RegisterAddress::GeneralConfig)).count()
}

#[test]
fn channel_read_returns_the_fourth_frame_after_three_of_another_channel() {
    let mut driver = Tla2528::new(ADDRESS);
    let first = driver.acquire_channel_data(Channel::Channel2);
    let replies = vec![
        ack(),
        frame(0x0111, 0x50),
        frame(0x0222, 0x50),
        frame(0x0333, 0x50),
        frame(0x0444, 0x20),
        frame(0x0555, 0x20),
    ];
    let (log, result) = play(&mut driver, first, replies);
    assert_eq!(result, Some(Ok(Outcome::Sample { value: 0x0444, attempts: 4 })));
    assert_eq!(
        log,
        vec![
            write(RegisterAddress::ChannelSelect, 0x02),
            frame_read(),
            frame_read(),
            frame_read(),
            frame_read(),
        ]
    );
}

#[test]
fn channel_read_matches_on_the_first_frame() {
    let mut driver = Tla2528::new(ADDRESS);
    let first = driver.acquire_channel_data(Channel::Channel7);
    let (log, result) = play(&mut driver, first, vec![ack(), frame(0x0ABC, 0x7F)]);
    assert_eq!(result, Some(Ok(Outcome::Sample { value: 0x0ABC, attempts: 1 })));
    assert_eq!(log, vec![write(RegisterAddress::ChannelSelect, 0x07), frame_read()]);
}

#[test]
fn channel_read_matches_on_the_last_frame_of_the_budget() {
    let mut driver = Tla2528::new(ADDRESS);
    let first = driver.acquire_channel_data(Channel::Channel1);
    let mut replies = vec![ack()];
    for _ in 0..31 {
        replies.push(frame(0x0001, 0x00));
    }
    replies.push(frame(0x0FED, 0x10));
    let (log, result) = play(&mut driver, first, replies);
    assert_eq!(result, Some(Ok(Outcome::Sample { value: 0x0FED, attempts: 32 })));
    assert_eq!(log.len(), 33);
}

#[test]
fn channel_read_gives_up_after_exactly_32_reads() {
    let mut driver = Tla2528::new(ADDRESS);
    let first = driver.acquire_channel_data(Channel::Channel2);
    let mut replies = vec![ack()];
    for _ in 0..40 {
        replies.push(frame(0x0123, 0x50));
    }
    let (log, result) = play(&mut driver, first, replies);
    assert_eq!(result, Some(Err(Error::IncorrectChannelAddress)));
    assert_eq!(log[0], write(RegisterAddress::ChannelSelect, 0x02));
    assert_eq!(log[1..], vec![frame_read(); 32]);
}

#[test]
fn channel_read_is_not_over_before_the_32nd_frame() {
    let mut driver = Tla2528::new(ADDRESS);
    let first = driver.acquire_channel_data(Channel::Channel2);
    let mut replies = vec![ack()];
    for _ in 0..31 {
        replies.push(frame(0x0123, 0x50));
    }
    let (log, result) = play(&mut driver, first, replies);
    assert_eq!(result, None);
    assert_eq!(log.len(), 33);
}

#[test]
fn channel_read_fails_at_once_on_an_unmappable_tag() {
    let mut driver = Tla2528::new(ADDRESS);
    let first = driver.acquire_channel_data(Channel::Channel2);
    let replies = vec![ack(), frame(0x0123, 0x90), frame(0x0456, 0x20)];
    let (log, result) = play(&mut driver, first, replies);
    assert_eq!(result, Some(Err(Error::InvalidChannelAddress)));
    assert_eq!(log, vec![write(RegisterAddress::ChannelSelect, 0x02), frame_read()]);
}

#[test]
fn channel_read_fails_on_an_unmappable_tag_after_frames_of_other_channels() {
    let mut driver = Tla2528::new(ADDRESS);
    let first = driver.acquire_channel_data(Channel::Channel2);
    let replies = vec![ack(), frame(1, 0x30), frame(2, 0x40), frame(3, 0xF2), frame(4, 0x20)];
    let (log, result) = play(&mut driver, first, replies);
    assert_eq!(result, Some(Err(Error::InvalidChannelAddress)));
    assert_eq!(log.len(), 4);
}

#[test]
fn channel_read_passes_on_a_bus_error() {
    let mut driver = Tla2528::new(ADDRESS);
    let first = driver.acquire_channel_data(Channel::Channel2);
    let (log, result) = play(&mut driver, first, vec![ack(), frame(1, 0x30), Err(9)]);
    assert_eq!(result, Some(Err(Error::I2cError(9))));
    assert_eq!(log.len(), 3);

    let first = driver.acquire_channel_data(Channel::Channel2);
    let (log, result) = play(&mut driver, first, vec![Err(3), frame(1, 0x20)]);
    assert_eq!(result, Some(Err(Error::I2cError(3))));
    assert_eq!(log, vec![write(RegisterAddress::ChannelSelect, 0x02)]);
}

#[test]
fn channel_read_refuses_a_frame_of_the_wrong_length() {
    let mut driver = Tla2528::new(ADDRESS);
    let first = driver.acquire_channel_data(Channel::Channel2);
    let (_, result) = play(&mut driver, first, vec![ack(), Ok(vec![0x01, 0x23])]);
    assert_eq!(result, Some(Err(Error::UnexpectedReply)));
}

#[test]
fn auto_sequence_preparation_writes_in_the_fixed_order() {
    let mut driver = Tla2528::new(ADDRESS);
    let first = driver.prepare_for_auto_sequence_mode();
    let (log, result) = play(&mut driver, first, vec![ack(); 6]);
    assert_eq!(result, Some(Ok(Outcome::Done)));
    assert_eq!(
        log,
        vec![
            write(RegisterAddress::PinConfig, 0x00),
            write(RegisterAddress::GpioConfig, 0x00),
            write(RegisterAddress::GpioDriveConfig, 0x00),
            write(RegisterAddress::DataConfig, 0x10),
            write(RegisterAddress::SequenceConfig, 0x01),
            write(RegisterAddress::AutoSequenceChannelSelect, 0xFF),
        ]
    );
    let wire: Vec<Vec<u8>> = log.iter().map(|t| t.outgoing()).collect();
    assert_eq!(
        wire,
        vec![
            vec![0x08, 0x05, 0x00],
            vec![0x08, 0x07, 0x00],
            vec![0x08, 0x09, 0x00],
            vec![0x08, 0x02, 0x10],
            vec![0x08, 0x10, 0x01],
            vec![0x08, 0x12, 0xFF],
        ]
    );
}

#[test]
fn auto_sequence_preparation_is_not_over_before_the_last_acknowledgement() {
    let mut driver = Tla2528::new(ADDRESS);
    let first = driver.prepare_for_auto_sequence_mode();
    let (log, result) = play(&mut driver, first, vec![ack(); 5]);
    assert_eq!(result, None);
    assert_eq!(log.len(), 6);
}

#[test]
fn manual_preparation_writes_in_the_fixed_order() {
    let mut driver = Tla2528::new(ADDRESS);
    let first = driver.prepare_for_manual_mode();
    let (log, result) = play(&mut driver, first, vec![ack(); 5]);
    assert_eq!(result, Some(Ok(Outcome::Done)));
    assert_eq!(
        log,
        vec![
            write(RegisterAddress::PinConfig, 0x00),
            write(RegisterAddress::GpioConfig, 0x00),
            write(RegisterAddress::GpioDriveConfig, 0x00),
            write(RegisterAddress::DataConfig, 0x10),
            write(RegisterAddress::SequenceConfig, 0x00),
        ]
    );
}

#[test]
fn preparation_stops_at_the_first_failed_write() {
    let mut driver = Tla2528::new(ADDRESS);
    let first = driver.prepare_for_auto_sequence_mode();
    let (log, result) = play(&mut driver, first, vec![ack(), ack(), ack(), Err(0x55), ack()]);
    assert_eq!(result, Some(Err(Error::I2cError(0x55))));
    assert_eq!(
        log,
        vec![
            write(RegisterAddress::PinConfig, 0x00),
            write(RegisterAddress::GpioConfig, 0x00),
            write(RegisterAddress::GpioDriveConfig, 0x00),
            write(RegisterAddress::DataConfig, 0x10),
        ]
    );
}

#[test]
fn preparation_refuses_bytes_in_answer_to_a_write() {
    let mut driver = Tla2528::new(ADDRESS);
    let first = driver.prepare_for_manual_mode();
    let (log, result) = play(&mut driver, first, vec![ack(), Ok(vec![0])]);
    assert_eq!(result, Some(Err(Error::UnexpectedReply)));
    assert_eq!(log.len(), 2);
}

#[test]
fn calibration_writes_once_and_polls_until_the_bit_reads_clear() {
    let mut driver = Tla2528::new(ADDRESS);
    let first = driver.calibrate();
    assert_eq!(first, write(RegisterAddress::GeneralConfig, 0b0000_0010));
    assert_eq!(first.outgoing(), vec![0x08, 0x01, 0x02]);
    // The bit reads set three times, then clear.
    let replies =
        vec![ack(), Ok(vec![0x02]), Ok(vec![0x02]), Ok(vec![0x02]), Ok(vec![0x00]), Ok(vec![0x02])];
    let (log, result) = play(&mut driver, first, replies);
    assert_eq!(result, Some(Ok(Outcome::Done)));
    let writes = log.iter().filter(|t| matches!(t, Transaction::RegisterWrite { .. })).count();
    assert_eq!(writes, 1);
    // Three reads saw the bit set; the fourth saw it clear and was the last.
    assert_eq!(reads_of_general_config(&log), 4);
    assert_eq!(log.len(), 5);
    assert_eq!(log[1..], vec![read(RegisterAddress::GeneralConfig); 4]);
}

#[test]
fn calibration_makes_exactly_three_reads_when_the_third_reads_clear() {
    let mut driver = Tla2528::new(ADDRESS);
    let first = driver.calibrate();
    let replies = vec![ack(), Ok(vec![0x02]), Ok(vec![0x02]), Ok(vec![0x00]), Ok(vec![0x00])];
    let (log, result) = play(&mut driver, first, replies);
    assert_eq!(result, Some(Ok(Outcome::Done)));
    assert_eq!(
        log,
        vec![
            write(RegisterAddress::GeneralConfig, 0x02),
            read(RegisterAddress::GeneralConfig),
            read(RegisterAddress::GeneralConfig),
            read(RegisterAddress::GeneralConfig),
        ]
    );
}

#[test]
fn calibration_goes_on_while_the_bit_reads_set() {
    let mut driver = Tla2528::new(ADDRESS);
    let first = driver.calibrate();
    let (log, result) = play(&mut driver, first, vec![ack(), Ok(vec![0x02]), Ok(vec![0x02]), Ok(vec![0x02])]);
    assert_eq!(result, None);
    // One more read is outstanding after the three that saw the bit set.
    assert_eq!(reads_of_general_config(&log), 4);
}

#[test]
fn calibration_ends_on_the_first_read_when_the_bit_is_already_clear() {
    let mut driver = Tla2528::new(ADDRESS);
    let first = driver.calibrate();
    let (log, result) = play(&mut driver, first, vec![ack(), Ok(vec![0x00])]);
    assert_eq!(result, Some(Ok(Outcome::Done)));
    assert_eq!(reads_of_general_config(&log), 1);
}

#[test]
fn calibration_looks_at_the_calibrate_bit_only() {
    let mut driver = Tla2528::new(ADDRESS);
    let first = driver.calibrate();
    // Every bit but the calibrate bit is set: calibration is over.
    let (log, result) = play(&mut driver, first, vec![ack(), Ok(vec![0xFD])]);
    assert_eq!(result, Some(Ok(Outcome::Done)));
    assert_eq!(log.len(), 2);

    let first = driver.calibrate();
    // The calibrate bit among others: calibration still runs.
    let (log, result) = play(&mut driver, first, vec![ack(), Ok(vec![0x83]), Ok(vec![0x81])]);
    assert_eq!(result, Some(Ok(Outcome::Done)));
    assert_eq!(log.len(), 3);
}

#[test]
fn calibration_passes_on_a_bus_error_while_polling() {
    let mut driver = Tla2528::new(ADDRESS);
    let first = driver.calibrate();
    let (log, result) = play(&mut driver, first, vec![ack(), Ok(vec![0x02]), Err(7)]);
    assert_eq!(result, Some(Err(Error::I2cError(7))));
    assert_eq!(log.len(), 3);
}

#[test]
fn status_read_keeps_unmodeled_bits() {
    let mut driver = Tla2528::new(ADDRESS);
    let first = driver.get_system_status();
    assert_eq!(first, read(RegisterAddress::SystemStatus));
    assert_eq!(first.outgoing(), vec![0x10, 0x00]);
    let (log, result) = play(&mut driver, first, vec![Ok(vec![0b1101_0010])]);
    assert_eq!(log.len(), 1);
    match result {
        Some(Ok(Outcome::Status(flags))) => {
            assert_eq!(flags.bits(), 0b1101_0010);
            assert!(flags.sequencer_in_progress());
            assert!(!flags.crc_error());
        }
        other => panic!("unexpected result: {:?}", other),
    }
}

#[test]
fn status_read_refuses_a_reply_that_is_not_one_byte() {
    let mut driver = Tla2528::new(ADDRESS);
    let first = driver.get_system_status();
    let (_, result) = play(&mut driver, first, vec![Ok(vec![])]);
    assert_eq!(result, Some(Err(Error::UnexpectedReply)));
    let first = driver.get_system_status();
    let (_, result) = play(&mut driver, first, vec![Ok(vec![1, 2])]);
    assert_eq!(result, Some(Err(Error::UnexpectedReply)));
}

#[test]
fn oversampling_ratio_is_one_write() {
    let mut driver = Tla2528::new(ADDRESS);
    let first = driver.set_oversampling_ratio(Oversampling::Ratio128);
    let (log, result) = play(&mut driver, first, vec![ack()]);
    assert_eq!(result, Some(Ok(Outcome::Done)));
    assert_eq!(log, vec![write(RegisterAddress::OsrConfig, 0x07)]);
}

#[test]
fn sampling_rate_is_one_write() {
    let mut driver = Tla2528::new(ADDRESS);
    let first = driver.set_sampling_rate(SamplingRate::LowSpeedOscillator_0_16x_Sps);
    let (log, result) = play(&mut driver, first, vec![ack()]);
    assert_eq!(result, Some(Ok(Outcome::Done)));
    assert_eq!(log, vec![write(RegisterAddress::OpModeConfig, 0x1F)]);
}

#[test]
fn sweep_starts_reads_and_stops_the_sequence() {
    let mut driver = Tla2528::new(ADDRESS);
    let first = driver.acquire_data();
    let mut bytes = Vec::new();
    for channel in 0..8u8 {
        bytes.push(0x01 + channel);
        bytes.push(0x23);
        bytes.push(channel << 4);
    }
    let (log, result) = play(&mut driver, first, vec![ack(), Ok(bytes), ack()]);
    assert_eq!(
        result,
        Some(Ok(Outcome::Samples([
            0x0123, 0x0223, 0x0323, 0x0423, 0x0523, 0x0623, 0x0723, 0x0823
        ])))
    );
    assert_eq!(
        log,
        vec![
            write(RegisterAddress::SequenceConfig, 0x11),
            Transaction::StreamRead { address: ADDRESS, frames: 8 },
            write(RegisterAddress::SequenceConfig, 0x01),
        ]
    );
}

#[test]
fn sweep_trusts_frame_order_over_tags() {
    let mut driver = Tla2528::new(ADDRESS);
    let first = driver.acquire_data();
    let mut bytes = Vec::new();
    for channel in 0..8u8 {
        bytes.push(0x00);
        bytes.push(channel);
        bytes.push((7 - channel) << 4);
    }
    let (_, result) = play(&mut driver, first, vec![ack(), Ok(bytes), ack()]);
    assert_eq!(result, Some(Ok(Outcome::Samples([0, 1, 2, 3, 4, 5, 6, 7]))));
}

#[test]
fn sweep_fails_when_the_stop_write_fails() {
    let mut driver = Tla2528::new(ADDRESS);
    let first = driver.acquire_data();
    let (log, result) = play(&mut driver, first, vec![ack(), Ok(vec![0; 24]), Err(1)]);
    assert_eq!(result, Some(Err(Error::I2cError(1))));
    assert_eq!(log.len(), 3);
}

#[test]
fn sweep_refuses_a_short_read() {
    let mut driver = Tla2528::new(ADDRESS);
    let first = driver.acquire_data();
    let (log, result) = play(&mut driver, first, vec![ack(), Ok(vec![0; 21]), ack()]);
    assert_eq!(result, Some(Err(Error::UnexpectedReply)));
    assert_eq!(log.len(), 2);
}

#[test]
fn reply_without_an_operation_is_refused() {
    let mut driver = Tla2528::new(ADDRESS);
    assert_eq!(driver.resume::<u8>(ack()), Step::Finished(Err(Error::UnexpectedReply)));
    assert_eq!(driver.resume::<u8>(Ok(vec![1])), Step::Finished(Err(Error::UnexpectedReply)));
}

#[test]
fn driver_is_idle_again_after_an_operation_ends() {
    let mut driver = Tla2528::new(ADDRESS);
    let first = driver.set_oversampling_ratio(Oversampling::Ratio2);
    let (_, result) = play(&mut driver, first, vec![ack()]);
    assert_eq!(result, Some(Ok(Outcome::Done)));
    assert_eq!(driver.resume::<u8>(ack()), Step::Finished(Err(Error::UnexpectedReply)));

    let first = driver.get_system_status();
    let (_, result) = play(&mut driver, first, vec![Err(4)]);
    assert_eq!(result, Some(Err(Error::I2cError(4))));
    assert_eq!(driver.resume::<u8>(Ok(vec![0])), Step::Finished(Err(Error::UnexpectedReply)));
}

#[test]
fn bus_error_is_passed_on_even_without_an_operation() {
    let mut driver = Tla2528::new(ADDRESS);
    assert_eq!(driver.resume::<u8>(Err(2)), Step::Finished(Err(Error::I2cError(2))));
}

#[test]
fn starting_an_operation_abandons_the_one_under_way() {
    let mut driver = Tla2528::new(ADDRESS);
    let _ = driver.prepare_for_auto_sequence_mode();
    let first = driver.get_system_status();
    let (log, result) = play(&mut driver, first, vec![Ok(vec![0x01])]);
    assert_eq!(log, vec![read(RegisterAddress::SystemStatus)]);
    match result {
        Some(Ok(Outcome::Status(flags))) => assert!(flags.brownout_reset()),
        other => panic!("unexpected result: {:?}", other),
    }
}

#[test]
fn transactions_carry_the_device_address() {
    let mut driver = Tla2528::new(0x17);
    assert_eq!(driver.get_system_status().address(), 0x17);
    assert_eq!(driver.calibrate().address(), 0x17);
    assert_eq!(driver.acquire_data().address(), 0x17);
    let first = driver.acquire_channel_data(Channel::Channel0);
    assert_eq!(first.address(), 0x17);
    match driver.resume::<u8>(ack()) {
        Step::Transfer(next) => assert_eq!(next.address(), 0x17),
        other => panic!("unexpected step: {:?}", other),
    }
}
