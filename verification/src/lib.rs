//! Protocol driver for the TLA2528, an eight-channel analog-to-digital
//! converter on a two-wire register-addressed bus.
//!
//! The driver decides; it does not touch the bus. Each operation starts by
//! naming a [`Transaction`]. The owner of the bus performs it and hands the
//! reply to [`Tla2528::resume`], which names the next transaction or ends the
//! operation with its result. One operation is under way at a time; starting
//! another abandons it.

pub mod channel;
pub mod chip_definitions;
pub mod chip_interface;
pub mod error;
pub mod laws;
pub mod model;

use vstd::prelude::*;
use crate::channel::Channel;
use crate::chip_definitions::{
    GeneralConfigFlags, Oversampling, RegisterAddress, SamplingRate, SequenceConfig,
    SystemStatusFlags,
};
use crate::chip_interface::{
    data_channel_reply, data_reply, register_reply, write_reply, ChipInterface, Transaction,
};
use crate::error::Error;
use crate::model::{
    advance, auto_sequence_plan, calibration_request, manual_plan, Driver, OutcomeView, Phase,
    Reply, StepView,
};

verus! {

/// What a finished operation has to show.
#[derive(Debug, Clone, Copy, PartialEq, Eq)]
pub enum Outcome {
    /// The device was configured or calibrated.
    Done,
    /// The System Status register, every bit of it.
    Status(SystemStatusFlags),
    /// One sample for each channel, channel 0 first.
    Samples([u16; 8]),
    /// The sample of the requested channel and the number of frames read to find it.
    Sample { value: u16, attempts: usize },
}

impl View for Outcome {
    type V = OutcomeView;

    open spec fn view(&self) -> OutcomeView {
        match *self {
            Outcome::Done => OutcomeView::Done,
            Outcome::Status(flags) => OutcomeView::Status(flags),
            Outcome::Samples(samples) => OutcomeView::Samples(samples@),
            Outcome::Sample { value, attempts } => OutcomeView::Sample { value, attempts },
        }
    }
}

/// The driver's answer to a reply.
#[derive(Debug, PartialEq, Eq)]
pub enum Step<E> {
    /// The operation goes on: perform this transaction and resume with its reply.
    Transfer(Transaction),
    /// The operation has ended, with its result or the reason it failed.
    Finished(Result<Outcome, Error<E>>),
}

impl<E> View for Step<E> {
    type V = StepView<E>;

    open spec fn view(&self) -> StepView<E> {
        match *self {
            Step::Transfer(transaction) => StepView::Transfer(transaction),
            Step::Finished(Ok(outcome)) => StepView::Finished(Ok(outcome@)),
            Step::Finished(Err(error)) => StepView::Finished(Err(error)),
        }
    }
}

/// A reply as contracts see it: the bytes read, or the bus's own error.
pub open spec fn reply_view<E>(reply: Result<Vec<u8>, E>) -> Reply<E> {
    match reply {
        Ok(bytes) => Ok(bytes@),
        Err(error) => Err(error),
    }
}

enum Stage {
    Idle,
    Configuring { remaining: Vec<Transaction> },
    ReadingStatus,
    StartingCalibration,
    PollingCalibration,
    StartingSequence,
    ReadingSequence,
    StoppingSequence { samples: [u16; 8] },
    SelectingChannel { channel: Channel },
    ReadingChannel { channel: Channel, attempt: usize },
}

impl View for Stage {
    type V = Phase;

    closed spec fn view(&self) -> Phase {
        match *self {
            Stage::Idle => Phase::Idle,
            Stage::Configuring { remaining } => Phase::Configuring { remaining: remaining@ },
            Stage::ReadingStatus => Phase::ReadingStatus,
            Stage::StartingCalibration => Phase::StartingCalibration,
            Stage::PollingCalibration => Phase::PollingCalibration,
            Stage::StartingSequence => Phase::StartingSequence,
            Stage::ReadingSequence => Phase::ReadingSequence,
            Stage::StoppingSequence { samples } => Phase::StoppingSequence { samples: samples@ },
            Stage::SelectingChannel { channel } => Phase::SelectingChannel { channel },
            Stage::ReadingChannel { channel, attempt } => Phase::ReadingChannel { channel, attempt },
        }
    }
}

/// The driver of one converter.
pub struct Tla2528 {
    chip: ChipInterface,
    stage: Stage,
}

impl View for Tla2528 {
    type V = Driver;

    closed spec fn view(&self) -> Driver {
        Driver { chip: self.chip, phase: self.stage@ }
    }
}

impl Tla2528 {
    /// A driver for the converter at the given seven-bit bus address, with no
    /// operation under way.
    pub fn new(address: u8) -> (driver: Self)
        ensures
            driver@ == (Driver { chip: ChipInterface { address }, phase: Phase::Idle }),
    {
        Tla2528 { chip: ChipInterface::new(address), stage: Stage::Idle }
    }

    /// Starts a read of the System Status register. The operation ends with
    /// `Outcome::Status`.
    pub fn get_system_status(&mut self) -> (first: Transaction)
        ensures
            final(self)@ == (Driver { chip: old(self)@.chip, phase: Phase::ReadingStatus }),
            first == old(self)@.chip.register_read(RegisterAddress::SystemStatus),
    {
        self.stage = Stage::ReadingStatus;
        self.chip.read_system_status()
    }

    /// Starts offset calibration: the request is written once, then General
    /// Config is read again and again until the calibrate bit reads clear.
    /// There is no bound on the number of reads.
    pub fn calibrate(&mut self) -> (first: Transaction)
        ensures
            final(self)@ == (Driver { chip: old(self)@.chip, phase: Phase::StartingCalibration }),
            first == calibration_request(old(self)@.chip),
    {
        self.stage = Stage::StartingCalibration;
        self.chip.write_general_config(
            GeneralConfigFlags::from_bits_retain(GeneralConfigFlags::CALIBRATE_ADC_OFFSET),
        )
    }

    /// Starts the write of the oversampling ratio.
    pub fn set_oversampling_ratio(&mut self, ratio: Oversampling) -> (first: Transaction)
        ensures
            final(self)@ == (Driver {
                chip: old(self)@.chip,
                phase: Phase::Configuring { remaining: Seq::empty() },
            }),
            first == old(self)@.chip.register_write(RegisterAddress::OsrConfig, ratio.value()),
    {
        self.stage = Stage::Configuring { remaining: Vec::new() };
        self.chip.configure_oversampling(ratio)
    }

    /// Starts the write of the sampling rate.
    pub fn set_sampling_rate(&mut self, rate: SamplingRate) -> (first: Transaction)
        ensures
            final(self)@ == (Driver {
                chip: old(self)@.chip,
                phase: Phase::Configuring { remaining: Seq::empty() },
            }),
            first == old(self)@.chip.register_write(RegisterAddress::OpModeConfig, rate.value()),
    {
        self.stage = Stage::Configuring { remaining: Vec::new() };
        self.chip.configure_sampling_rate(rate)
    }

    /// Starts the writes that prepare the device for auto-sequence
    /// acquisition. A write that fails ends the operation; those made before
    /// it stay made.
    pub fn prepare_for_auto_sequence_mode(&mut self) -> (first: Transaction)
        ensures
            final(self)@ == (Driver {
                chip: old(self)@.chip,
                phase: Phase::Configuring {
                    remaining: auto_sequence_plan(old(self)@.chip).remove(0),
                },
            }),
            first == auto_sequence_plan(old(self)@.chip)[0],
    {
        let mut writes = self.chip.configure_all_pins_as_analog_inputs();
        let mut mode = self.chip.configure_auto_sequence_mode();
        writes.append(&mut mode);
        assert(writes@ =~= auto_sequence_plan(self.chip));
        let first = writes.remove(0);
        self.stage = Stage::Configuring { remaining: writes };
        first
    }

    /// Starts the writes that prepare the device for manual acquisition. A
    /// write that fails ends the operation; those made before it stay made.
    pub fn prepare_for_manual_mode(&mut self) -> (first: Transaction)
        ensures
            final(self)@ == (Driver {
                chip: old(self)@.chip,
                phase: Phase::Configuring { remaining: manual_plan(old(self)@.chip).remove(0) },
            }),
            first == manual_plan(old(self)@.chip)[0],
    {
        let mut writes = self.chip.configure_all_pins_as_analog_inputs();
        let mut mode = self.chip.configure_manual_mode();
        writes.append(&mut mode);
        assert(writes@ =~= manual_plan(self.chip));
        let first = writes.remove(0);
        self.stage = Stage::Configuring { remaining: writes };
        first
    }

    /// Starts one sweep over all channels: the sequence is started, 24 bytes
    /// are read, the sequence is stopped. The operation ends with
    /// `Outcome::Samples`, sample `i` taken from frame `i`.
    pub fn acquire_data(&mut self) -> (first: Transaction)
        ensures
            final(self)@ == (Driver { chip: old(self)@.chip, phase: Phase::StartingSequence }),
            first == old(self)@.chip.write_sequence_config(SequenceConfig::StartedAuto),
    {
        self.stage = Stage::StartingSequence;
        self.chip.write_sequence_config(SequenceConfig::StartedAuto)
    }

    /// Starts the acquisition of one channel: the channel is selected, then
    /// single frames are read until one carries the channel's tag. The
    /// operation ends with `Outcome::Sample`.
    pub fn acquire_channel_data(&mut self, channel: Channel) -> (first: Transaction)
        ensures
            final(self)@ == (Driver {
                chip: old(self)@.chip,
                phase: Phase::SelectingChannel { channel },
            }),
            first == old(self)@.chip.register_write(
                RegisterAddress::ChannelSelect,
                channel.value(),
            ),
    {
        self.stage = Stage::SelectingChannel { channel };
        self.chip.set_channel(channel)
    }

    /// Takes the reply to the outstanding transaction, the bytes read (none
    /// for a write) or the bus's own error, and says how the operation goes
    /// on.
    pub fn resume<E>(&mut self, reply: Result<Vec<u8>, E>) -> (step: Step<E>)
        ensures
            final(self)@.chip == old(self)@.chip,
            (final(self)@.phase, step@) == advance(
                old(self)@.chip,
                old(self)@.phase,
                reply_view(reply),
            ),
    {
        let mut stage = Stage::Idle;
        core::mem::swap(&mut self.stage, &mut stage);
        let bytes = match reply {
            Ok(bytes) => bytes,
            Err(error) => {
                return Step::Finished(Err(Error::I2cError(error)));
            },
        };
        match stage {
            Stage::Idle => Step::Finished(Err(Error::UnexpectedReply)),
            Stage::Configuring { mut remaining } => match write_reply::<E>(bytes.as_slice()) {
                Err(error) => Step::Finished(Err(error)),
                Ok(()) => if remaining.len() == 0 {
                    Step::Finished(Ok(Outcome::Done))
                } else {
                    let next = remaining.remove(0);
                    self.stage = Stage::Configuring { remaining };
                    Step::Transfer(next)
                },
            },
            Stage::ReadingStatus => match register_reply::<E>(bytes.as_slice()) {
                Err(error) => Step::Finished(Err(error)),
                Ok(bits) => Step::Finished(
                    Ok(Outcome::Status(SystemStatusFlags::from_bits_retain(bits))),
                ),
            },
            Stage::StartingCalibration => match write_reply::<E>(bytes.as_slice()) {
                Err(error) => Step::Finished(Err(error)),
                Ok(()) => {
                    self.stage = Stage::PollingCalibration;
                    Step::Transfer(self.chip.read_general_config())
                },
            },
            Stage::PollingCalibration => match register_reply::<E>(bytes.as_slice()) {
                Err(error) => Step::Finished(Err(error)),
                Ok(bits) => {
                    let config = GeneralConfigFlags::from_bits_retain(bits);
                    let request = GeneralConfigFlags::from_bits_retain(
                        GeneralConfigFlags::CALIBRATE_ADC_OFFSET,
                    );
                    if config.contains(request) {
                        self.stage = Stage::PollingCalibration;
                        Step::Transfer(self.chip.read_general_config())
                    } else {
                        Step::Finished(Ok(Outcome::Done))
                    }
                },
            },
            Stage::StartingSequence => match write_reply::<E>(bytes.as_slice()) {
                Err(error) => Step::Finished(Err(error)),
                Ok(()) => {
                    self.stage = Stage::ReadingSequence;
                    Step::Transfer(self.chip.data_read())
                },
            },
            Stage::ReadingSequence => match data_reply::<E>(bytes.as_slice()) {
                Err(error) => Step::Finished(Err(error)),
                Ok(samples) => {
                    self.stage = Stage::StoppingSequence { samples };
                    Step::Transfer(self.chip.write_sequence_config(SequenceConfig::StoppedAuto))
                },
            },
            Stage::StoppingSequence { samples } => match write_reply::<E>(bytes.as_slice()) {
                Err(error) => Step::Finished(Err(error)),
                Ok(()) => Step::Finished(Ok(Outcome::Samples(samples))),
            },
            Stage::SelectingChannel { channel } => match write_reply::<E>(bytes.as_slice()) {
                Err(error) => Step::Finished(Err(error)),
                Ok(()) => {
                    self.stage = Stage::ReadingChannel { channel, attempt: 1 };
                    Step::Transfer(self.chip.data_channel_read())
                },
            },
            Stage::ReadingChannel { channel, attempt } => match data_channel_reply::<E>(
                channel,
                attempt,
                bytes.as_slice(),
            ) {
                Err(error) => Step::Finished(Err(error)),
                Ok(Some((value, attempts))) => Step::Finished(
                    Ok(Outcome::Sample { value, attempts }),
                ),
                Ok(None) => {
                    self.stage = Stage::ReadingChannel { channel, attempt: attempt + 1 };
                    Step::Transfer(self.chip.data_channel_read())
                },
            },
        }
    }
}

} // verus!
