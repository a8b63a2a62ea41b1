//! The driver as a transition system.
//!
//! An operation of the driver is a dialogue with the bus: the driver names a
//! transaction, the bus owner performs it and hands back what came of it, and
//! the driver either names the next transaction or ends the operation with a
//! result. [`advance`] is one such exchange; [`run`] is a whole dialogue.

use vstd::prelude::*;
use crate::channel::Channel;
use crate::chip_definitions::{
    DataConfig, GeneralConfigFlags, RegisterAddress, SequenceConfig, SystemStatusFlags,
};
use crate::chip_interface::{
    channel_read_step, sweep_samples, ChipInterface, Transaction, SWEEP_FRAMES,
};
use crate::error::Error;

verus! {

/// What the driver is waiting for.
pub enum Phase {
    /// Nothing: no operation is under way.
    Idle,
    /// The acknowledgement of a configuration write; `remaining` are the
    /// writes still to be made after it, in order.
    Configuring { remaining: Seq<Transaction> },
    /// The byte of the System Status register.
    ReadingStatus,
    /// The acknowledgement of the write that requests calibration.
    StartingCalibration,
    /// The byte of the General Config register, to see whether calibration
    /// still runs.
    PollingCalibration,
    /// The acknowledgement of the write that starts the channel sequence.
    StartingSequence,
    /// The 24 bytes of a sweep.
    ReadingSequence,
    /// The acknowledgement of the write that stops the channel sequence, with
    /// the sweep's samples in hand.
    StoppingSequence { samples: Seq<u16> },
    /// The acknowledgement of the write that selects a channel.
    SelectingChannel { channel: Channel },
    /// The frame of the `attempt`-th read for the channel.
    ReadingChannel { channel: Channel, attempt: usize },
}

/// What a finished operation has to show.
pub enum OutcomeView {
    /// The device was configured or calibrated.
    Done,
    /// The System Status register, every bit of it.
    Status(SystemStatusFlags),
    /// One sample for each channel, channel 0 first.
    Samples(Seq<u16>),
    /// The sample of the requested channel and the number of frames read to find it.
    Sample { value: u16, attempts: usize },
}

/// The driver's answer to a reply.
pub enum StepView<E> {
    /// The operation goes on with this transaction.
    Transfer(Transaction),
    /// The operation has ended.
    Finished(Result<OutcomeView, Error<E>>),
}

/// The driver as contracts see it: the device it speaks to and what it waits for.
pub struct Driver {
    pub chip: ChipInterface,
    pub phase: Phase,
}

/// A reply as the driver takes it: the bytes read, or the bus's own error.
pub type Reply<E> = Result<Seq<u8>, E>;

/// Whether the General Config byte says that offset calibration still runs.
pub open spec fn calibrating(general_config: u8) -> bool {
    GeneralConfigFlags::from_bits_retain(general_config).contains(
        GeneralConfigFlags::from_bits_retain(GeneralConfigFlags::CALIBRATE_ADC_OFFSET),
    )
}

/// The writes that prepare the device for auto-sequence acquisition, in the
/// order they are made: all pins to analog inputs (Pin Config, GPIO Config,
/// GPIO Drive Config), tagged frames, the stopped sequence, all eight channels
/// in the sequence.
pub open spec fn auto_sequence_plan(chip: ChipInterface) -> Seq<Transaction> {
    seq![
        chip.register_write(RegisterAddress::PinConfig, 0),
        chip.register_write(RegisterAddress::GpioConfig, 0),
        chip.register_write(RegisterAddress::GpioDriveConfig, 0),
        chip.write_data_config(DataConfig::NormalDataAddChannelID),
        chip.write_sequence_config(SequenceConfig::StoppedAuto),
        chip.register_write(RegisterAddress::AutoSequenceChannelSelect, 0xFF),
    ]
}

/// The writes that prepare the device for manual acquisition, in the order
/// they are made: all pins to analog inputs, tagged frames, manual sequencing.
pub open spec fn manual_plan(chip: ChipInterface) -> Seq<Transaction> {
    seq![
        chip.register_write(RegisterAddress::PinConfig, 0),
        chip.register_write(RegisterAddress::GpioConfig, 0),
        chip.register_write(RegisterAddress::GpioDriveConfig, 0),
        chip.write_data_config(DataConfig::NormalDataAddChannelID),
        chip.write_sequence_config(SequenceConfig::Manual),
    ]
}

/// The write that requests offset calibration: General Config with the
/// calibrate bit set and no other.
pub open spec fn calibration_request(chip: ChipInterface) -> Transaction {
    chip.register_write(RegisterAddress::GeneralConfig, GeneralConfigFlags::CALIBRATE_ADC_OFFSET)
}

/// The operation ends in failure, and the driver is idle again.
pub open spec fn fail<E>(error: Error<E>) -> (Phase, StepView<E>) {
    (Phase::Idle, StepView::Finished(Err(error)))
}

/// The operation ends with a result, and the driver is idle again.
pub open spec fn finish<E>(outcome: OutcomeView) -> (Phase, StepView<E>) {
    (Phase::Idle, StepView::Finished(Ok(outcome)))
}

/// One exchange: the phase the driver moves to and what it answers when the
/// outstanding transaction comes back with `reply`, which is the bytes read
/// (none for a write) or the bus's own error.
///
/// A bus error ends the operation and is passed on unchanged. So does a reply
/// whose length is not the one the outstanding transaction asked for, and any
/// reply while no operation is under way: both are `UnexpectedReply`.
pub open spec fn advance<E>(chip: ChipInterface, phase: Phase, reply: Reply<E>) -> (
    Phase,
    StepView<E>,
) {
    match reply {
        Err(error) => fail(Error::I2cError(error)),
        Ok(bytes) => match phase {
            Phase::Idle => fail(Error::UnexpectedReply),
            Phase::Configuring { remaining } => if bytes.len() != 0 {
                fail(Error::UnexpectedReply)
            } else if remaining.len() == 0 {
                finish(OutcomeView::Done)
            } else {
                (
                    Phase::Configuring { remaining: remaining.remove(0) },
                    StepView::Transfer(remaining[0]),
                )
            },
            Phase::ReadingStatus => if bytes.len() != 1 {
                fail(Error::UnexpectedReply)
            } else {
                finish(OutcomeView::Status(SystemStatusFlags::from_bits_retain(bytes[0])))
            },
            Phase::StartingCalibration => if bytes.len() != 0 {
                fail(Error::UnexpectedReply)
            } else {
                (
                    Phase::PollingCalibration,
                    StepView::Transfer(chip.register_read(RegisterAddress::GeneralConfig)),
                )
            },
            Phase::PollingCalibration => if bytes.len() != 1 {
                fail(Error::UnexpectedReply)
            } else if calibrating(bytes[0]) {
                (
                    Phase::PollingCalibration,
                    StepView::Transfer(chip.register_read(RegisterAddress::GeneralConfig)),
                )
            } else {
                finish(OutcomeView::Done)
            },
            Phase::StartingSequence => if bytes.len() != 0 {
                fail(Error::UnexpectedReply)
            } else {
                (Phase::ReadingSequence, StepView::Transfer(chip.spec_stream_read(SWEEP_FRAMES)))
            },
            Phase::ReadingSequence => if bytes.len() != 24 {
                fail(Error::UnexpectedReply)
            } else {
                (
                    Phase::StoppingSequence { samples: sweep_samples(bytes) },
                    StepView::Transfer(chip.write_sequence_config(SequenceConfig::StoppedAuto)),
                )
            },
            Phase::StoppingSequence { samples } => if bytes.len() != 0 {
                fail(Error::UnexpectedReply)
            } else {
                finish(OutcomeView::Samples(samples))
            },
            Phase::SelectingChannel { channel } => if bytes.len() != 0 {
                fail(Error::UnexpectedReply)
            } else {
                (
                    Phase::ReadingChannel { channel, attempt: 1 },
                    StepView::Transfer(chip.spec_stream_read(1)),
                )
            },
            Phase::ReadingChannel { channel, attempt } => match channel_read_step::<E>(
                channel,
                attempt as nat,
                bytes,
            ) {
                Err(error) => fail(error),
                Ok(Some((value, attempts))) => finish(OutcomeView::Sample { value, attempts }),
                Ok(None) => (
                    Phase::ReadingChannel { channel, attempt: (attempt + 1) as usize },
                    StepView::Transfer(chip.spec_stream_read(1)),
                ),
            },
        },
    }
}

/// What a dialogue came to.
pub struct Dialogue<E> {
    /// The transactions the driver named in answer to the replies, in order.
    /// The operation's first transaction, named before any reply, is not among
    /// them.
    pub issued: Seq<Transaction>,
    /// How the operation ended, or `None` if the replies ran out before it did.
    pub result: Option<Result<OutcomeView, Error<E>>>,
}

/// The dialogue that follows when the driver is in `phase` and the bus
/// answers its transactions with `replies`, one after the other. Replies
/// that are left when the operation ends are not looked at.
pub open spec fn run<E>(chip: ChipInterface, phase: Phase, replies: Seq<Reply<E>>) -> Dialogue<E>
    decreases replies.len(),
{
    if replies.len() == 0 {
        Dialogue { issued: Seq::empty(), result: None }
    } else {
        let (next, step) = advance(chip, phase, replies[0]);
        match step {
            StepView::Finished(result) => Dialogue { issued: Seq::empty(), result: Some(result) },
            StepView::Transfer(transaction) => {
                let rest = run(chip, next, replies.skip(1));
                Dialogue { issued: seq![transaction] + rest.issued, result: rest.result }
            },
        }
    }
}

/// The reply to a write that went through: no bytes, no error.
pub open spec fn acknowledged<E>(reply: Reply<E>) -> bool {
    reply matches Ok(bytes) && bytes.len() == 0
}

/// Configuration writes are made in order, one after each acknowledgement,
/// and when the last is acknowledged the operation ends well.
pub proof fn lemma_configuration_completes<E>(
    chip: ChipInterface,
    remaining: Seq<Transaction>,
    replies: Seq<Reply<E>>,
)
    requires
        replies.len() == remaining.len() + 1,
        forall|i: int| 0 <= i < replies.len() ==> acknowledged(#[trigger] replies[i]),
    ensures
        run(chip, Phase::Configuring { remaining }, replies) == (Dialogue::<E> {
            issued: remaining,
            result: Some(Ok(OutcomeView::Done)),
        }),
    decreases remaining.len(),
{
    assert(acknowledged(replies[0]));
    if remaining.len() > 0 {
        let rest = replies.skip(1);
        assert forall|i: int| 0 <= i < rest.len() implies acknowledged(#[trigger] rest[i]) by {
            assert(rest[i] == replies[i + 1]);
        }
        lemma_configuration_completes(chip, remaining.remove(0), rest);
        assert(seq![remaining[0]] + remaining.remove(0) =~= remaining);
    } else {
        assert(remaining =~= Seq::empty());
    }
}

/// The first configuration write that the bus fails ends the operation with
/// the bus's error: the writes before it were made, none after it is.
pub proof fn lemma_configuration_stops_at_failure<E>(
    chip: ChipInterface,
    remaining: Seq<Transaction>,
    replies: Seq<Reply<E>>,
    failed: int,
)
    requires
        0 <= failed <= remaining.len(),
        failed < replies.len(),
        forall|i: int| 0 <= i < failed ==> acknowledged(#[trigger] replies[i]),
        replies[failed] is Err,
    ensures
        run(chip, Phase::Configuring { remaining }, replies) == (Dialogue::<E> {
            issued: remaining.take(failed),
            result: Some(Err(Error::I2cError(replies[failed]->Err_0))),
        }),
    decreases failed,
{
    if failed > 0 {
        assert(acknowledged(replies[0]));
        let rest = replies.skip(1);
        assert forall|i: int| 0 <= i < failed - 1 implies acknowledged(#[trigger] rest[i]) by {
            assert(rest[i] == replies[i + 1]);
        }
        assert(rest[failed - 1] == replies[failed]);
        lemma_configuration_stops_at_failure(chip, remaining.remove(0), rest, failed - 1);
        assert(seq![remaining[0]] + remaining.remove(0).take(failed - 1) =~= remaining.take(
            failed,
        ));
    } else {
        assert(remaining.take(0) =~= Seq::empty());
    }
}

} // verus!
