//! What holds of whole operations, whatever the device and the bus do.

use vstd::prelude::*;
use crate::channel::{tag_channel, Channel};
use crate::chip_definitions::{RegisterAddress, SequenceConfig};
use crate::chip_interface::{sample_value, sweep_samples, ChipInterface, Transaction};
use crate::error::Error;
use crate::model::{
    acknowledged, auto_sequence_plan, calibrating, lemma_configuration_completes, manual_plan,
    run, Dialogue, OutcomeView, Phase, Reply,
};

verus! {

/// A General Config byte came back and says that calibration still runs.
pub open spec fn still_calibrating<E>(reply: Reply<E>) -> bool {
    reply matches Ok(bytes) && bytes.len() == 1 && calibrating(bytes[0])
}

/// A General Config byte came back and says that calibration is over.
pub open spec fn calibration_over<E>(reply: Reply<E>) -> bool {
    reply matches Ok(bytes) && bytes.len() == 1 && !calibrating(bytes[0])
}

/// A whole frame came back, tagged with a channel other than `desired`.
pub open spec fn other_channel<E>(reply: Reply<E>, desired: Channel) -> bool {
    reply matches Ok(frame) && frame.len() == 3 && tag_channel(frame[2]) is Some && tag_channel(
        frame[2],
    ) != Some(desired)
}

/// A whole frame came back, tagged with `desired`.
pub open spec fn desired_channel<E>(reply: Reply<E>, desired: Channel) -> bool {
    reply matches Ok(frame) && frame.len() == 3 && tag_channel(frame[2]) == Some(desired)
}

/// A whole frame came back whose tag names no channel.
pub open spec fn no_channel<E>(reply: Reply<E>) -> bool {
    reply matches Ok(frame) && frame.len() == 3 && tag_channel(frame[2]) is None
}

/// `count` reads of General Config.
pub open spec fn polls(chip: ChipInterface, count: int) -> Seq<Transaction> {
    Seq::new(count as nat, |i: int| chip.register_read(RegisterAddress::GeneralConfig))
}

/// `count` reads of a single frame.
pub open spec fn frame_reads(chip: ChipInterface, count: int) -> Seq<Transaction> {
    Seq::new(count as nat, |i: int| chip.spec_stream_read(1))
}

/// Preparing for auto-sequence acquisition writes, in this order and nothing
/// else, zero to Pin Config, GPIO Config and GPIO Drive Config, the tagged
/// data format to Data Config, the stopped sequence to Sequence Config, and
/// all eight channels to the channel mask; then it ends well.
pub proof fn lemma_auto_sequence_preparation<E>(chip: ChipInterface, replies: Seq<Reply<E>>)
    requires
        replies.len() == 6,
        forall|i: int| 0 <= i < 6 ==> acknowledged(#[trigger] replies[i]),
    ensures
        ({
            let plan = auto_sequence_plan(chip);
            let dialogue = run(chip, Phase::Configuring { remaining: plan.remove(0) }, replies);
            let writes = seq![plan[0]] + dialogue.issued;
            &&& dialogue.result == Some(Ok::<OutcomeView, Error<E>>(OutcomeView::Done))
            &&& writes.len() == 6
            &&& forall|i: int| 0 <= i < 6 ==> (#[trigger] writes[i]).address() == chip.address
            &&& writes[0].spec_outgoing() == seq![0x08u8, 0x05, 0x00]
            &&& writes[1].spec_outgoing() == seq![0x08u8, 0x07, 0x00]
            &&& writes[2].spec_outgoing() == seq![0x08u8, 0x09, 0x00]
            &&& writes[3].spec_outgoing() == seq![0x08u8, 0x02, 0x10]
            &&& writes[4].spec_outgoing() == seq![0x08u8, 0x10, 0x01]
            &&& writes[5].spec_outgoing() == seq![0x08u8, 0x12, 0xFF]
        }),
{
    let plan = auto_sequence_plan(chip);
    lemma_configuration_completes(chip, plan.remove(0), replies);
    assert(seq![plan[0]] + plan.remove(0) =~= plan);
}

/// Preparing for manual acquisition writes, in this order and nothing else,
/// zero to Pin Config, GPIO Config and GPIO Drive Config, the tagged data
/// format to Data Config, and manual sequencing to Sequence Config; then it
/// ends well.
pub proof fn lemma_manual_preparation<E>(chip: ChipInterface, replies: Seq<Reply<E>>)
    requires
        replies.len() == 5,
        forall|i: int| 0 <= i < 5 ==> acknowledged(#[trigger] replies[i]),
    ensures
        ({
            let plan = manual_plan(chip);
            let dialogue = run(chip, Phase::Configuring { remaining: plan.remove(0) }, replies);
            let writes = seq![plan[0]] + dialogue.issued;
            &&& dialogue.result == Some(Ok::<OutcomeView, Error<E>>(OutcomeView::Done))
            &&& writes.len() == 5
            &&& forall|i: int| 0 <= i < 5 ==> (#[trigger] writes[i]).address() == chip.address
            &&& writes[0].spec_outgoing() == seq![0x08u8, 0x05, 0x00]
            &&& writes[1].spec_outgoing() == seq![0x08u8, 0x07, 0x00]
            &&& writes[2].spec_outgoing() == seq![0x08u8, 0x09, 0x00]
            &&& writes[3].spec_outgoing() == seq![0x08u8, 0x02, 0x10]
            &&& writes[4].spec_outgoing() == seq![0x08u8, 0x10, 0x00]
        }),
{
    let plan = manual_plan(chip);
    lemma_configuration_completes(chip, plan.remove(0), replies);
    assert(seq![plan[0]] + plan.remove(0) =~= plan);
}

/// While the driver polls, every reply that shows the calibrate bit set is
/// answered with one more read of General Config, and the first that shows it
/// clear ends the operation well.
pub proof fn lemma_polling_ends_when_clear<E>(
    chip: ChipInterface,
    replies: Seq<Reply<E>>,
    busy: int,
)
    requires
        0 <= busy < replies.len(),
        forall|i: int| 0 <= i < busy ==> still_calibrating(#[trigger] replies[i]),
        calibration_over(replies[busy]),
    ensures
        run(chip, Phase::PollingCalibration, replies) == (Dialogue::<E> {
            issued: polls(chip, busy),
            result: Some(Ok(OutcomeView::Done)),
        }),
    decreases busy,
{
    if busy > 0 {
        assert(still_calibrating(replies[0]));
        let rest = replies.skip(1);
        assert forall|i: int| 0 <= i < busy - 1 implies still_calibrating(#[trigger] rest[i]) by {
            assert(rest[i] == replies[i + 1]);
        }
        assert(rest[busy - 1] == replies[busy]);
        lemma_polling_ends_when_clear(chip, rest, busy - 1);
        assert(seq![chip.register_read(RegisterAddress::GeneralConfig)] + polls(chip, busy - 1)
            =~= polls(chip, busy));
    } else {
        assert(polls(chip, 0) =~= Seq::empty());
    }
}

/// Calibration writes its request once and then reads General Config until
/// the calibrate bit reads clear: after `busy` reads that show the bit set,
/// the read that shows it clear is the last, `busy + 1` reads in all.
pub proof fn lemma_calibration_polls_until_clear<E>(
    chip: ChipInterface,
    replies: Seq<Reply<E>>,
    busy: int,
)
    requires
        0 <= busy,
        busy + 1 < replies.len(),
        acknowledged(replies[0]),
        forall|i: int| 1 <= i <= busy ==> still_calibrating(#[trigger] replies[i]),
        calibration_over(replies[busy + 1]),
    ensures
        run(chip, Phase::StartingCalibration, replies) == (Dialogue::<E> {
            issued: polls(chip, busy + 1),
            result: Some(Ok(OutcomeView::Done)),
        }),
{
    let rest = replies.skip(1);
    assert forall|i: int| 0 <= i < busy implies still_calibrating(#[trigger] rest[i]) by {
        assert(rest[i] == replies[i + 1]);
    }
    assert(rest[busy] == replies[busy + 1]);
    lemma_polling_ends_when_clear(chip, rest, busy);
    assert(seq![chip.register_read(RegisterAddress::GeneralConfig)] + polls(chip, busy) =~= polls(
        chip,
        busy + 1,
    ));
}

/// A read of the System Status register ends with the byte that came back,
/// every bit of it.
pub proof fn lemma_status_keeps_every_bit<E>(chip: ChipInterface, replies: Seq<Reply<E>>, byte: u8)
    requires
        replies.len() >= 1,
        replies[0] matches Ok(bytes) && bytes.len() == 1 && bytes[0] == byte,
    ensures
        run(chip, Phase::ReadingStatus, replies).result matches Some(Ok(OutcomeView::Status(flags)))
            && flags.bits() == byte,
        run(chip, Phase::ReadingStatus, replies).issued.len() == 0,
{
}

/// A sweep starts the sequence, reads 24 bytes, stops the sequence, and ends
/// with the eight samples in frame order, each the big-endian number of its
/// frame's first two bytes. The tags are not looked at.
pub proof fn lemma_sweep<E>(chip: ChipInterface, replies: Seq<Reply<E>>, bytes: Seq<u8>)
    requires
        replies.len() >= 3,
        acknowledged(replies[0]),
        replies[1] == Ok::<Seq<u8>, E>(bytes),
        bytes.len() == 24,
        acknowledged(replies[2]),
    ensures
        run(chip, Phase::StartingSequence, replies) == (Dialogue::<E> {
            issued: seq![
                chip.spec_stream_read(8),
                chip.write_sequence_config(SequenceConfig::StoppedAuto),
            ],
            result: Some(Ok(OutcomeView::Samples(sweep_samples(bytes)))),
        }),
        sweep_samples(bytes).len() == 8,
        forall|i: int|
            0 <= i < 8 ==> #[trigger] sweep_samples(bytes)[i] == bytes[3 * i] * 256 + bytes[3 * i
                + 1],
{
    reveal_with_fuel(run, 4);
    let first = replies.skip(1);
    let second = first.skip(1);
    assert(first[0] == replies[1]);
    assert(second[0] == replies[2]);
    let dialogue = run(chip, Phase::StartingSequence, replies);
    assert(dialogue.issued =~= seq![
        chip.spec_stream_read(8),
        chip.write_sequence_config(SequenceConfig::StoppedAuto),
    ]);
}

/// While the driver waits for a channel, every frame of another channel is
/// answered with one more read of a single frame, as long as the budget of 32
/// frames is not spent: after `others` such frames the driver is at the
/// frame that follows them.
pub proof fn lemma_other_channels_are_skipped<E>(
    chip: ChipInterface,
    channel: Channel,
    attempt: usize,
    replies: Seq<Reply<E>>,
    others: int,
)
    requires
        0 <= others <= replies.len(),
        1 <= attempt,
        attempt + others <= 32,
        forall|i: int| 0 <= i < others ==> other_channel(#[trigger] replies[i], channel),
    ensures
        ({
            let whole = run(chip, Phase::ReadingChannel { channel, attempt }, replies);
            let tail = run(
                chip,
                Phase::ReadingChannel { channel, attempt: (attempt + others) as usize },
                replies.skip(others),
            );
            &&& whole.issued == frame_reads(chip, others) + tail.issued
            &&& whole.result == tail.result
        }),
    decreases others,
{
    if others > 0 {
        assert(other_channel(replies[0], channel));
        let rest = replies.skip(1);
        assert forall|i: int| 0 <= i < others - 1 implies other_channel(
            #[trigger] rest[i],
            channel,
        ) by {
            assert(rest[i] == replies[i + 1]);
        }
        lemma_other_channels_are_skipped(
            chip,
            channel,
            (attempt + 1) as usize,
            rest,
            others - 1,
        );
        assert(rest.skip(others - 1) =~= replies.skip(others));
        let tail = run(
            chip,
            Phase::ReadingChannel { channel, attempt: (attempt + others) as usize },
            replies.skip(others),
        );
        assert(seq![chip.spec_stream_read(1)] + (frame_reads(chip, others - 1) + tail.issued)
            =~= frame_reads(chip, others) + tail.issued);
    } else {
        assert(replies.skip(0) =~= replies);
        let tail = run(chip, Phase::ReadingChannel { channel, attempt }, replies);
        assert(frame_reads(chip, 0) + tail.issued =~= tail.issued);
    }
}

/// Acquiring a channel selects it and then reads single frames. Frames of
/// other channels are passed over; the first frame of the channel itself,
/// if it is among the first 32, ends the operation with that frame's sample
/// and the number of frames read, that frame included.
pub proof fn lemma_channel_read_finds_first_match<E>(
    chip: ChipInterface,
    channel: Channel,
    replies: Seq<Reply<E>>,
    attempts: int,
)
    requires
        1 <= attempts <= 32,
        attempts < replies.len(),
        acknowledged(replies[0]),
        forall|i: int| 1 <= i < attempts ==> other_channel(#[trigger] replies[i], channel),
        desired_channel(replies[attempts], channel),
    ensures
        run(chip, Phase::SelectingChannel { channel }, replies) == (Dialogue::<E> {
            issued: frame_reads(chip, attempts),
            result: Some(
                Ok(
                    OutcomeView::Sample {
                        value: sample_value(
                            replies[attempts]->Ok_0[0],
                            replies[attempts]->Ok_0[1],
                        ),
                        attempts: attempts as usize,
                    },
                ),
            ),
        }),
{
    let frames = replies.skip(1);
    assert forall|i: int| 0 <= i < attempts - 1 implies other_channel(
        #[trigger] frames[i],
        channel,
    ) by {
        assert(frames[i] == replies[i + 1]);
    }
    lemma_other_channels_are_skipped(chip, channel, 1, frames, attempts - 1);
    let last = frames.skip(attempts - 1);
    assert(last[0] == replies[attempts]);
    let whole = run(chip, Phase::SelectingChannel { channel }, replies);
    assert(whole.issued =~= frame_reads(chip, attempts)) by {
        assert(seq![chip.spec_stream_read(1)] + (frame_reads(chip, attempts - 1) + Seq::empty())
            =~= frame_reads(chip, attempts));
    }
}

/// Acquiring a channel gives up after exactly 32 frames: when each of the
/// first 32 frames belongs to another channel, 32 reads are made, no more,
/// and the operation fails with `IncorrectChannelAddress`.
pub proof fn lemma_channel_read_gives_up<E>(
    chip: ChipInterface,
    channel: Channel,
    replies: Seq<Reply<E>>,
)
    requires
        replies.len() >= 33,
        acknowledged(replies[0]),
        forall|i: int| 1 <= i <= 32 ==> other_channel(#[trigger] replies[i], channel),
    ensures
        run(chip, Phase::SelectingChannel { channel }, replies) == (Dialogue::<E> {
            issued: frame_reads(chip, 32),
            result: Some(Err(Error::IncorrectChannelAddress)),
        }),
{
    let frames = replies.skip(1);
    assert forall|i: int| 0 <= i < 31 implies other_channel(#[trigger] frames[i], channel) by {
        assert(frames[i] == replies[i + 1]);
    }
    lemma_other_channels_are_skipped(chip, channel, 1, frames, 31);
    let last = frames.skip(31);
    assert(last[0] == replies[32]);
    assert(other_channel(replies[32], channel));
    let whole = run(chip, Phase::SelectingChannel { channel }, replies);
    assert(whole.issued =~= frame_reads(chip, 32)) by {
        assert(seq![chip.spec_stream_read(1)] + (frame_reads(chip, 31) + Seq::empty())
            =~= frame_reads(chip, 32));
    }
}

/// A frame whose tag names no channel ends the acquisition at once with
/// `InvalidChannelAddress`: no frame is read after it, however much of the
/// budget is left.
pub proof fn lemma_channel_read_rejects_bad_tag<E>(
    chip: ChipInterface,
    channel: Channel,
    replies: Seq<Reply<E>>,
    attempts: int,
)
    requires
        1 <= attempts <= 32,
        attempts < replies.len(),
        acknowledged(replies[0]),
        forall|i: int| 1 <= i < attempts ==> other_channel(#[trigger] replies[i], channel),
        no_channel(replies[attempts]),
    ensures
        run(chip, Phase::SelectingChannel { channel }, replies) == (Dialogue::<E> {
            issued: frame_reads(chip, attempts),
            result: Some(Err(Error::InvalidChannelAddress)),
        }),
{
    let frames = replies.skip(1);
    assert forall|i: int| 0 <= i < attempts - 1 implies other_channel(
        #[trigger] frames[i],
        channel,
    ) by {
        assert(frames[i] == replies[i + 1]);
    }
    lemma_other_channels_are_skipped(chip, channel, 1, frames, attempts - 1);
    let last = frames.skip(attempts - 1);
    assert(last[0] == replies[attempts]);
    let whole = run(chip, Phase::SelectingChannel { channel }, replies);
    assert(whole.issued =~= frame_reads(chip, attempts)) by {
        assert(seq![chip.spec_stream_read(1)] + (frame_reads(chip, attempts - 1) + Seq::empty())
            =~= frame_reads(chip, attempts));
    }
}

/// Whatever the driver waits for, a transaction that the bus fails ends the
/// operation with the bus's own error, unchanged, and nothing more is sent.
pub proof fn lemma_bus_error_is_passed_on<E>(
    chip: ChipInterface,
    phase: Phase,
    replies: Seq<Reply<E>>,
    error: E,
)
    requires
        replies.len() >= 1,
        replies[0] == Err::<Seq<u8>, E>(error),
    ensures
        run(chip, phase, replies) == (Dialogue::<E> {
            issued: Seq::empty(),
            result: Some(Err(Error::I2cError(error))),
        }),
{
}

/// The acquisition mode of the device once `transaction` has gone through,
/// when it was `before`: a write of Sequence Config sets the mode its value
/// stands for (none that the driver knows, if the value stands for none), and
/// no other transaction changes it. `None` is a mode the driver cannot name.
pub open spec fn mode_after(before: Option<SequenceConfig>, transaction: Transaction) -> Option<
    SequenceConfig,
> {
    match transaction {
        Transaction::RegisterWrite { register: RegisterAddress::SequenceConfig, value, .. } => {
            if value == SequenceConfig::Manual.value() {
                Some(SequenceConfig::Manual)
            } else if value == SequenceConfig::StoppedAuto.value() {
                Some(SequenceConfig::StoppedAuto)
            } else if value == SequenceConfig::StartedAuto.value() {
                Some(SequenceConfig::StartedAuto)
            } else {
                None
            }
        },
        _ => before,
    }
}

/// The acquisition mode of the device once all of `transactions` have gone
/// through, in order.
pub open spec fn mode_after_all(
    before: Option<SequenceConfig>,
    transactions: Seq<Transaction>,
) -> Option<SequenceConfig>
    decreases transactions.len(),
{
    if transactions.len() == 0 {
        before
    } else {
        mode_after(mode_after_all(before, transactions.drop_last()), transactions.last())
    }
}

/// Whatever mode the device was in, preparing for manual acquisition lands
/// it in manual mode, and preparing for auto-sequence acquisition lands it in
/// the stopped sequence.
pub proof fn lemma_preparation_lands_in_its_mode(
    chip: ChipInterface,
    before: Option<SequenceConfig>,
)
    ensures
        mode_after_all(before, manual_plan(chip)) == Some(SequenceConfig::Manual),
        mode_after_all(before, auto_sequence_plan(chip)) == Some(SequenceConfig::StoppedAuto),
{
    reveal_with_fuel(mode_after_all, 3);
    let auto = auto_sequence_plan(chip);
    assert(auto.drop_last().last() == chip.write_sequence_config(SequenceConfig::StoppedAuto));
}

/// Whatever mode the device was in, a sweep runs the sequence while it reads
/// and leaves the device in the stopped sequence.
pub proof fn lemma_sweep_starts_and_stops_the_sequence(
    chip: ChipInterface,
    before: Option<SequenceConfig>,
)
    ensures
        mode_after(before, chip.write_sequence_config(SequenceConfig::StartedAuto)) == Some(
            SequenceConfig::StartedAuto,
        ),
        mode_after_all(
            before,
            seq![
                chip.write_sequence_config(SequenceConfig::StartedAuto),
                chip.spec_stream_read(8),
                chip.write_sequence_config(SequenceConfig::StoppedAuto),
            ],
        ) == Some(SequenceConfig::StoppedAuto),
{
    reveal_with_fuel(mode_after_all, 2);
}

} // verus!
