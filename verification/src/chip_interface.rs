//! The register protocol layer: which bus transaction stands for a register
//! read, a register write or a read of the data stream, and what the bytes
//! that come back mean.
//!
//! Nothing here touches a bus. A [`Transaction`] says what is to be sent to
//! the device and how many bytes are due back; whoever owns the bus performs
//! it and hands the reply to the functions that decode it.

use vstd::prelude::*;
use crate::channel::{tag_channel, try_from_i2c_data, Channel};
use crate::chip_definitions::{
    DataConfig, GeneralConfigFlags, OpCode, Oversampling, RegisterAddress, SamplingRate,
    SequenceConfig,
};
use crate::error::Error;

verus! {

/// Bytes in one frame of the data stream: two of sample, one of tag.
pub const FRAME_LENGTH: usize = 3;

/// Frames in one sweep over all channels.
pub const SWEEP_FRAMES: u8 = 8;

/// How many frames the channel-synchronized read looks at before it gives up.
pub const MAX_CHANNEL_READ_TRIES: usize = 32;

/// One transaction on the bus, addressed to the converter.
#[derive(Debug, Clone, Copy, PartialEq, Eq, Structural)]
pub enum Transaction {
    /// Write the read op-code and a register's address, then read one byte
    /// back, as one combined transaction.
    RegisterRead { address: u8, register: RegisterAddress },
    /// Write the write op-code, a register's address and the register's new
    /// value. Nothing comes back.
    RegisterWrite { address: u8, register: RegisterAddress, value: u8 },
    /// A bare read of whole frames from the data stream.
    StreamRead { address: u8, frames: u8 },
}

impl Transaction {
    /// The seven-bit bus address of the device.
    pub open spec fn spec_address(self) -> u8 {
        match self {
            Transaction::RegisterRead { address, .. } => address,
            Transaction::RegisterWrite { address, .. } => address,
            Transaction::StreamRead { address, .. } => address,
        }
    }

    /// The bytes sent to the device, in order. Empty for a bare read.
    pub open spec fn spec_outgoing(self) -> Seq<u8> {
        match self {
            Transaction::RegisterRead { register, .. } => seq![
                OpCode::SingleRegisterRead.value(),
                register.value(),
            ],
            Transaction::RegisterWrite { register, value, .. } => seq![
                OpCode::SingleRegisterWrite.value(),
                register.value(),
                value,
            ],
            Transaction::StreamRead { .. } => Seq::empty(),
        }
    }

    /// How many bytes the device is to send back.
    pub open spec fn spec_incoming(self) -> nat {
        match self {
            Transaction::RegisterRead { .. } => 1,
            Transaction::RegisterWrite { .. } => 0,
            Transaction::StreamRead { frames, .. } => (3 * frames) as nat,
        }
    }

    /// The seven-bit bus address of the device.
    #[verifier::when_used_as_spec(spec_address)]
    pub fn address(self) -> (address: u8)
        ensures
            address == self.spec_address(),
    {
        match self {
            Transaction::RegisterRead { address, .. } => address,
            Transaction::RegisterWrite { address, .. } => address,
            Transaction::StreamRead { address, .. } => address,
        }
    }

    /// The bytes to send to the device, in order. Empty for a bare read.
    pub fn outgoing(self) -> (bytes: Vec<u8>)
        ensures
            bytes@ == self.spec_outgoing(),
    {
        let mut bytes: Vec<u8> = Vec::new();
        match self {
            Transaction::RegisterRead { register, .. } => {
                bytes.push(OpCode::SingleRegisterRead.value());
                bytes.push(register.value());
            },
            Transaction::RegisterWrite { register, value, .. } => {
                bytes.push(OpCode::SingleRegisterWrite.value());
                bytes.push(register.value());
                bytes.push(value);
            },
            Transaction::StreamRead { .. } => {},
        }
        bytes
    }

    /// How many bytes the device is to send back.
    pub fn incoming(self) -> (length: usize)
        ensures
            length == self.spec_incoming(),
    {
        match self {
            Transaction::RegisterRead { .. } => 1,
            Transaction::RegisterWrite { .. } => 0,
            Transaction::StreamRead { frames, .. } => {
                let frames: usize = frames as usize;
                FRAME_LENGTH * frames
            },
        }
    }
}

/// The sample that two data bytes stand for: a sixteen-bit number, high byte first.
pub open spec fn sample_value(high: u8, low: u8) -> u16 {
    (high * 256 + low) as u16
}

/// The eight samples of a sweep of 24 bytes: frame `i` gives sample `i`. The
/// tag bytes are not looked at.
pub open spec fn sweep_samples(bytes: Seq<u8>) -> Seq<u16> {
    Seq::new(8, |i: int| sample_value(bytes[3 * i], bytes[3 * i + 1]))
}

/// What one more frame means to a read that waits for `desired` and has now
/// seen `attempt` frames, this one included.
///
/// A frame of the wrong length or with a tag that names no channel ends the
/// read at once. A frame of the desired channel ends it with the frame's
/// sample and the number of frames it took. A frame of another channel asks
/// for one more frame (`Ok(None)`), unless the budget is spent.
pub open spec fn channel_read_step<E>(desired: Channel, attempt: nat, frame: Seq<u8>) -> Result<
    Option<(u16, usize)>,
    Error<E>,
> {
    if frame.len() != FRAME_LENGTH {
        Err(Error::UnexpectedReply)
    } else {
        match tag_channel(frame[2]) {
            None => Err(Error::InvalidChannelAddress),
            Some(channel) => if channel == desired {
                Ok(Some((sample_value(frame[0], frame[1]), attempt as usize)))
            } else if attempt < MAX_CHANNEL_READ_TRIES {
                Ok(None)
            } else {
                Err(Error::IncorrectChannelAddress)
            },
        }
    }
}

/// The register protocol of one converter: it knows the device's bus address
/// and nothing else.
#[derive(Debug, Clone, Copy, PartialEq, Eq, Structural)]
pub struct ChipInterface {
    /// The seven-bit bus address of the device.
    pub address: u8,
}

impl ChipInterface {
    /// The protocol of the converter at the given seven-bit bus address.
    pub fn new(address: u8) -> (chip: Self)
        ensures
            chip.address == address,
    {
        ChipInterface { address }
    }

    /// Forces every pin to be an analog input: Pin Config, GPIO Config and
    /// GPIO Drive Config are written with zero, in that order.
    pub fn configure_all_pins_as_analog_inputs(&self) -> (writes: Vec<Transaction>)
        ensures
            writes@ == seq![
                self.register_write(RegisterAddress::PinConfig, 0),
                self.register_write(RegisterAddress::GpioConfig, 0),
                self.register_write(RegisterAddress::GpioDriveConfig, 0),
            ],
    {
        let mut writes: Vec<Transaction> = Vec::new();
        writes.push(self.register_write(RegisterAddress::PinConfig, 0b_0000_0000));
        writes.push(self.register_write(RegisterAddress::GpioConfig, 0b_0000_0000));
        writes.push(self.register_write(RegisterAddress::GpioDriveConfig, 0b_0000_0000));
        writes
    }

    /// The write of the oversampling ratio to Oversampling Config.
    pub fn configure_oversampling(&self, ratio: Oversampling) -> (write: Transaction)
        ensures
            write == self.register_write(RegisterAddress::OsrConfig, ratio.value()),
    {
        self.register_write(RegisterAddress::OsrConfig, ratio.value())
    }

    /// The write of the sampling rate to Operating-Mode Config.
    pub fn configure_sampling_rate(&self, config: SamplingRate) -> (write: Transaction)
        ensures
            write == self.register_write(RegisterAddress::OpModeConfig, config.value()),
    {
        self.register_write(RegisterAddress::OpModeConfig, config.value())
    }

    /// Selects the channel that the device converts next in manual mode.
    pub fn set_channel(&self, channel: Channel) -> (write: Transaction)
        ensures
            write == self.register_write(RegisterAddress::ChannelSelect, channel.value()),
    {
        self.register_write(RegisterAddress::ChannelSelect, channel.value())
    }

    /// Sets the device up to cycle through all eight channels, stopped:
    /// tagged frames, then the stopped sequence, then the mask of all channels.
    pub fn configure_auto_sequence_mode(&self) -> (writes: Vec<Transaction>)
        ensures
            writes@ == seq![
                self.write_data_config(DataConfig::NormalDataAddChannelID),
                self.write_sequence_config(SequenceConfig::StoppedAuto),
                self.register_write(RegisterAddress::AutoSequenceChannelSelect, 0xFF),
            ],
    {
        let mut writes: Vec<Transaction> = Vec::new();
        writes.push(self.write_data_config(DataConfig::NormalDataAddChannelID));
        writes.push(self.write_sequence_config(SequenceConfig::StoppedAuto));
        writes.push(self.register_write(RegisterAddress::AutoSequenceChannelSelect, 0b_1111_1111));
        writes
    }

    /// Sets the device up to convert on request: tagged frames, then manual
    /// sequencing.
    pub fn configure_manual_mode(&self) -> (writes: Vec<Transaction>)
        ensures
            writes@ == seq![
                self.write_data_config(DataConfig::NormalDataAddChannelID),
                self.write_sequence_config(SequenceConfig::Manual),
            ],
    {
        let mut writes: Vec<Transaction> = Vec::new();
        writes.push(self.write_data_config(DataConfig::NormalDataAddChannelID));
        writes.push(self.write_sequence_config(SequenceConfig::Manual));
        writes
    }

    /// The read of System Status.
    pub fn read_system_status(&self) -> (read: Transaction)
        ensures
            read == self.register_read(RegisterAddress::SystemStatus),
    {
        self.register_read(RegisterAddress::SystemStatus)
    }

    /// The read of General Config.
    pub fn read_general_config(&self) -> (read: Transaction)
        ensures
            read == self.register_read(RegisterAddress::GeneralConfig),
    {
        self.register_read(RegisterAddress::GeneralConfig)
    }

    /// Writes the flag set to General Config, every bit as the set holds it.
    pub fn write_general_config(&self, config: GeneralConfigFlags) -> (write: Transaction)
        ensures
            write == self.register_write(RegisterAddress::GeneralConfig, config@),
    {
        self.register_write(RegisterAddress::GeneralConfig, config.bits())
    }

    /// The write of the stream's data format to Data Config.
    #[verifier::when_used_as_spec(spec_write_data_config)]
    pub fn write_data_config(&self, config: DataConfig) -> (write: Transaction)
        ensures
            write == self.spec_write_data_config(config),
    {
        self.register_write(RegisterAddress::DataConfig, config.value())
    }

    /// The write of the acquisition mode to Sequence Config.
    #[verifier::when_used_as_spec(spec_write_sequence_config)]
    pub fn write_sequence_config(&self, config: SequenceConfig) -> (write: Transaction)
        ensures
            write == self.spec_write_sequence_config(config),
    {
        self.register_write(RegisterAddress::SequenceConfig, config.value())
    }

    /// The transaction that reads one register.
    pub open spec fn spec_register_read(&self, r: RegisterAddress) -> Transaction {
        Transaction::RegisterRead { address: self.address, register: r }
    }

    /// The transaction that writes one register.
    pub open spec fn spec_register_write(&self, r: RegisterAddress, val: u8) -> Transaction {
        Transaction::RegisterWrite { address: self.address, register: r, value: val }
    }

    /// The transaction that reads `frames` frames of the data stream.
    pub open spec fn spec_stream_read(&self, frames: u8) -> Transaction {
        Transaction::StreamRead { address: self.address, frames }
    }

    /// The write of the stream's data format to Data Config.
    pub open spec fn spec_write_data_config(&self, config: DataConfig) -> Transaction {
        self.spec_register_write(RegisterAddress::DataConfig, config.value())
    }

    /// The write of the acquisition mode to Sequence Config.
    pub open spec fn spec_write_sequence_config(&self, config: SequenceConfig) -> Transaction {
        self.spec_register_write(RegisterAddress::SequenceConfig, config.value())
    }

    /// The transaction that reads one register: the read op-code and the
    /// register's address go out, one byte comes back.
    #[verifier::when_used_as_spec(spec_register_read)]
    pub fn register_read(&self, r: RegisterAddress) -> (read: Transaction)
        ensures
            read == self.spec_register_read(r),
    {
        Transaction::RegisterRead { address: self.address, register: r }
    }

    /// The transaction that writes one register: the write op-code, the
    /// register's address and the value go out, nothing comes back.
    #[verifier::when_used_as_spec(spec_register_write)]
    pub fn register_write(&self, r: RegisterAddress, val: u8) -> (write: Transaction)
        ensures
            write == self.spec_register_write(r, val),
    {
        Transaction::RegisterWrite { address: self.address, register: r, value: val }
    }

    /// The transaction that reads one sweep: a frame for each of the eight channels.
    pub fn data_read(&self) -> (read: Transaction)
        ensures
            read == self.spec_stream_read(SWEEP_FRAMES),
    {
        Transaction::StreamRead { address: self.address, frames: SWEEP_FRAMES }
    }

    /// The transaction that reads the one frame the device has ready now.
    pub fn data_channel_read(&self) -> (read: Transaction)
        ensures
            read == self.spec_stream_read(1),
    {
        Transaction::StreamRead { address: self.address, frames: 1 }
    }
}

/// Combines two data bytes into a sample, high byte first.
pub fn sample(high: u8, low: u8) -> (value: u16)
    ensures
        value == sample_value(high, low),
        value == high * 256 + low,
{
    let high: u16 = high as u16;
    let low: u16 = low as u16;
    high * 256 + low
}

/// Takes the reply to a register read: exactly one byte, or the reply is refused.
pub fn register_reply<E>(reply: &[u8]) -> (result: Result<u8, Error<E>>)
    ensures
        result == if reply@.len() == 1 {
            Ok::<u8, Error<E>>(reply@[0])
        } else {
            Err(Error::UnexpectedReply)
        },
{
    if reply.len() == 1 {
        Ok(reply[0])
    } else {
        Err(Error::UnexpectedReply)
    }
}

/// Takes the reply to a register write: no byte at all, or the reply is refused.
pub fn write_reply<E>(reply: &[u8]) -> (result: Result<(), Error<E>>)
    ensures
        result == if reply@.len() == 0 {
            Ok::<(), Error<E>>(())
        } else {
            Err(Error::UnexpectedReply)
        },
{
    if reply.len() == 0 {
        Ok(())
    } else {
        Err(Error::UnexpectedReply)
    }
}

/// Takes the reply to a sweep: 24 bytes, which give the eight samples in the
/// order of the frames. The tags are trusted to be in channel order.
pub fn data_reply<E>(reply: &[u8]) -> (result: Result<[u16; 8], Error<E>>)
    ensures
        reply@.len() == 24 ==> result is Ok && result->Ok_0@ == sweep_samples(reply@),
        reply@.len() != 24 ==> result == Err::<[u16; 8], Error<E>>(Error::UnexpectedReply),
{
    if reply.len() != 24 {
        return Err(Error::UnexpectedReply);
    }
    let mut out: [u16; 8] = [0; 8];
    let mut i: usize = 0;
    while i < 8
        invariant
            i <= 8,
            reply@.len() == 24,
            forall|j: int| 0 <= j < i ==> out@[j] == sample_value(reply@[3 * j], reply@[3 * j + 1]),
        decreases 8 - i,
    {
        out[i] = sample(reply[3 * i], reply[3 * i + 1]);
        i += 1;
    }
    assert(out@ =~= sweep_samples(reply@));
    Ok(out)
}

/// Takes the reply to a read of one frame, for a read that waits for
/// `desired` and has now seen `attempt` frames.
pub fn data_channel_reply<E>(desired: Channel, attempt: usize, reply: &[u8]) -> (result: Result<
    Option<(u16, usize)>,
    Error<E>,
>)
    ensures
        result == channel_read_step::<E>(desired, attempt as nat, reply@),
{
    if reply.len() != FRAME_LENGTH {
        return Err(Error::UnexpectedReply);
    }
    let read_channel = match try_from_i2c_data::<E>(reply[2]) {
        Ok(channel) => channel,
        Err(error) => {
            return Err(error);
        },
    };
    if read_channel == desired {
        Ok(Some((sample(reply[0], reply[1]), attempt)))
    } else if attempt < MAX_CHANNEL_READ_TRIES {
        Ok(None)
    } else {
        Err(Error::IncorrectChannelAddress)
    }
}

} // verus!
