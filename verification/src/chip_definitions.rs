//! The converter's fixed vocabulary: op-codes, register addresses, the values
//! its configuration registers take, and the flag sets of its status registers.

use vstd::prelude::*;

verus! {

/// The leading byte of a register transaction, which selects its shape.
#[derive(Debug, Clone, Copy, PartialEq, Eq, Structural)]
pub enum OpCode {
    SingleRegisterRead,
    SingleRegisterWrite,
    SetBit,
    ClearBit,
    ReadContinuousRegisters,
    WriteContinuousRegisters,
}

impl OpCode {
    /// The op-code byte.
    pub open spec fn spec_value(self) -> u8 {
        match self {
            OpCode::SingleRegisterRead => 0b_0001_0000,
            OpCode::SingleRegisterWrite => 0b_0000_1000,
            OpCode::SetBit => 0b_0001_1000,
            OpCode::ClearBit => 0b_0010_0000,
            OpCode::ReadContinuousRegisters => 0b_0011_0000,
            OpCode::WriteContinuousRegisters => 0b_0010_1000,
        }
    }

    /// The op-code byte.
    #[verifier::when_used_as_spec(spec_value)]
    pub fn value(self) -> (value: u8)
        ensures
            value == self.spec_value(),
    {
        match self {
            OpCode::SingleRegisterRead => 0b_0001_0000,
            OpCode::SingleRegisterWrite => 0b_0000_1000,
            OpCode::SetBit => 0b_0001_1000,
            OpCode::ClearBit => 0b_0010_0000,
            OpCode::ReadContinuousRegisters => 0b_0011_0000,
            OpCode::WriteContinuousRegisters => 0b_0010_1000,
        }
    }
}

/// The registers of the converter.
#[derive(Debug, Clone, Copy, PartialEq, Eq, Structural)]
pub enum RegisterAddress {
    SystemStatus,
    GeneralConfig,
    DataConfig,
    OsrConfig,
    OpModeConfig,
    PinConfig,
    GpioConfig,
    GpioDriveConfig,
    GpOutValue,
    GpInValue,
    SequenceConfig,
    ChannelSelect,
    AutoSequenceChannelSelect,
}

impl RegisterAddress {
    /// The register's address.
    pub open spec fn spec_value(self) -> u8 {
        match self {
            RegisterAddress::SystemStatus => 0b_0000_0000,
            RegisterAddress::GeneralConfig => 0b_0000_0001,
            RegisterAddress::DataConfig => 0b_0000_0010,
            RegisterAddress::OsrConfig => 0b_0000_0011,
            RegisterAddress::OpModeConfig => 0b_0000_0100,
            RegisterAddress::PinConfig => 0b_0000_0101,
            RegisterAddress::GpioConfig => 0b_0000_0111,
            RegisterAddress::GpioDriveConfig => 0b_0000_1001,
            RegisterAddress::GpOutValue => 0b_0000_1011,
            RegisterAddress::GpInValue => 0b_0000_1101,
            RegisterAddress::SequenceConfig => 0b_0001_0000,
            RegisterAddress::ChannelSelect => 0b_0001_0001,
            RegisterAddress::AutoSequenceChannelSelect => 0b_0001_0010,
        }
    }

    /// The register's address.
    #[verifier::when_used_as_spec(spec_value)]
    pub fn value(self) -> (value: u8)
        ensures
            value == self.spec_value(),
    {
        match self {
            RegisterAddress::SystemStatus => 0b_0000_0000,
            RegisterAddress::GeneralConfig => 0b_0000_0001,
            RegisterAddress::DataConfig => 0b_0000_0010,
            RegisterAddress::OsrConfig => 0b_0000_0011,
            RegisterAddress::OpModeConfig => 0b_0000_0100,
            RegisterAddress::PinConfig => 0b_0000_0101,
            RegisterAddress::GpioConfig => 0b_0000_0111,
            RegisterAddress::GpioDriveConfig => 0b_0000_1001,
            RegisterAddress::GpOutValue => 0b_0000_1011,
            RegisterAddress::GpInValue => 0b_0000_1101,
            RegisterAddress::SequenceConfig => 0b_0001_0000,
            RegisterAddress::ChannelSelect => 0b_0001_0001,
            RegisterAddress::AutoSequenceChannelSelect => 0b_0001_0010,
        }
    }
}

/// The flags of the System Status register.
///
/// Every bit of the register is kept, the reserved ones too, so a value read
/// from the device can be written back without disturbing what it does not name.
#[derive(Debug, Clone, Copy, PartialEq, Eq, Structural)]
pub struct SystemStatusFlags {
    /// The register's eight bits as the device holds them.
    pub raw: u8,
}

impl View for SystemStatusFlags {
    type V = u8;

    open spec fn view(&self) -> u8 {
        self.raw
    }
}

impl SystemStatusFlags {
    /// Reserved.
    pub const _RESERVED_07: u8 = 0b_1000_0000;

    /// The channel sequencer is running.
    pub const SEQUENCER_IN_PROGRESS: u8 = 0b_0100_0000;

    /// The bus interface is in high-speed mode.
    pub const I2C_HIGH_SPEED: u8 = 0b_0010_0000;

    /// Reserved.
    pub const _RESERVED_04: u8 = 0b_0001_0000;

    /// Oversampled averaging has completed.
    pub const OSR_COMPLETE: u8 = 0b_0000_1000;

    /// A configuration CRC error was detected.
    pub const CRC_ERROR: u8 = 0b_0000_0100;

    /// Reserved.
    pub const _RESERVED_01: u8 = 0b_0000_0010;

    /// The device went through a brown-out or power-on reset.
    pub const BROWNOUT_RESET: u8 = 0b_0000_0001;

    /// No flag.
    pub const NULL: u8 = 0b_0000_0000;

    /// The flag set that holds exactly the given bits, known or not.
    pub open spec fn spec_from_bits_retain(bits: u8) -> Self {
        SystemStatusFlags { raw: bits }
    }

    /// The flag set that holds exactly the given bits, known or not.
    #[verifier::when_used_as_spec(spec_from_bits_retain)]
    pub fn from_bits_retain(bits: u8) -> (flags: Self)
        ensures
            flags == Self::spec_from_bits_retain(bits),
            flags@ == bits,
    {
        SystemStatusFlags { raw: bits }
    }

    /// The bits of the set, unchanged.
    pub open spec fn spec_bits(&self) -> u8 {
        self.raw
    }

    /// The bits of the set, unchanged.
    #[verifier::when_used_as_spec(spec_bits)]
    pub fn bits(&self) -> (bits: u8)
        ensures
            bits == self@,
    {
        self.raw
    }

    /// Whether every bit of `other` is set in `self`.
    pub open spec fn spec_contains(&self, other: Self) -> bool {
        self@ & other@ == other@
    }

    /// Whether every bit of `other` is set in `self`.
    #[verifier::when_used_as_spec(spec_contains)]
    pub fn contains(&self, other: Self) -> (held: bool)
        ensures
            held == self.spec_contains(other),
    {
        self.raw & other.raw == other.raw
    }

    /// Whether the channel sequencer is running.
    pub fn sequencer_in_progress(&self) -> (set: bool)
        ensures
            set == (self@ & Self::SEQUENCER_IN_PROGRESS != 0),
    {
        self.raw & Self::SEQUENCER_IN_PROGRESS != 0
    }

    /// Whether the bus interface is in high-speed mode.
    pub fn i2c_high_speed(&self) -> (set: bool)
        ensures
            set == (self@ & Self::I2C_HIGH_SPEED != 0),
    {
        self.raw & Self::I2C_HIGH_SPEED != 0
    }

    /// Whether oversampled averaging has completed.
    pub fn osr_complete(&self) -> (set: bool)
        ensures
            set == (self@ & Self::OSR_COMPLETE != 0),
    {
        self.raw & Self::OSR_COMPLETE != 0
    }

    /// Whether a configuration CRC error was detected.
    pub fn crc_error(&self) -> (set: bool)
        ensures
            set == (self@ & Self::CRC_ERROR != 0),
    {
        self.raw & Self::CRC_ERROR != 0
    }

    /// Whether the device went through a brown-out or power-on reset.
    pub fn brownout_reset(&self) -> (set: bool)
        ensures
            set == (self@ & Self::BROWNOUT_RESET != 0),
    {
        self.raw & Self::BROWNOUT_RESET != 0
    }
}

/// The flags of the General Config register.
///
/// Every bit of the register is kept, the reserved ones too, so a value read
/// from the device can be written back without disturbing what it does not name.
#[derive(Debug, Clone, Copy, PartialEq, Eq, Structural)]
pub struct GeneralConfigFlags {
    /// The register's eight bits as the device holds them.
    pub raw: u8,
}

impl View for GeneralConfigFlags {
    type V = u8;

    open spec fn view(&self) -> u8 {
        self.raw
    }
}

impl GeneralConfigFlags {
    /// Reserved.
    pub const _RESERVED_07: u8 = 0b_1000_0000;

    /// Reserved.
    pub const _RESERVED_06: u8 = 0b_0100_0000;

    /// Reserved.
    pub const _RESERVED_05: u8 = 0b_0010_0000;

    /// Reserved.
    pub const _RESERVED_04: u8 = 0b_0001_0000;

    /// Start a conversion.
    pub const INITIATE_CONVERSION: u8 = 0b_0000_1000;

    /// Force every pin to be an analog input, whatever the pin registers say.
    pub const OVERRIDE_OTHER_SETTINGS_TO_ALL_CHANNELS_AS_ANALOG_INPUTS: u8 = 0b_0000_0100;

    /// Offset calibration is requested or still running; the device clears the bit when done.
    pub const CALIBRATE_ADC_OFFSET: u8 = 0b_0000_0010;

    /// Reset the device.
    pub const RESET: u8 = 0b_0000_0001;

    /// No flag.
    pub const NULL: u8 = 0b_0000_0000;

    /// The flag set that holds exactly the given bits, known or not.
    pub open spec fn spec_from_bits_retain(bits: u8) -> Self {
        GeneralConfigFlags { raw: bits }
    }

    /// The flag set that holds exactly the given bits, known or not.
    #[verifier::when_used_as_spec(spec_from_bits_retain)]
    pub fn from_bits_retain(bits: u8) -> (flags: Self)
        ensures
            flags == Self::spec_from_bits_retain(bits),
            flags@ == bits,
    {
        GeneralConfigFlags { raw: bits }
    }

    /// The bits of the set, unchanged.
    pub open spec fn spec_bits(&self) -> u8 {
        self.raw
    }

    /// The bits of the set, unchanged.
    #[verifier::when_used_as_spec(spec_bits)]
    pub fn bits(&self) -> (bits: u8)
        ensures
            bits == self@,
    {
        self.raw
    }

    /// Whether every bit of `other` is set in `self`.
    pub open spec fn spec_contains(&self, other: Self) -> bool {
        self@ & other@ == other@
    }

    /// Whether every bit of `other` is set in `self`.
    #[verifier::when_used_as_spec(spec_contains)]
    pub fn contains(&self, other: Self) -> (held: bool)
        ensures
            held == self.spec_contains(other),
    {
        self.raw & other.raw == other.raw
    }

    /// Whether a conversion start is requested.
    pub fn initiate_conversion(&self) -> (set: bool)
        ensures
            set == (self@ & Self::INITIATE_CONVERSION != 0),
    {
        self.raw & Self::INITIATE_CONVERSION != 0
    }

    /// Whether every pin is forced to be an analog input.
    pub fn override_other_settings_to_all_channels_as_analog_inputs(&self) -> (set: bool)
        ensures
            set == (self@ & Self::OVERRIDE_OTHER_SETTINGS_TO_ALL_CHANNELS_AS_ANALOG_INPUTS != 0),
    {
        self.raw & Self::OVERRIDE_OTHER_SETTINGS_TO_ALL_CHANNELS_AS_ANALOG_INPUTS != 0
    }

    /// Whether offset calibration is requested or still running.
    pub fn calibrate_adc_offset(&self) -> (set: bool)
        ensures
            set == (self@ & Self::CALIBRATE_ADC_OFFSET != 0),
    {
        self.raw & Self::CALIBRATE_ADC_OFFSET != 0
    }

    /// Whether a device reset is requested.
    pub fn reset(&self) -> (set: bool)
        ensures
            set == (self@ & Self::RESET != 0),
    {
        self.raw & Self::RESET != 0
    }
}

/// What the device puts into each frame of its data stream.
#[derive(Debug, Clone, Copy, PartialEq, Eq, Structural)]
pub enum DataConfig {
    NormalDataNoChannelID,
    NormalDataAddChannelID,
    FixedDataNoChannelID,
    FixedDataAddChannelID,
}

impl DataConfig {
    /// The value of the Data Config register.
    pub open spec fn spec_value(self) -> u8 {
        match self {
            DataConfig::NormalDataNoChannelID => 0b_0000_0000,
            DataConfig::NormalDataAddChannelID => 0b_0001_0000,
            DataConfig::FixedDataNoChannelID => 0b_1000_0000,
            DataConfig::FixedDataAddChannelID => 0b_1001_0000,
        }
    }

    /// The value of the Data Config register.
    #[verifier::when_used_as_spec(spec_value)]
    pub fn value(self) -> (value: u8)
        ensures
            value == self.spec_value(),
    {
        match self {
            DataConfig::NormalDataNoChannelID => 0b_0000_0000,
            DataConfig::NormalDataAddChannelID => 0b_0001_0000,
            DataConfig::FixedDataNoChannelID => 0b_1000_0000,
            DataConfig::FixedDataAddChannelID => 0b_1001_0000,
        }
    }
}

/// How many conversions the device averages into one sample.
#[non_exhaustive]
#[derive(Debug, Clone, Copy, PartialEq, Eq, Structural)]
pub enum Oversampling {
    Ratio0,
    Ratio2,
    Ratio4,
    Ratio8,
    Ratio16,
    Ratio32,
    Ratio64,
    Ratio128,
}

impl Oversampling {
    /// The value of the Oversampling Config register.
    pub open spec fn spec_value(self) -> u8 {
        match self {
            Oversampling::Ratio0 => 0b_0000_0000,
            Oversampling::Ratio2 => 0b_0000_0001,
            Oversampling::Ratio4 => 0b_0000_0010,
            Oversampling::Ratio8 => 0b_0000_0011,
            Oversampling::Ratio16 => 0b_0000_0100,
            Oversampling::Ratio32 => 0b_0000_0101,
            Oversampling::Ratio64 => 0b_0000_0110,
            Oversampling::Ratio128 => 0b_0000_0111,
        }
    }

    /// The value of the Oversampling Config register.
    #[verifier::when_used_as_spec(spec_value)]
    pub fn value(self) -> (value: u8)
        ensures
            value == self.spec_value(),
    {
        match self {
            Oversampling::Ratio0 => 0b_0000_0000,
            Oversampling::Ratio2 => 0b_0000_0001,
            Oversampling::Ratio4 => 0b_0000_0010,
            Oversampling::Ratio8 => 0b_0000_0011,
            Oversampling::Ratio16 => 0b_0000_0100,
            Oversampling::Ratio32 => 0b_0000_0101,
            Oversampling::Ratio64 => 0b_0000_0110,
            Oversampling::Ratio128 => 0b_0000_0111,
        }
    }
}

/// The oscillator and the sampling rate it is divided to.
#[allow(non_camel_case_types)]
#[non_exhaustive]
#[derive(Debug, Clone, Copy, PartialEq, Eq, Structural)]
pub enum SamplingRate {
    HighSpeedOscillator_1_000_xxx_Sps,
    HighSpeedOscillator_666_7xx_Sps,
    HighSpeedOscillator_500_xxx_Sps,
    HighSpeedOscillator_333_3xx_Sps,
    HighSpeedOscillator_250_xxx_Sps,
    HighSpeedOscillator_166_7xx_Sps,
    HighSpeedOscillator_125_xxx_Sps,
    HighSpeedOscillator_83_xxx_Sps,
    HighSpeedOscillator_62_5xx_Sps,
    HighSpeedOscillator_41_7xx_Sps,
    HighSpeedOscillator_31_3xx_Sps,
    HighSpeedOscillator_20_8xx_Sps,
    HighSpeedOscillator_15_6xx_Sps,
    HighSpeedOscillator_10_4xx_Sps,
    HighSpeedOscillator_7_8xx_Sps,
    HighSpeedOscillator_5_2xx_Sps,
    LowSpeedOscillator_31_25x_Sps,
    LowSpeedOscillator_20_83x_Sps,
    LowSpeedOscillator_15_63x_Sps,
    LowSpeedOscillator_10_42x_Sps,
    LowSpeedOscillator_7_81x_Sps,
    LowSpeedOscillator_5_21x_Sps,
    LowSpeedOscillator_3_91x_Sps,
    LowSpeedOscillator_2_60x_Sps,
    LowSpeedOscillator_1_95x_Sps,
    LowSpeedOscillator_1_30x_Sps,
    LowSpeedOscillator_0_98x_Sps,
    LowSpeedOscillator_0_65x_Sps,
    LowSpeedOscillator_0_49x_Sps,
    LowSpeedOscillator_0_33x_Sps,
    LowSpeedOscillator_0_24x_Sps,
    LowSpeedOscillator_0_16x_Sps,
}

impl SamplingRate {
    /// The value of the Operating-Mode Config register.
    pub open spec fn spec_value(self) -> u8 {
        match self {
            SamplingRate::HighSpeedOscillator_1_000_xxx_Sps => 0b_0000_0000,
            SamplingRate::HighSpeedOscillator_666_7xx_Sps => 0b_0000_0001,
            SamplingRate::HighSpeedOscillator_500_xxx_Sps => 0b_0000_0010,
            SamplingRate::HighSpeedOscillator_333_3xx_Sps => 0b_0000_0011,
            SamplingRate::HighSpeedOscillator_250_xxx_Sps => 0b_0000_0100,
            SamplingRate::HighSpeedOscillator_166_7xx_Sps => 0b_0000_0101,
            SamplingRate::HighSpeedOscillator_125_xxx_Sps => 0b_0000_0110,
            SamplingRate::HighSpeedOscillator_83_xxx_Sps => 0b_0000_0111,
            SamplingRate::HighSpeedOscillator_62_5xx_Sps => 0b_0000_1000,
            SamplingRate::HighSpeedOscillator_41_7xx_Sps => 0b_0000_1001,
            SamplingRate::HighSpeedOscillator_31_3xx_Sps => 0b_0000_1010,
            SamplingRate::HighSpeedOscillator_20_8xx_Sps => 0b_0000_1011,
            SamplingRate::HighSpeedOscillator_15_6xx_Sps => 0b_0000_1100,
            SamplingRate::HighSpeedOscillator_10_4xx_Sps => 0b_0000_1101,
            SamplingRate::HighSpeedOscillator_7_8xx_Sps => 0b_0000_1110,
            SamplingRate::HighSpeedOscillator_5_2xx_Sps => 0b_0000_1111,
            SamplingRate::LowSpeedOscillator_31_25x_Sps => 0b_0001_0000,
            SamplingRate::LowSpeedOscillator_20_83x_Sps => 0b_0001_0001,
            SamplingRate::LowSpeedOscillator_15_63x_Sps => 0b_0001_0010,
            SamplingRate::LowSpeedOscillator_10_42x_Sps => 0b_0001_0011,
            SamplingRate::LowSpeedOscillator_7_81x_Sps => 0b_0001_0100,
            SamplingRate::LowSpeedOscillator_5_21x_Sps => 0b_0001_0101,
            SamplingRate::LowSpeedOscillator_3_91x_Sps => 0b_0001_0110,
            SamplingRate::LowSpeedOscillator_2_60x_Sps => 0b_0001_0111,
            SamplingRate::LowSpeedOscillator_1_95x_Sps => 0b_0001_1000,
            SamplingRate::LowSpeedOscillator_1_30x_Sps => 0b_0001_1001,
            SamplingRate::LowSpeedOscillator_0_98x_Sps => 0b_0001_1010,
            SamplingRate::LowSpeedOscillator_0_65x_Sps => 0b_0001_1011,
            SamplingRate::LowSpeedOscillator_0_49x_Sps => 0b_0001_1100,
            SamplingRate::LowSpeedOscillator_0_33x_Sps => 0b_0001_1101,
            SamplingRate::LowSpeedOscillator_0_24x_Sps => 0b_0001_1110,
            SamplingRate::LowSpeedOscillator_0_16x_Sps => 0b_0001_1111,
        }
    }

    /// The value of the Operating-Mode Config register.
    #[verifier::when_used_as_spec(spec_value)]
    pub fn value(self) -> (value: u8)
        ensures
            value == self.spec_value(),
    {
        match self {
            SamplingRate::HighSpeedOscillator_1_000_xxx_Sps => 0b_0000_0000,
            SamplingRate::HighSpeedOscillator_666_7xx_Sps => 0b_0000_0001,
            SamplingRate::HighSpeedOscillator_500_xxx_Sps => 0b_0000_0010,
            SamplingRate::HighSpeedOscillator_333_3xx_Sps => 0b_0000_0011,
            SamplingRate::HighSpeedOscillator_250_xxx_Sps => 0b_0000_0100,
            SamplingRate::HighSpeedOscillator_166_7xx_Sps => 0b_0000_0101,
            SamplingRate::HighSpeedOscillator_125_xxx_Sps => 0b_0000_0110,
            SamplingRate::HighSpeedOscillator_83_xxx_Sps => 0b_0000_0111,
            SamplingRate::HighSpeedOscillator_62_5xx_Sps => 0b_0000_1000,
            SamplingRate::HighSpeedOscillator_41_7xx_Sps => 0b_0000_1001,
            SamplingRate::HighSpeedOscillator_31_3xx_Sps => 0b_0000_1010,
            SamplingRate::HighSpeedOscillator_20_8xx_Sps => 0b_0000_1011,
            SamplingRate::HighSpeedOscillator_15_6xx_Sps => 0b_0000_1100,
            SamplingRate::HighSpeedOscillator_10_4xx_Sps => 0b_0000_1101,
            SamplingRate::HighSpeedOscillator_7_8xx_Sps => 0b_0000_1110,
            SamplingRate::HighSpeedOscillator_5_2xx_Sps => 0b_0000_1111,
            SamplingRate::LowSpeedOscillator_31_25x_Sps => 0b_0001_0000,
            SamplingRate::LowSpeedOscillator_20_83x_Sps => 0b_0001_0001,
            SamplingRate::LowSpeedOscillator_15_63x_Sps => 0b_0001_0010,
            SamplingRate::LowSpeedOscillator_10_42x_Sps => 0b_0001_0011,
            SamplingRate::LowSpeedOscillator_7_81x_Sps => 0b_0001_0100,
            SamplingRate::LowSpeedOscillator_5_21x_Sps => 0b_0001_0101,
            SamplingRate::LowSpeedOscillator_3_91x_Sps => 0b_0001_0110,
            SamplingRate::LowSpeedOscillator_2_60x_Sps => 0b_0001_0111,
            SamplingRate::LowSpeedOscillator_1_95x_Sps => 0b_0001_1000,
            SamplingRate::LowSpeedOscillator_1_30x_Sps => 0b_0001_1001,
            SamplingRate::LowSpeedOscillator_0_98x_Sps => 0b_0001_1010,
            SamplingRate::LowSpeedOscillator_0_65x_Sps => 0b_0001_1011,
            SamplingRate::LowSpeedOscillator_0_49x_Sps => 0b_0001_1100,
            SamplingRate::LowSpeedOscillator_0_33x_Sps => 0b_0001_1101,
            SamplingRate::LowSpeedOscillator_0_24x_Sps => 0b_0001_1110,
            SamplingRate::LowSpeedOscillator_0_16x_Sps => 0b_0001_1111,
        }
    }
}

/// The acquisition mode: who decides which channel is converted next.
#[derive(Debug, Clone, Copy, PartialEq, Eq, Structural)]
pub enum SequenceConfig {
    /// The device converts the channel that Channel Select names.
    Manual,
    /// The device is set up to cycle through its enabled channels, and waits.
    StoppedAuto,
    /// The device cycles through its enabled channels.
    StartedAuto,
}

impl SequenceConfig {
    /// The value of the Sequence Config register.
    pub open spec fn spec_value(self) -> u8 {
        match self {
            SequenceConfig::Manual => 0b_0000_0000,
            SequenceConfig::StoppedAuto => 0b_0000_0001,
            SequenceConfig::StartedAuto => 0b_0001_0001,
        }
    }

    /// The value of the Sequence Config register.
    #[verifier::when_used_as_spec(spec_value)]
    pub fn value(self) -> (value: u8)
        ensures
            value == self.spec_value(),
    {
        match self {
            SequenceConfig::Manual => 0b_0000_0000,
            SequenceConfig::StoppedAuto => 0b_0000_0001,
            SequenceConfig::StartedAuto => 0b_0001_0001,
        }
    }
}

/// A flag set made from a register's byte gives back that very byte: no bit
/// is dropped, whether or not the set has a name for it.
pub proof fn lemma_flags_retain_all_bits(bits: u8)
    ensures
        SystemStatusFlags::from_bits_retain(bits).bits() == bits,
        GeneralConfigFlags::from_bits_retain(bits).bits() == bits,
{
}

} // verus!
