//! The eight analog inputs of the converter.

use vstd::prelude::*;
use vstd::std_specs::convert::TryFromSpecImpl;
use crate::error::Error;

verus! {

/// One of the eight analog inputs.
#[derive(Debug, Clone, Copy, PartialEq, Eq, Structural)]
pub enum Channel {
    Channel0,
    Channel1,
    Channel2,
    Channel3,
    Channel4,
    Channel5,
    Channel6,
    Channel7,
}

impl Channel {
    /// The channel's number, 0 to 7, as the device's registers and stream tags carry it.
    pub open spec fn spec_value(self) -> u8 {
        match self {
            Channel::Channel0 => 0,
            Channel::Channel1 => 1,
            Channel::Channel2 => 2,
            Channel::Channel3 => 3,
            Channel::Channel4 => 4,
            Channel::Channel5 => 5,
            Channel::Channel6 => 6,
            Channel::Channel7 => 7,
        }
    }

    /// The channel that a number names, if it names one.
    pub open spec fn from_value(value: u8) -> Option<Channel> {
        match value {
            0 => Some(Channel::Channel0),
            1 => Some(Channel::Channel1),
            2 => Some(Channel::Channel2),
            3 => Some(Channel::Channel3),
            4 => Some(Channel::Channel4),
            5 => Some(Channel::Channel5),
            6 => Some(Channel::Channel6),
            7 => Some(Channel::Channel7),
            _ => None,
        }
    }

    /// The channel's number, 0 to 7, as the device's registers and stream tags carry it.
    #[verifier::when_used_as_spec(spec_value)]
    pub fn value(self) -> (value: u8)
        ensures
            value == self.spec_value(),
            value <= 7,
    {
        match self {
            Channel::Channel0 => 0,
            Channel::Channel1 => 1,
            Channel::Channel2 => 2,
            Channel::Channel3 => 3,
            Channel::Channel4 => 4,
            Channel::Channel5 => 5,
            Channel::Channel6 => 6,
            Channel::Channel7 => 7,
        }
    }
}

impl TryFrom<u8> for Channel {
    type Error = ();

    /// Accepts exactly the numbers 0 to 7; anything else is rejected, never clamped.
    fn try_from(value: u8) -> (result: Result<Channel, ()>)
        ensures
            result is Ok <==> value <= 7,
            result == match Channel::from_value(value) {
                Some(channel) => Ok::<Channel, ()>(channel),
                None => Err(()),
            },
    {
        match value {
            0 => Ok(Channel::Channel0),
            1 => Ok(Channel::Channel1),
            2 => Ok(Channel::Channel2),
            3 => Ok(Channel::Channel3),
            4 => Ok(Channel::Channel4),
            5 => Ok(Channel::Channel5),
            6 => Ok(Channel::Channel6),
            7 => Ok(Channel::Channel7),
            _ => Err(()),
        }
    }
}

impl TryFromSpecImpl<u8> for Channel {
    open spec fn obeys_try_from_spec() -> bool {
        true
    }

    open spec fn try_from_spec(value: u8) -> Result<Channel, ()> {
        match Channel::from_value(value) {
            Some(channel) => Ok(channel),
            None => Err(()),
        }
    }
}

/// The channel that a stream frame's tag byte names: its high nibble.
pub open spec fn tag_channel(tag: u8) -> Option<Channel> {
    Channel::from_value(tag / 16)
}

/// Decodes the tag byte of a stream frame. Only the high nibble is read; a
/// nibble above 7 names no channel and is an error.
pub fn try_from_i2c_data<E>(value: u8) -> (result: Result<Channel, Error<E>>)
    ensures
        result == match tag_channel(value) {
            Some(channel) => Ok::<Channel, Error<E>>(channel),
            None => Err(Error::InvalidChannelAddress),
        },
{
    let nibble: u8 = value >> 4;
    assert(nibble == value / 16) by (bit_vector)
        requires
            nibble == value >> 4,
    ;
    match nibble {
        0 => Ok(Channel::Channel0),
        1 => Ok(Channel::Channel1),
        2 => Ok(Channel::Channel2),
        3 => Ok(Channel::Channel3),
        4 => Ok(Channel::Channel4),
        5 => Ok(Channel::Channel5),
        6 => Ok(Channel::Channel6),
        7 => Ok(Channel::Channel7),
        _ => Err(Error::InvalidChannelAddress),
    }
}

/// Every channel is rebuilt from its own number, and a number is accepted
/// exactly when it is at most 7.
pub proof fn lemma_channel_round_trip(channel: Channel, value: u8)
    ensures
        Channel::from_value(channel.value()) == Some(channel),
        Channel::from_value(value) is Some <==> value <= 7,
        Channel::from_value(value) matches Some(c) ==> c.value() == value,
{
}

/// The low nibble of a tag byte never changes the channel it decodes to.
pub proof fn lemma_tag_ignores_low_nibble(tag: u8, low: u8)
    ensures
        tag_channel((tag & 0xF0) | (low & 0x0F)) == tag_channel(tag),
{
    assert(((tag & 0xF0) | (low & 0x0F)) / 16 == tag / 16) by (bit_vector);
}

} // verus!
