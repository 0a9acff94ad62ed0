//! Urgency levels of a notification.

use vstd::prelude::*;

verus! {

/// How urgently a notification asks for the user's attention.
#[derive(Clone, Copy, Debug, PartialEq, Eq, Hash, Structural)]
pub enum Urgency {
    /// Low urgency, wire byte 0.
    Low,
    /// Normal urgency, wire byte 1.
    Normal,
    /// Critical urgency, wire byte 2.
    Critical,
}

impl Urgency {
    /// The byte that stands for this level on the wire.
    pub open spec fn wire_byte(self) -> u8 {
        match self {
            Urgency::Low => 0u8,
            Urgency::Normal => 1u8,
            Urgency::Critical => 2u8,
        }
    }

    /// The level that a wire byte stands for, if it stands for one.
    pub open spec fn of_wire_byte(byte: u8) -> Option<Urgency> {
        if byte == 0 {
            Some(Urgency::Low)
        } else if byte == 1 {
            Some(Urgency::Normal)
        } else if byte == 2 {
            Some(Urgency::Critical)
        } else {
            None
        }
    }

    /// Encodes the level as its wire byte.
    pub fn to_byte(self) -> (byte: u8)
        ensures
            byte == self.wire_byte(),
    {
        match self {
            Urgency::Low => 0,
            Urgency::Normal => 1,
            Urgency::Critical => 2,
        }
    }

    /// Decodes a wire byte; only 0, 1 and 2 stand for a level.
    pub fn from_byte(byte: u8) -> (level: Option<Urgency>)
        ensures
            level == Urgency::of_wire_byte(byte),
    {
        if byte == 0 {
            Some(Urgency::Low)
        } else if byte == 1 {
            Some(Urgency::Normal)
        } else if byte == 2 {
            Some(Urgency::Critical)
        } else {
            None
        }
    }
}

} // verus!
