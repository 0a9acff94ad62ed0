//! How long a notification stays on screen.

use vstd::prelude::*;
use vstd::std_specs::convert::FromSpecImpl;

verus! {

/// The lifetime of a notification.
///
/// On the wire a timeout is a signed 32 bit integer: `-1` leaves the choice to
/// the server, `0` never expires, a positive number is a time in milliseconds.
#[derive(Clone, Copy, Debug, PartialEq, Eq, Structural)]
pub enum Timeout {
    /// The server decides.
    Default,
    /// The notification never expires.
    Never,
    /// The notification expires after this many milliseconds.
    Milliseconds(u32),
}

impl Timeout {
    /// The wire integer of a timeout. A millisecond count beyond the largest
    /// wire integer is clamped to it.
    pub open spec fn wire(self) -> i32 {
        match self {
            Timeout::Default => -1i32,
            Timeout::Never => 0i32,
            Timeout::Milliseconds(ms) => if ms <= i32::MAX {
                ms as i32
            } else {
                i32::MAX
            },
        }
    }

    /// The timeout that a wire integer stands for. Every negative integer
    /// leaves the choice to the server.
    pub open spec fn of_wire(wire: i32) -> Timeout {
        if wire < 0 {
            Timeout::Default
        } else if wire == 0 {
            Timeout::Never
        } else {
            Timeout::Milliseconds(wire as u32)
        }
    }

    /// Whether the wire integer of this timeout decodes to the same timeout:
    /// a millisecond count must be positive and fit the wire integer.
    pub open spec fn representable(self) -> bool {
        self matches Timeout::Milliseconds(ms) ==> 0 < ms <= i32::MAX
    }

    /// Encodes the timeout as its wire integer.
    pub fn to_wire(self) -> (wire: i32)
        ensures
            wire == self.wire(),
            wire >= -1,
    {
        match self {
            Timeout::Default => -1,
            Timeout::Never => 0,
            Timeout::Milliseconds(ms) => if ms <= 0x7fff_ffff {
                ms as i32
            } else {
                i32::MAX
            },
        }
    }

    /// Decodes a wire integer.
    pub fn from_wire(wire: i32) -> (timeout: Timeout)
        ensures
            timeout == Timeout::of_wire(wire),
            timeout.representable(),
    {
        if wire < 0 {
            Timeout::Default
        } else if wire == 0 {
            Timeout::Never
        } else {
            Timeout::Milliseconds(wire as u32)
        }
    }

    /// Whether the timeout calls for a long-lived toast on platforms that
    /// only know a short and a long display time: never expiring, or at
    /// least 25 seconds.
    pub open spec fn long_lived(self) -> bool {
        match self {
            Timeout::Default => false,
            Timeout::Never => true,
            Timeout::Milliseconds(ms) => ms >= 25000,
        }
    }

    /// Decides between the short and the long display time of a toast.
    pub fn is_long_lived(self) -> (long: bool)
        ensures
            long == self.long_lived(),
    {
        match self {
            Timeout::Default => false,
            Timeout::Never => true,
            Timeout::Milliseconds(ms) => ms >= 25000,
        }
    }
}

/// What can be given where a timeout is asked for: a timeout itself, or
/// the wire integer of one.
pub trait IntoTimeout: Sized {
    /// The timeout that the value stands for.
    spec fn timeout_spec(self) -> Timeout;

    /// Gives the timeout that the value stands for.
    fn into_timeout(self) -> (timeout: Timeout)
        ensures
            timeout == self.timeout_spec(),
    ;
}

impl IntoTimeout for Timeout {
    open spec fn timeout_spec(self) -> Timeout {
        self
    }

    fn into_timeout(self) -> (timeout: Timeout) {
        self
    }
}

impl IntoTimeout for i32 {
    open spec fn timeout_spec(self) -> Timeout {
        Timeout::of_wire(self)
    }

    fn into_timeout(self) -> (timeout: Timeout) {
        Timeout::from_wire(self)
    }
}

impl From<i32> for Timeout {
    fn from(wire: i32) -> (timeout: Timeout) {
        Timeout::from_wire(wire)
    }
}

impl FromSpecImpl<i32> for Timeout {
    open spec fn obeys_from_spec() -> bool {
        true
    }

    open spec fn from_spec(wire: i32) -> Timeout {
        Timeout::of_wire(wire)
    }
}

impl From<Timeout> for i32 {
    fn from(timeout: Timeout) -> (wire: i32) {
        timeout.to_wire()
    }
}

impl FromSpecImpl<Timeout> for i32 {
    open spec fn obeys_from_spec() -> bool {
        true
    }

    open spec fn from_spec(timeout: Timeout) -> i32 {
        timeout.wire()
    }
}

/// Encoding a representable timeout and decoding the result gives the
/// timeout back.
pub proof fn lemma_timeout_round_trip(timeout: Timeout)
    requires
        timeout.representable(),
    ensures
        Timeout::of_wire(timeout.wire()) == timeout,
{
}

/// Decoding a wire integer that is at least `-1` and encoding the result
/// gives the integer back.
pub proof fn lemma_wire_round_trip(wire: i32)
    requires
        wire >= -1,
    ensures
        Timeout::of_wire(wire).wire() == wire,
{
}

} // verus!
