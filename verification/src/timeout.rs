use vstd::prelude::*;

verus! {

/// A soft deadline for the operations of a socket, in milliseconds.
#[derive(Clone, Copy, Debug, PartialEq, Eq, Structural)]
pub struct Timeout {
    pub millis: u32,
}

impl Timeout {
    /// The longest deadline there is.
    pub fn max() -> (timeout: Self)
        ensures
            timeout == (Timeout { millis: u32::MAX }),
    {
        Timeout { millis: u32::MAX }
    }
}

impl Default for Timeout {
    /// No time at all.
    fn default() -> (timeout: Self)
        ensures
            timeout == (Timeout { millis: 0 }),
    {
        Timeout { millis: 0 }
    }
}

} // verus!
