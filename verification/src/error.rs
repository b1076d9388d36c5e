use vstd::prelude::*;

verus! {

/// What an operation is told when it is handed to an executor, and what a
/// failed call reports, by kind.
#[derive(Clone, Copy, Debug, PartialEq, Eq, Structural)]
pub enum SystemError {
    /// No error: the operation may proceed.
    Success,
    /// The operation was drained from its queue by a cancellation.
    OperationCanceled,
    /// A per-handle deadline expired while the operation was pending.
    TimedOut,
    /// A signal was added twice or removed without being a member, or an
    /// endpoint had the wrong address family.
    InvalidArgument,
    /// A resolver produced no endpoint that could be connected.
    ServiceNotFound,
    /// A read returned no bytes.
    Eof,
    /// The reactor was shut down while the operation was pending.
    Stopped,
    /// A non-blocking system call had nothing to do yet.
    WouldBlock,
    /// A system call was interrupted before it did anything.
    Interrupted,
    /// Any other error of the operating system, by its raw number.
    Os(i32),
}

impl SystemError {
    /// Whether this value denotes success.
    pub fn is_success(&self) -> (ok: bool)
        ensures
            ok == (*self == SystemError::Success),
    {
        match self {
            SystemError::Success => true,
            _ => false,
        }
    }
}

impl Default for SystemError {
    fn default() -> (err: Self)
        ensures
            err == SystemError::Success,
    {
        SystemError::Success
    }
}

} // verus!
