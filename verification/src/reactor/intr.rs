use crate::error::SystemError;
use crate::reactor::epoll::{Epoll, EpollView};
use vstd::prelude::*;

verus! {

/// The interrupter, as a mathematical value.
#[verifier::ext_equal]
pub struct IntrView<Op> {
    /// The handle of the read end.
    pub read_end: EpollView<Op>,
    /// The descriptor of the write end.
    pub write_fd: i32,
}

/// The interrupter: a pipe whose read end is subscribed to the multiplexer
/// and whose write end wakes a blocked poll.
pub struct Intr<Op> {
    rfd: Epoll<Op>,
    wfd: i32,
}

impl<Op> View for Intr<Op> {
    type V = IntrView<Op>;

    closed spec fn view(&self) -> IntrView<Op> {
        IntrView { read_end: self.rfd@, write_fd: self.wfd }
    }
}

impl<Op> Intr<Op> {
    /// The handle of the read end is an interrupter's, and nothing ever
    /// waits on it.
    #[verifier::type_invariant]
    spec fn wf(self) -> bool {
        self.rfd@ == EpollView::<Op>::intr(self.rfd@.fd)
    }

    /// The descriptor of the read end.
    pub open spec fn read_fd(&self) -> i32 {
        self@.read_end.fd
    }

    /// The descriptor of the write end.
    pub open spec fn write_fd(&self) -> i32 {
        self@.write_fd
    }

    /// The interrupter over the pipe whose read end is `rfd` and whose write
    /// end is `wfd`.
    pub fn new(rfd: i32, wfd: i32) -> (intr: Self)
        ensures
            intr@ == (IntrView { read_end: EpollView::<Op>::intr(rfd), write_fd: wfd }),
    {
        Intr { rfd: Epoll::intr(rfd), wfd }
    }

    /// The handle of the read end, which is what the multiplexer watches: an
    /// interrupter's handle on which nothing waits.
    pub fn handle(&self) -> (eev: &Epoll<Op>)
        ensures
            eev@ == self@.read_end,
            eev@ == EpollView::<Op>::intr(self.read_fd()),
    {
        proof {
            use_type_invariant(self);
        }
        &self.rfd
    }

    /// The descriptor to which one byte is written to wake a blocked poll.
    pub fn interrupt(&self) -> (wfd: i32)
        ensures
            wfd == self.write_fd(),
    {
        self.wfd
    }
}

/// What the draining of an interrupter does next.
#[derive(Clone, Copy, Debug, PartialEq, Eq, Structural)]
pub enum DrainStep {
    /// Read from the read end without blocking, throw the bytes away, and
    /// come back with the outcome.
    Read,
    /// Nothing is left to read.
    Stop,
}

/// The next step of draining an interrupter. `last` is the outcome of the
/// read that was made last, if one was made: how many bytes it gave, or the
/// error with which it failed. The read end is read again and again for as
/// long as reads give bytes, so that one wake-up clears every interrupt that
/// is pending; an interrupted read is made again. The draining ends when a
/// read would block, and also when a read gives no bytes or fails otherwise.
pub open spec fn drain_step(last: Option<Result<usize, SystemError>>) -> DrainStep {
    match last {
        None => DrainStep::Read,
        Some(Ok(n)) => if n > 0 {
            DrainStep::Read
        } else {
            DrainStep::Stop
        },
        Some(Err(err)) => if err == SystemError::Interrupted {
            DrainStep::Read
        } else {
            DrainStep::Stop
        },
    }
}

/// Decides the next step of draining an interrupter.
pub fn drain_intr(last: Option<Result<usize, SystemError>>) -> (step: DrainStep)
    ensures
        step == drain_step(last),
{
    match last {
        None => DrainStep::Read,
        Some(Ok(n)) => if n > 0 {
            DrainStep::Read
        } else {
            DrainStep::Stop
        },
        Some(Err(SystemError::Interrupted)) => DrainStep::Read,
        Some(Err(_)) => DrainStep::Stop,
    }
}

} // verus!
