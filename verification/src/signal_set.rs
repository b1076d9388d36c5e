//! A signal set over a signal descriptor: which signals it is subscribed to,
//! who waits for the next one, and what a wait does with each answer of the
//! kernel.

use crate::error::SystemError;
use crate::executor::{IoContext, ThreadIoContext};
use crate::signal::{members_after, refused, requests_of, KernelRequest, MembershipCall, Signal, SignalMask};
use vstd::prelude::*;

verus! {

/// What one read of the signal descriptor gave.
#[derive(Clone, Copy, Debug, PartialEq, Eq)]
pub enum ReadOutcome {
    /// One record, which names this signal.
    Record(Signal),
    /// No bytes: the descriptor is at its end.
    Eof,
    /// The read failed with this error.
    Failed(SystemError),
}

/// What a blocking wait does next.
#[derive(Clone, Copy, Debug, PartialEq, Eq)]
pub enum ReadStep {
    /// Read one record from the descriptor, and come back with the outcome.
    Read,
    /// The wait is over, with this result.
    Done(Result<Signal, SystemError>),
}

/// What an asynchronous wait does next.
#[derive(Clone, Copy, Debug, PartialEq, Eq)]
pub enum AsyncReadStep {
    /// Read one record from the descriptor without blocking, and come back
    /// with the outcome. Before the first read the descriptor is switched to
    /// non-blocking mode, and the mode that it had is remembered.
    Read,
    /// Nothing is there to read: give the descriptor its mode back and arm
    /// the wait again.
    Rearm,
    /// The wait is over: give the descriptor its mode back where
    /// `restore_mode` says so, and hand `result` to the handler.
    Complete { result: Result<Signal, SystemError>, restore_mode: bool },
}

/// The next step of a blocking wait. `last` is the outcome of the read that
/// was made last, if one was made; `stopped` says whether the reactor has
/// been shut down. A record ends the wait with its signal, the end of the
/// descriptor with `Eof`, and a failed read with its error, except that an
/// interrupted read is made again. No read is made once the reactor has been
/// shut down: the wait then ends with `Stopped`.
pub open spec fn read_step(stopped: bool, last: Option<ReadOutcome>) -> ReadStep {
    match last {
        Some(ReadOutcome::Record(sig)) => ReadStep::Done(Ok(sig)),
        Some(ReadOutcome::Eof) => ReadStep::Done(Err(SystemError::Eof)),
        Some(ReadOutcome::Failed(err)) if err != SystemError::Interrupted => ReadStep::Done(
            Err(err),
        ),
        _ => if stopped {
            ReadStep::Done(Err(SystemError::Stopped))
        } else {
            ReadStep::Read
        },
    }
}

/// The next step of an asynchronous wait whose handler was performed with
/// `ec`. With `Success` the descriptor is ready: the wait goes on as a
/// blocking one does, except that a read that has nothing to do yet arms the
/// wait again. Whenever the wait ends or is armed again after the descriptor
/// was switched to non-blocking mode, the descriptor gets its mode back. With
/// any other value of `ec` the wait ends with that error, and the descriptor
/// is not touched.
pub open spec fn async_read_step(
    ec: SystemError,
    stopped: bool,
    last: Option<ReadOutcome>,
) -> AsyncReadStep {
    if ec != SystemError::Success {
        AsyncReadStep::Complete { result: Err(ec), restore_mode: false }
    } else {
        match last {
            Some(ReadOutcome::Record(sig)) => AsyncReadStep::Complete {
                result: Ok(sig),
                restore_mode: true,
            },
            Some(ReadOutcome::Eof) => AsyncReadStep::Complete {
                result: Err(SystemError::Eof),
                restore_mode: true,
            },
            Some(ReadOutcome::Failed(err)) if err == SystemError::WouldBlock => AsyncReadStep::Rearm,
            Some(ReadOutcome::Failed(err)) if err != SystemError::Interrupted => AsyncReadStep::Complete {
                result: Err(err),
                restore_mode: true,
            },
            _ => if stopped {
                AsyncReadStep::Complete { result: Err(SystemError::Stopped), restore_mode: true }
            } else {
                AsyncReadStep::Read
            },
        }
    }
}

/// Decides the next step of a blocking wait.
pub fn signalfd_read(stopped: bool, last: Option<ReadOutcome>) -> (step: ReadStep)
    ensures
        step == read_step(stopped, last),
{
    match last {
        Some(ReadOutcome::Record(sig)) => ReadStep::Done(Ok(sig)),
        Some(ReadOutcome::Eof) => ReadStep::Done(Err(SystemError::Eof)),
        Some(ReadOutcome::Failed(SystemError::Interrupted)) | None => {
            if stopped {
                ReadStep::Done(Err(SystemError::Stopped))
            } else {
                ReadStep::Read
            }
        },
        Some(ReadOutcome::Failed(err)) => ReadStep::Done(Err(err)),
    }
}

/// Decides the next step of an asynchronous wait whose handler was performed
/// with `ec`.
pub fn signalfd_async_read(ec: SystemError, stopped: bool, last: Option<ReadOutcome>) -> (step:
    AsyncReadStep)
    ensures
        step == async_read_step(ec, stopped, last),
{
    if !ec.is_success() {
        return AsyncReadStep::Complete { result: Err(ec), restore_mode: false };
    }
    match last {
        Some(ReadOutcome::Record(sig)) => AsyncReadStep::Complete {
            result: Ok(sig),
            restore_mode: true,
        },
        Some(ReadOutcome::Eof) => AsyncReadStep::Complete {
            result: Err(SystemError::Eof),
            restore_mode: true,
        },
        Some(ReadOutcome::Failed(SystemError::WouldBlock)) => AsyncReadStep::Rearm,
        Some(ReadOutcome::Failed(SystemError::Interrupted)) | None => {
            if stopped {
                AsyncReadStep::Complete { result: Err(SystemError::Stopped), restore_mode: true }
            } else {
                AsyncReadStep::Read
            }
        },
        Some(ReadOutcome::Failed(err)) => AsyncReadStep::Complete {
            result: Err(err),
            restore_mode: true,
        },
    }
}

/// A signal set, as a mathematical value.
#[verifier::ext_equal]
pub struct SignalSetView<W> {
    /// The signal descriptor.
    pub fd: i32,
    /// The signals that the set is subscribed to.
    pub signals: Set<Signal>,
    /// The handler that waits for the next signal, if one does.
    pub waiter: Option<W>,
}

/// Whether the wait of a handler that was performed with `ec` has been
/// superseded: the descriptor was reported ready, the handler has read
/// nothing yet, and in the meantime another handler was armed.
pub open spec fn superseded<W>(set: SignalSetView<W>, ec: SystemError, last: Option<ReadOutcome>) -> bool {
    ec == SystemError::Success && last is None && set.waiter is Some
}

/// The waiter, if there is one, as what is handed to an executor with `err`.
pub open spec fn waiter_with<W>(waiter: Option<W>, err: SystemError) -> Seq<(W, SystemError)> {
    match waiter {
        Some(w) => seq![(w, err)],
        None => Seq::empty(),
    }
}

/// A signal set over a signal descriptor.
pub struct SignalSet<W> {
    fd: i32,
    mask: SignalMask,
    waiter: Option<W>,
}

impl<W> View for SignalSet<W> {
    type V = SignalSetView<W>;

    closed spec fn view(&self) -> SignalSetView<W> {
        SignalSetView { fd: self.fd, signals: self.mask@, waiter: self.waiter }
    }
}

impl<W> SignalSet<W> {
    /// The signal set over the descriptor `fd`, subscribed to nothing, with
    /// nobody waiting.
    pub fn new(fd: i32) -> (sig: Self)
        ensures
            sig@ == (SignalSetView { fd, signals: Set::<Signal>::empty(), waiter: None::<W> }),
    {
        SignalSet { fd, mask: SignalMask::new(), waiter: None }
    }

    /// Subscribes the set to `signal`. Where it is subscribed already, the
    /// call is refused with `InvalidArgument` and changes nothing. Otherwise
    /// it returns the requests to hand to the kernel, in order.
    pub fn add(&mut self, signal: Signal) -> (result: Result<Vec<KernelRequest>, SystemError>)
        ensures
            result is Err <==> refused(old(self)@.signals, MembershipCall::Add(signal)),
            final(self)@.fd == old(self)@.fd,
            final(self)@.waiter == old(self)@.waiter,
            match result {
                Ok(requests) => {
                    &&& final(self)@.signals == members_after(
                        old(self)@.signals,
                        MembershipCall::Add(signal),
                    )
                    &&& requests@ == requests_of(old(self)@.signals, MembershipCall::Add(signal))
                },
                Err(err) => err == SystemError::InvalidArgument && final(self)@.signals == old(
                    self,
                )@.signals,
            },
    {
        self.mask.add(signal)
    }

    /// Takes back an `add` of `signal` whose subscription the kernel refused.
    pub fn add_failed(&mut self, signal: Signal) -> (requests: Vec<KernelRequest>)
        ensures
            final(self)@ == (SignalSetView {
                signals: old(self)@.signals.remove(signal),
                ..old(self)@
            }),
            requests@ == if old(self)@.signals.contains(signal) {
                seq![KernelRequest::Unblock(signal)]
            } else {
                Seq::<KernelRequest>::empty()
            },
    {
        self.mask.add_failed(signal)
    }

    /// Ends the subscription to `signal`. Where there is none, the call is
    /// refused with `InvalidArgument` and changes nothing. Otherwise it
    /// returns the requests to hand to the kernel, in order.
    pub fn remove(&mut self, signal: Signal) -> (result: Result<Vec<KernelRequest>, SystemError>)
        ensures
            result is Err <==> refused(old(self)@.signals, MembershipCall::Remove(signal)),
            final(self)@.fd == old(self)@.fd,
            final(self)@.waiter == old(self)@.waiter,
            match result {
                Ok(requests) => {
                    &&& final(self)@.signals == members_after(
                        old(self)@.signals,
                        MembershipCall::Remove(signal),
                    )
                    &&& requests@ == requests_of(
                        old(self)@.signals,
                        MembershipCall::Remove(signal),
                    )
                },
                Err(err) => err == SystemError::InvalidArgument && final(self)@.signals == old(
                    self,
                )@.signals,
            },
    {
        self.mask.remove(signal)
    }

    /// Ends every subscription. Returns the requests to hand to the kernel,
    /// in the order of the list of signals. A second call in a row changes
    /// nothing and returns nothing.
    pub fn clear(&mut self) -> (requests: Vec<KernelRequest>)
        ensures
            final(self)@ == (SignalSetView { signals: Set::<Signal>::empty(), ..old(self)@ }),
            requests@ == requests_of(old(self)@.signals, MembershipCall::Clear),
    {
        self.mask.clear()
    }

    /// Whether the set is subscribed to `signal`.
    pub fn contains(&self, signal: Signal) -> (b: bool)
        ensures
            b == self@.signals.contains(signal),
    {
        self.mask.contains(signal)
    }

    /// Arms `handler` to wait for the next signal. At most one handler waits:
    /// one that waited before is posted to `ctx` with `OperationCanceled`.
    pub fn async_wait(&mut self, ctx: &mut IoContext<W>, handler: W)
        ensures
            final(self)@ == (SignalSetView { waiter: Some(handler), ..old(self)@ }),
            final(ctx)@ == old(ctx)@ + waiter_with(
                old(self)@.waiter,
                SystemError::OperationCanceled,
            ),
    {
        match self.waiter.take() {
            Some(previous) => {
                ctx.do_post((previous, SystemError::OperationCanceled));
            },
            None => {},
        }
        self.waiter = Some(handler);
    }

    /// Cancels the wait: the handler that waits, if one does, is posted to
    /// `ctx` with `OperationCanceled`.
    pub fn cancel(&mut self, ctx: &mut IoContext<W>)
        ensures
            final(self)@ == (SignalSetView { waiter: None::<W>, ..old(self)@ }),
            final(ctx)@ == old(ctx)@ + waiter_with(
                old(self)@.waiter,
                SystemError::OperationCanceled,
            ),
    {
        match self.waiter.take() {
            Some(previous) => {
                ctx.do_post((previous, SystemError::OperationCanceled));
            },
            None => {},
        }
    }

    /// The descriptor became readable: the handler that waits, if one does,
    /// is pushed to `this` with `Success`, and waits no more.
    pub fn on_readiness(&mut self, this: &mut ThreadIoContext<W>)
        ensures
            final(self)@ == (SignalSetView { waiter: None::<W>, ..old(self)@ }),
            final(this)@.pending == old(this)@.pending + waiter_with(
                old(self)@.waiter,
                SystemError::Success,
            ),
            final(this)@.posted == old(this)@.posted,
    {
        match self.waiter.take() {
            Some(handler) => {
                this.push(handler, SystemError::Success);
            },
            None => {},
        }
    }

    /// The next step of the asynchronous wait of a handler that was taken
    /// from the set and performed with `ec`. `last` is the outcome of the
    /// read that the handler made last, if it made one.
    ///
    /// At most one wait is in flight. Where the handler was performed with
    /// `Success`, has read nothing yet, and finds that another handler was
    /// armed in the meantime, it gives way: its wait ends with
    /// `OperationCanceled` without a read and without a change of the
    /// descriptor's mode, and the newer handler is taken from the set and
    /// posted with `Success` in its place. In every other case the set is
    /// left as it is and the step is the one that `async_read_step` gives.
    pub fn resume_wait(
        &mut self,
        this: &mut ThreadIoContext<W>,
        ec: SystemError,
        stopped: bool,
        last: Option<ReadOutcome>,
    ) -> (step: AsyncReadStep)
        ensures
            superseded(old(self)@, ec, last) ==> {
                &&& step == (AsyncReadStep::Complete {
                    result: Err(SystemError::OperationCanceled),
                    restore_mode: false,
                })
                &&& final(self)@ == (SignalSetView { waiter: None::<W>, ..old(self)@ })
                &&& final(this)@.posted == old(this)@.posted + waiter_with(
                    old(self)@.waiter,
                    SystemError::Success,
                )
            },
            !superseded(old(self)@, ec, last) ==> {
                &&& step == async_read_step(ec, stopped, last)
                &&& final(self)@ == old(self)@
                &&& final(this)@.posted == old(this)@.posted
            },
            final(this)@.pending == old(this)@.pending,
    {
        if ec.is_success() && last.is_none() {
            match self.waiter.take() {
                Some(newer) => {
                    this.do_post((newer, SystemError::Success));
                    return AsyncReadStep::Complete {
                        result: Err(SystemError::OperationCanceled),
                        restore_mode: false,
                    };
                },
                None => {},
            }
        }
        signalfd_async_read(ec, stopped, last)
    }

    /// The next step of a blocking wait for a signal of the set. `last` is
    /// the outcome of the read that was made last, if one was made. A
    /// blocking wait takes the place of an asynchronous one: the handler that
    /// waits, if one does, is posted to `ctx` with `OperationCanceled`.
    pub fn wait(&mut self, ctx: &mut IoContext<W>, stopped: bool, last: Option<ReadOutcome>) -> (step:
        ReadStep)
        ensures
            step == read_step(stopped, last),
            final(self)@ == (SignalSetView { waiter: None::<W>, ..old(self)@ }),
            final(ctx)@ == old(ctx)@ + waiter_with(
                old(self)@.waiter,
                SystemError::OperationCanceled,
            ),
    {
        self.cancel(ctx);
        signalfd_read(stopped, last)
    }

    /// Whether a handler waits for the next signal.
    pub fn is_waiting(&self) -> (b: bool)
        ensures
            b == self@.waiter.is_some(),
    {
        self.waiter.is_some()
    }

    pub fn as_raw_fd(&self) -> (fd: i32)
        ensures
            fd == self@.fd,
    {
        self.fd
    }

    /// Ends the signal set: every subscription ends and the wait is
    /// cancelled. Returns the requests to hand to the kernel, and the
    /// descriptor to unsubscribe from the multiplexer and then to close.
    pub fn close(self, ctx: &mut IoContext<W>) -> (last: (Vec<KernelRequest>, i32))
        ensures
            last.0@ == requests_of(self@.signals, MembershipCall::Clear),
            last.1 == self@.fd,
            final(ctx)@ == old(ctx)@ + waiter_with(self@.waiter, SystemError::OperationCanceled),
    {
        let mut set = self;
        let requests = set.clear();
        set.cancel(ctx);
        (requests, set.fd)
    }
}

} // verus!
