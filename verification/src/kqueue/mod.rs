//! The descriptor handles of the kqueue backend.

use crate::error::SystemError;
use crate::executor::{IoContext, ThreadIoContext};
use crate::ops::{Ops, OpsView};
use vstd::prelude::*;

pub mod signal;
pub mod socket;

verus! {

/// How an event of a kqueue handle is dispatched.
#[derive(Clone, Copy, Debug, PartialEq, Eq, Structural)]
pub enum KeventDispatch {
    /// A socket.
    Socket,
    /// The handle that all signal subscriptions of one signal set share.
    Signal,
}

/// A kqueue handle, as a mathematical value.
#[verifier::ext_equal]
pub struct KeventView<Op> {
    pub fd: i32,
    pub input: OpsView<Op>,
    pub output: OpsView<Op>,
    pub dispatch: KeventDispatch,
}

impl<Op> KeventView<Op> {
    /// The handle of the socket `fd`, with nothing waiting.
    pub open spec fn socket(fd: i32) -> KeventView<Op> {
        KeventView {
            fd,
            input: OpsView::idle(),
            output: OpsView::idle(),
            dispatch: KeventDispatch::Socket,
        }
    }

    /// The handle that the signal subscriptions of one signal set share,
    /// with nothing waiting. It stands for no descriptor.
    pub open spec fn signal() -> KeventView<Op> {
        KeventView {
            fd: -1i32,
            input: OpsView::idle(),
            output: OpsView::idle(),
            dispatch: KeventDispatch::Signal,
        }
    }

    /// The handle with `input` as its input direction.
    pub open spec fn with_input(self, input: OpsView<Op>) -> KeventView<Op> {
        KeventView { input, ..self }
    }

    /// The handle with `output` as its output direction.
    pub open spec fn with_output(self, output: OpsView<Op>) -> KeventView<Op> {
        KeventView { output, ..self }
    }
}

/// The per-descriptor record of the kqueue backend.
pub struct Kevent<Op> {
    fd: i32,
    input: Ops<Op>,
    output: Ops<Op>,
    dispatch: KeventDispatch,
}

impl<Op> View for Kevent<Op> {
    type V = KeventView<Op>;

    closed spec fn view(&self) -> KeventView<Op> {
        KeventView {
            fd: self.fd,
            input: self.input@,
            output: self.output@,
            dispatch: self.dispatch,
        }
    }
}

impl<Op> Kevent<Op> {
    /// The handle of the socket `fd`, with nothing waiting.
    pub fn socket(fd: i32) -> (kev: Self)
        ensures
            kev@ == KeventView::<Op>::socket(fd),
    {
        Kevent { fd, input: Ops::new(), output: Ops::new(), dispatch: KeventDispatch::Socket }
    }

    /// The handle that the signal subscriptions of one signal set share. It
    /// stands for no descriptor.
    pub fn signal() -> (kev: Self)
        ensures
            kev@ == KeventView::<Op>::signal(),
    {
        Kevent { fd: -1, input: Ops::new(), output: Ops::new(), dispatch: KeventDispatch::Signal }
    }

    pub fn as_raw_fd(&self) -> (fd: i32)
        ensures
            fd == self@.fd,
    {
        self.fd
    }

    /// The operations that wait to read.
    pub fn input(&self) -> (ops: &Ops<Op>)
        ensures
            ops@ == self@.input,
    {
        &self.input
    }

    /// The operations that wait to write.
    pub fn output(&self) -> (ops: &Ops<Op>)
        ensures
            ops@ == self@.output,
    {
        &self.output
    }

    /// How the events of the handle are dispatched.
    pub fn kind(&self) -> (kind: KeventDispatch)
        ensures
            kind == self@.dispatch,
    {
        self.dispatch
    }

    /// A read operation arrives with `err`.
    pub fn add_read_op(&mut self, this: &mut ThreadIoContext<Op>, op: Op, err: SystemError)
        ensures
            final(self)@ == old(self)@.with_input(old(self)@.input.submit(op, err).next),
            final(this)@.pending == old(this)@.pending + old(self)@.input.submit(op, err).out,
            final(this)@.posted == old(this)@.posted,
    {
        self.input.submit(this, op, err);
    }

    /// A write operation arrives with `err`.
    pub fn add_write_op(&mut self, this: &mut ThreadIoContext<Op>, op: Op, err: SystemError)
        ensures
            final(self)@ == old(self)@.with_output(old(self)@.output.submit(op, err).next),
            final(this)@.pending == old(this)@.pending + old(self)@.output.submit(op, err).out,
            final(this)@.posted == old(this)@.posted,
    {
        self.output.submit(this, op, err);
    }

    /// The running read operation has finished with its readiness edge.
    pub fn next_read_op(&mut self, this: &mut ThreadIoContext<Op>)
        ensures
            final(self)@ == old(self)@.with_input(old(self)@.input.advance().next),
            final(this)@.pending == old(this)@.pending + old(self)@.input.advance().out,
            final(this)@.posted == old(this)@.posted,
    {
        self.input.advance(this);
    }

    /// The running write operation has finished with its readiness edge.
    pub fn next_write_op(&mut self, this: &mut ThreadIoContext<Op>)
        ensures
            final(self)@ == old(self)@.with_output(old(self)@.output.advance().next),
            final(this)@.pending == old(this)@.pending + old(self)@.output.advance().out,
            final(this)@.posted == old(this)@.posted,
    {
        self.output.advance(this);
    }

    /// Cancels both directions with `err`, the input first; what leaves the
    /// queues is posted to `ctx`.
    pub fn cancel_ops(&mut self, ctx: &mut IoContext<Op>, err: SystemError)
        ensures
            final(self)@ == (KeventView {
                input: old(self)@.input.cancel(err).next,
                output: old(self)@.output.cancel(err).next,
                ..old(self)@
            }),
            final(ctx)@ == old(ctx)@ + old(self)@.input.cancel(err).out + old(
                self,
            )@.output.cancel(err).out,
    {
        self.input.cancel(ctx, err);
        self.output.cancel(ctx, err);
    }

    /// A waiter for a signal joins the tail of the input line.
    pub fn enqueue_read_op(&mut self, op: Op)
        ensures
            final(self)@ == old(self)@.with_input(old(self)@.input.enqueue(op)),
    {
        self.input.enqueue(op);
    }

    /// One signal was delivered: it completes the waiter at the head of the
    /// input line, if there is one.
    pub fn dispatch_signal(&mut self, this: &mut ThreadIoContext<Op>)
        ensures
            final(self)@ == old(self)@.with_input(old(self)@.input.complete_one().next),
            final(this)@.pending == old(this)@.pending + old(self)@.input.complete_one().out,
            final(this)@.posted == old(this)@.posted,
    {
        self.input.complete_one(this);
    }
}

} // verus!
