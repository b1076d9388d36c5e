use crate::error::SystemError;
use crate::executor::{IoContext, ThreadIoContext};
use crate::kqueue::{Kevent, KeventView};
use vstd::prelude::*;

verus! {

/// A socket of the kqueue backend: what the protocol layer keeps in `data`,
/// and the handle of the descriptor.
pub struct KqueueSocket<T, Op> {
    pub data: T,
    fd: Kevent<Op>,
}

/// A socket of the kqueue backend, as a mathematical value.
#[verifier::ext_equal]
pub struct KqueueSocketView<T, Op> {
    pub data: T,
    pub handle: KeventView<Op>,
}

impl<T, Op> View for KqueueSocket<T, Op> {
    type V = KqueueSocketView<T, Op>;

    closed spec fn view(&self) -> KqueueSocketView<T, Op> {
        KqueueSocketView { data: self.data, handle: self.fd@ }
    }
}

impl<T, Op> KqueueSocket<T, Op> {
    /// The socket around the open descriptor `fd`, with nothing waiting.
    pub fn new(fd: i32, data: T) -> (soc: Self)
        ensures
            soc@.handle == KeventView::<Op>::socket(fd),
            soc@.data == data,
    {
        KqueueSocket { data, fd: Kevent::socket(fd) }
    }

    /// A read operation arrives with `err`.
    pub fn add_read_op(&mut self, this: &mut ThreadIoContext<Op>, op: Op, err: SystemError)
        ensures
            final(self)@.handle == old(self)@.handle.with_input(
                old(self)@.handle.input.submit(op, err).next,
            ),
            final(self)@.data == old(self)@.data,
            final(this)@.pending == old(this)@.pending + old(self)@.handle.input.submit(
                op,
                err,
            ).out,
            final(this)@.posted == old(this)@.posted,
    {
        self.fd.add_read_op(this, op, err)
    }

    /// A write operation arrives with `err`.
    pub fn add_write_op(&mut self, this: &mut ThreadIoContext<Op>, op: Op, err: SystemError)
        ensures
            final(self)@.handle == old(self)@.handle.with_output(
                old(self)@.handle.output.submit(op, err).next,
            ),
            final(self)@.data == old(self)@.data,
            final(this)@.pending == old(this)@.pending + old(self)@.handle.output.submit(
                op,
                err,
            ).out,
            final(this)@.posted == old(this)@.posted,
    {
        self.fd.add_write_op(this, op, err)
    }

    /// The running read operation has finished with its readiness edge.
    pub fn next_read_op(&mut self, this: &mut ThreadIoContext<Op>)
        ensures
            final(self)@.handle == old(self)@.handle.with_input(
                old(self)@.handle.input.advance().next,
            ),
            final(self)@.data == old(self)@.data,
            final(this)@.pending == old(this)@.pending + old(self)@.handle.input.advance().out,
            final(this)@.posted == old(this)@.posted,
    {
        self.fd.next_read_op(this)
    }

    /// The running write operation has finished with its readiness edge.
    pub fn next_write_op(&mut self, this: &mut ThreadIoContext<Op>)
        ensures
            final(self)@.handle == old(self)@.handle.with_output(
                old(self)@.handle.output.advance().next,
            ),
            final(self)@.data == old(self)@.data,
            final(this)@.pending == old(this)@.pending + old(self)@.handle.output.advance().out,
            final(this)@.posted == old(this)@.posted,
    {
        self.fd.next_write_op(this)
    }

    /// Cancels what waits on the socket, in both directions, with
    /// `OperationCanceled`; what leaves the queues is posted to `ctx`.
    pub fn cancel(&mut self, ctx: &mut IoContext<Op>)
        ensures
            final(self)@.handle == (KeventView {
                input: old(self)@.handle.input.cancel(SystemError::OperationCanceled).next,
                output: old(self)@.handle.output.cancel(SystemError::OperationCanceled).next,
                ..old(self)@.handle
            }),
            final(self)@.data == old(self)@.data,
            final(ctx)@ == old(ctx)@ + old(self)@.handle.input.cancel(
                SystemError::OperationCanceled,
            ).out + old(self)@.handle.output.cancel(SystemError::OperationCanceled).out,
    {
        self.fd.cancel_ops(ctx, SystemError::OperationCanceled)
    }

    /// The handle of the descriptor.
    pub fn handle(&self) -> (kev: &Kevent<Op>)
        ensures
            kev@ == self@.handle,
    {
        &self.fd
    }

    pub fn as_raw_fd(&self) -> (fd: i32)
        ensures
            fd == self@.handle.fd,
    {
        self.fd.as_raw_fd()
    }
}

} // verus!
