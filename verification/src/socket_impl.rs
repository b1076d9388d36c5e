use crate::error::SystemError;
use crate::executor::{IoContext, ThreadIoContext};
use crate::reactor::epoll::{Epoll, EpollCtl, EpollReactor, EpollView, ReactorView, EPOLLET, EPOLLIN, EPOLLOUT, EPOLL_CTL_ADD, EPOLL_CTL_DEL};
use crate::timeout::Timeout;
use vstd::prelude::*;

verus! {

/// A socket, as a mathematical value.
#[verifier::ext_equal]
pub struct SocketImplView<T, Op> {
    pub data: T,
    pub handle: EpollView<Op>,
    pub connect_timeout: Timeout,
    pub read_timeout: Timeout,
    pub write_timeout: Timeout,
}

/// A socket: what the protocol layer keeps in `data`, the handle of the
/// descriptor, and the deadlines of its operations.
pub struct SocketImpl<T, Op> {
    pub data: T,
    fd: Epoll<Op>,
    connect_timeout: Timeout,
    read_timeout: Timeout,
    write_timeout: Timeout,
}

impl<T, Op> View for SocketImpl<T, Op> {
    type V = SocketImplView<T, Op>;

    closed spec fn view(&self) -> SocketImplView<T, Op> {
        SocketImplView {
            data: self.data,
            handle: self.fd@,
            connect_timeout: self.connect_timeout,
            read_timeout: self.read_timeout,
            write_timeout: self.write_timeout,
        }
    }
}

impl<T, Op> SocketImpl<T, Op> {
    /// The socket around the open descriptor `fd`, subscribed to `reactor`.
    /// Returns the socket and the request to hand to the multiplexer.
    pub fn new(reactor: &mut EpollReactor<Op>, fd: i32, data: T) -> (made: (Self, EpollCtl))
        ensures
            made.0@ == (SocketImplView {
                data,
                handle: EpollView::<Op>::socket(fd),
                connect_timeout: Timeout { millis: 0 },
                read_timeout: Timeout { millis: 0 },
                write_timeout: Timeout { millis: 0 },
            }),
            final(reactor)@ == (ReactorView {
                registered: old(reactor)@.registered.insert(fd),
                ..old(reactor)@
            }),
            made.1 == (EpollCtl {
                epfd: old(reactor)@.epfd,
                op: EPOLL_CTL_ADD,
                fd,
                events: EPOLLIN | EPOLLOUT | EPOLLET,
            }),
    {
        let soc = SocketImpl {
            data,
            fd: Epoll::socket(fd),
            connect_timeout: Timeout::default(),
            read_timeout: Timeout::default(),
            write_timeout: Timeout::default(),
        };
        let request = reactor.register_socket(&soc.fd);
        (soc, request)
    }

    /// A read operation arrives with `err`; what is due to run goes to
    /// `this`.
    pub fn add_read_op(
        &mut self,
        reactor: &EpollReactor<Op>,
        this: &mut ThreadIoContext<Op>,
        op: Op,
        err: SystemError,
    )
        ensures
            final(self)@ == (SocketImplView {
                handle: old(self)@.handle.with_input(old(self)@.handle.input.submit(op, err).next),
                ..old(self)@
            }),
            final(this)@.pending == old(this)@.pending + old(self)@.handle.input.submit(
                op,
                err,
            ).out,
            final(this)@.posted == old(this)@.posted,
    {
        reactor.add_read_op(&mut self.fd, this, op, err)
    }

    /// A write operation arrives with `err`; what is due to run goes to
    /// `this`.
    pub fn add_write_op(
        &mut self,
        reactor: &EpollReactor<Op>,
        this: &mut ThreadIoContext<Op>,
        op: Op,
        err: SystemError,
    )
        ensures
            final(self)@ == (SocketImplView {
                handle: old(self)@.handle.with_output(
                    old(self)@.handle.output.submit(op, err).next,
                ),
                ..old(self)@
            }),
            final(this)@.pending == old(this)@.pending + old(self)@.handle.output.submit(
                op,
                err,
            ).out,
            final(this)@.posted == old(this)@.posted,
    {
        reactor.add_write_op(&mut self.fd, this, op, err)
    }

    /// The running read operation has finished with its readiness edge.
    pub fn next_read_op(&mut self, reactor: &EpollReactor<Op>, this: &mut ThreadIoContext<Op>)
        ensures
            final(self)@ == (SocketImplView {
                handle: old(self)@.handle.with_input(old(self)@.handle.input.advance().next),
                ..old(self)@
            }),
            final(this)@.pending == old(this)@.pending + old(self)@.handle.input.advance().out,
            final(this)@.posted == old(this)@.posted,
    {
        reactor.next_read_op(&mut self.fd, this)
    }

    /// The running write operation has finished with its readiness edge.
    pub fn next_write_op(&mut self, reactor: &EpollReactor<Op>, this: &mut ThreadIoContext<Op>)
        ensures
            final(self)@ == (SocketImplView {
                handle: old(self)@.handle.with_output(old(self)@.handle.output.advance().next),
                ..old(self)@
            }),
            final(this)@.pending == old(this)@.pending + old(self)@.handle.output.advance().out,
            final(this)@.posted == old(this)@.posted,
    {
        reactor.next_write_op(&mut self.fd, this)
    }

    /// Cancels what waits on the socket, in both directions, with
    /// `OperationCanceled`; what leaves the queues is posted to `ctx`.
    pub fn cancel(&mut self, reactor: &EpollReactor<Op>, ctx: &mut IoContext<Op>)
        ensures
            final(self)@ == (SocketImplView {
                handle: old(self)@.handle.cancel_ops(SystemError::OperationCanceled).next,
                ..old(self)@
            }),
            final(ctx)@ == old(ctx)@ + old(self)@.handle.cancel_ops(
                SystemError::OperationCanceled,
            ).posted,
    {
        reactor.cancel_ops(&mut self.fd, ctx, SystemError::OperationCanceled)
    }

    pub fn get_connect_timeout(&self) -> (timeout: &Timeout)
        ensures
            *timeout == self@.connect_timeout,
    {
        &self.connect_timeout
    }

    pub fn get_read_timeout(&self) -> (timeout: &Timeout)
        ensures
            *timeout == self@.read_timeout,
    {
        &self.read_timeout
    }

    pub fn get_write_timeout(&self) -> (timeout: &Timeout)
        ensures
            *timeout == self@.write_timeout,
    {
        &self.write_timeout
    }

    /// A deadline of the socket has expired: what waits on the socket, in
    /// both directions, is cancelled with `TimedOut`; what leaves the queues
    /// is posted to `ctx`.
    pub fn expire(&mut self, reactor: &EpollReactor<Op>, ctx: &mut IoContext<Op>)
        ensures
            final(self)@ == (SocketImplView {
                handle: old(self)@.handle.cancel_ops(SystemError::TimedOut).next,
                ..old(self)@
            }),
            final(ctx)@ == old(ctx)@ + old(self)@.handle.cancel_ops(SystemError::TimedOut).posted,
    {
        reactor.cancel_ops(&mut self.fd, ctx, SystemError::TimedOut)
    }

    /// The handle of the descriptor.
    pub fn handle(&self) -> (eev: &Epoll<Op>)
        ensures
            eev@ == self@.handle,
    {
        &self.fd
    }

    pub fn as_raw_fd(&self) -> (fd: i32)
        ensures
            fd == self@.handle.fd,
    {
        self.fd.as_raw_fd()
    }

    /// Ends the socket: unsubscribes it from `reactor`. Returns the request
    /// to hand to the multiplexer and the descriptor to close after it.
    pub fn close(self, reactor: &mut EpollReactor<Op>) -> (last: (EpollCtl, i32))
        ensures
            final(reactor)@ == (ReactorView {
                registered: old(reactor)@.registered.remove(self@.handle.fd),
                ..old(reactor)@
            }),
            last.0 == (EpollCtl {
                epfd: old(reactor)@.epfd,
                op: EPOLL_CTL_DEL,
                fd: self@.handle.fd,
                events: 0,
            }),
            last.1 == self@.handle.fd,
    {
        let request = reactor.deregister_socket(&self.fd);
        (request, self.fd.as_raw_fd())
    }
}

} // verus!
