use crate::error::SystemError;
use crate::executor::{IoContext, ThreadIoContext};
use crate::ops::{Ops, OpsView};
use crate::reactor::intr::Intr;
use crate::signal_set::{waiter_with, SignalSet, SignalSetView};
use std::collections::HashSet;
use vstd::prelude::*;

verus! {

/// The descriptor is readable.
pub const EPOLLIN: u32 = 0x001;

/// The descriptor is writable.
pub const EPOLLOUT: u32 = 0x004;

/// An error is pending on the descriptor.
pub const EPOLLERR: u32 = 0x008;

/// The peer hung up.
pub const EPOLLHUP: u32 = 0x010;

/// Report a condition once, when it arises, not for as long as it lasts.
pub const EPOLLET: u32 = 0x8000_0000;

/// Subscribe a descriptor.
pub const EPOLL_CTL_ADD: i32 = 1;

/// Unsubscribe a descriptor.
pub const EPOLL_CTL_DEL: i32 = 2;

/// Whether `events` has one of `bits`.
pub open spec fn has_any(events: u32, bits: u32) -> bool {
    events & bits != 0
}

/// How a readiness event of a descriptor is dispatched.
#[derive(Clone, Copy, Debug, PartialEq, Eq, Structural)]
pub enum Dispatch {
    /// A socket: its waiting operations are started or cancelled.
    Socket,
    /// The read end of the interrupter: its bytes are read and thrown away.
    Intr,
}

/// A descriptor handle, as a mathematical value.
#[verifier::ext_equal]
pub struct EpollView<Op> {
    pub fd: i32,
    pub input: OpsView<Op>,
    pub output: OpsView<Op>,
    pub dispatch: Dispatch,
}

/// What one event does to a descriptor handle.
#[verifier::ext_equal]
pub struct HandleStep<Op> {
    /// The handle afterwards.
    pub next: EpollView<Op>,
    /// What was pushed to the worker, in order.
    pub pushed: Seq<(Op, SystemError)>,
    /// What was posted to the shared context, in order.
    pub posted: Seq<(Op, SystemError)>,
    /// Whether the descriptor's pending bytes are to be read and thrown away.
    pub drain: bool,
}

impl<Op> EpollView<Op> {
    /// The handle of the socket `fd`, with nothing waiting.
    pub open spec fn socket(fd: i32) -> EpollView<Op> {
        EpollView { fd, input: OpsView::idle(), output: OpsView::idle(), dispatch: Dispatch::Socket }
    }

    /// The handle of `fd`, the read end of an interrupter.
    pub open spec fn intr(fd: i32) -> EpollView<Op> {
        EpollView { fd, input: OpsView::idle(), output: OpsView::idle(), dispatch: Dispatch::Intr }
    }

    /// The handle with `input` as its input direction.
    pub open spec fn with_input(self, input: OpsView<Op>) -> EpollView<Op> {
        EpollView { input, ..self }
    }

    /// The handle with `output` as its output direction.
    pub open spec fn with_output(self, output: OpsView<Op>) -> EpollView<Op> {
        EpollView { output, ..self }
    }

    /// Both directions are cancelled with `err`, the input first.
    pub open spec fn cancel_ops(self, err: SystemError) -> HandleStep<Op> {
        HandleStep {
            next: EpollView {
                input: self.input.cancel(err).next,
                output: self.output.cancel(err).next,
                ..self
            },
            pushed: Seq::empty(),
            posted: self.input.cancel(err).out + self.output.cancel(err).out,
            drain: false,
        }
    }

    /// A socket meets the readiness event `events`; `err` is the error that is
    /// pending on the socket. With an error or a hang-up both directions are
    /// cancelled with `err` and nothing else happens. Otherwise each direction
    /// that the event names gets one readiness edge, the input first.
    pub open spec fn dispatch_socket(self, events: u32, err: SystemError) -> HandleStep<Op> {
        if has_any(events, EPOLLERR | EPOLLHUP) {
            self.cancel_ops(err)
        } else {
            let input = if has_any(events, EPOLLIN) {
                self.input.ready()
            } else {
                crate::ops::Step { next: self.input, out: Seq::empty() }
            };
            let output = if has_any(events, EPOLLOUT) {
                self.output.ready()
            } else {
                crate::ops::Step { next: self.output, out: Seq::empty() }
            };
            HandleStep {
                next: EpollView { input: input.next, output: output.next, ..self },
                pushed: input.out + output.out,
                posted: Seq::empty(),
                drain: false,
            }
        }
    }

    /// The interrupter meets the readiness event `events`: where it is
    /// readable, its bytes are to be read and thrown away.
    pub open spec fn dispatch_intr(self, events: u32) -> HandleStep<Op> {
        HandleStep {
            next: self,
            pushed: Seq::empty(),
            posted: Seq::empty(),
            drain: has_any(events, EPOLLIN),
        }
    }

    /// The handle meets the readiness event `events`, by its kind.
    pub open spec fn dispatch(self, events: u32, err: SystemError) -> HandleStep<Op> {
        match self.dispatch {
            Dispatch::Socket => self.dispatch_socket(events, err),
            Dispatch::Intr => self.dispatch_intr(events),
        }
    }
}

/// Whether `events` reports an error or a hang-up, so that the error pending
/// on the socket is wanted before the event is dispatched.
pub fn is_error_event(events: u32) -> (b: bool)
    ensures
        b == has_any(events, EPOLLERR | EPOLLHUP),
{
    events & (EPOLLERR | EPOLLHUP) != 0
}

/// The per-descriptor record of the reactor: the descriptor, how its events
/// are dispatched, and the operations that wait on it, by direction.
pub struct Epoll<Op> {
    fd: i32,
    input: Ops<Op>,
    output: Ops<Op>,
    dispatch: Dispatch,
}

impl<Op> View for Epoll<Op> {
    type V = EpollView<Op>;

    closed spec fn view(&self) -> EpollView<Op> {
        EpollView {
            fd: self.fd,
            input: self.input@,
            output: self.output@,
            dispatch: self.dispatch,
        }
    }
}

impl<Op> Epoll<Op> {
    /// The handle of the socket `fd`, with nothing waiting.
    pub fn socket(fd: i32) -> (eev: Self)
        ensures
            eev@ == EpollView::<Op>::socket(fd),
    {
        Epoll { fd, input: Ops::new(), output: Ops::new(), dispatch: Dispatch::Socket }
    }

    /// The handle of `fd`, the read end of the interrupter.
    pub fn intr(fd: i32) -> (eev: Self)
        ensures
            eev@ == EpollView::<Op>::intr(fd),
    {
        Epoll { fd, input: Ops::new(), output: Ops::new(), dispatch: Dispatch::Intr }
    }

    pub fn as_raw_fd(&self) -> (fd: i32)
        ensures
            fd == self@.fd,
    {
        self.fd
    }

    /// The operations that wait to read.
    pub fn input(&self) -> (ops: &Ops<Op>)
        ensures
            ops@ == self@.input,
    {
        &self.input
    }

    /// The operations that wait to write.
    pub fn output(&self) -> (ops: &Ops<Op>)
        ensures
            ops@ == self@.output,
    {
        &self.output
    }

    /// How the events of the descriptor are dispatched.
    pub fn kind(&self) -> (kind: Dispatch)
        ensures
            kind == self@.dispatch,
    {
        self.dispatch
    }
}

/// Cancels both directions of `eev` with `err`, the input first; what leaves
/// the queues is posted to `ctx`.
fn cancel_ops_nolock<Op>(eev: &mut Epoll<Op>, ctx: &mut IoContext<Op>, err: SystemError)
    ensures
        final(eev)@ == old(eev)@.cancel_ops(err).next,
        final(ctx)@ == old(ctx)@ + old(eev)@.cancel_ops(err).posted,
{
    eev.input.cancel(ctx, err);
    eev.output.cancel(ctx, err);
}

/// Dispatches the readiness event `events` to the socket `eev`; `err` is the
/// error pending on the socket.
fn dispatch_socket<Op>(
    eev: &mut Epoll<Op>,
    events: u32,
    err: SystemError,
    this: &mut ThreadIoContext<Op>,
)
    ensures
        final(eev)@ == old(eev)@.dispatch_socket(events, err).next,
        final(this)@.pending == old(this)@.pending + old(eev)@.dispatch_socket(events, err).pushed,
        final(this)@.posted == old(this)@.posted + old(eev)@.dispatch_socket(events, err).posted,
{
    if events & (EPOLLERR | EPOLLHUP) != 0 {
        cancel_ops_nolock(eev, &mut this.ctx, err);
        return ;
    }
    if events & EPOLLIN != 0 {
        eev.input.on_readiness(this);
    }
    if events & EPOLLOUT != 0 {
        eev.output.on_readiness(this);
    }
}

/// Dispatches the readiness event `events` to the interrupter: says whether
/// its bytes are to be read and thrown away.
fn dispatch_intr(events: u32) -> (drain: bool)
    ensures
        drain == has_any(events, EPOLLIN),
{
    events & EPOLLIN != 0
}

/// A request to the multiplexer: what the caller hands to the kernel.
#[derive(Clone, Copy, Debug, PartialEq, Eq, Structural)]
pub struct EpollCtl {
    /// The multiplexer.
    pub epfd: i32,
    /// `EPOLL_CTL_ADD` or `EPOLL_CTL_DEL`.
    pub op: i32,
    /// The descriptor that the request is about; it is also the cookie that
    /// the multiplexer gives back with each event of the descriptor.
    pub fd: i32,
    /// The conditions to watch.
    pub events: u32,
}

/// One readiness event, as the multiplexer reported it.
#[derive(Clone, Copy, Debug, PartialEq, Eq, Structural)]
pub struct ReadyEvent {
    /// The conditions that hold.
    pub events: u32,
    /// The descriptor that the event is about.
    pub fd: i32,
    /// The error pending on the descriptor; it is looked at only where
    /// `events` reports an error or a hang-up.
    pub error: SystemError,
}

/// The longest that one poll waits, in nanoseconds: ten seconds.
pub const POLL_CEILING_NS: u64 = 10_000_000_000;

/// How long a poll may wait, in milliseconds: nothing where it must not
/// block, and otherwise until the nearest timer is due, but no longer than
/// the ceiling.
pub open spec fn wait_budget_ms(block: bool, nearest_timer_ns: u64) -> int {
    if !block {
        0
    } else if nearest_timer_ns < POLL_CEILING_NS {
        nearest_timer_ns as int / 1_000_000
    } else {
        POLL_CEILING_NS as int / 1_000_000
    }
}

/// The views of `handles`, in order.
pub open spec fn views<Op>(handles: Seq<Epoll<Op>>) -> Seq<EpollView<Op>> {
    Seq::new(handles.len(), |i: int| handles[i]@)
}

/// The least index at or after `from` whose handle has the descriptor `fd`,
/// or the length of `handles` where there is none.
pub open spec fn find_from<Op>(handles: Seq<EpollView<Op>>, fd: i32, from: int) -> int
    decreases handles.len() - from,
{
    if from < 0 || from >= handles.len() {
        handles.len() as int
    } else if handles[from].fd == fd {
        from
    } else {
        find_from(handles, fd, from + 1)
    }
}

/// The views of `sets`, in order.
pub open spec fn set_views<Op>(sets: Seq<SignalSet<Op>>) -> Seq<SignalSetView<Op>> {
    Seq::new(sets.len(), |i: int| sets[i]@)
}

/// The least index at or after `from` whose signal set has the descriptor
/// `fd`, or the length of `sets` where there is none.
pub open spec fn find_set_from<Op>(sets: Seq<SignalSetView<Op>>, fd: i32, from: int) -> int
    decreases sets.len() - from,
{
    if from < 0 || from >= sets.len() {
        sets.len() as int
    } else if sets[from].fd == fd {
        from
    } else {
        find_set_from(sets, fd, from + 1)
    }
}

/// What a poll has done so far.
#[verifier::ext_equal]
pub struct PollView<Op> {
    /// The handles.
    pub handles: Seq<EpollView<Op>>,
    /// The signal sets.
    pub signals: Seq<SignalSetView<Op>>,
    /// What was pushed to the worker, in order.
    pub pushed: Seq<(Op, SystemError)>,
    /// What was posted to the shared context, in order.
    pub posted: Seq<(Op, SystemError)>,
    /// The descriptors whose pending bytes are to be read and thrown away.
    pub drain: Seq<i32>,
}

/// The reactor, as a mathematical value.
#[verifier::ext_equal]
pub struct ReactorView {
    /// The multiplexer.
    pub epfd: i32,
    /// The descriptors that are subscribed.
    pub registered: Set<i32>,
    /// The read end of the interrupter.
    pub intr_read: i32,
    /// The write end of the interrupter.
    pub intr_write: i32,
}

impl ReactorView {
    /// One event of a poll. An event of a descriptor that is not subscribed
    /// does nothing. An event of the interrupter asks for its bytes to be
    /// thrown away. Any other event goes to the first of the handles that
    /// has its descriptor; where there is none, and the event says that the
    /// descriptor is readable, it goes to the first of the signal sets that
    /// has the descriptor, and starts the handler that waits on it.
    pub open spec fn poll_event<Op>(self, so_far: PollView<Op>, ev: ReadyEvent) -> PollView<Op> {
        let at = find_from(so_far.handles, ev.fd, 0);
        let set_at = find_set_from(so_far.signals, ev.fd, 0);
        if !self.registered.contains(ev.fd) {
            so_far
        } else if ev.fd == self.intr_read {
            if has_any(ev.events, EPOLLIN) {
                PollView { drain: so_far.drain.push(ev.fd), ..so_far }
            } else {
                so_far
            }
        } else if at < so_far.handles.len() {
            let step = so_far.handles[at].dispatch(ev.events, ev.error);
            PollView {
                handles: so_far.handles.update(at, step.next),
                pushed: so_far.pushed + step.pushed,
                posted: so_far.posted + step.posted,
                drain: if step.drain {
                    so_far.drain.push(ev.fd)
                } else {
                    so_far.drain
                },
                ..so_far
            }
        } else if set_at < so_far.signals.len() && has_any(ev.events, EPOLLIN) {
            let set = so_far.signals[set_at];
            PollView {
                signals: so_far.signals.update(set_at, SignalSetView { waiter: None, ..set }),
                pushed: so_far.pushed + waiter_with(set.waiter, SystemError::Success),
                ..so_far
            }
        } else {
            so_far
        }
    }

    /// All the events of a poll, in order.
    pub open spec fn poll_events<Op>(self, start: PollView<Op>, events: Seq<ReadyEvent>) -> PollView<
        Op,
    >
        decreases events.len(),
    {
        if events.len() == 0 {
            start
        } else {
            self.poll_event(self.poll_events(start, events.drop_last()), events.last())
        }
    }
}

/// The reactor: the multiplexer, the descriptors subscribed to it, and the
/// interrupter that wakes it.
pub struct EpollReactor<Op> {
    epfd: i32,
    registry: HashSet<i32>,
    intr: Intr<Op>,
}

impl<Op> View for EpollReactor<Op> {
    type V = ReactorView;

    closed spec fn view(&self) -> ReactorView {
        ReactorView {
            epfd: self.epfd,
            registered: self.registry@,
            intr_read: self.intr.read_fd(),
            intr_write: self.intr.write_fd(),
        }
    }
}

impl<Op> EpollReactor<Op> {
    /// The reactor over the multiplexer `epfd`, with nothing subscribed.
    pub fn new(epfd: i32, intr: Intr<Op>) -> (reactor: Self)
        ensures
            reactor@ == (ReactorView {
                epfd,
                registered: Set::<i32>::empty(),
                intr_read: intr.read_fd(),
                intr_write: intr.write_fd(),
            }),
    {
        EpollReactor { epfd, registry: HashSet::new(), intr }
    }

    /// Subscribes the interrupter. Returns the request to hand to the
    /// multiplexer.
    pub fn init(&mut self) -> (request: EpollCtl)
        ensures
            final(self)@ == (ReactorView {
                registered: old(self)@.registered.insert(old(self)@.intr_read),
                ..old(self)@
            }),
            request == (EpollCtl {
                epfd: old(self)@.epfd,
                op: EPOLL_CTL_ADD,
                fd: old(self)@.intr_read,
                events: EPOLLIN | EPOLLET,
            }),
    {
        broadcast use vstd::std_specs::hash::group_hash_axioms;

        let fd = self.intr.handle().as_raw_fd();
        self.registry.insert(fd);
        EpollCtl { epfd: self.epfd, op: EPOLL_CTL_ADD, fd, events: EPOLLIN | EPOLLET }
    }

    /// The request that asks the multiplexer to do `op` for `eev`, watching
    /// `events`.
    fn epoll_ctl(&self, eev: &Epoll<Op>, op: i32, events: u32) -> (request: EpollCtl)
        ensures
            request == (EpollCtl { epfd: self@.epfd, op, fd: eev@.fd, events }),
    {
        EpollCtl { epfd: self.epfd, op, fd: eev.fd, events }
    }

    /// Subscribes the socket `eev` for both directions, edge-triggered.
    /// Returns the request to hand to the multiplexer.
    pub fn register_socket(&mut self, eev: &Epoll<Op>) -> (request: EpollCtl)
        ensures
            final(self)@ == (ReactorView {
                registered: old(self)@.registered.insert(eev@.fd),
                ..old(self)@
            }),
            request == (EpollCtl {
                epfd: old(self)@.epfd,
                op: EPOLL_CTL_ADD,
                fd: eev@.fd,
                events: EPOLLIN | EPOLLOUT | EPOLLET,
            }),
    {
        broadcast use vstd::std_specs::hash::group_hash_axioms;

        self.registry.insert(eev.fd);
        self.epoll_ctl(eev, EPOLL_CTL_ADD, EPOLLIN | EPOLLOUT | EPOLLET)
    }

    /// Unsubscribes the socket `eev`. Returns the request to hand to the
    /// multiplexer.
    pub fn deregister_socket(&mut self, eev: &Epoll<Op>) -> (request: EpollCtl)
        ensures
            final(self)@ == (ReactorView {
                registered: old(self)@.registered.remove(eev@.fd),
                ..old(self)@
            }),
            request == (EpollCtl {
                epfd: old(self)@.epfd,
                op: EPOLL_CTL_DEL,
                fd: eev@.fd,
                events: 0,
            }),
    {
        broadcast use vstd::std_specs::hash::group_hash_axioms;

        self.registry.remove(&eev.fd);
        self.epoll_ctl(eev, EPOLL_CTL_DEL, 0)
    }

    /// Subscribes `eev`, the read end of an interrupter, for reading,
    /// edge-triggered. Returns the request to hand to the multiplexer.
    pub fn register_intr(&mut self, eev: &Epoll<Op>) -> (request: EpollCtl)
        ensures
            final(self)@ == (ReactorView {
                registered: old(self)@.registered.insert(eev@.fd),
                ..old(self)@
            }),
            request == (EpollCtl {
                epfd: old(self)@.epfd,
                op: EPOLL_CTL_ADD,
                fd: eev@.fd,
                events: EPOLLIN | EPOLLET,
            }),
    {
        broadcast use vstd::std_specs::hash::group_hash_axioms;

        self.registry.insert(eev.fd);
        self.epoll_ctl(eev, EPOLL_CTL_ADD, EPOLLIN | EPOLLET)
    }

    /// Subscribes the signal set `set` for reading, edge-triggered. Returns
    /// the request to hand to the multiplexer.
    pub fn register_signal(&mut self, set: &SignalSet<Op>) -> (request: EpollCtl)
        ensures
            final(self)@ == (ReactorView {
                registered: old(self)@.registered.insert(set@.fd),
                ..old(self)@
            }),
            request == (EpollCtl {
                epfd: old(self)@.epfd,
                op: EPOLL_CTL_ADD,
                fd: set@.fd,
                events: EPOLLIN | EPOLLET,
            }),
    {
        broadcast use vstd::std_specs::hash::group_hash_axioms;

        let fd = set.as_raw_fd();
        self.registry.insert(fd);
        EpollCtl { epfd: self.epfd, op: EPOLL_CTL_ADD, fd, events: EPOLLIN | EPOLLET }
    }

    /// Unsubscribes the signal set `set`. Returns the request to hand to the
    /// multiplexer.
    pub fn deregister_signal(&mut self, set: &SignalSet<Op>) -> (request: EpollCtl)
        ensures
            final(self)@ == (ReactorView {
                registered: old(self)@.registered.remove(set@.fd),
                ..old(self)@
            }),
            request == (EpollCtl {
                epfd: old(self)@.epfd,
                op: EPOLL_CTL_DEL,
                fd: set@.fd,
                events: 0,
            }),
    {
        broadcast use vstd::std_specs::hash::group_hash_axioms;

        let fd = set.as_raw_fd();
        self.registry.remove(&fd);
        EpollCtl { epfd: self.epfd, op: EPOLL_CTL_DEL, fd, events: 0 }
    }

    /// Unsubscribes `eev`, the read end of an interrupter.
    pub fn deregister_intr(&mut self, eev: &Epoll<Op>) -> (request: EpollCtl)
        ensures
            final(self)@ == (ReactorView {
                registered: old(self)@.registered.remove(eev@.fd),
                ..old(self)@
            }),
            request == (EpollCtl {
                epfd: old(self)@.epfd,
                op: EPOLL_CTL_DEL,
                fd: eev@.fd,
                events: 0,
            }),
    {
        self.deregister_socket(eev)
    }

    /// Unsubscribes the interrupter, as the last thing before the
    /// multiplexer is closed.
    pub fn cleanup(&mut self) -> (request: EpollCtl)
        ensures
            final(self)@ == (ReactorView {
                registered: old(self)@.registered.remove(old(self)@.intr_read),
                ..old(self)@
            }),
            request == (EpollCtl {
                epfd: old(self)@.epfd,
                op: EPOLL_CTL_DEL,
                fd: old(self)@.intr_read,
                events: 0,
            }),
    {
        broadcast use vstd::std_specs::hash::group_hash_axioms;

        let fd = self.intr.handle().as_raw_fd();
        self.registry.remove(&fd);
        EpollCtl { epfd: self.epfd, op: EPOLL_CTL_DEL, fd, events: 0 }
    }

    /// Whether the descriptor `fd` is subscribed.
    pub fn is_registered(&self, fd: i32) -> (b: bool)
        ensures
            b == self@.registered.contains(fd),
    {
        broadcast use vstd::std_specs::hash::group_hash_axioms;

        self.registry.contains(&fd)
    }

    /// The multiplexer.
    pub fn as_raw_fd(&self) -> (epfd: i32)
        ensures
            epfd == self@.epfd,
    {
        self.epfd
    }

    /// The descriptor to which one byte is written to wake a blocked poll.
    pub fn interrupt(&self) -> (wfd: i32)
        ensures
            wfd == self@.intr_write,
    {
        self.intr.interrupt()
    }

    /// A read operation arrives at `eev` with `err`; what is due to run goes
    /// to `this`.
    pub fn add_read_op(
        &self,
        eev: &mut Epoll<Op>,
        this: &mut ThreadIoContext<Op>,
        op: Op,
        err: SystemError,
    )
        ensures
            final(eev)@ == old(eev)@.with_input(old(eev)@.input.submit(op, err).next),
            final(this)@.pending == old(this)@.pending + old(eev)@.input.submit(op, err).out,
            final(this)@.posted == old(this)@.posted,
    {
        eev.input.submit(this, op, err);
    }

    /// A write operation arrives at `eev` with `err`; what is due to run goes
    /// to `this`.
    pub fn add_write_op(
        &self,
        eev: &mut Epoll<Op>,
        this: &mut ThreadIoContext<Op>,
        op: Op,
        err: SystemError,
    )
        ensures
            final(eev)@ == old(eev)@.with_output(old(eev)@.output.submit(op, err).next),
            final(this)@.pending == old(this)@.pending + old(eev)@.output.submit(op, err).out,
            final(this)@.posted == old(this)@.posted,
    {
        eev.output.submit(this, op, err);
    }

    /// The running read operation of `eev` has finished with its readiness
    /// edge; what is due to run next goes to `this`.
    pub fn next_read_op(&self, eev: &mut Epoll<Op>, this: &mut ThreadIoContext<Op>)
        ensures
            final(eev)@ == old(eev)@.with_input(old(eev)@.input.advance().next),
            final(this)@.pending == old(this)@.pending + old(eev)@.input.advance().out,
            final(this)@.posted == old(this)@.posted,
    {
        eev.input.advance(this);
    }

    /// The running write operation of `eev` has finished with its readiness
    /// edge; what is due to run next goes to `this`.
    pub fn next_write_op(&self, eev: &mut Epoll<Op>, this: &mut ThreadIoContext<Op>)
        ensures
            final(eev)@ == old(eev)@.with_output(old(eev)@.output.advance().next),
            final(this)@.pending == old(this)@.pending + old(eev)@.output.advance().out,
            final(this)@.posted == old(this)@.posted,
    {
        eev.output.advance(this);
    }

    /// Cancels both directions of `eev` with `err`, the input first; what
    /// leaves the queues is posted to `ctx`.
    pub fn cancel_ops(&self, eev: &mut Epoll<Op>, ctx: &mut IoContext<Op>, err: SystemError)
        ensures
            final(eev)@ == old(eev)@.cancel_ops(err).next,
            final(ctx)@ == old(ctx)@ + old(eev)@.cancel_ops(err).posted,
    {
        cancel_ops_nolock(eev, ctx, err)
    }

    /// How long the next poll may wait, in milliseconds, where the nearest
    /// timer is due in `nearest_timer_ns` nanoseconds.
    pub fn poll_timeout(block: bool, nearest_timer_ns: u64) -> (ms: i32)
        ensures
            ms == wait_budget_ms(block, nearest_timer_ns),
            0 <= ms <= 10_000,
    {
        if !block {
            0
        } else if nearest_timer_ns < POLL_CEILING_NS {
            (nearest_timer_ns / 1_000_000) as i32
        } else {
            (POLL_CEILING_NS / 1_000_000) as i32
        }
    }

    /// Dispatches the events that the multiplexer reported, in order, to
    /// those among `handles` and `signals` that they are about. Returns the
    /// descriptors whose pending bytes are to be read and thrown away, each
    /// of them for as long as `drain_intr` asks for another read.
    pub fn poll(
        &self,
        handles: &mut Vec<Epoll<Op>>,
        signals: &mut Vec<SignalSet<Op>>,
        ready: &Vec<ReadyEvent>,
        this: &mut ThreadIoContext<Op>,
    ) -> (drain: Vec<i32>)
        ensures
            ({
                let done = self@.poll_events(
                    PollView {
                        handles: views(old(handles)@),
                        signals: set_views(old(signals)@),
                        pushed: Seq::empty(),
                        posted: Seq::empty(),
                        drain: Seq::empty(),
                    },
                    ready@,
                );
                &&& views(final(handles)@) == done.handles
                &&& set_views(final(signals)@) == done.signals
                &&& final(this)@.pending == old(this)@.pending + done.pushed
                &&& final(this)@.posted == old(this)@.posted + done.posted
                &&& drain@ == done.drain
            }),
    {
        broadcast use vstd::std_specs::hash::group_hash_axioms;

        let ghost start = PollView {
            handles: views(handles@),
            signals: set_views(signals@),
            pushed: Seq::<(Op, SystemError)>::empty(),
            posted: Seq::<(Op, SystemError)>::empty(),
            drain: Seq::<i32>::empty(),
        };
        let mut drain: Vec<i32> = Vec::new();
        let mut i: usize = 0;
        while i < ready.len()
            invariant
                0 <= i <= ready.len(),
                ({
                    let done = self@.poll_events(start, ready@.subrange(0, i as int));
                    &&& views(handles@) == done.handles
                    &&& set_views(signals@) == done.signals
                    &&& this@.pending == old(this)@.pending + done.pushed
                    &&& this@.posted == old(this)@.posted + done.posted
                    &&& drain@ == done.drain
                }),
            decreases ready.len() - i,
        {
            let ev = ready[i];
            let ghost before = self@.poll_events(start, ready@.subrange(0, i as int));
            proof {
                assert(ready@.subrange(0, i + 1).drop_last() == ready@.subrange(0, i as int));
                assert(ready@.subrange(0, i + 1).last() == ev);
            }
            if self.registry.contains(&ev.fd) {
                if ev.fd == self.intr.handle().as_raw_fd() {
                    if dispatch_intr(ev.events) {
                        drain.push(ev.fd);
                    }
                } else {
                    let mut j: usize = 0;
                    while j < handles.len() && handles[j].fd != ev.fd
                        invariant
                            0 <= j <= handles.len(),
                            find_from(views(handles@), ev.fd, 0) == find_from(
                                views(handles@),
                                ev.fd,
                                j as int,
                            ),
                        decreases handles.len() - j,
                    {
                        j = j + 1;
                    }
                    assert(find_from(before.handles, ev.fd, 0) == j);
                    if j < handles.len() {
                        let ghost step = before.handles[j as int].dispatch(ev.events, ev.error);
                        let kind = handles[j].dispatch;
                        match kind {
                            Dispatch::Socket => {
                                dispatch_socket(&mut handles[j], ev.events, ev.error, this);
                            },
                            Dispatch::Intr => {
                                if dispatch_intr(ev.events) {
                                    drain.push(ev.fd);
                                }
                            },
                        }
                        assert(views(handles@) =~= before.handles.update(j as int, step.next));
                        assert(old(this)@.pending + (before.pushed + step.pushed) == old(
                            this,
                        )@.pending + before.pushed + step.pushed);
                        assert(old(this)@.posted + (before.posted + step.posted) == old(
                            this,
                        )@.posted + before.posted + step.posted);
                    } else {
                        let mut k: usize = 0;
                        while k < signals.len() && signals[k].as_raw_fd() != ev.fd
                            invariant
                                0 <= k <= signals.len(),
                                find_set_from(set_views(signals@), ev.fd, 0) == find_set_from(
                                    set_views(signals@),
                                    ev.fd,
                                    k as int,
                                ),
                            decreases signals.len() - k,
                        {
                            k = k + 1;
                        }
                        assert(find_set_from(before.signals, ev.fd, 0) == k);
                        if k < signals.len() && ev.events & EPOLLIN != 0 {
                            let ghost set = before.signals[k as int];
                            let ghost started = waiter_with(set.waiter, SystemError::Success);
                            signals[k].on_readiness(this);
                            assert(set_views(signals@) =~= before.signals.update(
                                k as int,
                                SignalSetView { waiter: None, ..set },
                            ));
                            assert(old(this)@.pending + (before.pushed + started) == old(
                                this,
                            )@.pending + before.pushed + started);
                        }
                    }
                }
            }
            i = i + 1;
        }
        assert(ready@.subrange(0, i as int) == ready@);
        drain
    }
}

} // verus!
