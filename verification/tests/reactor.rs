use asyncio::error::SystemError;
use asyncio::executor::{IoContext, ThreadIoContext};
use asyncio::reactor::epoll::{
    is_error_event, Dispatch, Epoll, EpollCtl, EpollReactor, ReadyEvent, EPOLLERR, EPOLLET,
    EPOLLHUP, EPOLLIN, EPOLLOUT, EPOLL_CTL_ADD, EPOLL_CTL_DEL, POLL_CEILING_NS,
};
use asyncio::reactor::intr::{drain_intr, DrainStep, Intr};
use asyncio::signal_set::SignalSet;

fn reactor() -> EpollReactor<u32> {
    EpollReactor::new(3, Intr::new(4, 5))
}

fn worker() -> ThreadIoContext<u32> {
    ThreadIoContext::new(IoContext::new())
}

fn event(events: u32, fd: i32) -> ReadyEvent {
    ReadyEvent { events, fd, error: SystemError::Success }
}

#[test]
fn epoll_constants_are_the_kernels() {
    assert_eq!(EPOLLIN, libc::EPOLLIN as u32);
    assert_eq!(EPOLLOUT, libc::EPOLLOUT as u32);
    assert_eq!(EPOLLERR, libc::EPOLLERR as u32);
    assert_eq!(EPOLLHUP, libc::EPOLLHUP as u32);
    assert_eq!(EPOLLET, libc::EPOLLET as u32);
    assert_eq!(EPOLL_CTL_ADD, libc::EPOLL_CTL_ADD);
    assert_eq!(EPOLL_CTL_DEL, libc::EPOLL_CTL_DEL);
}

#[test]
fn poll_timeout_is_bounded_by_ten_seconds() {
    assert_eq!(POLL_CEILING_NS, 10 * 1_000_000_000);
    assert_eq!(EpollReactor::<u32>::poll_timeout(false, 5_000_000_000), 0);
    assert_eq!(EpollReactor::<u32>::poll_timeout(true, 0), 0);
    assert_eq!(EpollReactor::<u32>::poll_timeout(true, 999_999), 0);
    assert_eq!(EpollReactor::<u32>::poll_timeout(true, 1_000_000), 1);
    assert_eq!(EpollReactor::<u32>::poll_timeout(true, 2_500_000_000), 2_500);
    assert_eq!(EpollReactor::<u32>::poll_timeout(true, 10_000_000_000), 10_000);
    assert_eq!(EpollReactor::<u32>::poll_timeout(true, u64::MAX), 10_000);
}

#[test]
fn handles_start_idle() {
    let soc: Epoll<u32> = Epoll::socket(9);
    assert_eq!(soc.as_raw_fd(), 9);
    assert_eq!(soc.kind(), Dispatch::Socket);
    assert_eq!(soc.input().len(), 0);
    assert_eq!(soc.output().len(), 0);
    let intr: Epoll<u32> = Epoll::intr(4);
    assert_eq!(intr.as_raw_fd(), 4);
    assert_eq!(intr.kind(), Dispatch::Intr);
}

#[test]
fn registration_requests() {
    let mut re = reactor();
    assert_eq!(re.as_raw_fd(), 3);
    assert_eq!(re.interrupt(), 5);
    assert_eq!(
        re.init(),
        EpollCtl { epfd: 3, op: EPOLL_CTL_ADD, fd: 4, events: EPOLLIN | EPOLLET }
    );
    assert!(re.is_registered(4));
    let soc: Epoll<u32> = Epoll::socket(9);
    assert!(!re.is_registered(9));
    assert_eq!(
        re.register_socket(&soc),
        EpollCtl { epfd: 3, op: EPOLL_CTL_ADD, fd: 9, events: EPOLLIN | EPOLLOUT | EPOLLET }
    );
    assert!(re.is_registered(9));
    assert_eq!(
        re.deregister_socket(&soc),
        EpollCtl { epfd: 3, op: EPOLL_CTL_DEL, fd: 9, events: 0 }
    );
    assert!(!re.is_registered(9));
    let pipe: Epoll<u32> = Epoll::intr(11);
    assert_eq!(
        re.register_intr(&pipe),
        EpollCtl { epfd: 3, op: EPOLL_CTL_ADD, fd: 11, events: EPOLLIN | EPOLLET }
    );
    assert!(re.is_registered(11));
    assert_eq!(
        re.deregister_intr(&pipe),
        EpollCtl { epfd: 3, op: EPOLL_CTL_DEL, fd: 11, events: 0 }
    );
    assert!(!re.is_registered(11));
    assert_eq!(re.cleanup(), EpollCtl { epfd: 3, op: EPOLL_CTL_DEL, fd: 4, events: 0 });
    assert!(!re.is_registered(4));
}

#[test]
fn error_events_are_told_apart() {
    assert!(is_error_event(EPOLLERR));
    assert!(is_error_event(EPOLLHUP | EPOLLIN));
    assert!(!is_error_event(EPOLLIN | EPOLLOUT));
    assert!(!is_error_event(0));
}

#[test]
fn reactor_queues_by_direction() {
    let re = reactor();
    let mut soc = Epoll::socket(9);
    let mut this = worker();
    re.add_read_op(&mut soc, &mut this, 1, SystemError::Success);
    re.add_write_op(&mut soc, &mut this, 2, SystemError::Success);
    re.add_read_op(&mut soc, &mut this, 3, SystemError::Success);
    re.add_write_op(&mut soc, &mut this, 4, SystemError::Success);
    assert_eq!(this.take_pending(), vec![(1, SystemError::Success), (2, SystemError::Success)]);
    assert_eq!(soc.input().len(), 1);
    assert_eq!(soc.output().len(), 1);
    re.next_write_op(&mut soc, &mut this);
    assert_eq!(this.take_pending(), vec![(4, SystemError::Success)]);
    re.next_read_op(&mut soc, &mut this);
    assert_eq!(this.take_pending(), vec![(3, SystemError::Success)]);
    re.next_read_op(&mut soc, &mut this);
    assert!(!soc.input().is_blocked());
    assert!(soc.output().is_blocked());
}

#[test]
fn cancel_ops_cancels_input_then_output() {
    let re = reactor();
    let mut soc = Epoll::socket(9);
    let mut this = worker();
    let mut ctx = IoContext::new();
    re.add_write_op(&mut soc, &mut this, 2, SystemError::Success);
    re.add_read_op(&mut soc, &mut this, 1, SystemError::Success);
    this.take_pending();
    re.add_write_op(&mut soc, &mut this, 2, SystemError::WouldBlock);
    re.add_read_op(&mut soc, &mut this, 1, SystemError::WouldBlock);
    re.cancel_ops(&mut soc, &mut ctx, SystemError::OperationCanceled);
    assert_eq!(
        ctx.take_posted(),
        vec![(1, SystemError::OperationCanceled), (2, SystemError::OperationCanceled)]
    );
    assert!(soc.input().is_canceled());
    assert!(soc.output().is_canceled());
}

fn two_waiting_sockets(re: &mut EpollReactor<u32>) -> Vec<Epoll<u32>> {
    let mut this = worker();
    let mut handles = vec![Epoll::socket(9), Epoll::socket(10)];
    for h in handles.iter_mut() {
        re.register_socket(h);
        let base = h.as_raw_fd() as u32 * 10;
        re.add_read_op(h, &mut this, base + 1, SystemError::Success);
        re.add_write_op(h, &mut this, base + 2, SystemError::Success);
        re.add_read_op(h, &mut this, base + 1, SystemError::WouldBlock);
        re.add_write_op(h, &mut this, base + 2, SystemError::WouldBlock);
    }
    handles
}

#[test]
fn poll_dispatches_by_descriptor_and_direction() {
    let mut re = reactor();
    let mut handles = two_waiting_sockets(&mut re);
    let mut this = worker();
    let ready = vec![event(EPOLLOUT, 10), event(EPOLLIN | EPOLLOUT, 9)];
    let drain = re.poll(&mut handles, &mut Vec::new(), &ready, &mut this);
    assert!(drain.is_empty());
    assert_eq!(
        this.take_pending(),
        vec![(102, SystemError::Success), (91, SystemError::Success), (92, SystemError::Success)]
    );
    assert_eq!(handles[1].input().len(), 1);
    assert!(!handles[1].input().is_blocked());
    assert!(handles[1].output().is_blocked());
    assert!(handles[0].input().is_blocked());
}

#[test]
fn poll_cancels_on_error_with_the_pending_error() {
    let mut re = reactor();
    let mut handles = two_waiting_sockets(&mut re);
    let mut this = worker();
    let ready =
        vec![ReadyEvent { events: EPOLLERR | EPOLLIN, fd: 9, error: SystemError::Os(111) }];
    let drain = re.poll(&mut handles, &mut Vec::new(), &ready, &mut this);
    assert!(drain.is_empty());
    assert!(this.take_pending().is_empty());
    let mut ctx = this.into_ctx();
    assert_eq!(ctx.take_posted(), vec![(91, SystemError::Os(111)), (92, SystemError::Os(111))]);
    assert!(handles[0].input().is_canceled());
    assert!(handles[0].output().is_canceled());
    assert!(!handles[1].input().is_canceled());
}

#[test]
fn poll_skips_what_is_not_registered() {
    let mut re = reactor();
    let mut handles = two_waiting_sockets(&mut re);
    re.deregister_socket(&handles[0]);
    let mut this = worker();
    let ready = vec![event(EPOLLIN, 9), event(EPOLLIN, 77), event(EPOLLIN, 10)];
    let drain = re.poll(&mut handles, &mut Vec::new(), &ready, &mut this);
    assert!(drain.is_empty());
    assert_eq!(this.take_pending(), vec![(101, SystemError::Success)]);
    assert_eq!(handles[0].input().len(), 1);
}

#[test]
fn interrupter_is_drained_when_readable() {
    let mut re = reactor();
    re.init();
    let mut handles: Vec<Epoll<u32>> = Vec::new();
    let mut this = worker();
    let drain = re.poll(&mut handles, &mut Vec::new(), &vec![event(EPOLLIN, 4)], &mut this);
    assert_eq!(drain, vec![4]);
    let drain = re.poll(&mut handles, &mut Vec::new(), &vec![event(EPOLLOUT, 4)], &mut this);
    assert!(drain.is_empty());
    assert!(this.take_pending().is_empty());
}

#[test]
fn interrupter_kind_handle_is_drained_too() {
    let mut re = reactor();
    let mut handles: Vec<Epoll<u32>> = vec![Epoll::intr(11)];
    re.register_intr(&handles[0]);
    let mut this = worker();
    let drain = re.poll(&mut handles, &mut Vec::new(), &vec![event(EPOLLIN, 11), event(EPOLLIN, 4)], &mut this);
    assert_eq!(drain, vec![11]);
}

#[test]
fn interrupter_parts() {
    let intr: Intr<u32> = Intr::new(4, 5);
    assert_eq!(intr.interrupt(), 5);
    assert_eq!(intr.handle().as_raw_fd(), 4);
    assert_eq!(intr.handle().kind(), Dispatch::Intr);
    assert_eq!(intr.handle().input().len(), 0);
    assert_eq!(intr.handle().output().len(), 0);
    assert!(!intr.handle().input().is_blocked());
    assert!(!intr.handle().input().is_canceled());
}

#[test]
fn interrupter_is_read_until_a_read_would_block() {
    assert_eq!(drain_intr(None), DrainStep::Read);
    assert_eq!(drain_intr(Some(Ok(8))), DrainStep::Read);
    assert_eq!(drain_intr(Some(Ok(1))), DrainStep::Read);
    assert_eq!(drain_intr(Some(Err(SystemError::Interrupted))), DrainStep::Read);
    assert_eq!(drain_intr(Some(Err(SystemError::WouldBlock))), DrainStep::Stop);
    assert_eq!(drain_intr(Some(Ok(0))), DrainStep::Stop);
    assert_eq!(drain_intr(Some(Err(SystemError::Os(9)))), DrainStep::Stop);
    // Three interrupts are pending and each read gives one byte.
    let mut pending = 3usize;
    let mut reads = 0;
    let mut last = None;
    while drain_intr(last) == DrainStep::Read {
        reads += 1;
        last = Some(if pending > 0 {
            pending -= 1;
            Ok(1)
        } else {
            Err(SystemError::WouldBlock)
        });
    }
    assert_eq!(pending, 0);
    assert_eq!(reads, 4);
}

#[test]
fn poll_starts_the_handler_of_a_readable_signal_set() {
    let mut re = reactor();
    let mut handles = two_waiting_sockets(&mut re);
    let mut ctx = IoContext::new();
    let mut signals = vec![SignalSet::new(20), SignalSet::new(21)];
    assert_eq!(
        re.register_signal(&signals[1]),
        EpollCtl { epfd: 3, op: EPOLL_CTL_ADD, fd: 21, events: EPOLLIN | EPOLLET }
    );
    signals[0].async_wait(&mut ctx, 200);
    signals[1].async_wait(&mut ctx, 210);
    let mut this = ThreadIoContext::new(ctx);
    let ready = vec![event(EPOLLIN, 20), event(EPOLLOUT, 21), event(EPOLLIN, 9)];
    let drain = re.poll(&mut handles, &mut signals, &ready, &mut this);
    assert!(drain.is_empty());
    assert_eq!(this.take_pending(), vec![(91, SystemError::Success)]);
    assert!(signals[1].is_waiting());
    let ready = vec![event(EPOLLIN, 21), event(EPOLLIN, 21)];
    re.poll(&mut handles, &mut signals, &ready, &mut this);
    assert_eq!(this.take_pending(), vec![(210, SystemError::Success)]);
    assert!(!signals[1].is_waiting());
    assert!(signals[0].is_waiting());
    assert_eq!(
        re.deregister_signal(&signals[1]),
        EpollCtl { epfd: 3, op: EPOLL_CTL_DEL, fd: 21, events: 0 }
    );
    assert!(!re.is_registered(21));
}
