use asyncio::error::SystemError;
use asyncio::executor::{IoContext, ThreadIoContext};
use asyncio::kqueue::signal::KqueueSignal;
use asyncio::kqueue::socket::KqueueSocket;
use asyncio::kqueue::{Kevent, KeventDispatch};
use asyncio::signal::{KernelRequest, Signal};

fn worker() -> ThreadIoContext<u32> {
    ThreadIoContext::new(IoContext::new())
}

#[test]
fn kevent_handles_start_idle() {
    let soc: Kevent<u32> = Kevent::socket(8);
    assert_eq!(soc.as_raw_fd(), 8);
    assert_eq!(soc.kind(), KeventDispatch::Socket);
    assert_eq!(soc.input().len(), 0);
    assert_eq!(soc.output().len(), 0);
    let sig: Kevent<u32> = Kevent::signal();
    assert_eq!(sig.as_raw_fd(), -1);
    assert_eq!(sig.kind(), KeventDispatch::Signal);
}

#[test]
fn kqueue_socket_queues_by_direction() {
    let mut soc: KqueueSocket<&str, u32> = KqueueSocket::new(8, "payload");
    let mut this = worker();
    assert_eq!(soc.as_raw_fd(), 8);
    assert_eq!(soc.data, "payload");
    soc.add_read_op(&mut this, 1, SystemError::Success);
    soc.add_read_op(&mut this, 2, SystemError::Success);
    soc.add_write_op(&mut this, 3, SystemError::Success);
    soc.add_write_op(&mut this, 4, SystemError::Success);
    assert_eq!(this.take_pending(), vec![(1, SystemError::Success), (3, SystemError::Success)]);
    soc.next_read_op(&mut this);
    assert_eq!(this.take_pending(), vec![(2, SystemError::Success)]);
    soc.next_write_op(&mut this);
    assert_eq!(this.take_pending(), vec![(4, SystemError::Success)]);
    soc.next_read_op(&mut this);
    soc.next_write_op(&mut this);
    assert!(this.take_pending().is_empty());
    assert!(!soc.handle().input().is_blocked());
    assert!(!soc.handle().output().is_blocked());
    assert_eq!(soc.data, "payload");
}

#[test]
fn kqueue_socket_cancel() {
    let mut soc: KqueueSocket<(), u32> = KqueueSocket::new(8, ());
    let mut this = worker();
    let mut ctx = IoContext::new();
    soc.add_read_op(&mut this, 1, SystemError::Success);
    soc.add_read_op(&mut this, 2, SystemError::Success);
    soc.add_write_op(&mut this, 3, SystemError::Success);
    soc.add_write_op(&mut this, 3, SystemError::WouldBlock);
    this.take_pending();
    soc.cancel(&mut ctx);
    // The read direction has an operation running: its queue stays.
    assert_eq!(ctx.take_posted(), vec![(3, SystemError::OperationCanceled)]);
    assert_eq!(soc.handle().input().len(), 1);
    soc.next_read_op(&mut this);
    assert_eq!(this.take_pending(), vec![(2, SystemError::OperationCanceled)]);
    assert!(!soc.handle().input().is_canceled());
    assert!(soc.handle().output().is_canceled());
}

#[test]
fn kqueue_signal_starts_empty() {
    let sig: KqueueSignal<u32> = KqueueSignal::new();
    assert_eq!(sig.handle().kind(), KeventDispatch::Signal);
    assert_eq!(sig.handle().input().len(), 0);
    assert!(!sig.contains(Signal::SIGHUP));
}

#[test]
fn kqueue_signal_waiters_are_completed_by_deliveries() {
    let mut sig: KqueueSignal<u32> = KqueueSignal::new();
    let mut this = worker();
    sig.add_read_op(&mut this, 1, SystemError::Success);
    sig.add_read_op(&mut this, 2, SystemError::WouldBlock);
    assert!(this.take_pending().is_empty());
    assert_eq!(sig.handle().input().len(), 2);
    assert!(!sig.handle().input().is_blocked());
    sig.next_read_op(&mut this);
    assert!(this.take_pending().is_empty());
    assert_eq!(sig.handle().input().len(), 2);
    sig.dispatch_signal(&mut this);
    assert_eq!(this.take_pending(), vec![(1, SystemError::Success)]);
    sig.dispatch_signal(&mut this);
    sig.dispatch_signal(&mut this);
    assert_eq!(this.take_pending(), vec![(2, SystemError::Success)]);
}

#[test]
fn kqueue_signal_cancel() {
    let mut sig: KqueueSignal<u32> = KqueueSignal::new();
    let mut this = worker();
    let mut ctx = IoContext::new();
    sig.add_read_op(&mut this, 1, SystemError::Success);
    sig.add_read_op(&mut this, 2, SystemError::Success);
    sig.cancel(&mut ctx);
    assert_eq!(
        ctx.take_posted(),
        vec![(1, SystemError::OperationCanceled), (2, SystemError::OperationCanceled)]
    );
    assert_eq!(sig.handle().input().len(), 0);
}

#[test]
fn kqueue_signal_membership() {
    let mut sig: KqueueSignal<u32> = KqueueSignal::new();
    assert_eq!(
        sig.add(Signal::SIGHUP),
        Ok(vec![KernelRequest::Block(Signal::SIGHUP), KernelRequest::Subscribe(Signal::SIGHUP)])
    );
    assert_eq!(sig.add(Signal::SIGHUP), Err(SystemError::InvalidArgument));
    assert!(sig.add(Signal::SIGUSR1).is_ok());
    assert_eq!(sig.remove(Signal::SIGUSR2), Err(SystemError::InvalidArgument));
    assert_eq!(
        sig.remove(Signal::SIGUSR1),
        Ok(vec![
            KernelRequest::Unsubscribe(Signal::SIGUSR1),
            KernelRequest::Unblock(Signal::SIGUSR1)
        ])
    );
    assert!(sig.contains(Signal::SIGHUP));
    assert!(sig.add(Signal::SIGXFSZ).is_ok());
    assert_eq!(
        sig.add_failed(Signal::SIGXFSZ),
        vec![KernelRequest::Unblock(Signal::SIGXFSZ)]
    );
    assert_eq!(
        sig.clear(),
        vec![
            KernelRequest::Unsubscribe(Signal::SIGHUP),
            KernelRequest::Unblock(Signal::SIGHUP)
        ]
    );
    assert!(sig.clear().is_empty());
    assert!(!sig.contains(Signal::SIGHUP));
}

#[test]
fn kqueue_signal_close_clears_and_cancels() {
    let mut sig: KqueueSignal<u32> = KqueueSignal::new();
    let mut this = worker();
    let mut ctx = IoContext::new();
    sig.add(Signal::SIGINT).unwrap();
    sig.add_read_op(&mut this, 1, SystemError::Success);
    let requests = sig.close(&mut ctx);
    assert_eq!(
        requests,
        vec![
            KernelRequest::Unsubscribe(Signal::SIGINT),
            KernelRequest::Unblock(Signal::SIGINT)
        ]
    );
    assert_eq!(ctx.take_posted(), vec![(1, SystemError::OperationCanceled)]);
}
