use asyncio::error::SystemError;
use asyncio::executor::{IoContext, ThreadIoContext};
use asyncio::ops::Ops;

fn worker() -> ThreadIoContext<u32> {
    ThreadIoContext::new(IoContext::new())
}

#[test]
fn default_error_is_success() {
    assert_eq!(SystemError::default(), SystemError::Success);
    assert!(SystemError::Success.is_success());
    assert!(!SystemError::OperationCanceled.is_success());
    assert!(!SystemError::Os(0).is_success());
}

#[test]
fn new_queue_is_idle() {
    let ops: Ops<u32> = Ops::new();
    assert_eq!(ops.len(), 0);
    assert!(!ops.is_blocked());
    assert!(!ops.is_canceled());
    let ops: Ops<u32> = Ops::default();
    assert_eq!(ops.len(), 0);
    assert!(!ops.is_blocked());
    assert!(!ops.is_canceled());
}

#[test]
fn submit_on_idle_runs_at_once() {
    let mut ops = Ops::new();
    let mut this = worker();
    ops.submit(&mut this, 1, SystemError::Success);
    assert_eq!(this.pending, vec![(1, SystemError::Success)]);
    assert_eq!(ops.len(), 0);
    assert!(ops.is_blocked());
}

#[test]
fn submit_while_running_waits_at_the_tail() {
    let mut ops = Ops::new();
    let mut this = worker();
    ops.submit(&mut this, 1, SystemError::Success);
    ops.submit(&mut this, 2, SystemError::Success);
    ops.submit(&mut this, 3, SystemError::Success);
    assert_eq!(this.pending, vec![(1, SystemError::Success)]);
    assert_eq!(ops.len(), 2);
    ops.advance(&mut this);
    ops.advance(&mut this);
    assert_eq!(
        this.pending,
        vec![(1, SystemError::Success), (2, SystemError::Success), (3, SystemError::Success)]
    );
    assert!(ops.is_blocked());
    ops.advance(&mut this);
    assert!(!ops.is_blocked());
    assert_eq!(this.pending.len(), 3);
}

#[test]
fn would_block_goes_back_to_the_head() {
    let mut ops = Ops::new();
    let mut this = worker();
    ops.submit(&mut this, 1, SystemError::Success);
    ops.submit(&mut this, 2, SystemError::Success);
    this.take_pending();
    ops.submit(&mut this, 1, SystemError::WouldBlock);
    assert!(this.pending.is_empty());
    assert!(!ops.is_blocked());
    assert_eq!(ops.len(), 2);
    ops.on_readiness(&mut this);
    assert_eq!(this.pending, vec![(1, SystemError::Success)]);
    assert!(ops.is_blocked());
    assert_eq!(ops.len(), 1);
}

#[test]
fn readiness_on_empty_queue_does_nothing() {
    let mut ops: Ops<u32> = Ops::new();
    let mut this = worker();
    ops.on_readiness(&mut this);
    assert!(this.pending.is_empty());
    assert!(!ops.is_blocked());
}

#[test]
fn fifo_under_contention() {
    // Three reads wait for data that arrives in three pieces.
    let mut ops = Ops::new();
    let mut this = worker();
    for r in [1, 2, 3] {
        ops.submit(&mut this, r, SystemError::Success);
    }
    // The first read finds nothing and comes back.
    assert_eq!(this.take_pending(), vec![(1, SystemError::Success)]);
    ops.submit(&mut this, 1, SystemError::WouldBlock);
    let mut completed = Vec::new();
    for _ in 0..3 {
        ops.on_readiness(&mut this);
        let ran = this.take_pending();
        assert_eq!(ran.len(), 1);
        assert_eq!(ran[0].1, SystemError::Success);
        completed.push(ran[0].0);
        // The read takes its piece; the next one finds nothing and comes back.
        ops.advance(&mut this);
        for (op, err) in this.take_pending() {
            assert_eq!(err, SystemError::Success);
            ops.submit(&mut this, op, SystemError::WouldBlock);
        }
    }
    assert_eq!(completed, vec![1, 2, 3]);
    assert_eq!(ops.len(), 0);
}

#[test]
fn cancel_drains_pending() {
    let mut ops = Ops::new();
    let mut this = worker();
    let mut ctx = IoContext::new();
    ops.submit(&mut this, 1, SystemError::Success);
    this.take_pending();
    ops.submit(&mut this, 1, SystemError::WouldBlock);
    ops.cancel(&mut ctx, SystemError::OperationCanceled);
    assert_eq!(ctx.take_posted(), vec![(1, SystemError::OperationCanceled)]);
    assert!(this.pending.is_empty());
    assert_eq!(ops.len(), 0);
    assert!(ops.is_canceled());
    // A second cancellation finds nothing to do.
    ops.cancel(&mut ctx, SystemError::OperationCanceled);
    assert!(ctx.take_posted().is_empty());
}

#[test]
fn cancel_during_running_op() {
    let mut ops = Ops::new();
    let mut this = worker();
    let mut ctx = IoContext::new();
    ops.submit(&mut this, 1, SystemError::Success);
    ops.submit(&mut this, 2, SystemError::Success);
    assert_eq!(this.take_pending(), vec![(1, SystemError::Success)]);
    ops.cancel(&mut ctx, SystemError::OperationCanceled);
    assert!(ctx.take_posted().is_empty());
    assert!(ops.is_canceled());
    assert_eq!(ops.len(), 1);
    // The running operation completes and advances.
    ops.advance(&mut this);
    assert_eq!(this.take_pending(), vec![(2, SystemError::OperationCanceled)]);
    assert_eq!(ops.len(), 0);
    assert!(!ops.is_canceled());
}

#[test]
fn cancel_before_any_operation_hands_out_nothing() {
    let mut ops: Ops<u32> = Ops::new();
    let mut ctx = IoContext::new();
    ops.cancel(&mut ctx, SystemError::OperationCanceled);
    assert!(ctx.take_posted().is_empty());
    assert_eq!(ops.len(), 0);
}

#[test]
fn cancel_carries_the_error_it_was_given() {
    let mut ops = Ops::new();
    let mut this = worker();
    let mut ctx = IoContext::new();
    ops.submit(&mut this, 7, SystemError::Success);
    ops.submit(&mut this, 8, SystemError::Success);
    ops.submit(&mut this, 7, SystemError::WouldBlock);
    ops.cancel(&mut ctx, SystemError::Os(104));
    assert_eq!(ctx.take_posted(), vec![(7, SystemError::Os(104)), (8, SystemError::Os(104))]);
}

#[test]
fn returning_operation_meets_pending_cancellation() {
    let mut ops = Ops::new();
    let mut this = worker();
    let mut ctx = IoContext::new();
    ops.submit(&mut this, 1, SystemError::Success);
    ops.submit(&mut this, 2, SystemError::Success);
    ops.submit(&mut this, 3, SystemError::Success);
    this.take_pending();
    ops.cancel(&mut ctx, SystemError::OperationCanceled);
    ops.submit(&mut this, 1, SystemError::WouldBlock);
    assert_eq!(
        this.take_pending(),
        vec![
            (1, SystemError::OperationCanceled),
            (2, SystemError::OperationCanceled),
            (3, SystemError::OperationCanceled)
        ]
    );
    assert_eq!(ops.len(), 0);
    assert!(ops.is_canceled());
    assert!(ops.is_blocked());
}

#[test]
fn nothing_is_lost_or_doubled() {
    let mut ops = Ops::new();
    let mut this = worker();
    let mut ctx = IoContext::new();
    let submitted: Vec<u32> = (0..10).collect();
    for op in &submitted {
        ops.submit(&mut this, *op, SystemError::Success);
    }
    ops.advance(&mut this);
    ops.on_readiness(&mut this);
    ops.cancel(&mut ctx, SystemError::OperationCanceled);
    ops.advance(&mut this);
    let mut seen: Vec<u32> = this.take_pending().into_iter().map(|d| d.0).collect();
    seen.extend(ctx.take_posted().into_iter().map(|d| d.0));
    assert_eq!(ops.len(), 0);
    assert_eq!(seen, submitted);
}

#[test]
fn enqueue_and_complete_one_leave_the_flags() {
    let mut ops = Ops::new();
    let mut this = worker();
    ops.enqueue(5);
    ops.enqueue(6);
    assert_eq!(ops.len(), 2);
    assert!(!ops.is_blocked());
    ops.complete_one(&mut this);
    assert_eq!(this.take_pending(), vec![(5, SystemError::Success)]);
    assert!(!ops.is_blocked());
    ops.complete_one(&mut this);
    ops.complete_one(&mut this);
    assert_eq!(this.take_pending(), vec![(6, SystemError::Success)]);
}

#[test]
fn worker_context_keeps_pushed_and_posted_apart() {
    let mut this: ThreadIoContext<u32> = worker();
    this.push(1, SystemError::Success);
    this.do_post((2, SystemError::TimedOut));
    this.push(3, SystemError::Eof);
    assert_eq!(this.take_pending(), vec![(1, SystemError::Success), (3, SystemError::Eof)]);
    assert!(this.take_pending().is_empty());
    let mut ctx = this.into_ctx();
    assert_eq!(ctx.take_posted(), vec![(2, SystemError::TimedOut)]);
    assert!(ctx.take_posted().is_empty());
}
