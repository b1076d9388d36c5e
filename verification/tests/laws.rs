use asyncio::error::SystemError;
use asyncio::executor::{IoContext, ThreadIoContext};
use asyncio::ops::Ops;
use asyncio::signal::{KernelRequest, Signal, SignalMask};
use std::collections::BTreeSet;

#[test]
fn at_most_one_operation_in_flight() {
    // Operations behave as they should: the one in flight either completes
    // and advances, or finds nothing and comes back; edges arrive only while
    // nothing runs.
    let mut ops = Ops::new();
    let mut this: ThreadIoContext<u32> = ThreadIoContext::new(IoContext::new());
    let mut in_flight: Vec<u32> = Vec::new();
    let mut completed: Vec<u32> = Vec::new();
    for op in 0..6 {
        ops.submit(&mut this, op, SystemError::Success);
        in_flight.extend(this.take_pending().into_iter().map(|d| d.0));
        assert!(in_flight.len() <= 1);
    }
    for round in 0..20 {
        if let Some(op) = in_flight.pop() {
            if round % 3 == 0 {
                ops.submit(&mut this, op, SystemError::WouldBlock);
            } else {
                completed.push(op);
                ops.advance(&mut this);
            }
        } else {
            assert!(!ops.is_blocked());
            ops.on_readiness(&mut this);
        }
        for (op, err) in this.take_pending() {
            assert_eq!(err, SystemError::Success);
            in_flight.push(op);
        }
        assert!(in_flight.len() <= 1);
        assert!(in_flight.is_empty() || ops.is_blocked());
    }
    assert_eq!(completed, vec![0, 1, 2, 3, 4, 5]);
}

#[test]
fn after_cancel_everything_carries_canceled() {
    let mut ops = Ops::new();
    let mut this: ThreadIoContext<u32> = ThreadIoContext::new(IoContext::new());
    let mut ctx = IoContext::new();
    ops.submit(&mut this, 1, SystemError::Success);
    this.take_pending();
    ops.cancel(&mut ctx, SystemError::OperationCanceled);
    ops.submit(&mut this, 2, SystemError::Success);
    ops.submit(&mut this, 3, SystemError::Success);
    ops.cancel(&mut ctx, SystemError::TimedOut);
    assert!(this.take_pending().is_empty());
    assert!(ctx.take_posted().is_empty());
    assert!(ops.is_canceled());
    ops.advance(&mut this);
    assert_eq!(
        this.take_pending(),
        vec![(2, SystemError::OperationCanceled), (3, SystemError::OperationCanceled)]
    );
    assert!(!ops.is_canceled());
}

#[test]
fn new_operation_on_a_cancelled_idle_direction_starts() {
    let mut ops = Ops::new();
    let mut this: ThreadIoContext<u32> = ThreadIoContext::new(IoContext::new());
    let mut ctx = IoContext::new();
    ops.cancel(&mut ctx, SystemError::OperationCanceled);
    ops.submit(&mut this, 1, SystemError::Success);
    assert_eq!(this.take_pending(), vec![(1, SystemError::Success)]);
    assert!(ops.is_canceled());
}

fn apply(blocked: &mut BTreeSet<u32>, subscribed: &mut BTreeSet<u32>, requests: Vec<KernelRequest>) {
    for request in requests {
        match request {
            KernelRequest::Block(sig) => {
                blocked.insert(sig.ordinal());
            }
            KernelRequest::Unblock(sig) => {
                blocked.remove(&sig.ordinal());
            }
            KernelRequest::Subscribe(sig) => {
                subscribed.insert(sig.ordinal());
            }
            KernelRequest::Unsubscribe(sig) => {
                subscribed.remove(&sig.ordinal());
            }
        }
    }
}

fn members(mask: &SignalMask) -> BTreeSet<u32> {
    (0..28).filter(|i| mask.contains(Signal::from_ordinal(*i).unwrap())).collect()
}

#[test]
fn kernel_follows_the_membership() {
    let mut mask = SignalMask::new();
    let mut blocked = BTreeSet::new();
    let mut subscribed = BTreeSet::new();
    let picks = [3u32, 7, 3, 11, 27, 0, 7, 7, 19, 3, 27, 5];
    for (step, pick) in picks.iter().enumerate() {
        let sig = Signal::from_ordinal(*pick).unwrap();
        let result = if step % 3 == 2 { mask.remove(sig) } else { mask.add(sig) };
        if let Ok(requests) = result {
            apply(&mut blocked, &mut subscribed, requests);
        }
        assert_eq!(blocked, members(&mask));
        assert_eq!(subscribed, members(&mask));
    }
    assert!(!members(&mask).is_empty());
    let requests = mask.clear();
    apply(&mut blocked, &mut subscribed, requests);
    assert!(members(&mask).is_empty());
    assert!(blocked.is_empty());
    assert!(subscribed.is_empty());
}

#[test]
fn kernel_refusal_is_undone() {
    let mut mask = SignalMask::new();
    let mut blocked = BTreeSet::new();
    let mut subscribed = BTreeSet::new();
    let requests = mask.add(Signal::SIGQUIT).unwrap();
    // The kernel blocks the signal and refuses the subscription.
    apply(&mut blocked, &mut subscribed, vec![requests[0]]);
    let undo = mask.add_failed(Signal::SIGQUIT);
    apply(&mut blocked, &mut subscribed, undo);
    assert!(members(&mask).is_empty());
    assert!(blocked.is_empty());
    assert!(subscribed.is_empty());
}
