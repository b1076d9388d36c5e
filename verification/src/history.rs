//! What holds of one direction of a descriptor over any sequence of events.

use crate::error::SystemError;
use crate::ops::{drained, OpsView, Step};
use vstd::prelude::*;
use vstd::seq_lib::*;

verus! {

/// Something that happens to one direction of a descriptor.
pub enum OpsEvent<Op> {
    /// `op` arrives with `err`.
    Submit { op: Op, err: SystemError },
    /// The running operation has finished with its readiness edge.
    Advance,
    /// The direction is cancelled with `err`.
    Cancel { err: SystemError },
    /// The multiplexer reports a readiness edge.
    Ready,
}

/// The operations of `out`, in order, without their errors.
pub open spec fn ops_of<Op>(out: Seq<(Op, SystemError)>) -> Seq<Op> {
    Seq::new(out.len(), |i: int| out[i].0)
}

/// The waiting line once the operation of `e`, if it brings one, has joined
/// it: a new operation at the tail, a returning one at the head.
pub open spec fn joined<Op>(queue: Seq<Op>, e: OpsEvent<Op>) -> Seq<Op> {
    match e {
        OpsEvent::Submit { op, err } => if err == SystemError::Success {
            queue.push(op)
        } else {
            seq![op] + queue
        },
        _ => queue,
    }
}

/// The operations that the events bring, in the order of the events.
pub open spec fn submitted<Op>(events: Seq<OpsEvent<Op>>) -> Seq<Op>
    decreases events.len(),
{
    if events.len() == 0 {
        Seq::empty()
    } else {
        let before = submitted(events.drop_last());
        match events.last() {
            OpsEvent::Submit { op, .. } => before.push(op),
            _ => before,
        }
    }
}

/// Every operation that the events bring is new: it arrives with `Success`.
pub open spec fn all_new<Op>(events: Seq<OpsEvent<Op>>) -> bool {
    forall|i: int|
        0 <= i < events.len() ==> match #[trigger] events[i] {
            OpsEvent::Submit { err, .. } => err == SystemError::Success,
            _ => true,
        }
}

impl<Op> OpsView<Op> {
    /// The transition that `e` causes.
    pub open spec fn step(self, e: OpsEvent<Op>) -> Step<Op> {
        match e {
            OpsEvent::Submit { op, err } => self.submit(op, err),
            OpsEvent::Advance => self.advance(),
            OpsEvent::Cancel { err } => self.cancel(err),
            OpsEvent::Ready => self.ready(),
        }
    }

    /// The state after all of `events`, and everything handed to executors on
    /// the way, in order.
    pub open spec fn run(self, events: Seq<OpsEvent<Op>>) -> Step<Op>
        decreases events.len(),
    {
        if events.len() == 0 {
            Step { next: self, out: Seq::empty() }
        } else {
            let before = self.run(events.drop_last());
            let last = before.next.step(events.last());
            Step { next: last.next, out: before.out + last.out }
        }
    }
}

/// Draining a line and forgetting the errors gives the line back.
pub proof fn lemma_ops_of_drained<Op>(queue: Seq<Op>, err: SystemError)
    ensures
        ops_of(drained(queue, err)) == queue,
{
    assert(ops_of(drained(queue, err)) =~= queue);
}

/// Forgetting the errors goes through concatenation.
pub proof fn lemma_ops_of_concat<Op>(a: Seq<(Op, SystemError)>, b: Seq<(Op, SystemError)>)
    ensures
        ops_of(a + b) == ops_of(a) + ops_of(b),
{
    assert(ops_of(a + b) =~= ops_of(a) + ops_of(b));
}

/// Within one transition nothing overtakes: what is handed out, followed by
/// what still waits, is the waiting line as it stood once the arriving
/// operation had joined it.
pub proof fn law_step_keeps_order<Op>(s: OpsView<Op>, e: OpsEvent<Op>)
    ensures
        ops_of(s.step(e).out) + s.step(e).next.queue == joined(s.queue, e),
{
    let r = s.step(e);
    match e {
        OpsEvent::Submit { op, err } => {
            if err != SystemError::Success && s.canceled {
                lemma_ops_of_drained(seq![op] + s.queue, SystemError::OperationCanceled);
            }
        },
        OpsEvent::Advance => {
            if s.canceled {
                lemma_ops_of_drained(s.queue, SystemError::OperationCanceled);
            }
        },
        OpsEvent::Cancel { err } => {
            if !s.canceled && !s.blocked {
                lemma_ops_of_drained(s.queue, err);
            }
        },
        OpsEvent::Ready => {},
    }
    assert(ops_of(r.out) + r.next.queue =~= joined(s.queue, e));
}

/// The operation that `e` brings, if it brings one.
pub open spec fn brought<Op>(e: OpsEvent<Op>) -> Seq<Op> {
    match e {
        OpsEvent::Submit { op, .. } => seq![op],
        _ => Seq::empty(),
    }
}

/// Where the arriving operation joins the line does not matter to what the
/// line holds.
proof fn lemma_joined_holds<Op>(queue: Seq<Op>, e: OpsEvent<Op>)
    ensures
        joined(queue, e).to_multiset() == queue.to_multiset().add(brought(e).to_multiset()),
{
    broadcast use vstd::multiset::group_multiset_axioms;

    lemma_multiset_commutative(brought(e), queue);
    lemma_multiset_commutative(queue, brought(e));
    match e {
        OpsEvent::Submit { op, err } => {
            assert(queue.push(op) =~= queue + seq![op]);
        },
        _ => {
            assert(queue + Seq::<Op>::empty() =~= queue);
        },
    }
    assert(joined(queue, e).to_multiset() =~= queue.to_multiset().add(
        brought(e).to_multiset(),
    ));
}

/// No loss and no duplication: over any events, the operations handed to
/// executors together with those that still wait are, counted with
/// multiplicity, the operations that waited at the start together with those
/// that the events brought.
pub proof fn law_run_conserves_operations<Op>(s: OpsView<Op>, events: Seq<OpsEvent<Op>>)
    ensures
        ops_of(s.run(events).out).to_multiset().add(s.run(events).next.queue.to_multiset())
            == s.queue.to_multiset().add(submitted(events).to_multiset()),
    decreases events.len(),
{
    broadcast use vstd::multiset::group_multiset_axioms;

    let r = s.run(events);
    if events.len() == 0 {
        assert(ops_of(r.out) =~= Seq::<Op>::empty());
        assert(submitted(events) =~= Seq::<Op>::empty());
    } else {
        let e = events.last();
        let before = s.run(events.drop_last());
        let last = before.next.step(e);
        let handed = ops_of(before.out).to_multiset();
        let handed_now = ops_of(last.out).to_multiset();
        let waited = before.next.queue.to_multiset();
        let came = submitted(events.drop_last()).to_multiset();
        let comes = brought(e).to_multiset();
        law_run_conserves_operations(s, events.drop_last());
        assert(handed_now.add(last.next.queue.to_multiset()) == waited.add(comes)) by {
            law_step_keeps_order(before.next, e);
            lemma_multiset_commutative(ops_of(last.out), last.next.queue);
            lemma_joined_holds(before.next.queue, e);
        }
        assert(ops_of(r.out).to_multiset() == handed.add(handed_now)) by {
            lemma_ops_of_concat(before.out, last.out);
            lemma_multiset_commutative(ops_of(before.out), ops_of(last.out));
        }
        assert(submitted(events).to_multiset() == came.add(comes)) by {
            assert(submitted(events) =~= submitted(events.drop_last()) + brought(e));
            lemma_multiset_commutative(submitted(events.drop_last()), brought(e));
        }
        assert forall|x: Op|
            ops_of(r.out).to_multiset().add(r.next.queue.to_multiset()).count(x)
                == s.queue.to_multiset().add(submitted(events).to_multiset()).count(x) by {
            assert(handed_now.add(last.next.queue.to_multiset()).count(x) == waited.add(
                comes,
            ).count(x));
            assert(handed.add(waited).count(x) == s.queue.to_multiset().add(came).count(x));
        }
        assert(ops_of(r.out).to_multiset().add(r.next.queue.to_multiset())
            =~= s.queue.to_multiset().add(submitted(events).to_multiset()));
    }
}

/// First in, first out: where every operation that the events bring is new,
/// the operations handed to executors, followed by those that still wait, are
/// the operations that waited at the start followed by those that arrived, in
/// the order of their arrival. So whatever is handed out, with success or
/// with an error, leaves in the order in which it came.
pub proof fn law_run_first_in_first_out<Op>(s: OpsView<Op>, events: Seq<OpsEvent<Op>>)
    requires
        all_new(events),
    ensures
        ops_of(s.run(events).out) + s.run(events).next.queue == s.queue + submitted(events),
        forall|i: int|
            0 <= i < s.run(events).out.len() ==> (#[trigger] s.run(events).out[i]).0 == (s.queue
                + submitted(events))[i],
    decreases events.len(),
{
    let r = s.run(events);
    if events.len() == 0 {
        assert(ops_of(r.out) + r.next.queue =~= s.queue + submitted(events));
    } else {
        let e = events.last();
        let before = s.run(events.drop_last());
        let last = before.next.step(e);
        assert(all_new(events.drop_last())) by {
            assert forall|i: int| 0 <= i < events.drop_last().len() implies match #[trigger] events.drop_last()[i] {
                OpsEvent::Submit { err, .. } => err == SystemError::Success,
                _ => true,
            } by {
                assert(events.drop_last()[i] == events[i]);
            }
        }
        law_run_first_in_first_out(s, events.drop_last());
        law_step_keeps_order(before.next, e);
        lemma_ops_of_concat(before.out, last.out);
        assert(events[events.len() - 1] == e);
        let arrived = brought(e);
        assert(submitted(events) =~= submitted(events.drop_last()) + arrived);
        assert(joined(before.next.queue, e) =~= before.next.queue + arrived);
        assert(ops_of(r.out) + r.next.queue =~= ops_of(before.out) + (ops_of(last.out)
            + last.next.queue));
        assert(ops_of(before.out) + (before.next.queue + arrived) =~= (ops_of(before.out)
            + before.next.queue) + arrived);
        assert(s.queue + (submitted(events.drop_last()) + arrived) =~= (s.queue + submitted(
            events.drop_last(),
        )) + arrived);
    }
    assert forall|i: int| 0 <= i < r.out.len() implies (#[trigger] r.out[i]).0 == (s.queue
        + submitted(events))[i] by {
        assert(ops_of(r.out)[i] == r.out[i].0);
        assert((ops_of(r.out) + r.next.queue)[i] == ops_of(r.out)[i]);
    }
}

/// Every operation of `out` is to be performed with `err`.
pub open spec fn all_carry<Op>(out: Seq<(Op, SystemError)>, err: SystemError) -> bool {
    forall|i: int| 0 <= i < out.len() ==> (#[trigger] out[i]).1 == err
}

/// Whether `e` finds the direction free to start an operation: a new
/// operation arrives while nothing waits and nothing runs, or a readiness edge
/// arrives while something waits. Neither looks at a pending cancellation.
pub open spec fn starts_operation<Op>(s: OpsView<Op>, e: OpsEvent<Op>) -> bool {
    match e {
        OpsEvent::Submit { err, .. } => err == SystemError::Success && s.queue.len() == 0
            && !s.blocked,
        OpsEvent::Ready => s.queue.len() > 0,
        _ => false,
    }
}

/// None of `events` finds the direction free to start an operation, and none
/// of them is an `Advance`.
pub open spec fn stays_cancelled<Op>(s: OpsView<Op>, events: Seq<OpsEvent<Op>>) -> bool
    decreases events.len(),
{
    events.len() == 0 || {
        &&& stays_cancelled(s, events.drop_last())
        &&& !starts_operation(s.run(events.drop_last()).next, events.last())
        &&& !(events.last() is Advance)
    }
}

/// While a cancellation is pending, whatever a transition hands out carries
/// `OperationCanceled`, unless the transition starts an operation; and the
/// cancellation stays pending until an `Advance` clears it.
pub proof fn law_cancelled_hands_out_cancelled<Op>(s: OpsView<Op>, e: OpsEvent<Op>)
    requires
        s.canceled,
        !starts_operation(s, e),
    ensures
        all_carry(s.step(e).out, SystemError::OperationCanceled),
        s.step(e).next.canceled == !(e is Advance),
{
}

/// After a cancellation, over any events of which none starts an operation
/// and none is an `Advance`, everything handed out carries
/// `OperationCanceled`, and the cancellation is still pending at the end.
pub proof fn law_run_cancelled_hands_out_cancelled<Op>(s: OpsView<Op>, events: Seq<OpsEvent<Op>>)
    requires
        s.canceled,
        stays_cancelled(s, events),
    ensures
        all_carry(s.run(events).out, SystemError::OperationCanceled),
        s.run(events).next.canceled,
    decreases events.len(),
{
    if events.len() > 0 {
        law_run_cancelled_hands_out_cancelled(s, events.drop_last());
        law_cancelled_hands_out_cancelled(s.run(events.drop_last()).next, events.last());
    }
}

/// One direction together with the fate of its operations.
#[verifier::ext_equal]
pub struct Line<Op> {
    /// The direction itself.
    pub ops: OpsView<Op>,
    /// The operations handed to an executor with `Success` that have neither
    /// advanced the direction nor come back to it.
    pub in_flight: Seq<Op>,
    /// The operations that have left for good, in the order in which they
    /// left: they advanced the direction, or were handed out with an error.
    pub settled: Seq<Op>,
    /// The operations that waited at the start, followed by every new
    /// operation in the order of its arrival.
    pub arrived: Seq<Op>,
}

/// Whether `out` is handed out with `Success`.
pub open spec fn hands_out_success<Op>(out: Seq<(Op, SystemError)>) -> bool {
    out.len() > 0 && out[0].1 == SystemError::Success
}

impl<Op> Line<Op> {
    /// The line of a direction of which nothing is in flight.
    pub open spec fn start(ops: OpsView<Op>) -> Line<Op> {
        Line { ops, in_flight: Seq::empty(), settled: Seq::empty(), arrived: ops.queue }
    }

    /// Whether `e` keeps to the discipline of the callers: only the operation
    /// in flight comes back or advances the direction, a cancellation carries
    /// an error, and the multiplexer reports no edge for a direction whose
    /// operation is still running.
    pub open spec fn admits(self, e: OpsEvent<Op>) -> bool {
        match e {
            OpsEvent::Submit { op, err } => err == SystemError::Success || self.in_flight
                == seq![op],
            OpsEvent::Advance => self.in_flight.len() == 1,
            OpsEvent::Cancel { err } => err != SystemError::Success,
            OpsEvent::Ready => !self.ops.blocked,
        }
    }

    /// The line after `e`.
    pub open spec fn follow(self, e: OpsEvent<Op>) -> Line<Op> {
        let r = self.ops.step(e);
        let started = if hands_out_success(r.out) {
            ops_of(r.out)
        } else {
            Seq::empty()
        };
        let failed = if hands_out_success(r.out) {
            Seq::empty()
        } else {
            ops_of(r.out)
        };
        let comes_back = match e {
            OpsEvent::Submit { err, .. } => err != SystemError::Success,
            _ => false,
        };
        let completed = if e is Advance {
            self.in_flight
        } else {
            Seq::empty()
        };
        let still_in_flight = if e is Advance || comes_back {
            Seq::empty()
        } else {
            self.in_flight
        };
        Line {
            ops: r.next,
            in_flight: still_in_flight + started,
            settled: self.settled + completed + failed,
            arrived: match e {
                OpsEvent::Submit { op, err } => if err == SystemError::Success {
                    self.arrived.push(op)
                } else {
                    self.arrived
                },
                _ => self.arrived,
            },
        }
    }

    /// The line after all of `events`.
    pub open spec fn follow_all(self, events: Seq<OpsEvent<Op>>) -> Line<Op>
        decreases events.len(),
    {
        if events.len() == 0 {
            self
        } else {
            self.follow_all(events.drop_last()).follow(events.last())
        }
    }

    /// Every one of `events` keeps to the discipline when its turn comes.
    pub open spec fn admits_all(self, events: Seq<OpsEvent<Op>>) -> bool
        decreases events.len(),
    {
        events.len() == 0 || {
            &&& self.admits_all(events.drop_last())
            &&& self.follow_all(events.drop_last()).admits(events.last())
        }
    }

    /// At most one operation is in flight, the direction is blocked while one
    /// is, and the operations that have left for good, the one in flight and
    /// those that wait are, in this order, the operations that arrived.
    pub open spec fn coherent(self) -> bool {
        &&& self.in_flight.len() <= 1
        &&& self.in_flight.len() == 1 ==> self.ops.blocked
        &&& self.settled + self.in_flight + self.ops.queue == self.arrived
    }
}

/// One event that keeps to the discipline leaves a coherent line coherent:
/// still at most one operation is in flight, and still nothing has overtaken.
pub proof fn law_follow_keeps_coherent<Op>(line: Line<Op>, e: OpsEvent<Op>)
    requires
        line.coherent(),
        line.admits(e),
    ensures
        line.follow(e).coherent(),
        line.follow(e).ops == line.ops.step(e).next,
{
    let r = line.ops.step(e);
    let after = line.follow(e);
    match e {
        OpsEvent::Submit { op, err } => {
            if err != SystemError::Success && line.ops.canceled {
                lemma_ops_of_drained(seq![op] + line.ops.queue, SystemError::OperationCanceled);
            }
            if err == SystemError::Success && line.ops.queue.len() == 0 && !line.ops.blocked {
                assert(ops_of(r.out) =~= seq![op]);
            }
        },
        OpsEvent::Advance => {
            if line.ops.canceled {
                lemma_ops_of_drained(line.ops.queue, SystemError::OperationCanceled);
            } else if line.ops.queue.len() > 0 {
                assert(ops_of(r.out) =~= seq![line.ops.queue[0]]);
            }
        },
        OpsEvent::Cancel { err } => {
            if !line.ops.canceled && !line.ops.blocked {
                lemma_ops_of_drained(line.ops.queue, err);
            }
        },
        OpsEvent::Ready => {
            if line.ops.queue.len() > 0 {
                assert(ops_of(r.out) =~= seq![line.ops.queue[0]]);
            }
        },
    }
    assert(after.settled + after.in_flight + after.ops.queue =~= after.arrived);
}

/// At most one operation in flight, and first come, first served: from a
/// coherent line, over any events that keep to the discipline, the line stays
/// coherent, and its direction is the one that the events lead to.
pub proof fn law_run_keeps_coherent<Op>(line: Line<Op>, events: Seq<OpsEvent<Op>>)
    requires
        line.coherent(),
        line.admits_all(events),
    ensures
        line.follow_all(events).coherent(),
        line.follow_all(events).in_flight.len() <= 1,
        line.follow_all(events).ops == line.ops.run(events).next,
    decreases events.len(),
{
    if events.len() > 0 {
        law_run_keeps_coherent(line, events.drop_last());
        law_follow_keeps_coherent(line.follow_all(events.drop_last()), events.last());
    }
}

/// A direction of which nothing runs starts as a coherent line.
pub proof fn law_start_is_coherent<Op>(ops: OpsView<Op>)
    ensures
        Line::start(ops).coherent(),
{
    assert(Seq::<Op>::empty() + Seq::<Op>::empty() + ops.queue =~= ops.queue);
}

} // verus!
