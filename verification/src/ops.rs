use crate::error::SystemError;
use crate::executor::{IoContext, ThreadIoContext};
use std::collections::VecDeque;
use vstd::prelude::*;

verus! {

/// One direction of a descriptor, as a mathematical value.
#[verifier::ext_equal]
pub struct OpsView<Op> {
    /// The operations that wait, the next one to run first.
    pub queue: Seq<Op>,
    /// An operation of this direction is running: none other may start.
    pub blocked: bool,
    /// The direction was cancelled and the cancellation is not yet cleared.
    pub canceled: bool,
}

/// What one transition of a direction does: the state it leaves, and the
/// operations it hands to an executor, in the order in which it hands them.
#[verifier::ext_equal]
pub struct Step<Op> {
    pub next: OpsView<Op>,
    pub out: Seq<(Op, SystemError)>,
}

/// Every operation of `queue`, in order, each to be performed with `err`.
pub open spec fn drained<Op>(queue: Seq<Op>, err: SystemError) -> Seq<(Op, SystemError)> {
    Seq::new(queue.len(), |i: int| (queue[i], err))
}

impl<Op> OpsView<Op> {
    /// Nothing waits, nothing runs, nothing is cancelled.
    pub open spec fn idle() -> OpsView<Op> {
        OpsView { queue: Seq::empty(), blocked: false, canceled: false }
    }

    /// An operation arrives. With `Success` it is new: it runs at once if the
    /// direction is idle, and waits at the tail otherwise. With any other
    /// error it is the running operation coming back: it goes to the head and
    /// releases the direction, unless a cancellation is pending, in which case
    /// it leaves with everything that waits.
    pub open spec fn submit(self, op: Op, err: SystemError) -> Step<Op> {
        if err == SystemError::Success {
            if self.queue.len() == 0 && !self.blocked {
                Step { next: OpsView { blocked: true, ..self }, out: seq![(op, SystemError::Success)] }
            } else {
                Step { next: OpsView { queue: self.queue.push(op), ..self }, out: Seq::empty() }
            }
        } else if self.canceled {
            Step {
                next: OpsView { queue: Seq::empty(), ..self },
                out: drained(seq![op] + self.queue, SystemError::OperationCanceled),
            }
        } else {
            Step {
                next: OpsView { queue: seq![op] + self.queue, blocked: false, ..self },
                out: Seq::empty(),
            }
        }
    }

    /// The running operation has finished with its readiness edge.
    pub open spec fn advance(self) -> Step<Op> {
        if self.canceled {
            Step {
                next: OpsView { queue: Seq::empty(), canceled: false, ..self },
                out: drained(self.queue, SystemError::OperationCanceled),
            }
        } else if self.queue.len() > 0 {
            Step {
                next: OpsView { queue: self.queue.drop_first(), ..self },
                out: seq![(self.queue[0], SystemError::Success)],
            }
        } else {
            Step { next: OpsView { blocked: false, ..self }, out: Seq::empty() }
        }
    }

    /// The direction is cancelled with `err`.
    pub open spec fn cancel(self, err: SystemError) -> Step<Op> {
        if self.canceled {
            Step { next: self, out: Seq::empty() }
        } else if self.blocked {
            Step { next: OpsView { canceled: true, ..self }, out: Seq::empty() }
        } else {
            Step {
                next: OpsView { queue: Seq::empty(), canceled: true, ..self },
                out: drained(self.queue, err),
            }
        }
    }

    /// An operation joins the tail of the line, whatever the state.
    pub open spec fn enqueue(self, op: Op) -> OpsView<Op> {
        OpsView { queue: self.queue.push(op), ..self }
    }

    /// The operation at the head, if there is one, is handed out with
    /// `Success`; the direction is not blocked by it.
    pub open spec fn complete_one(self) -> Step<Op> {
        if self.queue.len() > 0 {
            Step {
                next: OpsView { queue: self.queue.drop_first(), ..self },
                out: seq![(self.queue[0], SystemError::Success)],
            }
        } else {
            Step { next: self, out: Seq::empty() }
        }
    }

    /// The multiplexer reports one readiness edge for the direction.
    pub open spec fn ready(self) -> Step<Op> {
        if self.queue.len() > 0 {
            Step {
                next: OpsView { queue: self.queue.drop_first(), blocked: true, ..self },
                out: seq![(self.queue[0], SystemError::Success)],
            }
        } else {
            Step { next: self, out: Seq::empty() }
        }
    }
}

/// The pending operations of one direction of a descriptor.
pub struct Ops<Op> {
    queue: VecDeque<Op>,
    blocked: bool,
    canceled: bool,
}

impl<Op> View for Ops<Op> {
    type V = OpsView<Op>;

    closed spec fn view(&self) -> OpsView<Op> {
        OpsView { queue: self.queue@, blocked: self.blocked, canceled: self.canceled }
    }
}

impl<Op> Default for Ops<Op> {
    fn default() -> (ops: Self)
        ensures
            ops@ == OpsView::<Op>::idle(),
    {
        Ops { queue: VecDeque::new(), blocked: false, canceled: false }
    }
}

impl<Op> Ops<Op> {
    /// An idle direction.
    pub fn new() -> (ops: Self)
        ensures
            ops@ == OpsView::<Op>::idle(),
    {
        Ops { queue: VecDeque::new(), blocked: false, canceled: false }
    }

    /// How many operations wait.
    pub fn len(&self) -> (n: usize)
        ensures
            n == self@.queue.len(),
    {
        self.queue.len()
    }

    pub fn is_blocked(&self) -> (b: bool)
        ensures
            b == self@.blocked,
    {
        self.blocked
    }

    pub fn is_canceled(&self) -> (c: bool)
        ensures
            c == self@.canceled,
    {
        self.canceled
    }

    /// Hands every waiting operation to the worker `this`, in order, each with
    /// `err`.
    fn drain_to_worker(&mut self, this: &mut ThreadIoContext<Op>, err: SystemError)
        ensures
            final(self)@ == (OpsView { queue: Seq::empty(), ..old(self)@ }),
            final(this)@.pending == old(this)@.pending + drained(old(self)@.queue, err),
            final(this)@.posted == old(this)@.posted,
    {
        let ghost before = self.queue@;
        let ghost pushed: int = 0;
        loop
            invariant
                0 <= pushed <= before.len(),
                self.queue@ == before.subrange(pushed, before.len() as int),
                self.blocked == old(self).blocked,
                self.canceled == old(self).canceled,
                this@.pending == old(this)@.pending + drained(before, err).subrange(0, pushed),
                this@.posted == old(this)@.posted,
            ensures
                self.queue@ == Seq::<Op>::empty(),
                pushed == before.len(),
            decreases before.len() - pushed,
        {
            match self.queue.pop_front() {
                Some(op) => {
                    this.push(op, err);
                    proof {
                        assert(op == before[pushed]);
                        pushed = pushed + 1;
                    }
                },
                None => {
                    break ;
                },
            }
        }
        assert(drained(before, err).subrange(0, pushed) == drained(before, err));
    }

    /// Posts every waiting operation to the shared context `ctx`, in order,
    /// each with `err`.
    fn drain_to_ctx(&mut self, ctx: &mut IoContext<Op>, err: SystemError)
        ensures
            final(self)@ == (OpsView { queue: Seq::empty(), ..old(self)@ }),
            final(ctx)@ == old(ctx)@ + drained(old(self)@.queue, err),
    {
        let ghost before = self.queue@;
        let ghost posted: int = 0;
        loop
            invariant
                0 <= posted <= before.len(),
                self.queue@ == before.subrange(posted, before.len() as int),
                self.blocked == old(self).blocked,
                self.canceled == old(self).canceled,
                ctx@ == old(ctx)@ + drained(before, err).subrange(0, posted),
            ensures
                self.queue@ == Seq::<Op>::empty(),
                posted == before.len(),
            decreases before.len() - posted,
        {
            match self.queue.pop_front() {
                Some(op) => {
                    ctx.do_post((op, err));
                    proof {
                        assert(op == before[posted]);
                        posted = posted + 1;
                    }
                },
                None => {
                    break ;
                },
            }
        }
        assert(drained(before, err).subrange(0, posted) == drained(before, err));
    }

    /// An operation arrives with `err`; what is due to run goes to `this`.
    pub fn submit(&mut self, this: &mut ThreadIoContext<Op>, op: Op, err: SystemError)
        ensures
            final(self)@ == old(self)@.submit(op, err).next,
            final(this)@.pending == old(this)@.pending + old(self)@.submit(op, err).out,
            final(this)@.posted == old(this)@.posted,
    {
        if err.is_success() {
            if self.queue.len() == 0 && !self.blocked {
                self.blocked = true;
                this.push(op, SystemError::Success);
            } else {
                self.queue.push_back(op);
            }
        } else if self.canceled {
            self.queue.push_front(op);
            self.drain_to_worker(this, SystemError::OperationCanceled);
        } else {
            self.blocked = false;
            self.queue.push_front(op);
        }
    }

    /// The running operation has finished with its readiness edge; what is
    /// due to run next goes to `this`.
    pub fn advance(&mut self, this: &mut ThreadIoContext<Op>)
        ensures
            final(self)@ == old(self)@.advance().next,
            final(this)@.pending == old(this)@.pending + old(self)@.advance().out,
            final(this)@.posted == old(this)@.posted,
    {
        if self.canceled {
            self.canceled = false;
            self.drain_to_worker(this, SystemError::OperationCanceled);
        } else {
            match self.queue.pop_front() {
                Some(op) => {
                    this.push(op, SystemError::Success);
                },
                None => {
                    self.blocked = false;
                },
            }
        }
    }

    /// Cancels the direction; what leaves the queue is posted to `ctx` with
    /// `err`.
    pub fn cancel(&mut self, ctx: &mut IoContext<Op>, err: SystemError)
        ensures
            final(self)@ == old(self)@.cancel(err).next,
            final(ctx)@ == old(ctx)@ + old(self)@.cancel(err).out,
    {
        if !self.canceled {
            self.canceled = true;
            if !self.blocked {
                self.drain_to_ctx(ctx, err);
            }
        }
    }

    /// Puts `op` at the tail of the line, whatever the state.
    pub fn enqueue(&mut self, op: Op)
        ensures
            final(self)@ == old(self)@.enqueue(op),
    {
        self.queue.push_back(op);
    }

    /// Hands the operation at the head, if there is one, to `this` with
    /// `Success`, without blocking the direction.
    pub fn complete_one(&mut self, this: &mut ThreadIoContext<Op>)
        ensures
            final(self)@ == old(self)@.complete_one().next,
            final(this)@.pending == old(this)@.pending + old(self)@.complete_one().out,
            final(this)@.posted == old(this)@.posted,
    {
        match self.queue.pop_front() {
            Some(op) => {
                this.push(op, SystemError::Success);
            },
            None => {},
        }
    }

    /// One readiness edge arrived; the operation at the head, if there is one,
    /// goes to `this`.
    pub fn on_readiness(&mut self, this: &mut ThreadIoContext<Op>)
        ensures
            final(self)@ == old(self)@.ready().next,
            final(this)@.pending == old(this)@.pending + old(self)@.ready().out,
            final(this)@.posted == old(this)@.posted,
    {
        match self.queue.pop_front() {
            Some(op) => {
                self.blocked = true;
                this.push(op, SystemError::Success);
            },
            None => {},
        }
    }
}

} // verus!
