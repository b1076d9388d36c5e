use crate::error::SystemError;
use vstd::prelude::*;

verus! {

/// The shared side of an executor: operations posted to it run later, on
/// whichever worker picks them up.
pub struct IoContext<Op> {
    posted: Vec<(Op, SystemError)>,
}

impl<Op> View for IoContext<Op> {
    type V = Seq<(Op, SystemError)>;

    /// The operations posted so far and not yet taken, oldest first.
    closed spec fn view(&self) -> Seq<(Op, SystemError)> {
        self.posted@
    }
}

impl<Op> IoContext<Op> {
    pub fn new() -> (ctx: Self)
        ensures
            ctx@ == Seq::<(Op, SystemError)>::empty(),
    {
        IoContext { posted: Vec::new() }
    }

    /// Posts one operation together with the error it will be performed with.
    pub fn do_post(&mut self, task: (Op, SystemError))
        ensures
            final(self)@ == old(self)@.push(task),
    {
        self.posted.push(task);
    }

    /// Hands over everything posted so far, oldest first, and leaves the
    /// context empty.
    pub fn take_posted(&mut self) -> (tasks: Vec<(Op, SystemError)>)
        ensures
            tasks@ == old(self)@,
            final(self)@ == Seq::<(Op, SystemError)>::empty(),
    {
        let mut tasks: Vec<(Op, SystemError)> = Vec::new();
        std::mem::swap(&mut tasks, &mut self.posted);
        tasks
    }
}

/// What a worker's context holds, as sequences.
pub struct ThreadView<Op> {
    /// Operations pushed to this worker, oldest first.
    pub pending: Seq<(Op, SystemError)>,
    /// Operations posted to the shared context, oldest first.
    pub posted: Seq<(Op, SystemError)>,
}

/// One worker's side of an executor: operations pushed to it run on this
/// worker, in the order in which they were pushed.
pub struct ThreadIoContext<Op> {
    /// The shared context that this worker serves.
    pub ctx: IoContext<Op>,
    /// What was pushed to this worker and not yet taken, oldest first.
    pub pending: Vec<(Op, SystemError)>,
}

impl<Op> View for ThreadIoContext<Op> {
    type V = ThreadView<Op>;

    open spec fn view(&self) -> ThreadView<Op> {
        ThreadView { pending: self.pending@, posted: self.ctx@ }
    }
}

impl<Op> ThreadIoContext<Op> {
    /// A worker's context around the shared context `ctx`.
    pub fn new(ctx: IoContext<Op>) -> (this: Self)
        ensures
            this@.pending == Seq::<(Op, SystemError)>::empty(),
            this@.posted == ctx@,
    {
        ThreadIoContext { ctx, pending: Vec::new() }
    }

    /// Schedules `op` on this worker, to be performed with `err`.
    pub fn push(&mut self, op: Op, err: SystemError)
        ensures
            final(self)@.pending == old(self)@.pending.push((op, err)),
            final(self)@.posted == old(self)@.posted,
    {
        self.pending.push((op, err));
    }

    /// Posts one operation to the shared context.
    pub fn do_post(&mut self, task: (Op, SystemError))
        ensures
            final(self)@.posted == old(self)@.posted.push(task),
            final(self)@.pending == old(self)@.pending,
    {
        self.ctx.do_post(task);
    }

    /// Hands over everything pushed to this worker so far, oldest first.
    pub fn take_pending(&mut self) -> (tasks: Vec<(Op, SystemError)>)
        ensures
            tasks@ == old(self)@.pending,
            final(self)@.pending == Seq::<(Op, SystemError)>::empty(),
            final(self)@.posted == old(self)@.posted,
    {
        let mut tasks: Vec<(Op, SystemError)> = Vec::new();
        std::mem::swap(&mut tasks, &mut self.pending);
        tasks
    }

    /// Gives the shared context back, with what was posted to it.
    pub fn into_ctx(self) -> (ctx: IoContext<Op>)
        ensures
            ctx@ == self@.posted,
    {
        self.ctx
    }
}

} // verus!
