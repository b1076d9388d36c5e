use crate::error::SystemError;
use crate::executor::{IoContext, ThreadIoContext};
use crate::kqueue::{Kevent, KeventView};
use crate::signal::{members_after, refused, requests_of, KernelRequest, MembershipCall, Signal, SignalMask};
use vstd::prelude::*;

verus! {

/// A signal set of the kqueue backend, as a mathematical value.
#[verifier::ext_equal]
pub struct KqueueSignalView<Op> {
    /// The handle that the subscriptions share; its input line holds the
    /// waiters.
    pub handle: KeventView<Op>,
    /// The signals that the set is subscribed to.
    pub signals: Set<Signal>,
}

/// A signal set of the kqueue backend: one subscription per signal, and one
/// handle that all of them share.
pub struct KqueueSignal<Op> {
    fd: Kevent<Op>,
    signals: SignalMask,
}

impl<Op> View for KqueueSignal<Op> {
    type V = KqueueSignalView<Op>;

    closed spec fn view(&self) -> KqueueSignalView<Op> {
        KqueueSignalView { handle: self.fd@, signals: self.signals@ }
    }
}

impl<Op> KqueueSignal<Op> {
    /// A signal set that is subscribed to nothing and on which nothing waits.
    pub fn new() -> (soc: Self)
        ensures
            soc@ == (KqueueSignalView {
                handle: KeventView::<Op>::signal(),
                signals: Set::<Signal>::empty(),
            }),
    {
        KqueueSignal { fd: Kevent::signal(), signals: SignalMask::new() }
    }

    /// The handle that the subscriptions share.
    pub fn handle(&self) -> (kev: &Kevent<Op>)
        ensures
            kev@ == self@.handle,
    {
        &self.fd
    }

    /// Whether the set is subscribed to `sig`.
    pub fn contains(&self, sig: Signal) -> (b: bool)
        ensures
            b == self@.signals.contains(sig),
    {
        self.signals.contains(sig)
    }

    /// A waiter for the next signal joins the tail of the line. The error is
    /// not looked at, and nothing is handed out.
    pub fn add_read_op(&mut self, this: &mut ThreadIoContext<Op>, op: Op, err: SystemError)
        ensures
            final(self)@ == (KqueueSignalView {
                handle: old(self)@.handle.with_input(old(self)@.handle.input.enqueue(op)),
                ..old(self)@
            }),
            final(this)@ == old(this)@,
    {
        self.fd.enqueue_read_op(op)
    }

    /// Cancels the waiters with `OperationCanceled`; those that leave the
    /// line are posted to `ctx`.
    pub fn cancel(&mut self, ctx: &mut IoContext<Op>)
        ensures
            final(self)@ == (KqueueSignalView {
                handle: KeventView {
                    input: old(self)@.handle.input.cancel(SystemError::OperationCanceled).next,
                    output: old(self)@.handle.output.cancel(SystemError::OperationCanceled).next,
                    ..old(self)@.handle
                },
                ..old(self)@
            }),
            final(ctx)@ == old(ctx)@ + old(self)@.handle.input.cancel(
                SystemError::OperationCanceled,
            ).out + old(self)@.handle.output.cancel(SystemError::OperationCanceled).out,
    {
        self.fd.cancel_ops(ctx, SystemError::OperationCanceled)
    }

    /// A waiter has finished. Waiters for signals are completed by the
    /// deliveries themselves, so there is nothing to do.
    pub fn next_read_op(&self, this: &mut ThreadIoContext<Op>)
        ensures
            final(this)@ == old(this)@,
    {
    }

    /// One signal was delivered: it completes the waiter at the head of the
    /// line, if there is one.
    pub fn dispatch_signal(&mut self, this: &mut ThreadIoContext<Op>)
        ensures
            final(self)@ == (KqueueSignalView {
                handle: old(self)@.handle.with_input(
                    old(self)@.handle.input.complete_one().next,
                ),
                ..old(self)@
            }),
            final(this)@.pending == old(this)@.pending + old(
                self,
            )@.handle.input.complete_one().out,
            final(this)@.posted == old(this)@.posted,
    {
        self.fd.dispatch_signal(this)
    }

    /// Subscribes the set to `sig`. Where it is subscribed already, the call
    /// is refused with `InvalidArgument` and changes nothing. Otherwise it
    /// returns the requests to hand to the kernel, in order.
    pub fn add(&mut self, sig: Signal) -> (result: Result<Vec<KernelRequest>, SystemError>)
        ensures
            result is Err <==> refused(old(self)@.signals, MembershipCall::Add(sig)),
            final(self)@.handle == old(self)@.handle,
            match result {
                Ok(requests) => {
                    &&& final(self)@.signals == members_after(
                        old(self)@.signals,
                        MembershipCall::Add(sig),
                    )
                    &&& requests@ == requests_of(old(self)@.signals, MembershipCall::Add(sig))
                },
                Err(err) => err == SystemError::InvalidArgument && final(self)@.signals == old(
                    self,
                )@.signals,
            },
    {
        self.signals.add(sig)
    }

    /// Takes back an `add` of `sig` whose subscription the kernel refused.
    pub fn add_failed(&mut self, sig: Signal) -> (requests: Vec<KernelRequest>)
        ensures
            final(self)@.handle == old(self)@.handle,
            final(self)@.signals == old(self)@.signals.remove(sig),
            requests@ == if old(self)@.signals.contains(sig) {
                seq![KernelRequest::Unblock(sig)]
            } else {
                Seq::<KernelRequest>::empty()
            },
    {
        self.signals.add_failed(sig)
    }

    /// Ends the subscription to `sig`. Where there is none, the call is
    /// refused with `InvalidArgument` and changes nothing. Otherwise it
    /// returns the requests to hand to the kernel, in order.
    pub fn remove(&mut self, sig: Signal) -> (result: Result<Vec<KernelRequest>, SystemError>)
        ensures
            result is Err <==> refused(old(self)@.signals, MembershipCall::Remove(sig)),
            final(self)@.handle == old(self)@.handle,
            match result {
                Ok(requests) => {
                    &&& final(self)@.signals == members_after(
                        old(self)@.signals,
                        MembershipCall::Remove(sig),
                    )
                    &&& requests@ == requests_of(old(self)@.signals, MembershipCall::Remove(sig))
                },
                Err(err) => err == SystemError::InvalidArgument && final(self)@.signals == old(
                    self,
                )@.signals,
            },
    {
        self.signals.remove(sig)
    }

    /// Ends every subscription. Returns the requests to hand to the kernel,
    /// in the order of the list of signals. A second call in a row changes
    /// nothing and returns nothing.
    pub fn clear(&mut self) -> (requests: Vec<KernelRequest>)
        ensures
            final(self)@.handle == old(self)@.handle,
            final(self)@.signals == Set::<Signal>::empty(),
            requests@ == requests_of(old(self)@.signals, MembershipCall::Clear),
    {
        self.signals.clear()
    }

    /// Ends the signal set: every subscription ends, and the waiters are
    /// cancelled with `OperationCanceled`. Returns the requests to hand to
    /// the kernel, in the order of the list of signals.
    pub fn close(self, ctx: &mut IoContext<Op>) -> (requests: Vec<KernelRequest>)
        ensures
            requests@ == requests_of(self@.signals, MembershipCall::Clear),
            final(ctx)@ == old(ctx)@ + self@.handle.input.cancel(
                SystemError::OperationCanceled,
            ).out + self@.handle.output.cancel(SystemError::OperationCanceled).out,
    {
        let mut set = self;
        let requests = set.clear();
        set.cancel(ctx);
        requests
    }
}

} // verus!
