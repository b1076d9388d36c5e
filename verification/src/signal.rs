//! Signals, and which of them a signal handle is subscribed to.

use crate::error::SystemError;
use vstd::prelude::*;

verus! {

/// A process signal.
#[derive(Clone, Copy, Debug, PartialEq, Eq, Structural)]
pub enum Signal {
    /// Hangup detected on controlling terminal or death of controlling process.
    SIGHUP,
    /// Interrupt from keyboard.
    SIGINT,
    /// Quit from keyboard.
    SIGQUIT,
    /// Illegal instruction.
    SIGILL,
    /// Abort signal.
    SIGABRT,
    /// Floating point exception.
    SIGFPE,
    /// Kill signal.
    SIGKILL,
    /// Invalid memory reference.
    SIGSEGV,
    /// Broken pipe: write to pipe with no readers.
    SIGPIPE,
    /// Timer signal.
    SIGALRM,
    /// Termination signal.
    SIGTERM,
    /// User-defined signal 1.
    SIGUSR1,
    /// User-defined signal 2.
    SIGUSR2,
    /// Child stopped or terminated.
    SIGCHLD,
    /// Continue if stopped.
    SIGCONT,
    /// Stop process.
    SIGSTOP,
    /// Stop typed at terminal.
    SIGTSTP,
    /// Terminal input for background process.
    SIGTTIN,
    /// Terminal output for background process.
    SIGTTOU,
    /// Bus error (bad memory access).
    SIGBUS,
    /// Pollable event.
    SIGPOLL,
    /// Profiling timer expired.
    SIGPROF,
    /// Bad argument to routine.
    SIGSYS,
    /// Trace or breakpoint trap.
    SIGTRAP,
    /// Urgent condition on socket.
    SIGURG,
    /// Virtual alarm clock.
    SIGVTALRM,
    /// CPU time limit exceeded.
    SIGXCPU,
    /// File size limit exceeded.
    SIGXFSZ,
}

/// How many signals there are.
pub const SIGNALS: u32 = 28;

impl Signal {
    /// The place of the signal in the list of signals, counted from 0.
    pub open spec fn index(self) -> nat {
        match self {
            Signal::SIGHUP => 0,
            Signal::SIGINT => 1,
            Signal::SIGQUIT => 2,
            Signal::SIGILL => 3,
            Signal::SIGABRT => 4,
            Signal::SIGFPE => 5,
            Signal::SIGKILL => 6,
            Signal::SIGSEGV => 7,
            Signal::SIGPIPE => 8,
            Signal::SIGALRM => 9,
            Signal::SIGTERM => 10,
            Signal::SIGUSR1 => 11,
            Signal::SIGUSR2 => 12,
            Signal::SIGCHLD => 13,
            Signal::SIGCONT => 14,
            Signal::SIGSTOP => 15,
            Signal::SIGTSTP => 16,
            Signal::SIGTTIN => 17,
            Signal::SIGTTOU => 18,
            Signal::SIGBUS => 19,
            Signal::SIGPOLL => 20,
            Signal::SIGPROF => 21,
            Signal::SIGSYS => 22,
            Signal::SIGTRAP => 23,
            Signal::SIGURG => 24,
            Signal::SIGVTALRM => 25,
            Signal::SIGXCPU => 26,
            Signal::SIGXFSZ => 27,
        }
    }

    /// The place of the signal in the list of signals, counted from 0.
    pub fn ordinal(&self) -> (i: u32)
        ensures
            i == self.index(),
            i < SIGNALS,
    {
        match self {
            Signal::SIGHUP => 0,
            Signal::SIGINT => 1,
            Signal::SIGQUIT => 2,
            Signal::SIGILL => 3,
            Signal::SIGABRT => 4,
            Signal::SIGFPE => 5,
            Signal::SIGKILL => 6,
            Signal::SIGSEGV => 7,
            Signal::SIGPIPE => 8,
            Signal::SIGALRM => 9,
            Signal::SIGTERM => 10,
            Signal::SIGUSR1 => 11,
            Signal::SIGUSR2 => 12,
            Signal::SIGCHLD => 13,
            Signal::SIGCONT => 14,
            Signal::SIGSTOP => 15,
            Signal::SIGTSTP => 16,
            Signal::SIGTTIN => 17,
            Signal::SIGTTOU => 18,
            Signal::SIGBUS => 19,
            Signal::SIGPOLL => 20,
            Signal::SIGPROF => 21,
            Signal::SIGSYS => 22,
            Signal::SIGTRAP => 23,
            Signal::SIGURG => 24,
            Signal::SIGVTALRM => 25,
            Signal::SIGXCPU => 26,
            Signal::SIGXFSZ => 27,
        }
    }

    /// The signal at place `i` of the list of signals, if there is one.
    pub fn from_ordinal(i: u32) -> (sig: Option<Signal>)
        ensures
            match sig {
                Some(s) => s.index() == i,
                None => i >= SIGNALS,
            },
    {
        match i {
            0 => Some(Signal::SIGHUP),
            1 => Some(Signal::SIGINT),
            2 => Some(Signal::SIGQUIT),
            3 => Some(Signal::SIGILL),
            4 => Some(Signal::SIGABRT),
            5 => Some(Signal::SIGFPE),
            6 => Some(Signal::SIGKILL),
            7 => Some(Signal::SIGSEGV),
            8 => Some(Signal::SIGPIPE),
            9 => Some(Signal::SIGALRM),
            10 => Some(Signal::SIGTERM),
            11 => Some(Signal::SIGUSR1),
            12 => Some(Signal::SIGUSR2),
            13 => Some(Signal::SIGCHLD),
            14 => Some(Signal::SIGCONT),
            15 => Some(Signal::SIGSTOP),
            16 => Some(Signal::SIGTSTP),
            17 => Some(Signal::SIGTTIN),
            18 => Some(Signal::SIGTTOU),
            19 => Some(Signal::SIGBUS),
            20 => Some(Signal::SIGPOLL),
            21 => Some(Signal::SIGPROF),
            22 => Some(Signal::SIGSYS),
            23 => Some(Signal::SIGTRAP),
            24 => Some(Signal::SIGURG),
            25 => Some(Signal::SIGVTALRM),
            26 => Some(Signal::SIGXCPU),
            27 => Some(Signal::SIGXFSZ),
            _ => None,
        }
    }
}

/// No two signals have the same place.
pub proof fn lemma_index_is_one_to_one(a: Signal, b: Signal)
    ensures
        a.index() < SIGNALS,
        a.index() == b.index() <==> a == b,
{
}

/// The signal at place `i` of the list of signals; past the end of the list,
/// the last one.
pub open spec fn signal_at(i: nat) -> Signal {
    if i == 0 {
        Signal::SIGHUP
    } else if i == 1 {
        Signal::SIGINT
    } else if i == 2 {
        Signal::SIGQUIT
    } else if i == 3 {
        Signal::SIGILL
    } else if i == 4 {
        Signal::SIGABRT
    } else if i == 5 {
        Signal::SIGFPE
    } else if i == 6 {
        Signal::SIGKILL
    } else if i == 7 {
        Signal::SIGSEGV
    } else if i == 8 {
        Signal::SIGPIPE
    } else if i == 9 {
        Signal::SIGALRM
    } else if i == 10 {
        Signal::SIGTERM
    } else if i == 11 {
        Signal::SIGUSR1
    } else if i == 12 {
        Signal::SIGUSR2
    } else if i == 13 {
        Signal::SIGCHLD
    } else if i == 14 {
        Signal::SIGCONT
    } else if i == 15 {
        Signal::SIGSTOP
    } else if i == 16 {
        Signal::SIGTSTP
    } else if i == 17 {
        Signal::SIGTTIN
    } else if i == 18 {
        Signal::SIGTTOU
    } else if i == 19 {
        Signal::SIGBUS
    } else if i == 20 {
        Signal::SIGPOLL
    } else if i == 21 {
        Signal::SIGPROF
    } else if i == 22 {
        Signal::SIGSYS
    } else if i == 23 {
        Signal::SIGTRAP
    } else if i == 24 {
        Signal::SIGURG
    } else if i == 25 {
        Signal::SIGVTALRM
    } else if i == 26 {
        Signal::SIGXCPU
    } else {
        Signal::SIGXFSZ
    }
}

/// Places and signals correspond, one to one.
pub proof fn lemma_signal_at(i: nat, sig: Signal)
    ensures
        i < SIGNALS ==> signal_at(i).index() == i,
        signal_at(sig.index()) == sig,
{
}

/// A request to the kernel about one signal: what the caller hands on.
#[derive(Clone, Copy, Debug, PartialEq, Eq, Structural)]
pub enum KernelRequest {
    /// Block the signal in the signal mask, so that its default disposition
    /// does not fire.
    Block(Signal),
    /// Deliver the signal through the multiplexer.
    Subscribe(Signal),
    /// Stop delivering the signal through the multiplexer.
    Unsubscribe(Signal),
    /// Take the signal out of the signal mask.
    Unblock(Signal),
}

/// What the kernel holds about signals on behalf of one signal handle.
#[verifier::ext_equal]
pub struct KernelSignals {
    /// The signals that are blocked in the signal mask.
    pub blocked: Set<Signal>,
    /// The signals that are delivered through the multiplexer.
    pub subscribed: Set<Signal>,
}

impl KernelSignals {
    /// The kernel after one request.
    pub open spec fn apply(self, request: KernelRequest) -> KernelSignals {
        match request {
            KernelRequest::Block(sig) => KernelSignals { blocked: self.blocked.insert(sig), ..self },
            KernelRequest::Subscribe(sig) => KernelSignals {
                subscribed: self.subscribed.insert(sig),
                ..self
            },
            KernelRequest::Unsubscribe(sig) => KernelSignals {
                subscribed: self.subscribed.remove(sig),
                ..self
            },
            KernelRequest::Unblock(sig) => KernelSignals { blocked: self.blocked.remove(sig), ..self },
        }
    }

    /// The kernel after `requests`, in order.
    pub open spec fn apply_all(self, requests: Seq<KernelRequest>) -> KernelSignals
        decreases requests.len(),
    {
        if requests.len() == 0 {
            self
        } else {
            self.apply_all(requests.drop_last()).apply(requests.last())
        }
    }

    /// The kernel blocks and delivers exactly the signals of `members`.
    pub open spec fn agrees_with(self, members: Set<Signal>) -> bool {
        self.blocked == members && self.subscribed == members
    }
}

/// What makes the kernel deliver `sig`: block it, then subscribe to it.
pub open spec fn install(sig: Signal) -> Seq<KernelRequest> {
    seq![KernelRequest::Block(sig), KernelRequest::Subscribe(sig)]
}

/// What makes the kernel forget `sig`: unsubscribe from it, then unblock it.
pub open spec fn uninstall(sig: Signal) -> Seq<KernelRequest> {
    seq![KernelRequest::Unsubscribe(sig), KernelRequest::Unblock(sig)]
}

/// What makes the kernel forget every signal of `members` among the first
/// `upto` of the list of signals, in the order of the list.
pub open spec fn uninstall_all(members: Set<Signal>, upto: nat) -> Seq<KernelRequest>
    decreases upto,
{
    if upto == 0 {
        Seq::empty()
    } else {
        let before = uninstall_all(members, (upto - 1) as nat);
        let sig = signal_at((upto - 1) as nat);
        if members.contains(sig) {
            before + uninstall(sig)
        } else {
            before
        }
    }
}

/// A call that changes which signals a signal handle is subscribed to.
pub enum MembershipCall {
    Add(Signal),
    Remove(Signal),
    Clear,
}

/// The members after `call`. Adding a member and removing a signal that is no
/// member are refused and change nothing.
pub open spec fn members_after(members: Set<Signal>, call: MembershipCall) -> Set<Signal> {
    match call {
        MembershipCall::Add(sig) => members.insert(sig),
        MembershipCall::Remove(sig) => members.remove(sig),
        MembershipCall::Clear => Set::empty(),
    }
}

/// Whether `call` is refused.
pub open spec fn refused(members: Set<Signal>, call: MembershipCall) -> bool {
    match call {
        MembershipCall::Add(sig) => members.contains(sig),
        MembershipCall::Remove(sig) => !members.contains(sig),
        MembershipCall::Clear => false,
    }
}

/// The requests that `call` hands to the kernel.
pub open spec fn requests_of(members: Set<Signal>, call: MembershipCall) -> Seq<KernelRequest> {
    if refused(members, call) {
        Seq::empty()
    } else {
        match call {
            MembershipCall::Add(sig) => install(sig),
            MembershipCall::Remove(sig) => uninstall(sig),
            MembershipCall::Clear => uninstall_all(members, SIGNALS as nat),
        }
    }
}

/// The signals that a signal handle is subscribed to.
pub struct SignalMask {
    bits: u32,
}

impl View for SignalMask {
    type V = Set<Signal>;

    closed spec fn view(&self) -> Set<Signal> {
        Set::new(|s: Signal| self.bits & (1u32 << (s.index() as u32)) != 0)
    }
}

proof fn lemma_bit_set(bits: u32, i: u32, j: u32)
    requires
        i < 32,
        j < 32,
    ensures
        ((bits | (1u32 << i)) & (1u32 << j) != 0) == (i == j || bits & (1u32 << j) != 0),
{
    assert(((bits | (1u32 << i)) & (1u32 << j) != 0) == (i == j || bits & (1u32 << j) != 0))
        by (bit_vector)
        requires
            i < 32,
            j < 32,
    ;
}

proof fn lemma_bit_cleared(bits: u32, i: u32, j: u32)
    requires
        i < 32,
        j < 32,
    ensures
        ((bits & !(1u32 << i)) & (1u32 << j) != 0) == (i != j && bits & (1u32 << j) != 0),
{
    assert(((bits & !(1u32 << i)) & (1u32 << j) != 0) == (i != j && bits & (1u32 << j) != 0))
        by (bit_vector)
        requires
            i < 32,
            j < 32,
    ;
}

impl SignalMask {
    /// No signal.
    pub fn new() -> (mask: Self)
        ensures
            mask@ == Set::<Signal>::empty(),
    {
        let mask = SignalMask { bits: 0 };
        proof {
            assert forall|s: Signal| !mask@.contains(s) by {
                let j = s.index() as u32;
                assert(0u32 & (1u32 << j) == 0) by (bit_vector);
            }
            assert(mask@ =~= Set::<Signal>::empty());
        }
        mask
    }

    /// Whether `sig` is a member.
    pub fn contains(&self, sig: Signal) -> (b: bool)
        ensures
            b == self@.contains(sig),
    {
        self.bits & (1u32 << sig.ordinal()) != 0
    }

    fn insert(&mut self, sig: Signal)
        ensures
            final(self)@ == old(self)@.insert(sig),
    {
        let i = sig.ordinal();
        let ghost before = self.bits;
        self.bits = self.bits | (1u32 << i);
        proof {
            assert forall|s: Signal| self@.contains(s) == old(self)@.insert(sig).contains(s) by {
                lemma_bit_set(before, i, s.index() as u32);
                lemma_index_is_one_to_one(sig, s);
            }
            assert(self@ =~= old(self)@.insert(sig));
        }
    }

    fn erase(&mut self, sig: Signal)
        ensures
            final(self)@ == old(self)@.remove(sig),
    {
        let i = sig.ordinal();
        let ghost before = self.bits;
        self.bits = self.bits & !(1u32 << i);
        proof {
            assert forall|s: Signal| self@.contains(s) == old(self)@.remove(sig).contains(s) by {
                lemma_bit_cleared(before, i, s.index() as u32);
                lemma_index_is_one_to_one(sig, s);
            }
            assert(self@ =~= old(self)@.remove(sig));
        }
    }

    /// Makes `sig` a member. Where it is one already, the call is refused
    /// with `InvalidArgument` and changes nothing. Otherwise it returns the
    /// requests to hand to the kernel, in order.
    pub fn add(&mut self, sig: Signal) -> (result: Result<Vec<KernelRequest>, SystemError>)
        ensures
            result is Err <==> refused(old(self)@, MembershipCall::Add(sig)),
            match result {
                Ok(requests) => {
                    &&& final(self)@ == members_after(old(self)@, MembershipCall::Add(sig))
                    &&& requests@ == requests_of(old(self)@, MembershipCall::Add(sig))
                },
                Err(err) => err == SystemError::InvalidArgument && final(self)@ == old(self)@,
            },
    {
        if self.contains(sig) {
            return Err(SystemError::InvalidArgument);
        }
        self.insert(sig);
        let mut requests: Vec<KernelRequest> = Vec::new();
        requests.push(KernelRequest::Block(sig));
        requests.push(KernelRequest::Subscribe(sig));
        Ok(requests)
    }

    /// Takes back an `add` of `sig` whose subscription the kernel refused:
    /// `sig` is no member any more, and where it was one, the request that
    /// unblocks it is returned.
    pub fn add_failed(&mut self, sig: Signal) -> (requests: Vec<KernelRequest>)
        ensures
            final(self)@ == old(self)@.remove(sig),
            requests@ == if old(self)@.contains(sig) {
                seq![KernelRequest::Unblock(sig)]
            } else {
                Seq::<KernelRequest>::empty()
            },
    {
        let mut requests: Vec<KernelRequest> = Vec::new();
        if self.contains(sig) {
            requests.push(KernelRequest::Unblock(sig));
        }
        self.erase(sig);
        requests
    }

    /// Ends the membership of `sig`. Where it is no member, the call is
    /// refused with `InvalidArgument` and changes nothing. Otherwise it
    /// returns the requests to hand to the kernel, in order.
    pub fn remove(&mut self, sig: Signal) -> (result: Result<Vec<KernelRequest>, SystemError>)
        ensures
            result is Err <==> refused(old(self)@, MembershipCall::Remove(sig)),
            match result {
                Ok(requests) => {
                    &&& final(self)@ == members_after(old(self)@, MembershipCall::Remove(sig))
                    &&& requests@ == requests_of(old(self)@, MembershipCall::Remove(sig))
                },
                Err(err) => err == SystemError::InvalidArgument && final(self)@ == old(self)@,
            },
    {
        if !self.contains(sig) {
            return Err(SystemError::InvalidArgument);
        }
        self.erase(sig);
        let mut requests: Vec<KernelRequest> = Vec::new();
        requests.push(KernelRequest::Unsubscribe(sig));
        requests.push(KernelRequest::Unblock(sig));
        Ok(requests)
    }

    /// Ends every membership. Returns the requests to hand to the kernel, in
    /// the order of the list of signals.
    pub fn clear(&mut self) -> (requests: Vec<KernelRequest>)
        ensures
            final(self)@ == members_after(old(self)@, MembershipCall::Clear),
            requests@ == requests_of(old(self)@, MembershipCall::Clear),
    {
        let mut requests: Vec<KernelRequest> = Vec::new();
        let mut i: u32 = 0;
        while i < SIGNALS
            invariant
                0 <= i <= SIGNALS,
                requests@ == uninstall_all(old(self)@, i as nat),
                forall|s: Signal| self@.contains(s) == (old(self)@.contains(s) && s.index() >= i),
            decreases SIGNALS - i,
        {
            match Signal::from_ordinal(i) {
                Some(sig) => {
                    proof {
                        lemma_signal_at(i as nat, sig);
                    }
                    let ghost before = self@;
                    if self.contains(sig) {
                        self.erase(sig);
                        requests.push(KernelRequest::Unsubscribe(sig));
                        requests.push(KernelRequest::Unblock(sig));
                        assert(requests@ == uninstall_all(old(self)@, i as nat) + uninstall(sig));
                    }
                    assert forall|s: Signal| self@.contains(s) == (old(self)@.contains(s)
                        && s.index() >= i + 1) by {
                        lemma_index_is_one_to_one(sig, s);
                    }
                },
                None => {},
            }
            i = i + 1;
        }
        proof {
            assert forall|s: Signal| !self@.contains(s) by {
                lemma_index_is_one_to_one(s, s);
            }
            assert(self@ =~= Set::<Signal>::empty());
        }
        requests
    }
}

/// A signal handle and the kernel, side by side.
#[verifier::ext_equal]
pub struct Membership {
    /// The signals that the handle is subscribed to.
    pub members: Set<Signal>,
    /// What the kernel holds.
    pub kernel: KernelSignals,
}

impl Membership {
    /// The handle and the kernel agree.
    pub open spec fn consistent(self) -> bool {
        self.kernel.agrees_with(self.members)
    }

    /// Both sides after `call`, once the kernel has done what the call
    /// handed to it.
    pub open spec fn after(self, call: MembershipCall) -> Membership {
        Membership {
            members: members_after(self.members, call),
            kernel: self.kernel.apply_all(requests_of(self.members, call)),
        }
    }

    /// Both sides after `calls`, in order.
    pub open spec fn after_all(self, calls: Seq<MembershipCall>) -> Membership
        decreases calls.len(),
    {
        if calls.len() == 0 {
            self
        } else {
            self.after_all(calls.drop_last()).after(calls.last())
        }
    }
}

/// Requests handed over in two parts do what they do in one.
pub proof fn lemma_apply_all_concat(
    kernel: KernelSignals,
    first: Seq<KernelRequest>,
    second: Seq<KernelRequest>,
)
    ensures
        kernel.apply_all(first + second) == kernel.apply_all(first).apply_all(second),
    decreases second.len(),
{
    if second.len() == 0 {
        assert(first + second =~= first);
    } else {
        lemma_apply_all_concat(kernel, first, second.drop_last());
        assert((first + second).drop_last() =~= first + second.drop_last());
        assert((first + second).last() == second.last());
    }
}

/// What the two requests of `install` and of `uninstall` do to the kernel.
pub proof fn lemma_install_uninstall(kernel: KernelSignals, sig: Signal)
    ensures
        kernel.apply_all(install(sig)) == (KernelSignals {
            blocked: kernel.blocked.insert(sig),
            subscribed: kernel.subscribed.insert(sig),
        }),
        kernel.apply_all(uninstall(sig)) == (KernelSignals {
            blocked: kernel.blocked.remove(sig),
            subscribed: kernel.subscribed.remove(sig),
        }),
{
    reveal_with_fuel(KernelSignals::apply_all, 3);
    let i = install(sig);
    assert(i.drop_last() =~= seq![KernelRequest::Block(sig)]);
    assert(i.drop_last().drop_last() =~= Seq::<KernelRequest>::empty());
    let u = uninstall(sig);
    assert(u.drop_last() =~= seq![KernelRequest::Unsubscribe(sig)]);
    assert(u.drop_last().drop_last() =~= Seq::<KernelRequest>::empty());
}

/// Clearing the first `upto` signals of the list leaves the kernel with the
/// members among the others.
proof fn lemma_uninstall_all(kernel: KernelSignals, members: Set<Signal>, upto: nat)
    requires
        kernel.agrees_with(members),
        upto <= SIGNALS,
    ensures
        kernel.apply_all(uninstall_all(members, upto)).agrees_with(
            Set::new(|s: Signal| members.contains(s) && s.index() >= upto),
        ),
    decreases upto,
{
    let rest = Set::new(|s: Signal| members.contains(s) && s.index() >= upto);
    if upto == 0 {
        assert(rest =~= members);
    } else {
        let n = (upto - 1) as nat;
        let before = Set::new(|s: Signal| members.contains(s) && s.index() >= n);
        let sig = signal_at(n);
        lemma_uninstall_all(kernel, members, n);
        let k = kernel.apply_all(uninstall_all(members, n));
        lemma_signal_at(n, sig);
        assert forall|s: Signal| rest.contains(s) == (before.contains(s) && s != sig) by {
            lemma_index_is_one_to_one(s, sig);
        }
        if members.contains(sig) {
            lemma_apply_all_concat(kernel, uninstall_all(members, n), uninstall(sig));
            lemma_install_uninstall(k, sig);
            assert(before.remove(sig) =~= rest);
        } else {
            assert(before =~= rest);
        }
    }
}

/// One call keeps the handle and the kernel in agreement: after an `add`, a
/// `remove` or a `clear`, refused or not, the kernel blocks and delivers
/// exactly the signals that the handle is subscribed to, provided that it did
/// so before.
pub proof fn law_call_keeps_consistent(both: Membership, call: MembershipCall)
    requires
        both.consistent(),
    ensures
        both.after(call).consistent(),
        refused(both.members, call) ==> both.after(call) == both,
{
    match call {
        MembershipCall::Add(sig) => {
            lemma_install_uninstall(both.kernel, sig);
            if both.members.contains(sig) {
                assert(both.members.insert(sig) =~= both.members);
            }
        },
        MembershipCall::Remove(sig) => {
            lemma_install_uninstall(both.kernel, sig);
            if !both.members.contains(sig) {
                assert(both.members.remove(sig) =~= both.members);
            }
        },
        MembershipCall::Clear => {
            lemma_uninstall_all(both.kernel, both.members, SIGNALS as nat);
            assert(Set::new(|s: Signal| both.members.contains(s) && s.index() >= SIGNALS as nat)
                =~= Set::<Signal>::empty()) by {
                assert forall|s: Signal| s.index() < SIGNALS by {
                    lemma_index_is_one_to_one(s, s);
                }
            }
        },
    }
}

/// After any sequence of `add`, `remove` and `clear`, the handle and the
/// kernel agree, provided that they did at the start.
pub proof fn law_calls_keep_consistent(both: Membership, calls: Seq<MembershipCall>)
    requires
        both.consistent(),
    ensures
        both.after_all(calls).consistent(),
    decreases calls.len(),
{
    if calls.len() > 0 {
        law_calls_keep_consistent(both, calls.drop_last());
        law_call_keeps_consistent(both.after_all(calls.drop_last()), calls.last());
    }
}

/// Taking back an `add` whose subscription the kernel refused restores the
/// agreement: the kernel had blocked the signal and nothing more, and once it
/// has unblocked it, both sides are as they were before the `add`.
pub proof fn law_refused_subscription_is_undone(both: Membership, sig: Signal)
    requires
        both.consistent(),
        !both.members.contains(sig),
    ensures
        both.kernel.apply(KernelRequest::Block(sig)).apply_all(seq![KernelRequest::Unblock(sig)])
            == both.kernel,
        both.members.insert(sig).remove(sig) == both.members,
{
    reveal_with_fuel(KernelSignals::apply_all, 2);
    let undo = seq![KernelRequest::Unblock(sig)];
    assert(undo.drop_last() =~= Seq::<KernelRequest>::empty());
    assert(both.kernel.blocked.insert(sig).remove(sig) =~= both.kernel.blocked);
    assert(both.members.insert(sig).remove(sig) =~= both.members);
}

} // verus!
