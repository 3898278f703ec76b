//! Listener state guard: tracks whether a listening session is active and
//! enforces that at most one session is ever acquired.
//!
//! The process-wide flag is modelled as a value of [`ListenerGuard`]; the
//! caller that owns the flag performs each `try_acquire` as one atomic
//! read-modify-write, so any group of concurrent acquisition attempts is
//! equivalent to some sequence of calls on the single guard value. The spec
//! functions below describe that sequence, and `lemma_single_acquisition`
//! shows that exactly one attempt in it succeeds.

use vstd::prelude::*;

verus! {

/// The listening state: inactive until a session acquires it, then active
/// for the remainder of the process (no release operation exists).
pub struct ListenerGuard {
    active: bool,
}

impl ListenerGuard {
    /// Whether a listening session currently holds the guard.
    pub closed spec fn is_active(&self) -> bool {
        self.active
    }

    /// A fresh guard; no session is active.
    pub fn new() -> (g: ListenerGuard)
        ensures
            !g.is_active(),
    {
        ListenerGuard { active: false }
    }

    /// Reads the current state, as a caller polling the flag would.
    pub fn is_listening(&self) -> (b: bool)
        ensures
            b == self.is_active(),
    {
        self.active
    }

    /// Atomic test-and-set: succeeds exactly when no session was active,
    /// and a failed attempt leaves the guard untouched.
    pub fn try_acquire(&mut self) -> (acquired: bool)
        ensures
            acquired == !old(self).is_active(),
            final(self).is_active(),
            !acquired ==> *final(self) == *old(self),
    {
        if self.active {
            false
        } else {
            self.active = true;
            true
        }
    }
}

/// The results of `n` successive `try_acquire` calls on a guard whose state
/// starts as `init`: after the first attempt the guard is active whatever
/// `init` was, so only the first attempt from an inactive guard succeeds.
pub open spec fn acquire_outcomes(init: bool, n: nat) -> Seq<bool>
    decreases n,
{
    if n == 0 {
        Seq::empty()
    } else {
        seq![!init] + acquire_outcomes(true, (n - 1) as nat)
    }
}

/// How many attempts in a run of outcomes succeeded.
pub open spec fn count_true(s: Seq<bool>) -> nat
    decreases s.len(),
{
    if s.len() == 0 {
        0
    } else {
        (if s[0] {
            1nat
        } else {
            0nat
        }) + count_true(s.skip(1))
    }
}

proof fn lemma_no_acquisition_when_active(n: nat)
    ensures
        count_true(acquire_outcomes(true, n)) == 0,
    decreases n,
{
    if n > 0 {
        lemma_no_acquisition_when_active((n - 1) as nat);
        assert(acquire_outcomes(true, n).skip(1) == acquire_outcomes(true, (n - 1) as nat));
    }
}

/// Singleton law: of any sequence of acquisition attempts that starts from
/// the inactive state, exactly one succeeds; every later attempt observes
/// the guard already active.
pub proof fn lemma_single_acquisition(n: nat)
    requires
        n >= 1,
    ensures
        count_true(acquire_outcomes(false, n)) == 1,
        acquire_outcomes(false, n)[0],
{
    lemma_no_acquisition_when_active((n - 1) as nat);
    assert(acquire_outcomes(false, n).skip(1) == acquire_outcomes(true, (n - 1) as nat));
}

} // verus!
