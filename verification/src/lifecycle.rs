//! CEF is started by the first browser that needs it and shut down when the
//! last one lets go: a reference count shared by all browser nodes.
//!
//! The caller holds the count under its lock and performs the actual
//! initialization and shutdown that the count calls for.

use vstd::prelude::*;

verus! {

/// The reference count of CEF users, and whether CEF is running.
#[derive(Clone, Copy, Debug, PartialEq, Eq, Structural)]
pub struct CefState {
    pub ref_count: usize,
    pub initialized: bool,
}

/// The state after one release, and whether CEF must be shut down.
pub open spec fn release_spec(s: CefState) -> (CefState, bool) {
    if s.ref_count == 0 {
        (s, false)
    } else if s.ref_count == 1 && s.initialized {
        (CefState { ref_count: 0, initialized: false }, true)
    } else {
        (CefState { ref_count: (s.ref_count - 1) as usize, initialized: s.initialized }, false)
    }
}

/// The state after `k` releases.
pub open spec fn after_releases(s: CefState, k: nat) -> CefState
    decreases k,
{
    if k == 0 {
        s
    } else {
        after_releases(release_spec(s).0, (k - 1) as nat)
    }
}

/// How many of `k` releases shut CEF down.
pub open spec fn shutdowns(s: CefState, k: nat) -> nat
    decreases k,
{
    if k == 0 {
        0
    } else {
        (if release_spec(s).1 { 1nat } else { 0nat }) + shutdowns(release_spec(s).0, (k - 1) as nat)
    }
}

impl CefState {
    /// No users, CEF not running.
    pub fn new() -> (r: Self)
        ensures
            r == (CefState { ref_count: 0, initialized: false }),
    {
        CefState { ref_count: 0, initialized: false }
    }

    /// Whether the next user must initialize CEF: it is the first one.
    pub fn needs_initialization(&self) -> (r: bool)
        ensures
            r == (self.ref_count == 0),
    {
        self.ref_count == 0
    }

    /// Records a user that acquired CEF; `initialized_now` says that this
    /// acquisition started it. A failed initialization records nothing.
    pub fn retained(&mut self, initialized_now: bool)
        requires
            old(self).ref_count < usize::MAX,
        ensures
            final(self).ref_count == old(self).ref_count + 1,
            final(self).initialized == (old(self).initialized || initialized_now),
    {
        if initialized_now {
            self.initialized = true;
        }
        self.ref_count = self.ref_count + 1;
    }

    /// Records a user letting go of CEF; says whether CEF must now be shut
    /// down (the last user left while it was running). A release without
    /// users changes nothing.
    pub fn release(&mut self) -> (r: bool)
        ensures
            (*final(self), r) == release_spec(*old(self)),
    {
        if self.ref_count == 0 {
            return false;
        }
        self.ref_count = self.ref_count - 1;
        if self.ref_count == 0 && self.initialized {
            self.initialized = false;
            return true;
        }
        false
    }
}

/// Once CEF runs with `n` users, `n` releases shut it down exactly once and
/// leave no users, and further releases do nothing.
pub proof fn lemma_balanced_releases(n: nat, extra: nat)
    requires
        1 <= n <= usize::MAX,
    ensures
        after_releases(CefState { ref_count: n as usize, initialized: true }, n)
            == (CefState { ref_count: 0, initialized: false }),
        shutdowns(CefState { ref_count: n as usize, initialized: true }, n + extra) == 1,
    decreases n,
{
    let s = CefState { ref_count: n as usize, initialized: true };
    if n == 1 {
        lemma_idle_releases(CefState { ref_count: 0, initialized: false }, extra);
        assert(after_releases(release_spec(s).0, 0) == release_spec(s).0);
    } else {
        lemma_balanced_releases((n - 1) as nat, extra);
        assert(release_spec(s).0 == CefState { ref_count: (n - 1) as usize, initialized: true });
        assert((n + extra - 1) as nat == (n - 1) + extra);
    }
}

/// Releases without users neither change the state nor shut anything down.
pub proof fn lemma_idle_releases(s: CefState, k: nat)
    requires
        s.ref_count == 0,
    ensures
        after_releases(s, k) == s,
        shutdowns(s, k) == 0,
    decreases k,
{
    if k > 0 {
        lemma_idle_releases(s, (k - 1) as nat);
    }
}

} // verus!
