//! The notification debounce gate.
//!
//! A gate holds an optional expiry timestamp and a fixed TTL. A fire attempt
//! at time `now` is permitted when no window is active or the active window
//! has expired; a permitted fire re-arms it until `now + TTL`. A gate
//! itself is sequential; callers that share one gate across threads hold it
//! behind an exclusive lock, so that `try_fire` runs as one critical section.

use vstd::prelude::*;

verus! {

/// Whether a fire attempt at `now` is permitted against the given expiry
/// slot: permitted when no window is active, or when `now` is strictly past
/// the recorded expiry.
pub open spec fn permits(expires_at: Option<u64>, now: u64) -> bool {
    match expires_at {
        None => true,
        Some(e) => now > e,
    }
}

/// The expiry slot after a fire attempt at `now`: re-armed to `now + ttl`
/// when the attempt is permitted, unchanged otherwise.
pub open spec fn next_expiry(expires_at: Option<u64>, ttl: u64, now: u64) -> Option<u64>
    recommends
        now + ttl <= u64::MAX,
{
    if permits(expires_at, now) {
        Some((now + ttl) as u64)
    } else {
        expires_at
    }
}

/// A stateful guard that permits an action at most once per TTL window.
///
/// `Idle` (no expiry recorded) and `Armed` (expiry recorded) are its two
/// states; `try_fire` is the only transition that arms it and `reset` the
/// only one that disarms it.
pub struct DebounceGate {
    ttl: u64,
    expires_at: Option<u64>,
}

impl DebounceGate {
    /// The TTL this gate was constructed with; immutable thereafter.
    pub closed spec fn spec_ttl(&self) -> u64 {
        self.ttl
    }

    /// The recorded expiry slot; `None` means no window is active.
    pub closed spec fn spec_expires_at(&self) -> Option<u64> {
        self.expires_at
    }

    /// Whether a cooldown window is currently recorded.
    pub open spec fn is_armed(&self) -> bool {
        self.spec_expires_at() is Some
    }

    /// Whether a fire attempt at `now` would be permitted.
    pub open spec fn fire_permitted(&self, now: u64) -> bool {
        permits(self.spec_expires_at(), now)
    }

    /// A fresh gate: idle, with the given TTL.
    pub fn new(ttl: u64) -> (gate: Self)
        ensures
            gate.spec_ttl() == ttl,
            !gate.is_armed(),
    {
        DebounceGate { ttl, expires_at: None }
    }

    /// The TTL this gate was constructed with.
    pub fn ttl(&self) -> (ttl: u64)
        ensures
            ttl == self.spec_ttl(),
    {
        self.ttl
    }

    /// True iff an expiry is recorded. Pure read; no side effect.
    pub fn is_active(&self) -> (active: bool)
        ensures
            active == self.is_armed(),
    {
        self.expires_at.is_some()
    }

    /// True iff an expiry is recorded and `now` is strictly past it. An idle
    /// gate is "not active", never "expired", so this returns false for it.
    pub fn is_expired(&self, now: u64) -> (expired: bool)
        ensures
            expired == (self.spec_expires_at() matches Some(e) && now > e),
    {
        match self.expires_at {
            Some(e) => now > e,
            None => false,
        }
    }

    /// Atomically evaluate "permit iff idle or expired"; when permitted,
    /// re-arm until `now + TTL` and report true, else leave everything
    /// untouched and report false. This composite check-and-update is the
    /// only way to fire; the separate reads exist for observation only.
    pub fn try_fire(&mut self, now: u64) -> (fired: bool)
        requires
            now + old(self).spec_ttl() <= u64::MAX,
        ensures
            fired == old(self).fire_permitted(now),
            final(self).spec_ttl() == old(self).spec_ttl(),
            final(self).spec_expires_at() == next_expiry(
                old(self).spec_expires_at(),
                old(self).spec_ttl(),
                now,
            ),
            fired ==> final(self).spec_expires_at() == Some(
                (now + old(self).spec_ttl()) as u64,
            ),
            !fired ==> *final(self) == *old(self),
    {
        let permitted = match self.expires_at {
            None => true,
            Some(e) => now > e,
        };
        if permitted {
            self.expires_at = Some(now + self.ttl);
        }
        permitted
    }

    /// Unconditionally clear the expiry slot, regardless of current state.
    pub fn reset(&mut self)
        ensures
            final(self).spec_ttl() == old(self).spec_ttl(),
            !final(self).is_armed(),
    {
        self.expires_at = None;
    }
}

/// Law: an idle gate permits a fire at any time, and the fire arms it until
/// `now + TTL`; together with the contract of `try_fire`, the call returns
/// true on an idle gate.
pub proof fn lemma_idle_gate_fires(gate: DebounceGate, now: u64)
    requires
        !gate.is_armed(),
        now + gate.spec_ttl() <= u64::MAX,
    ensures
        gate.fire_permitted(now),
        next_expiry(gate.spec_expires_at(), gate.spec_ttl(), now) == Some(
            (now + gate.spec_ttl()) as u64,
        ),
{
}

/// Law: while the window opened by a fire at `now1` is still running, that
/// is up to and including `now1 + TTL`, a fire attempt is denied and the
/// recorded expiry stays as it was.
pub proof fn lemma_fire_within_window_denied(gate: DebounceGate, now1: u64, now2: u64)
    requires
        now1 + gate.spec_ttl() <= u64::MAX,
        gate.spec_expires_at() == Some((now1 + gate.spec_ttl()) as u64),
        now2 <= now1 + gate.spec_ttl(),
    ensures
        !gate.fire_permitted(now2),
        next_expiry(gate.spec_expires_at(), gate.spec_ttl(), now2) == gate.spec_expires_at(),
{
}

/// Law: once the window opened by a fire at `now1` has passed, that is
/// strictly after `now1 + TTL`, a fire attempt is permitted again and
/// re-arms until `now2 + TTL`.
pub proof fn lemma_fire_after_window_permitted(gate: DebounceGate, now1: u64, now2: u64)
    requires
        now1 + gate.spec_ttl() <= u64::MAX,
        now2 + gate.spec_ttl() <= u64::MAX,
        gate.spec_expires_at() == Some((now1 + gate.spec_ttl()) as u64),
        now2 > now1 + gate.spec_ttl(),
    ensures
        gate.fire_permitted(now2),
        next_expiry(gate.spec_expires_at(), gate.spec_ttl(), now2) == Some(
            (now2 + gate.spec_ttl()) as u64,
        ),
{
}

/// The results of a run of fire attempts, in the order they are served,
/// starting from the given expiry slot.
pub open spec fn fire_results(expires_at: Option<u64>, ttl: u64, nows: Seq<u64>) -> Seq<bool>
    decreases nows.len(),
{
    if nows.len() == 0 {
        Seq::empty()
    } else {
        seq![permits(expires_at, nows[0])] + fire_results(
            next_expiry(expires_at, ttl, nows[0]),
            ttl,
            nows.skip(1),
        )
    }
}

/// How many attempts in a run were permitted.
pub open spec fn count_permitted(results: Seq<bool>) -> nat
    decreases results.len(),
{
    if results.len() == 0 {
        0
    } else {
        (if results[0] {
            1nat
        } else {
            0nat
        }) + count_permitted(results.skip(1))
    }
}

/// A run serves every attempt: one result each.
pub proof fn lemma_fire_results_len(expires_at: Option<u64>, ttl: u64, nows: Seq<u64>)
    ensures
        fire_results(expires_at, ttl, nows).len() == nows.len(),
    decreases nows.len(),
{
    if nows.len() > 0 {
        lemma_fire_results_len(next_expiry(expires_at, ttl, nows[0]), ttl, nows.skip(1));
    }
}

proof fn lemma_armed_window_denies_all(expiry: u64, ttl: u64, now: u64, nows: Seq<u64>)
    requires
        now <= expiry,
        forall|i: int| 0 <= i < nows.len() ==> nows[i] == now,
    ensures
        count_permitted(fire_results(Some(expiry), ttl, nows)) == 0,
    decreases nows.len(),
{
    if nows.len() > 0 {
        assert(nows[0] == now);
        assert(!permits(Some(expiry), now));
        let rest_nows = nows.skip(1);
        assert(forall|i: int| 0 <= i < rest_nows.len() ==> rest_nows[i] == nows[i + 1]);
        lemma_armed_window_denies_all(expiry, ttl, now, rest_nows);
        let rest = fire_results(Some(expiry), ttl, rest_nows);
        assert(fire_results(Some(expiry), ttl, nows) == seq![false] + rest);
        assert((seq![false] + rest).skip(1) =~= rest);
        assert(count_permitted(seq![false] + rest) == count_permitted(rest));
    }
}

/// Law: when any number of fire attempts with one and the same timestamp hit
/// an idle gate, in whatever total order its critical section puts
/// them in, exactly one of them is permitted.
pub proof fn lemma_simultaneous_fires_one_winner(ttl: u64, now: u64, nows: Seq<u64>)
    requires
        nows.len() > 0,
        now + ttl <= u64::MAX,
        forall|i: int| 0 <= i < nows.len() ==> nows[i] == now,
    ensures
        count_permitted(fire_results(None, ttl, nows)) == 1,
        fire_results(None, ttl, nows).len() == nows.len(),
{
    lemma_fire_results_len(None, ttl, nows);
    assert(nows[0] == now);
    assert(permits(None, now));
    let expiry = (now + ttl) as u64;
    assert(next_expiry(None, ttl, nows[0]) == Some(expiry));
    let rest_nows = nows.skip(1);
    assert(forall|i: int| 0 <= i < rest_nows.len() ==> rest_nows[i] == nows[i + 1]);
    lemma_armed_window_denies_all(expiry, ttl, now, rest_nows);
    let rest = fire_results(Some(expiry), ttl, rest_nows);
    assert(fire_results(None, ttl, nows) == seq![true] + rest);
    assert((seq![true] + rest).skip(1) =~= rest);
    assert(count_permitted(seq![true] + rest) == 1 + count_permitted(rest));
}

} // verus!
