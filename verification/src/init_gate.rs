//! A monotonic flag recording whether the one-time initialization sequence
//! has been requested.
//!
//! It distinguishes "not yet requested" from "requested", so that
//! repeated initialization attempts can be rejected early. Within one
//! process lifetime it never reverts: the only reset path is the bundled
//! test teardown of the whole SDK state.

use vstd::prelude::*;

verus! {

/// Records whether the one-time asynchronous initialization sequence has
/// been started. Write-once-then-stable: once begun, it stays begun.
pub struct InitGate {
    begun: bool,
}

impl InitGate {
    /// Whether the initialization sequence has been requested.
    pub closed spec fn spec_has_begun(&self) -> bool {
        self.begun
    }

    /// A fresh gate: no initialization attempt has been made.
    pub fn new() -> (gate: InitGate)
        ensures
            !gate.spec_has_begun(),
    {
        InitGate { begun: false }
    }

    /// Attempts the not-started -> started transition.
    ///
    /// Returns whether this call won the transition: true for exactly the
    /// first call on a fresh gate, false for every later call. Only the
    /// winning caller may spawn the startup sequence.
    pub fn begin(&mut self) -> (won: bool)
        ensures
            begin_transition(*old(self), *final(self), won),
    {
        let won = !self.begun;
        self.begun = true;
        won
    }

    /// Non-blocking read of the flag, usable at any time.
    pub fn has_begun(&self) -> (r: bool)
        ensures
            r == self.spec_has_begun(),
    {
        self.begun
    }
}

/// The effect of one `begin` call: the flag is set afterwards, the call
/// won exactly when the flag was clear before it, and a losing call mutates
/// nothing.
pub open spec fn begin_transition(pre: InitGate, post: InitGate, won: bool) -> bool {
    &&& post.spec_has_begun()
    &&& won == !pre.spec_has_begun()
    &&& pre.spec_has_begun() ==> post == pre
}

/// Among any serialized run of `begin` calls on one gate that starts fresh,
/// exactly the first call wins; every later call observes a begun gate and
/// loses. `gates[i]` is the state before call `i`, `wins[i]` that call's
/// result.
pub proof fn lemma_begin_wins_exactly_once(gates: Seq<InitGate>, wins: Seq<bool>)
    requires
        gates.len() == wins.len() + 1,
        wins.len() > 0,
        !gates[0].spec_has_begun(),
        forall|i: int|
            0 <= i < wins.len() ==> begin_transition(gates[i], gates[i + 1], wins[i]),
    ensures
        forall|i: int| 0 <= i < wins.len() ==> wins[i] == (i == 0),
{
    assert forall|i: int| 0 <= i < wins.len() implies wins[i] == (i == 0) by {
        assert(begin_transition(gates[i], gates[i + 1], wins[i]));
        if i > 0 {
            assert(begin_transition(gates[i - 1], gates[i], wins[i - 1]));
        }
    }
}

} // verus!
