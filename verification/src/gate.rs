//! The initialization gate: one-time setup runs once, whoever asks first
//! and however often it is asked for.

use vstd::prelude::*;

verus! {

/// The flag that guards the one-time setup of the process.
pub struct InitGate {
    initialized: bool,
}

impl View for InitGate {
    type V = bool;

    closed spec fn view(&self) -> bool {
        self.initialized
    }
}

/// How many of `calls` successive entries through a gate run the setup,
/// for a gate that is initialized or not before the first of them.
pub open spec fn setup_runs(initialized: bool, calls: nat) -> nat
    decreases calls,
{
    if calls == 0 {
        0
    } else if initialized {
        setup_runs(true, (calls - 1) as nat)
    } else {
        1 + setup_runs(true, (calls - 1) as nat)
    }
}

impl InitGate {
    /// A gate nobody has entered yet.
    pub fn new() -> (gate: InitGate)
        ensures
            !gate@,
    {
        InitGate { initialized: false }
    }

    /// Enters. The answer says whether the caller has to
    /// run the setup: it does for the first entry and for no other.
    pub fn ensure_initialized(&mut self) -> (run_setup: bool)
        ensures
            run_setup == !old(self)@,
            final(self)@,
    {
        let run_setup = !self.initialized;
        self.initialized = true;
        run_setup
    }

    /// Whether anyone has entered yet.
    pub fn is_initialized(&self) -> (initialized: bool)
        ensures
            initialized == self@,
    {
        self.initialized
    }
}

/// Once someone has entered the setup never runs again.
pub proof fn lemma_no_setup_after_first(calls: nat)
    ensures
        setup_runs(true, calls) == 0,
    decreases calls,
{
    if calls > 0 {
        lemma_no_setup_after_first((calls - 1) as nat);
    }
}

/// However often a fresh gate is entered, the setup runs exactly once.
pub proof fn lemma_setup_runs_once(calls: nat)
    requires
        calls >= 1,
    ensures
        setup_runs(false, calls) == 1,
{
    lemma_no_setup_after_first((calls - 1) as nat);
}

} // verus!
