//! The extension computation: a resumable computation that writes a value,
//! then yields four times, pausing a second at each step, before it
//! completes.
use vstd::prelude::*;
use crate::policy::{Command, is_command, set_command};

verus! {

/// What resuming a computation gave: a yielded value, or its final result.
#[derive(Clone, Copy, Debug, PartialEq, Eq, Structural)]
pub enum GeneratorState {
    /// The computation suspended itself, handing out a value.
    Yielded(u64),
    /// The computation finished with a value.
    Complete(u64),
}

/// The number of resumes the computation runs for.
pub open spec fn ext_len() -> nat {
    5
}

/// What the resume with index `k` (from 0) of the computation gives.
pub open spec fn ext_state(k: nat) -> GeneratorState {
    if k + 1 < ext_len() {
        GeneratorState::Yielded(1)
    } else {
        GeneratorState::Complete(1111)
    }
}

/// One step of the computation: the write it makes, the step's number
/// (from 1), how long it pauses in milliseconds, and what it gives.
pub struct ExtStep {
    /// The write the step makes, if any.
    pub write: Option<Command>,
    /// The step's number, from 1.
    pub step: u64,
    /// How long the step pauses, in milliseconds.
    pub pause_ms: u64,
    /// What the resume gives.
    pub state: GeneratorState,
}

/// The step made by the resume with index `k`: the first one writes `111`
/// under `A`; each pauses a second.
pub open spec fn is_ext_step(s: ExtStep, k: nat) -> bool {
    &&& s.step == k + 1
    &&& s.pause_ms == 1000
    &&& s.state == ext_state(k)
    &&& (k == 0 ==> (s.write matches Some(c) && is_command(c, "SET"@, seq!["A"@, "111"@])))
    &&& (k != 0 ==> s.write is None)
}

/// The extension computation, as far as it has been resumed.
pub struct Extension {
    resumes: u64,
}

/// A new extension computation, not yet resumed.
pub fn init() -> (e: Extension)
    ensures
        e.spec_resumes() == 0,
{
    Extension { resumes: 0 }
}

impl Extension {
    /// How many times the computation has been resumed.
    pub closed spec fn spec_resumes(&self) -> nat {
        self.resumes as nat
    }

    /// How many times the computation has been resumed.
    pub fn resumes(&self) -> (n: u64)
        ensures
            n == self.spec_resumes(),
    {
        self.resumes
    }

    /// Whether the computation has finished; it may be resumed exactly while it has not.
    pub fn is_finished(&self) -> (b: bool)
        ensures
            b == (self.spec_resumes() >= ext_len()),
    {
        self.resumes >= 5
    }

    /// Resumes the computation for its next step. A finished computation
    /// may not be resumed.
    pub fn resume(&mut self) -> (s: ExtStep)
        requires
            old(self).spec_resumes() < ext_len(),
        ensures
            final(self).spec_resumes() == old(self).spec_resumes() + 1,
            is_ext_step(s, old(self).spec_resumes()),
    {
        let k: u64 = self.resumes;
        self.resumes = k + 1;
        let write = if k == 0 {
            Some(set_command("A", "111"))
        } else {
            None
        };
        let state = if k + 1 < 5 {
            GeneratorState::Yielded(1)
        } else {
            GeneratorState::Complete(1111)
        };
        ExtStep { write, step: k + 1, pause_ms: 1000, state }
    }
}

/// The computation yields 1 on each of its first four resumes and completes
/// with 1111 on the fifth; it completes on no other resume.
pub proof fn ext_yields_then_completes(k: nat)
    requires
        k < ext_len(),
    ensures
        k < 4 ==> ext_state(k) == GeneratorState::Yielded(1),
        k == 4 ==> ext_state(k) == GeneratorState::Complete(1111),
        ext_state(k) is Complete <==> k == 4,
{
}

/// Every step pauses a second and is numbered from 1; only the first step
/// writes, and it stores `111` under `A`.
pub proof fn ext_step_effects(s: ExtStep, k: nat)
    requires
        is_ext_step(s, k),
    ensures
        s.step == k + 1,
        s.pause_ms == 1000,
        s.write is Some <==> k == 0,
        k == 0 ==> (s.write matches Some(c) && c.name@ == "SET"@ && c.args@.len() == 2
            && c.args@[0]@ == "A"@ && c.args@[1]@ == "111"@),
{
    if k == 0 {
        assert(seq!["A"@, "111"@][0] == "A"@);
        assert(seq!["A"@, "111"@][1] == "111"@);
    }
}

} // verus!
