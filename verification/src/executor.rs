//! The executor's protocol for one request: resume the extension, expect it
//! to yield 1, resume it again, expect it to complete with 1111, and answer
//! `hello`. Any other outcome is a failure.
use vstd::prelude::*;
use crate::ext::GeneratorState;

verus! {

/// Where a request stands in the executor's protocol.
#[derive(Clone, Copy, Debug, PartialEq, Eq, Structural)]
pub enum Phase {
    /// The first resume has been made; it must yield 1.
    AwaitYield,
    /// The second resume has been made; it must complete with 1111.
    AwaitComplete,
    /// The request has been answered.
    Answered,
    /// The extension did something unexpected.
    Failed,
}

/// What the executor does next.
pub enum Action {
    /// Resume the extension once more.
    Resume,
    /// Send this answer to the requester.
    Answer(String),
    /// Give up on the request with this message.
    Fail(String),
}

/// The phase that follows `p` when the last resume gave `g`.
pub open spec fn next_phase(p: Phase, g: GeneratorState) -> Phase {
    match p {
        Phase::AwaitYield => if g == GeneratorState::Yielded(1) {
            Phase::AwaitComplete
        } else {
            Phase::Failed
        },
        Phase::AwaitComplete => if g == GeneratorState::Complete(1111) {
            Phase::Answered
        } else {
            Phase::Failed
        },
        _ => p,
    }
}

/// `a` is the action that takes the executor into phase `p`.
pub open spec fn action_for(p: Phase, a: Action) -> bool {
    match p {
        Phase::AwaitComplete => a is Resume,
        Phase::Answered => a matches Action::Answer(s) && s@ == "hello"@,
        _ => a matches Action::Fail(s) && s@ == "unexpected return from resume"@,
    }
}

/// One request being served by the executor.
pub struct RequestRun {
    phase: Phase,
}

impl RequestRun {
    /// Where the request stands.
    pub closed spec fn spec_phase(&self) -> Phase {
        self.phase
    }

    /// Starts serving a request; the extension is to be resumed first.
    pub fn start() -> (res: (RequestRun, Action))
        ensures
            res.0.spec_phase() == Phase::AwaitYield,
            res.1 is Resume,
    {
        (RequestRun { phase: Phase::AwaitYield }, Action::Resume)
    }

    /// Where the request stands.
    pub fn phase(&self) -> (p: Phase)
        ensures
            p == self.spec_phase(),
    {
        self.phase
    }

    /// Takes in what the last resume gave and says what to do next.
    pub fn on_resumed(&mut self, g: GeneratorState) -> (a: Action)
        requires
            old(self).spec_phase() == Phase::AwaitYield || old(self).spec_phase()
                == Phase::AwaitComplete,
        ensures
            final(self).spec_phase() == next_phase(old(self).spec_phase(), g),
            action_for(final(self).spec_phase(), a),
    {
        let expected = match self.phase {
            Phase::AwaitYield => GeneratorState::Yielded(1),
            _ => GeneratorState::Complete(1111),
        };
        if g == expected {
            match self.phase {
                Phase::AwaitYield => {
                    self.phase = Phase::AwaitComplete;
                    Action::Resume
                },
                _ => {
                    self.phase = Phase::Answered;
                    Action::Answer(String::from_str("hello"))
                },
            }
        } else {
            self.phase = Phase::Failed;
            Action::Fail(String::from_str("unexpected return from resume"))
        }
    }
}

/// The phase reached after the two resumes gave `g1` and then `g2`.
pub open spec fn outcome(g1: GeneratorState, g2: GeneratorState) -> Phase {
    next_phase(next_phase(Phase::AwaitYield, g1), g2)
}

/// A request is answered exactly when the extension yields 1 and then
/// completes with 1111; otherwise it fails.
pub proof fn answered_iff_yield_then_complete(g1: GeneratorState, g2: GeneratorState)
    ensures
        outcome(g1, g2) == Phase::Answered <==> (g1 == GeneratorState::Yielded(1) && g2
            == GeneratorState::Complete(1111)),
        outcome(g1, g2) != Phase::Answered ==> outcome(g1, g2) == Phase::Failed,
{
}

/// After the first resume the executor resumes again when the extension
/// yielded 1; after the second it answers `hello` when the extension
/// completed with 1111; any other outcome makes it fail with the message
/// `unexpected return from resume`.
pub proof fn protocol_actions(g: GeneratorState, a: Action, b: Action)
    requires
        action_for(next_phase(Phase::AwaitYield, g), a),
        action_for(next_phase(Phase::AwaitComplete, g), b),
    ensures
        g == GeneratorState::Yielded(1) ==> a is Resume,
        g != GeneratorState::Yielded(1) ==> (a matches Action::Fail(m) && m@
            == "unexpected return from resume"@),
        g == GeneratorState::Complete(1111) ==> (b matches Action::Answer(m) && m@ == "hello"@),
        g != GeneratorState::Complete(1111) ==> (b matches Action::Fail(m) && m@
            == "unexpected return from resume"@),
{
}

} // verus!
