//! The verified core of an in-database function runtime: the life cycle of
//! an invoked task, the resumable extension computation, the executor's
//! protocol with it, the key-value commands a policy issues, the answers the
//! invocation service sends, and the RESP values used to exercise the data
//! path.
use vstd::prelude::*;
use crate::executor::{Action, Phase, action_for, outcome};
use crate::ext::{ext_len, ext_state};
use crate::task::{TaskState, resumable, resumed_from, run_state};
use crate::server::answer_for;

pub mod task;
pub mod policy;
pub mod ext;
pub mod executor;
pub mod server;
pub mod resp;

verus! {

/// With the built-in extension a request fails at the executor's second
/// check: the extension yields again where the executor expects it to
/// complete.
pub proof fn builtin_extension_fails_executor()
    ensures
        outcome(ext_state(0), ext_state(1)) == Phase::Failed,
{
}

/// Whatever the executor answers a served request makes the invocation
/// service reply `pushback` to its client.
pub proof fn executor_answer_gets_pushback(a: Action)
    requires
        action_for(Phase::Answered, a),
    ensures
        a matches Action::Answer(s) && answer_for(s@) == "pushback"@,
{
    reveal_strlit("hello");
    reveal_strlit("success");
    assert("hello"@[0] != "success"@[0]);
}

/// The state of a fresh task whose computation is the built-in extension,
/// after it has been run `n` times.
pub open spec fn state_after_runs(n: nat) -> TaskState
    decreases n,
{
    if n == 0 {
        TaskState::INITIALIZED
    } else {
        run_state(state_after_runs((n - 1) as nat), resumed_from(ext_state((n - 1) as nat)))
    }
}

/// A task running the built-in extension has yielded after each of its first
/// four runs, is completed after the fifth, and stays completed after any
/// further run: its computation is resumed on exactly its first five runs.
pub proof fn extension_task_completes_on_fifth_run(n: nat)
    ensures
        1 <= n < ext_len() ==> state_after_runs(n) == TaskState::YIELDED,
        n >= ext_len() ==> state_after_runs(n) == TaskState::COMPLETED,
        resumable(state_after_runs(n)) <==> n < ext_len(),
    decreases n,
{
    if n > 0 {
        extension_task_completes_on_fifth_run((n - 1) as nat);
    }
}

} // verus!
