//! What the invocation service answers a client.
use vstd::prelude::*;

verus! {

/// The answer for a task whose result was `res`: `success` when the task
/// reported success, and `pushback` otherwise.
pub open spec fn answer_for(res: Seq<char>) -> Seq<char> {
    if res == "success"@ {
        "success"@
    } else {
        "pushback"@
    }
}

/// The answer the service sends back for a task whose result was `res`.
pub fn invoke_reply(res: &String) -> (reply: String)
    ensures
        reply@ == answer_for(res@),
        reply@ == "success"@ <==> res@ == "success"@,
        res@ != "success"@ ==> reply@ == "pushback"@,
{
    proof {
        reply_is_success_exactly_for_success(res@);
    }
    let success = String::from_str("success");
    if *res == success {
        success
    } else {
        String::from_str("pushback")
    }
}

/// The reply is `success` exactly when the task's result is the string
/// `success` itself, and `pushback` for every other result.
pub proof fn reply_is_success_exactly_for_success(r: Seq<char>)
    ensures
        answer_for(r) == "success"@ <==> r == "success"@,
        r != "success"@ ==> answer_for(r) == "pushback"@,
{
    reveal_strlit("success");
    reveal_strlit("pushback");
    assert("success"@[0] != "pushback"@[0]);
}

} // verus!
