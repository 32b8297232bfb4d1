//! The order of the PAM calls of a login attempt.

use vstd::prelude::*;

verus! {

/// The PAM calls of a login attempt, in the order they are made.
#[derive(Debug, Clone, Copy, PartialEq, Eq, Structural)]
pub enum PamCall {
    /// Start a PAM transaction for the `login` service and the user.
    StartContext,
    /// Check the password.
    Authenticate,
    /// Check that the account may log in now.
    AccountManagement,
    /// Open the login session.
    OpenSession,
}

/// What follows a PAM call.
#[derive(Debug, Clone, Copy, PartialEq, Eq, Structural)]
pub enum AuthNext {
    /// Make this call next.
    Call(PamCall),
    /// Report success, wait until the terminal is released, then start the
    /// session.
    Launch,
    /// Report failure.
    Fail,
}

/// The call a login attempt starts with.
pub fn first_call() -> (r: PamCall)
    ensures
        r == PamCall::StartContext,
{
    PamCall::StartContext
}

/// What follows a call that just succeeded.
pub open spec fn successor(call: PamCall) -> AuthNext {
    match call {
        PamCall::StartContext => AuthNext::Call(PamCall::Authenticate),
        PamCall::Authenticate => AuthNext::Call(PamCall::AccountManagement),
        PamCall::AccountManagement => AuthNext::Call(PamCall::OpenSession),
        PamCall::OpenSession => AuthNext::Launch,
    }
}

/// What follows `call`, given whether it succeeded: any failure ends the
/// attempt; each success leads to the next call, the session's to launch.
pub fn after_call(call: PamCall, ok: bool) -> (r: AuthNext)
    ensures
        r == (if ok {
            successor(call)
        } else {
            AuthNext::Fail
        }),
{
    if !ok {
        return AuthNext::Fail;
    }
    match call {
        PamCall::StartContext => AuthNext::Call(PamCall::Authenticate),
        PamCall::Authenticate => AuthNext::Call(PamCall::AccountManagement),
        PamCall::AccountManagement => AuthNext::Call(PamCall::OpenSession),
        PamCall::OpenSession => AuthNext::Launch,
    }
}

/// The outcome of a login attempt whose calls returned `results`, in
/// order: the next call to make, launch, or failure.
pub open spec fn run_calls(results: Seq<bool>) -> AuthNext
    decreases results.len(),
{
    if results.len() == 0 {
        AuthNext::Call(PamCall::StartContext)
    } else {
        match run_calls(results.drop_last()) {
            AuthNext::Call(c) => if results.last() {
                successor(c)
            } else {
                AuthNext::Fail
            },
            other => other,
        }
    }
}

/// The `n`-th call of an attempt.
pub open spec fn call_at(n: nat) -> PamCall {
    if n == 0 {
        PamCall::StartContext
    } else if n == 1 {
        PamCall::Authenticate
    } else if n == 2 {
        PamCall::AccountManagement
    } else {
        PamCall::OpenSession
    }
}

/// How many of the four calls the results cover.
pub open spec fn covered(results: Seq<bool>) -> nat {
    if results.len() < 4 {
        results.len()
    } else {
        4
    }
}

/// After results that are all successes the attempt goes on with the next
/// call, or launches once all four calls succeeded; one failure among the
/// four calls ends it in failure, whatever comes after.
pub proof fn attempt_outcome(results: Seq<bool>)
    ensures
        (forall|i: int| 0 <= i < covered(results) ==> results[i]) ==> run_calls(results) == (if results.len() < 4 {
            AuthNext::Call(call_at(results.len()))
        } else {
            AuthNext::Launch
        }),
        (exists|i: int| 0 <= i < covered(results) && !results[i]) ==> run_calls(results)
            == AuthNext::Fail,
    decreases results.len(),
{
    if results.len() > 0 {
        let prev = results.drop_last();
        attempt_outcome(prev);
        if exists|i: int| 0 <= i < covered(prev) && !prev[i] {
            let i = choose|i: int| 0 <= i < covered(prev) && !prev[i];
            assert(!results[i]);
        } else {
            assert forall|i: int| 0 <= i < covered(prev) implies prev[i] by {
            }
            if exists|i: int| 0 <= i < covered(results) && !results[i] {
                let i = choose|i: int| 0 <= i < covered(results) && !results[i];
                if i < results.len() - 1 {
                    assert(prev[i] == results[i]);
                }
                assert(i == results.len() - 1);
            }
        }
    }
}

/// A session is only launched when all four calls succeeded, in order.
pub proof fn launch_needs_every_call(results: Seq<bool>)
    ensures
        run_calls(results) == AuthNext::Launch <==> (results.len() >= 4 && results[0] && results[1]
            && results[2] && results[3]),
{
    attempt_outcome(results);
    if results.len() >= 4 && !(results[0] && results[1] && results[2] && results[3]) {
        if !results[0] {
            assert(!results[0]);
        } else if !results[1] {
            assert(!results[1]);
        } else if !results[2] {
            assert(!results[2]);
        } else {
            assert(!results[3]);
        }
    }
    if results.len() < 4 {
        if exists|i: int| 0 <= i < covered(results) && !results[i] {
        }
    }
}

} // verus!
