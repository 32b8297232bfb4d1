use tlmd::auth::{after_call, first_call, AuthNext, PamCall};

#[test]
fn calls_follow_in_order() {
    assert_eq!(first_call(), PamCall::StartContext);
    assert_eq!(after_call(PamCall::StartContext, true), AuthNext::Call(PamCall::Authenticate));
    assert_eq!(after_call(PamCall::Authenticate, true), AuthNext::Call(PamCall::AccountManagement));
    assert_eq!(after_call(PamCall::AccountManagement, true), AuthNext::Call(PamCall::OpenSession));
    assert_eq!(after_call(PamCall::OpenSession, true), AuthNext::Launch);
}

#[test]
fn any_failure_ends_the_attempt() {
    for c in [
        PamCall::StartContext,
        PamCall::Authenticate,
        PamCall::AccountManagement,
        PamCall::OpenSession,
    ] {
        assert_eq!(after_call(c, false), AuthNext::Fail);
    }
}

#[test]
fn full_attempt_launches_after_four_successes() {
    let mut next = AuthNext::Call(first_call());
    let mut calls = 0;
    while let AuthNext::Call(c) = next {
        calls += 1;
        next = after_call(c, true);
    }
    assert_eq!(calls, 4);
    assert_eq!(next, AuthNext::Launch);
}

use tlmd::system::{launch_first, launch_next, session_overrides, LaunchStep};

#[test]
fn launch_steps() {
    assert_eq!(launch_first(false), LaunchStep::Exit);
    assert_eq!(launch_first(true), LaunchStep::Select);
    assert_eq!(launch_next(LaunchStep::Select, true), LaunchStep::StartDefault);
    assert_eq!(launch_next(LaunchStep::Select, false), LaunchStep::Shell);
    assert_eq!(launch_next(LaunchStep::StartDefault, false), LaunchStep::Shell);
    assert_eq!(launch_next(LaunchStep::StartDefault, true), LaunchStep::Shell);
    assert_eq!(launch_next(LaunchStep::Shell, false), LaunchStep::Exit);
    assert_eq!(launch_next(LaunchStep::Exit, true), LaunchStep::Exit);
}

#[test]
fn session_environment_overrides() {
    let env = session_overrides("alice", "/home/alice");
    assert_eq!(
        env,
        vec![
            ("HOME".to_string(), "/home/alice".to_string()),
            ("USER".to_string(), "alice".to_string()),
            ("LOGNAME".to_string(), "alice".to_string()),
        ]
    );
}
