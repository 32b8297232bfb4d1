use vstd::prelude::*;

verus! {

/// System action that requires confirmation.
#[derive(Debug, Clone, Copy, PartialEq, Eq, Structural)]
pub enum SystemAction {
    Shutdown,
    Reboot,
}

/// The dialog title of each action.
pub open spec fn action_label(a: SystemAction) -> Seq<char> {
    match a {
        SystemAction::Shutdown => "Shutdown"@,
        SystemAction::Reboot => "Reboot"@,
    }
}

impl SystemAction {
    /// Human-readable label for the confirmation dialog.
    pub fn label(&self) -> (r: &'static str)
        ensures
            r@ == action_label(*self),
    {
        match self {
            SystemAction::Shutdown => "Shutdown",
            SystemAction::Reboot => "Reboot",
        }
    }
}

/// The steps of starting the session of an authenticated user.
#[derive(Debug, Clone, Copy, PartialEq, Eq, Structural)]
pub enum LaunchStep {
    /// Run `uwsm select`, which lets the user pick a compositor.
    Select,
    /// Replace the process with `uwsm start default`.
    StartDefault,
    /// Replace the process with the user's login shell.
    Shell,
    /// Exit with status 1.
    Exit,
}

/// The first step: selecting a compositor when the user is known, else
/// exiting.
pub fn launch_first(user_found: bool) -> (r: LaunchStep)
    ensures
        r == (if user_found {
            LaunchStep::Select
        } else {
            LaunchStep::Exit
        }),
{
    if user_found {
        LaunchStep::Select
    } else {
        LaunchStep::Exit
    }
}

/// What follows a step that returned, `ok` telling whether it succeeded: a
/// successful selection starts the default compositor; a failed selection,
/// or a start that returned at all, falls back to the login shell; a shell
/// that returned leads to exit.
pub open spec fn launch_successor(step: LaunchStep, ok: bool) -> LaunchStep {
    match step {
        LaunchStep::Select => if ok {
            LaunchStep::StartDefault
        } else {
            LaunchStep::Shell
        },
        LaunchStep::StartDefault => LaunchStep::Shell,
        _ => LaunchStep::Exit,
    }
}

/// The step after `step`, which returned with success `ok`.
pub fn launch_next(step: LaunchStep, ok: bool) -> (r: LaunchStep)
    ensures
        r == launch_successor(step, ok),
{
    match step {
        LaunchStep::Select => {
            if ok {
                LaunchStep::StartDefault
            } else {
                LaunchStep::Shell
            }
        },
        LaunchStep::StartDefault => LaunchStep::Shell,
        _ => LaunchStep::Exit,
    }
}

/// The characters of each pair of strings.
pub open spec fn pair_views(v: Seq<(String, String)>) -> Seq<(Seq<char>, Seq<char>)> {
    v.map_values(|p: (String, String)| (p.0@, p.1@))
}

/// The environment variables that the session gets on top of PAM's, in
/// case PAM left them out: HOME, USER and LOGNAME.
pub fn session_overrides(username: &str, home: &str) -> (r: Vec<(String, String)>)
    ensures
        pair_views(r@) == seq![
            ("HOME"@, home@),
            ("USER"@, username@),
            ("LOGNAME"@, username@),
        ],
{
    let mut r: Vec<(String, String)> = Vec::new();
    r.push((String::from_str("HOME"), String::from_str(home)));
    r.push((String::from_str("USER"), String::from_str(username)));
    r.push((String::from_str("LOGNAME"), String::from_str(username)));
    assert(pair_views(r@) =~= seq![
        ("HOME"@, home@),
        ("USER"@, username@),
        ("LOGNAME"@, username@),
    ]);
    r
}

/// Once the user is known, every way through the launch tries the login
/// shell before exiting, and at most three steps are taken.
pub proof fn launch_falls_back_to_shell(a: bool, b: bool, c: bool)
    ensures
        launch_successor(LaunchStep::Select, a) == LaunchStep::StartDefault
            || launch_successor(LaunchStep::Select, a) == LaunchStep::Shell,
        launch_successor(LaunchStep::StartDefault, b) == LaunchStep::Shell,
        launch_successor(LaunchStep::Shell, c) == LaunchStep::Exit,
        launch_successor(
            launch_successor(launch_successor(LaunchStep::Select, a), b),
            c,
        ) == LaunchStep::Exit,
{
}

} // verus!
