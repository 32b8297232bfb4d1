//! Application state and the keyboard-driven transitions between screens.

use vstd::prelude::*;

use crate::secret::SecretString;
use crate::system::SystemAction;
use crate::text::{
    byte_len, contains_sub, lowercase_of, name_matches, str_views, string_clear, string_pop,
    string_push, string_views, to_lowercase,
};
use crate::tui::IconStyle;

verus! {

/// Active screen in the application.
#[derive(Debug, Clone, Copy, PartialEq, Eq, Structural)]
pub enum Screen {
    UserSelect,
    Login,
}

/// The key of a key press, as far as the screens tell keys apart.
#[derive(Debug, Clone, Copy, PartialEq, Eq, Structural)]
pub enum KeyCode {
    Char(char),
    Up,
    Down,
    Left,
    Right,
    Enter,
    Esc,
    Backspace,
    Other,
}

/// A key press with the modifiers that the screens read.
#[derive(Debug, Clone, Copy, PartialEq, Eq, Structural)]
pub struct Key {
    pub code: KeyCode,
    pub ctrl: bool,
    pub alt: bool,
}

/// What the caller has to carry out after a key press.
#[derive(Debug, PartialEq, Eq)]
pub enum Action {
    /// Nothing beyond the state change.
    Nothing,
    /// Run authentication for this user with this password in the background.
    StartAuth { username: String, password: String },
    /// Power the machine off.
    Shutdown,
    /// Reboot the machine.
    Reboot,
}

/// The mathematical value of an `Action`.
pub enum ActionView {
    Nothing,
    StartAuth(Seq<char>, Seq<char>),
    Shutdown,
    Reboot,
}

impl View for Action {
    type V = ActionView;

    open spec fn view(&self) -> ActionView {
        match self {
            Action::Nothing => ActionView::Nothing,
            Action::StartAuth { username, password } => ActionView::StartAuth(username@, password@),
            Action::Shutdown => ActionView::Shutdown,
            Action::Reboot => ActionView::Reboot,
        }
    }
}

/// Outcome of one look at the background authentication.
#[derive(Debug, Clone, Copy, PartialEq, Eq, Structural)]
pub enum AuthPoll {
    /// Authentication succeeded.
    Succeeded,
    /// Authentication failed, or the background worker went away.
    Failed,
    /// No answer yet.
    Pending,
}

/// Application state. Instants are milliseconds on one monotonic clock.
pub struct App {
    pub screen: Screen,
    pub running: bool,
    pub users: Vec<String>,
    pub selected_index: usize,
    pub search_active: bool,
    pub search_query: String,
    pub password: SecretString,
    pub auth_error: bool,
    /// None = focus on main content (list or password input).
    /// Some(n) = focus on button n (0 = left, 1 = right).
    pub button_focus: Option<usize>,
    /// For mask delay: shows the last typed character until this instant.
    pub unmasked_until: Option<u64>,
    /// For backspace flash: hides cursor briefly to show deletion.
    pub deleted_until: Option<u64>,
    /// Whether authentication is currently running in the background.
    pub authenticating: bool,
    /// Current spinner frame index.
    pub spinner_frame: usize,
    /// When Some, a confirmation dialog is shown for this system action.
    pub confirm_action: Option<SystemAction>,
    /// Focus within the confirmation dialog: 0 = No, 1 = Yes.
    pub confirm_focus: usize,
    /// True if authentication succeeded.
    pub auth_success: bool,
    /// Icon style to display.
    pub icon_style: IconStyle,
    /// If true, the renderer issues a full terminal clear before drawing.
    pub needs_clear: bool,
}

/// The mathematical value of an `App`.
#[verifier::ext_equal]
pub struct AppView {
    pub screen: Screen,
    pub running: bool,
    pub users: Seq<Seq<char>>,
    pub selected_index: usize,
    pub search_active: bool,
    pub search_query: Seq<char>,
    pub password: Seq<char>,
    pub auth_error: bool,
    pub button_focus: Option<usize>,
    pub unmasked_until: Option<u64>,
    pub deleted_until: Option<u64>,
    pub authenticating: bool,
    pub spinner_frame: usize,
    pub confirm_action: Option<SystemAction>,
    pub confirm_focus: usize,
    pub auth_success: bool,
    pub icon_style: IconStyle,
    pub needs_clear: bool,
}

impl View for App {
    type V = AppView;

    open spec fn view(&self) -> AppView {
        AppView {
            screen: self.screen,
            running: self.running,
            users: self.users@.map_values(|u: String| u@),
            selected_index: self.selected_index,
            search_active: self.search_active,
            search_query: self.search_query@,
            password: self.password@,
            auth_error: self.auth_error,
            button_focus: self.button_focus,
            unmasked_until: self.unmasked_until,
            deleted_until: self.deleted_until,
            authenticating: self.authenticating,
            spinner_frame: self.spinner_frame,
            confirm_action: self.confirm_action,
            confirm_focus: self.confirm_focus,
            auth_success: self.auth_success,
            icon_style: self.icon_style,
            needs_clear: self.needs_clear,
        }
    }
}

// ── The model ───────────────────────────────────────────────────

/// A user is listed under a search query when the lowercased query occurs in
/// the lowercased name.
pub open spec fn user_matches(user: Seq<char>, query: Seq<char>) -> bool {
    contains_sub(lowercase_of(user), lowercase_of(query))
}

/// The users that the list shows: all of them without a query, else those
/// that match it, in their order.
pub open spec fn filter_users(users: Seq<Seq<char>>, query: Seq<char>) -> Seq<Seq<char>> {
    if query.len() == 0 {
        users
    } else {
        users.filter(|u: Seq<char>| user_matches(u, query))
    }
}

/// The list that the user-select screen shows.
pub open spec fn filtered(m: AppView) -> Seq<Seq<char>> {
    filter_users(m.users, m.search_query)
}

/// The name under the selection, if the selection is inside the list.
pub open spec fn selected_name(m: AppView) -> Option<Seq<char>> {
    if m.selected_index < filtered(m).len() {
        Some(filtered(m)[m.selected_index as int])
    } else {
        None
    }
}

/// The state invariant that every transition keeps.
pub open spec fn wf(m: AppView) -> bool {
    &&& (m.button_focus matches Some(f) ==> f <= 1)
    &&& m.confirm_focus <= 1
    &&& m.spinner_frame < 8
    &&& (m.selected_index == 0 || m.selected_index < filtered(m).len())
    &&& (!m.search_active ==> m.search_query.len() == 0)
    &&& m.search_query.len() <= 32
    &&& m.password.len() <= 128
    &&& (m.screen == Screen::Login ==> filtered(m).len() > 0)
}

/// The instant `ms` milliseconds after `now`.
pub open spec fn later(now: u64, ms: u64) -> u64 {
    (now + ms) as u64
}

/// The newest instant that key handling may be given.
pub open spec fn max_now() -> u64 {
    (u64::MAX - 500) as u64
}

/// A state change that asks nothing more of the caller.
pub open spec fn no_action(m: AppView) -> (AppView, ActionView) {
    (m, ActionView::Nothing)
}

/// Focus the main content (`None`) or a button.
pub open spec fn with_focus(m: AppView, f: Option<usize>) -> AppView {
    AppView { button_focus: f, ..m }
}

/// Select entry `i` of the list.
pub open spec fn with_index(m: AppView, i: usize) -> AppView {
    AppView { selected_index: i, ..m }
}

/// Open the confirmation dialog for `a`, focused on "No".
pub open spec fn open_confirm(m: AppView, a: SystemAction) -> AppView {
    AppView { confirm_action: Some(a), confirm_focus: 0, ..m }
}

/// Enter search mode with an empty query and the first entry selected.
pub open spec fn start_search(m: AppView) -> AppView {
    AppView { search_active: true, search_query: Seq::empty(), selected_index: 0, ..m }
}

/// Go to the password screen with a fresh password.
pub open spec fn go_login(m: AppView) -> AppView {
    AppView {
        password: Seq::empty(),
        auth_error: false,
        button_focus: None,
        screen: Screen::Login,
        needs_clear: true,
        ..m
    }
}

/// Go back to the user list, forgetting the password.
pub open spec fn go_user_select(m: AppView) -> AppView {
    AppView {
        password: Seq::empty(),
        auth_error: false,
        button_focus: None,
        screen: Screen::UserSelect,
        needs_clear: true,
        ..m
    }
}

/// Keep the selection inside the list.
pub open spec fn clamp(m: AppView) -> AppView {
    let len = filtered(m).len();
    if len == 0 {
        with_index(m, 0)
    } else if m.selected_index >= len {
        with_index(m, (len - 1) as usize)
    } else {
        m
    }
}

/// Start authenticating the selected user (the empty name when there is
/// none) with the typed password.
pub open spec fn begin_auth(m: AppView) -> (AppView, ActionView) {
    let name = match selected_name(m) {
        Some(n) => n,
        None => Seq::empty(),
    };
    (
        AppView { authenticating: true, spinner_frame: 0, ..m },
        ActionView::StartAuth(name, m.password),
    )
}

/// Password edits: the password after removing text, with the error and
/// the unmask cleared and a deletion flash until 150 ms later.
pub open spec fn after_delete(m: AppView, pw: Seq<char>, now: u64) -> AppView {
    AppView {
        password: pw,
        auth_error: false,
        unmasked_until: None,
        deleted_until: Some(later(now, 150)),
        ..m
    }
}

/// The key is `c` pressed with Ctrl.
pub open spec fn is_ctrl_char(k: Key, c: char) -> bool {
    k.code == KeyCode::Char(c) && k.ctrl
}

/// Keys while the confirmation dialog is open.
pub open spec fn confirm_step(m: AppView, k: Key) -> (AppView, ActionView) {
    match k.code {
        KeyCode::Left => no_action(AppView { confirm_focus: 0, ..m }),
        KeyCode::Right => no_action(AppView { confirm_focus: 1, ..m }),
        KeyCode::Esc => no_action(AppView { confirm_action: None, ..m }),
        KeyCode::Enter => if m.confirm_focus == 1 {
            match m.confirm_action {
                Some(SystemAction::Shutdown) => (
                    AppView { confirm_action: None, ..m },
                    ActionView::Shutdown,
                ),
                Some(SystemAction::Reboot) => (
                    AppView { confirm_action: None, ..m },
                    ActionView::Reboot,
                ),
                None => no_action(m),
            }
        } else {
            no_action(AppView { confirm_action: None, ..m })
        },
        _ => no_action(m),
    }
}

/// Keys on the user list while a button is focused.
pub open spec fn user_buttons_step(m: AppView, k: Key) -> AppView {
    let focus = match m.button_focus {
        Some(f) => f,
        None => 0,
    };
    match k.code {
        KeyCode::Left => with_focus(m, Some(0)),
        KeyCode::Right => with_focus(m, Some(1)),
        KeyCode::Up => with_focus(m, None),
        KeyCode::Enter => if focus == 0 {
            open_confirm(m, SystemAction::Reboot)
        } else if focus == 1 {
            open_confirm(m, SystemAction::Shutdown)
        } else {
            m
        },
        KeyCode::Char(c) => if c == '/' {
            start_search(with_focus(m, None))
        } else {
            m
        },
        _ => m,
    }
}

/// Keys on the user list (not searching).
pub open spec fn user_select_step(m: AppView, k: Key) -> AppView {
    if m.button_focus is Some {
        user_buttons_step(m, k)
    } else {
        let len = filtered(m).len();
        match k.code {
            KeyCode::Char(c) => if c == '/' {
                if len == 0 {
                    AppView { search_active: true, search_query: Seq::empty(), ..m }
                } else {
                    start_search(m)
                }
            } else if c == 'p' && k.ctrl {
                open_confirm(m, SystemAction::Shutdown)
            } else if c == 'r' && k.ctrl {
                open_confirm(m, SystemAction::Reboot)
            } else {
                m
            },
            _ => if len == 0 {
                m
            } else {
                match k.code {
                    KeyCode::Up => if m.selected_index > 0 {
                        with_index(m, (m.selected_index - 1) as usize)
                    } else {
                        m
                    },
                    KeyCode::Down => if m.selected_index < len - 1 {
                        with_index(m, (m.selected_index + 1) as usize)
                    } else {
                        with_focus(m, Some(0))
                    },
                    KeyCode::Left => with_focus(m, Some(0)),
                    KeyCode::Right => with_focus(m, Some(1)),
                    KeyCode::Enter => go_login(m),
                    _ => m,
                }
            },
        }
    }
}

/// Keys while searching on the user list.
pub open spec fn search_step(m: AppView, k: Key) -> AppView {
    let len = filtered(m).len();
    match k.code {
        KeyCode::Esc => AppView {
            search_active: false,
            search_query: Seq::empty(),
            selected_index: 0,
            ..m
        },
        KeyCode::Enter => if len > 0 {
            go_login(m)
        } else {
            m
        },
        KeyCode::Backspace => if k.ctrl || k.alt {
            clamp(AppView { search_query: Seq::empty(), ..m })
        } else if m.search_query.len() == 0 {
            clamp(m)
        } else {
            clamp(AppView { search_query: m.search_query.drop_last(), ..m })
        },
        KeyCode::Up => if len > 0 && m.selected_index > 0 {
            with_index(m, (m.selected_index - 1) as usize)
        } else {
            m
        },
        KeyCode::Down => if len > 0 && m.selected_index < len - 1 {
            with_index(m, (m.selected_index + 1) as usize)
        } else {
            m
        },
        KeyCode::Char(c) => if k.ctrl {
            if c == 'u' || c == 'w' || c == 'h' {
                clamp(AppView { search_query: Seq::empty(), ..m })
            } else if c == 'p' {
                open_confirm(m, SystemAction::Shutdown)
            } else if c == 'r' {
                open_confirm(m, SystemAction::Reboot)
            } else {
                m
            }
        } else if byte_len(m.search_query) < 32 {
            AppView { search_query: m.search_query.push(c), selected_index: 0, ..m }
        } else {
            m
        },
        _ => m,
    }
}

/// Keys on the password screen while a button is focused.
pub open spec fn login_buttons_step(m: AppView, k: Key) -> (AppView, ActionView) {
    let focus = match m.button_focus {
        Some(f) => f,
        None => 0,
    };
    match k.code {
        KeyCode::Left => no_action(with_focus(m, Some(0))),
        KeyCode::Right => no_action(with_focus(m, Some(1))),
        KeyCode::Up => no_action(with_focus(m, None)),
        KeyCode::Esc => no_action(go_user_select(m)),
        KeyCode::Enter => if focus == 0 {
            no_action(go_user_select(m))
        } else if focus == 1 {
            begin_auth(with_focus(m, None))
        } else {
            no_action(m)
        },
        _ => no_action(m),
    }
}

/// Keys on the password screen.
pub open spec fn login_step(m: AppView, k: Key, now: u64) -> (AppView, ActionView) {
    if m.button_focus is Some {
        login_buttons_step(m, k)
    } else {
        match k.code {
            KeyCode::Esc => no_action(go_user_select(m)),
            KeyCode::Enter => begin_auth(m),
            KeyCode::Down => no_action(with_focus(m, Some(0))),
            KeyCode::Left => no_action(with_focus(m, Some(0))),
            KeyCode::Right => no_action(with_focus(m, Some(1))),
            KeyCode::Backspace => if k.ctrl || k.alt {
                no_action(after_delete(m, Seq::empty(), now))
            } else if m.password.len() == 0 {
                no_action(after_delete(m, m.password, now))
            } else {
                no_action(after_delete(m, m.password.drop_last(), now))
            },
            KeyCode::Char(c) => if k.ctrl && (c == 'u' || c == 'w' || c == 'h') {
                no_action(after_delete(m, Seq::empty(), now))
            } else if !k.ctrl && !k.alt && byte_len(m.password) < 128 {
                no_action(
                    AppView {
                        password: m.password.push(c),
                        auth_error: false,
                        unmasked_until: Some(later(now, 500)),
                        ..m
                    },
                )
            } else {
                no_action(m)
            },
            _ => no_action(m),
        }
    }
}

/// Ctrl+C: the key that always ends the program.
pub open spec fn is_quit_key(k: Key) -> bool {
    is_ctrl_char(k, 'c')
}

/// One key press, dispatched to the dialog or the active screen.
pub open spec fn input_step(m: AppView, k: Key, now: u64) -> (AppView, ActionView) {
    if is_quit_key(k) {
        no_action(AppView { running: false, ..m })
    } else if m.confirm_action is Some {
        confirm_step(m, k)
    } else {
        match m.screen {
            Screen::UserSelect => if m.search_active {
                no_action(search_step(m, k))
            } else {
                no_action(user_select_step(m, k))
            },
            Screen::Login => login_step(m, k, now),
        }
    }
}

/// One key press as the main loop takes it: ignored while authenticating;
/// otherwise handled, with a full redraw requested when the list length or
/// the error display changed.
pub open spec fn key_step(m: AppView, k: Key, now: u64) -> (AppView, ActionView) {
    if m.authenticating {
        no_action(m)
    } else {
        let (m2, a) = input_step(m, k, now);
        if filtered(m2).len() != filtered(m).len() || m2.auth_error != m.auth_error {
            (AppView { needs_clear: true, ..m2 }, a)
        } else {
            (m2, a)
        }
    }
}

/// What an answer of the background authentication does to the state.
pub open spec fn poll_step(m: AppView, p: AuthPoll) -> AppView {
    if !m.authenticating {
        m
    } else {
        match p {
            AuthPoll::Succeeded => AppView { running: false, auth_success: true, ..m },
            AuthPoll::Failed => AppView {
                authenticating: false,
                auth_error: true,
                needs_clear: true,
                password: Seq::empty(),
                ..m
            },
            AuthPoll::Pending => AppView { spinner_frame: ((m.spinner_frame + 1) % 8) as usize, ..m },
        }
    }
}

/// A deadline that has been reached is dropped.
pub open spec fn expire(t: Option<u64>, now: u64) -> Option<u64> {
    match t {
        Some(d) => if now >= d {
            None
        } else {
            t
        },
        None => None,
    }
}

/// The time left until a deadline that is still ahead.
pub open spec fn remaining(t: Option<u64>, now: u64) -> Option<u64> {
    match t {
        Some(d) => if d > now {
            Some((d - now) as u64)
        } else {
            None
        },
        None => None,
    }
}

/// The time until the earliest pending deadline, if any is pending.
pub open spec fn next_timeout(m: AppView, now: u64) -> Option<u64> {
    match (remaining(m.unmasked_until, now), remaining(m.deleted_until, now)) {
        (Some(a), Some(b)) => Some(if b < a { b } else { a }),
        (Some(a), None) => Some(a),
        (None, Some(b)) => Some(b),
        (None, None) => None,
    }
}

/// How long the main loop waits for a key: a spinner frame while
/// authenticating, else until the next deadline, else an hour.
pub open spec fn poll_timeout(m: AppView, now: u64) -> u64 {
    if m.authenticating {
        100
    } else {
        match next_timeout(m, now) {
            Some(d) => d,
            None => 3_600_000,
        }
    }
}


/// The state at start-up, before any key.
pub open spec fn initial(users: Seq<Seq<char>>, icon_style: IconStyle) -> AppView {
    AppView {
        screen: Screen::UserSelect,
        running: true,
        users,
        selected_index: 0,
        search_active: false,
        search_query: Seq::empty(),
        password: Seq::empty(),
        auth_error: false,
        button_focus: None,
        unmasked_until: None,
        deleted_until: None,
        authenticating: false,
        spinner_frame: 0,
        confirm_action: None,
        confirm_focus: 0,
        auth_success: false,
        icon_style,
        needs_clear: true,
    }
}

/// The icon style that the command-line arguments ask for: the last of
/// `--icon=filled` and `--icon=outline` wins; none of them means no icon.
pub open spec fn icon_style_of(args: Seq<Seq<char>>) -> IconStyle
    decreases args.len(),
{
    if args.len() == 0 {
        IconStyle::Hidden
    } else if args.last() == "--icon=filled"@ {
        IconStyle::Filled
    } else if args.last() == "--icon=outline"@ {
        IconStyle::Outline
    } else {
        icon_style_of(args.drop_last())
    }
}

/// The icon style that the command-line arguments (without the program
/// name) ask for.
pub fn icon_style_from_args(args: &Vec<String>) -> (r: IconStyle)
    ensures
        r == icon_style_of(string_views(args@)),
{
    let filled = String::from_str("--icon=filled");
    let outline = String::from_str("--icon=outline");
    let ghost av = string_views(args@);
    let mut icon_style = IconStyle::Hidden;
    let mut i: usize = 0;
    while i < args.len()
        invariant
            av == string_views(args@),
            filled@ == "--icon=filled"@,
            outline@ == "--icon=outline"@,
            i <= args@.len(),
            icon_style == icon_style_of(av.take(i as int)),
        decreases args@.len() - i,
    {
        proof {
            assert(av.take(i + 1).drop_last() =~= av.take(i as int));
            assert(av.take(i + 1).last() == args@[i as int]@);
        }
        if args[i] == filled {
            icon_style = IconStyle::Filled;
        } else if args[i] == outline {
            icon_style = IconStyle::Outline;
        }
        i = i + 1;
    }
    assert(av.take(i as int) =~= av);
    icon_style
}

// ── The implementation ──────────────────────────────────────────

impl App {
    /// The start-up state for this user list and icon style.
    pub fn new(users: Vec<String>, icon_style: IconStyle) -> (r: App)
        ensures
            r@ == initial(string_views(users@), icon_style),
            wf(r@),
    {
        App {
            screen: Screen::UserSelect,
            running: true,
            users,
            selected_index: 0,
            search_active: false,
            search_query: String::new(),
            password: SecretString::new(String::new()),
            auth_error: false,
            button_focus: None,
            unmasked_until: None,
            deleted_until: None,
            authenticating: false,
            spinner_frame: 0,
            confirm_action: None,
            confirm_focus: 0,
            auth_success: false,
            icon_style,
            needs_clear: true,
        }
    }

    /// Drop the deadlines that `now` has reached.
    pub fn tick_timeouts(&mut self, now: u64)
        ensures
            final(self)@ == (AppView {
                unmasked_until: expire(old(self)@.unmasked_until, now),
                deleted_until: expire(old(self)@.deleted_until, now),
                ..old(self)@
            }),
    {
        if let Some(t) = self.unmasked_until {
            if now >= t {
                self.unmasked_until = None;
            }
        }
        if let Some(t) = self.deleted_until {
            if now >= t {
                self.deleted_until = None;
            }
        }
    }

    /// The time from `now` until the next deadline expires, if one is ahead.
    pub fn timeout_duration(&self, now: u64) -> (r: Option<u64>)
        ensures
            r == next_timeout(self@, now),
    {
        let mut dur: Option<u64> = None;
        if let Some(t) = self.unmasked_until {
            if t > now {
                dur = Some(t - now);
            }
        }
        if let Some(t) = self.deleted_until {
            if t > now {
                let d = t - now;
                dur = match dur {
                    Some(min_d) => Some(if d < min_d { d } else { min_d }),
                    None => Some(d),
                };
            }
        }
        dur
    }

    /// How long the main loop waits for the next key.
    pub fn poll_timeout(&self, now: u64) -> (r: u64)
        ensures
            r == poll_timeout(self@, now),
    {
        if self.authenticating {
            100
        } else {
            match self.timeout_duration(now) {
                Some(d) => d,
                None => 3_600_000,
            }
        }
    }

    /// The user list filtered by the current search query.
    pub fn filtered_users(&self) -> (r: Vec<&str>)
        ensures
            str_views(r@) == filtered(self@),
    {
        let ghost us = self@.users;
        if self.search_query.as_str().is_empty() {
            let mut r: Vec<&str> = Vec::new();
            let mut i: usize = 0;
            while i < self.users.len()
                invariant
                    us == string_views(self.users@),
                    i <= self.users@.len(),
                    str_views(r@) =~= us.take(i as int),
                decreases self.users@.len() - i,
            {
                let ghost old_r = r@;
                r.push(self.users[i].as_str());
                proof {
                    assert(us[i as int] == self.users@[i as int]@);
                    assert(str_views(r@) =~= str_views(old_r).push(us[i as int]));
                    assert(us.take(i + 1) =~= us.take(i as int).push(us[i as int]));
                }
                i = i + 1;
            }
            assert(us.take(i as int) =~= us);
            return r;
        }
        let ghost pred = |u: Seq<char>| user_matches(u, self.search_query@);
        let query = to_lowercase(self.search_query.as_str());
        let mut r: Vec<&str> = Vec::new();
        let mut i: usize = 0;
        while i < self.users.len()
            invariant
                us == string_views(self.users@),
                pred == (|u: Seq<char>| user_matches(u, self.search_query@)),
                query@ == lowercase_of(self.search_query@),
                i <= self.users@.len(),
                str_views(r@) =~= us.take(i as int).filter(pred),
            decreases self.users@.len() - i,
        {
            let lowered = to_lowercase(self.users[i].as_str());
            let keep = name_matches(lowered.as_str(), query.as_str());
            proof {
                reveal(Seq::filter);
                assert(us.take(i + 1).drop_last() =~= us.take(i as int));
                assert(us.take(i + 1).last() == us[i as int]);
                assert(keep == pred(us[i as int]));
            }
            if keep {
                r.push(self.users[i].as_str());
            }
            i = i + 1;
            assert(str_views(r@) =~= us.take(i as int).filter(pred));
        }
        assert(us.take(i as int) =~= us);
        r
    }

    /// The selected user name, if the selection is inside the filtered list.
    pub fn selected_username(&self) -> (r: Option<&str>)
        ensures
            r matches Some(u) ==> selected_name(self@) == Some(u@),
            r is None ==> selected_name(self@) is None,
    {
        let f = self.filtered_users();
        if self.selected_index < f.len() {
            assert(str_views(f@)[self.selected_index as int] == f@[self.selected_index as int]@);
            Some(f[self.selected_index])
        } else {
            None
        }
    }

    /// Take one answer of the background authentication into account.
    pub fn apply_auth_poll(&mut self, p: AuthPoll)
        ensures
            final(self)@ == poll_step(old(self)@, p),
    {
        if !self.authenticating {
            return;
        }
        match p {
            AuthPoll::Succeeded => {
                self.running = false;
                self.auth_success = true;
            },
            AuthPoll::Failed => {
                self.authenticating = false;
                self.auth_error = true;
                self.needs_clear = true;
                string_clear(self.password.as_mut_string());
            },
            AuthPoll::Pending => {
                let f = self.spinner_frame % 8;
                assert((f + 1) % 8 == (self.spinner_frame + 1) % 8) by (nonlinear_arith)
                    requires f == self.spinner_frame % 8;
                self.spinner_frame = (f + 1) % 8;
            },
        }
    }

    /// Handle a key press the way the main loop does: ignored while
    /// authenticating, and a full redraw requested when the list length or
    /// the error display changed.
    pub fn process_key(&mut self, key: Key, now: u64) -> (r: Action)
        requires
            now <= max_now(),
        ensures
            (final(self)@, r@) == key_step(old(self)@, key, now),
    {
        if self.authenticating {
            return Action::Nothing;
        }
        let old_len = self.filtered_users().len();
        let old_auth_error = self.auth_error;
        let a = handle_input(self, key, now);
        if self.filtered_users().len() != old_len || self.auth_error != old_auth_error {
            self.needs_clear = true;
        }
        a
    }
}

/// Start authenticating the selected user with the typed password.
fn start_auth(app: &mut App) -> (r: Action)
    ensures
        (final(app)@, r@) == begin_auth(old(app)@),
{
    let username = match app.selected_username() {
        Some(u) => String::from_str(u),
        None => String::new(),
    };
    let password = app.password.as_string().clone();
    app.authenticating = true;
    app.spinner_frame = 0;
    Action::StartAuth { username, password }
}

/// Handle one key press.
pub fn handle_input(app: &mut App, key: Key, now: u64) -> (r: Action)
    requires
        now <= max_now(),
    ensures
        (final(app)@, r@) == input_step(old(app)@, key, now),
{
    // Dev-only exit: Ctrl+C
    if key.code == KeyCode::Char('c') && key.ctrl {
        app.running = false;
        return Action::Nothing;
    }
    // Confirmation dialog intercepts all input when active
    if app.confirm_action.is_some() {
        return handle_confirm(app, key);
    }
    match app.screen {
        Screen::UserSelect => {
            if app.search_active {
                handle_search(app, key);
            } else {
                handle_user_select(app, key);
            }
            Action::Nothing
        },
        Screen::Login => handle_login(app, key, now),
    }
}

/// Handle input while the confirmation dialog is open.
fn handle_confirm(app: &mut App, key: Key) -> (r: Action)
    ensures
        (final(app)@, r@) == confirm_step(old(app)@, key),
{
    match key.code {
        KeyCode::Left => {
            app.confirm_focus = 0;
            Action::Nothing
        },
        KeyCode::Right => {
            app.confirm_focus = 1;
            Action::Nothing
        },
        KeyCode::Esc => {
            app.confirm_action = None;
            Action::Nothing
        },
        KeyCode::Enter => {
            if app.confirm_focus == 1 {
                match app.confirm_action.take() {
                    Some(SystemAction::Shutdown) => Action::Shutdown,
                    Some(SystemAction::Reboot) => Action::Reboot,
                    None => Action::Nothing,
                }
            } else {
                app.confirm_action = None;
                Action::Nothing
            }
        },
        _ => Action::Nothing,
    }
}

fn open_confirm_dialog(app: &mut App, a: SystemAction)
    ensures
        final(app)@ == open_confirm(old(app)@, a),
{
    app.confirm_action = Some(a);
    app.confirm_focus = 0;
}

fn enter_search(app: &mut App)
    ensures
        final(app)@ == start_search(old(app)@),
{
    app.search_active = true;
    string_clear(&mut app.search_query);
    app.selected_index = 0;
}

fn enter_login(app: &mut App)
    ensures
        final(app)@ == go_login(old(app)@),
{
    string_clear(app.password.as_mut_string());
    app.auth_error = false;
    app.button_focus = None;
    app.screen = Screen::Login;
    app.needs_clear = true;
}

fn leave_login(app: &mut App)
    ensures
        final(app)@ == go_user_select(old(app)@),
{
    string_clear(app.password.as_mut_string());
    app.auth_error = false;
    app.button_focus = None;
    app.screen = Screen::UserSelect;
    app.needs_clear = true;
}

// ── UserSelect screen ───────────────────────────────────────────

#[verifier::rlimit(40)]
fn handle_user_select(app: &mut App, key: Key)
    ensures
        final(app)@ == user_select_step(old(app)@, key),
{
    if app.button_focus.is_some() {
        handle_user_buttons(app, key);
        return;
    }
    let len = app.filtered_users().len();
    if len == 0 {
        match key.code {
            KeyCode::Char(c) => {
                if c == '/' {
                    app.search_active = true;
                    string_clear(&mut app.search_query);
                } else if c == 'p' && key.ctrl {
                    open_confirm_dialog(app, SystemAction::Shutdown);
                } else if c == 'r' && key.ctrl {
                    open_confirm_dialog(app, SystemAction::Reboot);
                }
            },
            _ => {},
        }
        return;
    }
    match key.code {
        KeyCode::Up => {
            if app.selected_index > 0 {
                app.selected_index = app.selected_index - 1;
            }
        },
        KeyCode::Down => {
            if app.selected_index < len - 1 {
                app.selected_index = app.selected_index + 1;
            } else {
                // Past last user: focus the buttons
                app.button_focus = Some(0);
            }
        },
        KeyCode::Left => {
            app.button_focus = Some(0);
        },
        KeyCode::Right => {
            app.button_focus = Some(1);
        },
        KeyCode::Enter => {
            enter_login(app);
        },
        KeyCode::Char(c) => {
            if c == '/' {
                enter_search(app);
            } else if c == 'p' && key.ctrl {
                open_confirm_dialog(app, SystemAction::Shutdown);
            } else if c == 'r' && key.ctrl {
                open_confirm_dialog(app, SystemAction::Reboot);
            }
        },
        _ => {},
    }
}

fn handle_user_buttons(app: &mut App, key: Key)
    ensures
        final(app)@ == user_buttons_step(old(app)@, key),
{
    let focus = match app.button_focus {
        Some(f) => f,
        None => 0,
    };
    match key.code {
        KeyCode::Left => {
            app.button_focus = Some(0);
        },
        KeyCode::Right => {
            app.button_focus = Some(1);
        },
        KeyCode::Up => {
            // Back to the user list (last user)
            app.button_focus = None;
        },
        KeyCode::Enter => {
            if focus == 0 {
                open_confirm_dialog(app, SystemAction::Reboot);
            } else if focus == 1 {
                open_confirm_dialog(app, SystemAction::Shutdown);
            }
        },
        KeyCode::Char(c) => {
            if c == '/' {
                app.button_focus = None;
                enter_search(app);
            }
        },
        _ => {},
    }
}

// ── Search mode ─────────────────────────────────────────────────

fn handle_search(app: &mut App, key: Key)
    ensures
        final(app)@ == search_step(old(app)@, key),
{
    match key.code {
        KeyCode::Esc => {
            app.search_active = false;
            string_clear(&mut app.search_query);
            app.selected_index = 0;
        },
        KeyCode::Enter => {
            if app.filtered_users().len() > 0 {
                enter_login(app);
            }
        },
        KeyCode::Backspace => {
            if key.ctrl || key.alt {
                string_clear(&mut app.search_query);
            } else {
                string_pop(&mut app.search_query);
            }
            clamp_selection(app);
        },
        KeyCode::Up => {
            let len = app.filtered_users().len();
            if len > 0 && app.selected_index > 0 {
                app.selected_index = app.selected_index - 1;
            }
        },
        KeyCode::Down => {
            let len = app.filtered_users().len();
            if len > 0 && app.selected_index < len - 1 {
                app.selected_index = app.selected_index + 1;
            }
        },
        KeyCode::Char(c) => {
            if key.ctrl {
                if c == 'u' || c == 'w' || c == 'h' {
                    string_clear(&mut app.search_query);
                    clamp_selection(app);
                } else if c == 'p' {
                    open_confirm_dialog(app, SystemAction::Shutdown);
                } else if c == 'r' {
                    open_confirm_dialog(app, SystemAction::Reboot);
                }
            } else if app.search_query.as_str().len() < 32 {
                string_push(&mut app.search_query, c);
                app.selected_index = 0;
            }
        },
        _ => {},
    }
}

// ── Login screen ────────────────────────────────────────────────

fn handle_login(app: &mut App, key: Key, now: u64) -> (r: Action)
    requires
        now <= max_now(),
    ensures
        (final(app)@, r@) == login_step(old(app)@, key, now),
{
    if app.button_focus.is_some() {
        return handle_login_buttons(app, key);
    }
    match key.code {
        KeyCode::Esc => {
            leave_login(app);
            Action::Nothing
        },
        KeyCode::Enter => start_auth(app),
        KeyCode::Down => {
            app.button_focus = Some(0);
            Action::Nothing
        },
        KeyCode::Left => {
            app.button_focus = Some(0);
            Action::Nothing
        },
        KeyCode::Right => {
            app.button_focus = Some(1);
            Action::Nothing
        },
        KeyCode::Backspace => {
            if key.ctrl || key.alt {
                string_clear(app.password.as_mut_string());
            } else {
                string_pop(app.password.as_mut_string());
            }
            app.auth_error = false;
            app.unmasked_until = None;
            app.deleted_until = Some(now + 150);
            Action::Nothing
        },
        KeyCode::Char(c) => {
            if key.ctrl && (c == 'u' || c == 'w' || c == 'h') {
                string_clear(app.password.as_mut_string());
                app.auth_error = false;
                app.unmasked_until = None;
                app.deleted_until = Some(now + 150);
            } else if !key.ctrl && !key.alt && app.password.as_string().as_str().len() < 128 {
                string_push(app.password.as_mut_string(), c);
                app.auth_error = false;
                app.unmasked_until = Some(now + 500);
            }
            Action::Nothing
        },
        _ => Action::Nothing,
    }
}

fn handle_login_buttons(app: &mut App, key: Key) -> (r: Action)
    ensures
        (final(app)@, r@) == login_buttons_step(old(app)@, key),
{
    let focus = match app.button_focus {
        Some(f) => f,
        None => 0,
    };
    match key.code {
        KeyCode::Left => {
            app.button_focus = Some(0);
            Action::Nothing
        },
        KeyCode::Right => {
            app.button_focus = Some(1);
            Action::Nothing
        },
        KeyCode::Up => {
            app.button_focus = None;
            Action::Nothing
        },
        KeyCode::Esc => {
            leave_login(app);
            Action::Nothing
        },
        KeyCode::Enter => {
            if focus == 0 {
                // Back
                leave_login(app);
                Action::Nothing
            } else if focus == 1 {
                // Confirm
                app.button_focus = None;
                start_auth(app)
            } else {
                Action::Nothing
            }
        },
        _ => Action::Nothing,
    }
}

/// Clamp `selected_index` to the filtered list bounds.
fn clamp_selection(app: &mut App)
    ensures
        final(app)@ == clamp(old(app)@),
{
    let len = app.filtered_users().len();
    if len == 0 {
        app.selected_index = 0;
    } else if app.selected_index >= len {
        app.selected_index = len - 1;
    }
}

} // verus!
