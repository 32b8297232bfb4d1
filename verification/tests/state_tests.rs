use tlmd::state::{
    handle_input, icon_style_from_args, Action, App, AuthPoll, Key, KeyCode, Screen,
};
use tlmd::system::SystemAction;
use tlmd::tui::IconStyle;

fn key(code: KeyCode) -> Key {
    Key { code, ctrl: false, alt: false }
}

fn ctrl(c: char) -> Key {
    Key { code: KeyCode::Char(c), ctrl: true, alt: false }
}

fn app() -> App {
    App::new(
        vec!["alice".to_string(), "bob".to_string(), "Carol".to_string()],
        IconStyle::Hidden,
    )
}

fn password(a: &App) -> String {
    a.password.as_string().clone()
}

#[test]
fn starts_on_the_user_list() {
    let a = app();
    assert_eq!(a.screen, Screen::UserSelect);
    assert!(a.running);
    assert_eq!(a.selected_index, 0);
    assert_eq!(a.filtered_users(), vec!["alice", "bob", "Carol"]);
    assert_eq!(a.selected_username(), Some("alice"));
    assert!(a.needs_clear);
    assert_eq!(password(&a), "");
}

#[test]
fn arrows_move_selection_then_focus_buttons() {
    let mut a = app();
    a.process_key(key(KeyCode::Down), 0);
    assert_eq!(a.selected_index, 1);
    a.process_key(key(KeyCode::Down), 0);
    assert_eq!(a.selected_index, 2);
    assert_eq!(a.selected_username(), Some("Carol"));
    a.process_key(key(KeyCode::Down), 0);
    assert_eq!(a.selected_index, 2);
    assert_eq!(a.button_focus, Some(0));
    a.process_key(key(KeyCode::Right), 0);
    assert_eq!(a.button_focus, Some(1));
    a.process_key(key(KeyCode::Up), 0);
    assert_eq!(a.button_focus, None);
    a.process_key(key(KeyCode::Up), 0);
    a.process_key(key(KeyCode::Up), 0);
    a.process_key(key(KeyCode::Up), 0);
    assert_eq!(a.selected_index, 0);
}

#[test]
fn search_is_case_insensitive() {
    let mut a = app();
    a.process_key(key(KeyCode::Down), 0);
    a.process_key(key(KeyCode::Char('/')), 0);
    assert!(a.search_active);
    assert_eq!(a.selected_index, 0);
    a.process_key(key(KeyCode::Char('C')), 0);
    assert_eq!(a.search_query, "C");
    assert_eq!(a.filtered_users(), vec!["alice", "Carol"]);
    a.process_key(key(KeyCode::Char('a')), 0);
    assert_eq!(a.filtered_users(), vec!["Carol"]);
    assert!(a.needs_clear);
    a.process_key(key(KeyCode::Backspace), 0);
    assert_eq!(a.search_query, "C");
    a.process_key(key(KeyCode::Down), 0);
    assert_eq!(a.selected_index, 1);
    a.process_key(key(KeyCode::Char('z')), 0);
    assert!(a.filtered_users().is_empty());
    assert_eq!(a.selected_index, 0);
    assert_eq!(a.selected_username(), None);
    // Enter does nothing without matches
    a.process_key(key(KeyCode::Enter), 0);
    assert_eq!(a.screen, Screen::UserSelect);
    a.process_key(ctrl('u'), 0);
    assert_eq!(a.search_query, "");
    a.process_key(key(KeyCode::Esc), 0);
    assert!(!a.search_active);
}

#[test]
fn search_query_is_limited_to_32_bytes() {
    let mut a = app();
    a.process_key(key(KeyCode::Char('/')), 0);
    for _ in 0..40 {
        a.process_key(key(KeyCode::Char('x')), 0);
    }
    assert_eq!(a.search_query.len(), 32);
}

#[test]
fn login_and_start_authentication() {
    let mut a = app();
    a.process_key(key(KeyCode::Down), 0);
    assert_eq!(a.process_key(key(KeyCode::Enter), 10), Action::Nothing);
    assert_eq!(a.screen, Screen::Login);
    a.process_key(key(KeyCode::Char('p')), 1000);
    assert_eq!(a.unmasked_until, Some(1500));
    a.process_key(key(KeyCode::Char('w')), 1000);
    a.process_key(key(KeyCode::Char('x')), 1000);
    a.process_key(key(KeyCode::Backspace), 2000);
    assert_eq!(password(&a), "pw");
    assert_eq!(a.unmasked_until, None);
    assert_eq!(a.deleted_until, Some(2150));
    let action = a.process_key(key(KeyCode::Enter), 3000);
    assert_eq!(
        action,
        Action::StartAuth { username: "bob".to_string(), password: "pw".to_string() }
    );
    assert!(a.authenticating);
    assert_eq!(a.spinner_frame, 0);
    // Keys are ignored while authenticating
    assert_eq!(a.process_key(key(KeyCode::Esc), 3000), Action::Nothing);
    assert_eq!(a.screen, Screen::Login);
    a.apply_auth_poll(AuthPoll::Pending);
    assert_eq!(a.spinner_frame, 1);
    a.apply_auth_poll(AuthPoll::Failed);
    assert!(!a.authenticating);
    assert!(a.auth_error);
    assert_eq!(password(&a), "");
    // Typing clears the error
    a.process_key(key(KeyCode::Char('q')), 4000);
    assert!(!a.auth_error);
    a.process_key(key(KeyCode::Enter), 5000);
    a.apply_auth_poll(AuthPoll::Succeeded);
    assert!(!a.running);
    assert!(a.auth_success);
}

#[test]
fn login_buttons() {
    let mut a = app();
    a.process_key(key(KeyCode::Enter), 0);
    a.process_key(key(KeyCode::Char('s')), 0);
    a.process_key(key(KeyCode::Right), 0);
    assert_eq!(a.button_focus, Some(1));
    let action = a.process_key(key(KeyCode::Enter), 0);
    assert_eq!(
        action,
        Action::StartAuth { username: "alice".to_string(), password: "s".to_string() }
    );
    assert_eq!(a.button_focus, None);
    a.apply_auth_poll(AuthPoll::Failed);
    a.process_key(key(KeyCode::Left), 0);
    assert_eq!(a.process_key(key(KeyCode::Enter), 0), Action::Nothing);
    assert_eq!(a.screen, Screen::UserSelect);
    assert!(!a.auth_error);
}

#[test]
fn password_control_keys() {
    let mut a = app();
    a.process_key(key(KeyCode::Enter), 0);
    for c in "secret".chars() {
        a.process_key(key(KeyCode::Char(c)), 0);
    }
    a.process_key(Key { code: KeyCode::Char('x'), ctrl: false, alt: true }, 0);
    assert_eq!(password(&a), "secret");
    a.process_key(Key { code: KeyCode::Backspace, ctrl: false, alt: true }, 7);
    assert_eq!(password(&a), "");
    assert_eq!(a.deleted_until, Some(157));
    a.process_key(key(KeyCode::Char('a')), 0);
    a.process_key(ctrl('w'), 0);
    assert_eq!(password(&a), "");
    for _ in 0..200 {
        a.process_key(key(KeyCode::Char('a')), 0);
    }
    assert_eq!(password(&a).len(), 128);
    a.process_key(key(KeyCode::Esc), 0);
    assert_eq!(a.screen, Screen::UserSelect);
    assert_eq!(password(&a), "");
}

#[test]
fn shutdown_needs_confirmation() {
    let mut a = app();
    assert_eq!(a.process_key(ctrl('p'), 0), Action::Nothing);
    assert_eq!(a.confirm_action, Some(SystemAction::Shutdown));
    assert_eq!(a.confirm_focus, 0);
    // Enter on "No" closes the dialog
    assert_eq!(a.process_key(key(KeyCode::Enter), 0), Action::Nothing);
    assert_eq!(a.confirm_action, None);
    a.process_key(ctrl('r'), 0);
    a.process_key(key(KeyCode::Right), 0);
    // Other keys only move within the dialog
    a.process_key(key(KeyCode::Down), 0);
    assert_eq!(a.selected_index, 0);
    assert_eq!(a.process_key(key(KeyCode::Enter), 0), Action::Reboot);
    assert_eq!(a.confirm_action, None);
    a.process_key(ctrl('p'), 0);
    a.process_key(key(KeyCode::Esc), 0);
    assert_eq!(a.confirm_action, None);
}

#[test]
fn buttons_open_the_dialog() {
    let mut a = app();
    a.process_key(key(KeyCode::Left), 0);
    assert_eq!(a.button_focus, Some(0));
    a.process_key(key(KeyCode::Enter), 0);
    assert_eq!(a.confirm_action, Some(SystemAction::Reboot));
    a.process_key(key(KeyCode::Esc), 0);
    a.process_key(key(KeyCode::Right), 0);
    a.process_key(key(KeyCode::Enter), 0);
    assert_eq!(a.confirm_action, Some(SystemAction::Shutdown));
    a.process_key(key(KeyCode::Right), 0);
    assert_eq!(a.process_key(key(KeyCode::Enter), 0), Action::Shutdown);
    a.process_key(key(KeyCode::Char('/')), 0);
    assert!(a.search_active);
    assert_eq!(a.button_focus, None);
}

#[test]
fn ctrl_c_quits() {
    let mut a = app();
    a.process_key(ctrl('p'), 0);
    let mut b = app();
    b.process_key(ctrl('c'), 0);
    assert!(!b.running);
    assert_eq!(handle_input(&mut a, ctrl('c'), 0), Action::Nothing);
    assert!(!a.running);
    assert_eq!(a.confirm_action, Some(SystemAction::Shutdown));
}

#[test]
fn empty_user_list() {
    let mut a = App::new(vec![], IconStyle::Filled);
    assert_eq!(a.selected_username(), None);
    a.process_key(key(KeyCode::Enter), 0);
    assert_eq!(a.screen, Screen::UserSelect);
    a.process_key(key(KeyCode::Down), 0);
    assert_eq!(a.button_focus, None);
    a.process_key(key(KeyCode::Char('/')), 0);
    assert!(a.search_active);
}

#[test]
fn deadlines() {
    let mut a = app();
    a.unmasked_until = Some(500);
    a.deleted_until = Some(250);
    assert_eq!(a.timeout_duration(100), Some(150));
    assert_eq!(a.poll_timeout(100), 150);
    a.tick_timeouts(300);
    assert_eq!(a.unmasked_until, Some(500));
    assert_eq!(a.deleted_until, None);
    assert_eq!(a.timeout_duration(300), Some(200));
    a.tick_timeouts(500);
    assert_eq!(a.unmasked_until, None);
    assert_eq!(a.timeout_duration(500), None);
    assert_eq!(a.poll_timeout(500), 3_600_000);
    a.authenticating = true;
    assert_eq!(a.poll_timeout(500), 100);
}

#[test]
fn icon_style_arguments() {
    let args = |v: &[&str]| v.iter().map(|s| s.to_string()).collect::<Vec<String>>();
    assert_eq!(icon_style_from_args(&args(&[])), IconStyle::Hidden);
    assert_eq!(icon_style_from_args(&args(&["--icon=filled"])), IconStyle::Filled);
    assert_eq!(
        icon_style_from_args(&args(&["--icon=filled", "--icon=outline", "x"])),
        IconStyle::Outline
    );
    assert_eq!(icon_style_from_args(&args(&["--icon"])), IconStyle::Hidden);
}

#[test]
fn typing_more_never_adds_matches() {
    let mut a = App::new(
        vec!["Anna".to_string(), "hannah".to_string(), "Bob".to_string(), "Élan".to_string()],
        IconStyle::Hidden,
    );
    a.process_key(key(KeyCode::Char('/')), 0);
    a.process_key(key(KeyCode::Char('N')), 0);
    let first: Vec<String> = a.filtered_users().iter().map(|s| s.to_string()).collect();
    assert_eq!(first, vec!["Anna", "hannah", "Élan"]);
    a.process_key(key(KeyCode::Char('a')), 0);
    let second: Vec<String> = a.filtered_users().iter().map(|s| s.to_string()).collect();
    assert_eq!(second, vec!["Anna", "hannah"]);
    assert!(second.iter().all(|u| first.contains(u)));
}
