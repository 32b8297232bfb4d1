use tlmd::state::{App, Key, KeyCode};
use tlmd::system::SystemAction;
use tlmd::tui::screen_users::compute_scroll_offset;
use tlmd::tui::{
    dim, draw_box, draw_button_pair, draw_highlighted_row, draw_hints, draw_icon, draw_normal_row,
    draw_text, fits, icon_lines, render, screen_login, screen_users, truncate, Attribute, Color,
    DrawOp, IconStyle,
};

fn p(s: &str) -> DrawOp {
    DrawOp::Print(s.to_string())
}

const R: Color = Color::Reset;

fn prints(ops: &[DrawOp]) -> Vec<String> {
    ops.iter()
        .filter_map(|o| match o {
            DrawOp::Print(s) => Some(s.clone()),
            _ => None,
        })
        .collect()
}

#[test]
fn truncates_long_strings() {
    assert_eq!(truncate("abcdefgh", 5), "abc..");
    assert_eq!(truncate("abc", 5), "abc");
    assert_eq!(truncate("abcde", 5), "abcde");
    assert_eq!(truncate("abcdef", 1), ".");
    assert_eq!(truncate("abcdef", 0), "");
    assert_eq!(truncate("ab", 2), "ab");
    assert_eq!(truncate("ñandúes", 4), "ña..");
}

#[test]
fn scroll_offsets() {
    assert_eq!(compute_scroll_offset(0, 3, 6), 0);
    assert_eq!(compute_scroll_offset(2, 10, 6), 0);
    assert_eq!(compute_scroll_offset(3, 10, 6), 0);
    assert_eq!(compute_scroll_offset(5, 10, 6), 2);
    assert_eq!(compute_scroll_offset(8, 10, 6), 4);
    assert_eq!(compute_scroll_offset(9, 10, 6), 4);
}

#[test]
fn text_and_rows() {
    let mut ops = Vec::new();
    draw_text(&mut ops, 3, 4, "hi", R, dim());
    assert_eq!(
        ops,
        vec![
            DrawOp::MoveTo(3, 4),
            DrawOp::SetFg(R),
            DrawOp::SetBg(Color::Rgb { r: 136, g: 136, b: 136 }),
            p("hi")
        ]
    );
    let mut ops = Vec::new();
    draw_normal_row(&mut ops, 3, 4, "bob");
    assert_eq!(ops[0], DrawOp::MoveTo(5, 4));
    let mut ops = Vec::new();
    draw_highlighted_row(&mut ops, 1, 2, "bob", 10);
    assert_eq!(
        ops,
        vec![
            DrawOp::MoveTo(3, 2),
            DrawOp::SetAttr(Attribute::Reverse),
            DrawOp::SetAttr(Attribute::Bold),
            p("bob   "),
            DrawOp::SetAttr(Attribute::Reset),
            DrawOp::SetFg(R),
            DrawOp::SetBg(R),
        ]
    );
}

#[test]
fn box_with_title() {
    let mut ops = Vec::new();
    draw_box(&mut ops, 0, 0, 10, 3, "T");
    assert_eq!(
        ops,
        vec![
            DrawOp::SetFg(R),
            DrawOp::SetBg(R),
            DrawOp::MoveTo(0, 0),
            p("┌"),
            p("─"),
            p("┤ T ├"),
            p("──"),
            p("┐"),
            DrawOp::MoveTo(0, 1),
            p("│"),
            p("        "),
            DrawOp::MoveTo(9, 1),
            p("│"),
            DrawOp::MoveTo(0, 2),
            p("└"),
            p("────────"),
            p("┘"),
        ]
    );
}

#[test]
fn button_pair_centering() {
    let mut ops = Vec::new();
    draw_button_pair(&mut ops, 0, 5, 30, "No", "Yes", Some(1));
    assert_eq!(
        ops,
        vec![
            DrawOp::MoveTo(8, 5),
            DrawOp::SetFg(R),
            p("[No]"),
            DrawOp::SetFg(R),
            DrawOp::SetBg(R),
            p("     "),
            DrawOp::SetAttr(Attribute::Reverse),
            p("[Yes]"),
            DrawOp::SetAttr(Attribute::Reset),
            DrawOp::SetFg(R),
            DrawOp::SetBg(R),
            DrawOp::SetFg(R),
            DrawOp::SetBg(R),
        ]
    );
    let mut ops = Vec::new();
    draw_button_pair(&mut ops, 10, 0, 60, "Back", "Confirm", None);
    // 15 columns of buttons, a gap of 5 for parity: starts at 10 + 20
    assert_eq!(ops[0], DrawOp::MoveTo(30, 0));
    assert_eq!(prints(&ops), vec!["[Back]", "     ", "[Confirm]"]);
}

#[test]
fn hints_are_centered() {
    let mut ops = Vec::new();
    draw_hints(&mut ops, 40, 3, &[("Esc", "Back"), ("Enter", "Confirm")]);
    assert_eq!(
        ops,
        vec![
            DrawOp::MoveTo(8, 3),
            DrawOp::SetFg(R),
            p("Esc"),
            DrawOp::SetFg(dim()),
            p(" Back"),
            p("  "),
            DrawOp::SetFg(R),
            p("Enter"),
            DrawOp::SetFg(dim()),
            p(" Confirm"),
        ]
    );
    let mut ops = Vec::new();
    draw_hints(&mut ops, 10, 0, &[("Esc", "Back"), ("Enter", "Confirm")]);
    assert_eq!(ops[0], DrawOp::MoveTo(0, 0));
}

#[test]
fn icon_placement() {
    assert_eq!(icon_lines(IconStyle::Filled).len(), 10);
    assert_eq!(icon_lines(IconStyle::Outline).len(), 11);
    let mut ops = Vec::new();
    draw_icon(&mut ops, 80, 50, 3, IconStyle::Hidden);
    assert!(ops.is_empty());
    // 3 users: box of 9 rows, starting at row 20; icon of 10 rows at row 6
    let mut ops = Vec::new();
    draw_icon(&mut ops, 80, 50, 3, IconStyle::Filled);
    assert_eq!(ops.len(), 40);
    assert_eq!(ops[0], DrawOp::MoveTo(30, 6));
    assert_eq!(ops[36], DrawOp::MoveTo(30, 15));
    // No room on a small terminal
    let mut ops = Vec::new();
    draw_icon(&mut ops, 80, 24, 3, IconStyle::Filled);
    assert!(ops.is_empty());
}

#[test]
fn login_screen_masks_password() {
    let mut ops = Vec::new();
    let cursor = screen_login::render(
        &mut ops, 80, 24, "alice", "abc", false, false, 0, None, false, false, 1, IconStyle::Hidden,
    );
    assert_eq!(cursor, Some((41, 11)));
    let texts = prints(&ops);
    assert!(texts.contains(&"┤ Login as alice ├".to_string()));
    assert!(texts.contains(&"***".to_string()));
    assert!(!texts.iter().any(|t| t.contains("abc")));

    let mut ops = Vec::new();
    screen_login::render(
        &mut ops, 80, 24, "alice", "abc", false, false, 0, None, true, false, 1, IconStyle::Hidden,
    );
    assert!(prints(&ops).contains(&"**c".to_string()));

    let long = "x".repeat(30);
    let mut ops = Vec::new();
    let cursor = screen_login::render(
        &mut ops, 80, 24, "alice", &long, true, false, 0, Some(0), false, false, 1, IconStyle::Hidden,
    );
    assert_eq!(cursor, None);
    let texts = prints(&ops);
    assert!(texts.contains(&"*".repeat(26)));
    assert!(texts.contains(&"Invalid password".to_string()));
}

#[test]
fn login_screen_while_authenticating() {
    let mut ops = Vec::new();
    let cursor = screen_login::render(
        &mut ops, 80, 24, "a-very-long-user-name-that-goes-on-and-on", "pw", false, true, 9,
        None, false, false, 1, IconStyle::Hidden,
    );
    assert_eq!(cursor, None);
    let texts = prints(&ops);
    assert!(texts.contains(&"⣽ Authenticating...".to_string()));
    assert!(texts.contains(&"┤ Login as a-very-long-user-name-that-goe.. ├".to_string()));
    assert!(!texts.contains(&"Enter your password:".to_string()));
}

#[test]
fn user_screen_list_and_search() {
    let users = ["alice", "bob"];
    let mut ops = Vec::new();
    let cursor = screen_users::render(
        &mut ops, 80, 24, &users, 1, true, "ab", None, None, 0, IconStyle::Hidden,
    );
    assert_eq!(cursor, Some((15, 13)));
    assert!(ops.contains(&DrawOp::MoveTo(11, 10)));
    assert!(ops.contains(&p("alice")));
    assert!(ops.contains(&p(&format!("bob{}", " ".repeat(54)))));
    assert!(ops.contains(&p("/ ab")));

    let mut ops = Vec::new();
    let cursor = screen_users::render(
        &mut ops, 80, 24, &[], 0, false, "", None, None, 0, IconStyle::Hidden,
    );
    assert_eq!(cursor, None);
    assert!(ops.contains(&p("No users found")));
    assert!(ops.contains(&p("[Reboot]")));
}

#[test]
fn user_screen_scrolls() {
    let users = ["u0", "u1", "u2", "u3", "u4", "u5", "u6", "u7", "u8", "u9"];
    let mut ops = Vec::new();
    screen_users::render(&mut ops, 80, 24, &users, 8, false, "", None, None, 0, IconStyle::Hidden);
    let texts = prints(&ops);
    assert!(!texts.contains(&"u3".to_string()));
    assert!(texts.contains(&"u4".to_string()));
    assert!(texts.contains(&"u9".to_string()));
}

#[test]
fn confirmation_dialog() {
    let mut ops = Vec::new();
    let cursor = screen_users::render(
        &mut ops,
        80,
        24,
        &["alice"],
        0,
        false,
        "",
        None,
        Some(&SystemAction::Reboot),
        1,
        IconStyle::Filled,
    );
    assert_eq!(cursor, None);
    let texts = prints(&ops);
    assert!(texts.contains(&"┤ Reboot ├".to_string()));
    assert!(texts.contains(&"Are you sure?".to_string()));
    assert!(!texts.contains(&"alice".to_string()));
    assert!(ops.contains(&DrawOp::MoveTo(33, 10)));
}

#[test]
fn whole_screen() {
    let mut app = App::new(vec!["alice".to_string()], IconStyle::Hidden);
    assert!(fits(&app, 80));
    let mut ops = Vec::new();
    let cursor = render(&mut ops, &app, 80, 24, 0);
    assert_eq!(cursor, None);
    assert_eq!(ops[0], DrawOp::SetBg(R));
    assert_eq!(ops[1], DrawOp::Clear);
    assert_eq!(ops[5], p("Terminal Login Manager Daemon"));
    assert_eq!(ops.last(), Some(&DrawOp::HideCursor));

    app.process_key(Key { code: KeyCode::Enter, ctrl: false, alt: false }, 0);
    app.process_key(Key { code: KeyCode::Char('k'), ctrl: false, alt: false }, 0);
    let mut ops = Vec::new();
    let cursor = render(&mut ops, &app, 80, 24, 100);
    assert_eq!(cursor, Some((40, 11)));
    assert!(prints(&ops).contains(&"k".to_string()));
    let n = ops.len();
    assert_eq!(ops[n - 2], DrawOp::ShowCursor);
    assert_eq!(ops[n - 1], DrawOp::MoveTo(40, 11));
    let mut ops = Vec::new();
    render(&mut ops, &app, 80, 24, 600);
    assert!(prints(&ops).contains(&"*".to_string()));
}

#[test]
fn icon_does_not_move_between_screens() {
    let mut app = App::new(vec!["alice".to_string(), "bob".to_string()], IconStyle::Outline);
    let mut list_ops = Vec::new();
    render(&mut list_ops, &app, 80, 50, 0);
    app.process_key(Key { code: KeyCode::Enter, ctrl: false, alt: false }, 0);
    let mut login_ops = Vec::new();
    render(&mut login_ops, &app, 80, 50, 0);
    // Header (6 operations), then 11 icon lines of 4 operations each
    assert_eq!(list_ops[6..50], login_ops[6..50]);
    assert_eq!(list_ops[6], DrawOp::MoveTo(29, 6));
}

#[test]
fn huge_search_query_does_not_fit() {
    let mut app = App::new(vec!["alice".to_string()], IconStyle::Hidden);
    assert!(fits(&app, 0));
    app.search_active = true;
    app.search_query = "q".repeat(40000);
    assert!(!fits(&app, u16::MAX));
    assert!(fits(&app, 80));
}

#[test]
fn hints_measure_display_width() {
    let mut ops = Vec::new();
    draw_hints(&mut ops, 20, 0, &[("↑↓", "Navigate")]);
    assert_eq!(
        ops,
        vec![
            DrawOp::MoveTo(3, 0),
            DrawOp::SetFg(R),
            p("↑↓"),
            DrawOp::SetFg(dim()),
            p(" Navigate"),
        ]
    );
    assert_eq!(tlmd::width::str_width("↑↓ Navigate"), 13);
    assert_eq!(tlmd::width::str_width("日本"), 4);
    assert_eq!(tlmd::width::str_width("abc"), 3);
    assert_eq!(tlmd::width::char_width('─'), 2);
    assert_eq!(tlmd::width::char_width('a'), 1);
}

#[test]
fn deletion_flash_hides_the_cursor() {
    let mut app = App::new(vec!["alice".to_string()], IconStyle::Hidden);
    app.process_key(Key { code: KeyCode::Enter, ctrl: false, alt: false }, 0);
    app.process_key(Key { code: KeyCode::Char('a'), ctrl: false, alt: false }, 0);
    app.process_key(Key { code: KeyCode::Backspace, ctrl: false, alt: false }, 1000);
    let mut ops = Vec::new();
    assert_eq!(render(&mut ops, &app, 80, 24, 1100), None);
    assert_eq!(ops.last(), Some(&DrawOp::HideCursor));
    let mut ops = Vec::new();
    // After the flash, the caret is back at the empty field's center.
    assert_eq!(render(&mut ops, &app, 80, 24, 1200), Some((40, 11)));
}
