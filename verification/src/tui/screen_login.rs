//! The login (password) screen.

use vstd::prelude::*;

use crate::width::display_width_bounds;
use crate::text::{byte_len, byte_len_at_most_four_per_char, repeat, repeat_char, string_push};
use crate::tui::{
    box_ops, button_pair_ops, dim, dim_color, draw_box, draw_button_pair, draw_hints, draw_icon,
    draw_text, hints_bar_ops, hints_width, icon_ops, ops_view, text_ops, truncate, truncated,
    Color, DrawOp, IconStyle, Op, BG, BOX_WIDTH, FG,
};

verus! {

/// Color for error messages.
pub open spec fn error_color() -> Color {
    Color::Rgb { r: 255, g: 100, b: 100 }
}

/// Color for error messages.
fn error_fg() -> (c: Color)
    ensures
        c == error_color(),
{
    Color::Rgb { r: 255, g: 100, b: 100 }
}

/// The spinner frames.
pub open spec fn spinner_char(frame: usize) -> char {
    let i = frame % 8;
    if i == 0 {
        '⣾'
    } else if i == 1 {
        '⣽'
    } else if i == 2 {
        '⣻'
    } else if i == 3 {
        '⢿'
    } else if i == 4 {
        '⡿'
    } else if i == 5 {
        '⣟'
    } else if i == 6 {
        '⣯'
    } else {
        '⣷'
    }
}

fn spinner(frame: usize) -> (c: char)
    ensures
        c == spinner_char(frame),
{
    let i = frame % 8;
    if i == 0 {
        '⣾'
    } else if i == 1 {
        '⣽'
    } else if i == 2 {
        '⣻'
    } else if i == 3 {
        '⢿'
    } else if i == 4 {
        '⡿'
    } else if i == 5 {
        '⣟'
    } else if i == 6 {
        '⣯'
    } else {
        '⣷'
    }
}

/// The most characters that the password field shows.
pub open spec fn max_shown() -> nat {
    26
}

/// What the password field shows: one star per character, at most 26,
/// the last of them replaced by the last typed character while it is
/// briefly shown.
pub open spec fn masked(password: Seq<char>, show_last_char: bool) -> Seq<char> {
    let shown = if password.len() < max_shown() {
        password.len()
    } else {
        max_shown()
    };
    if password.len() == 0 {
        Seq::empty()
    } else if show_last_char {
        repeat_char('*', (shown - 1) as nat).push(password.last())
    } else {
        repeat_char('*', shown)
    }
}

/// The message shown while authenticating.
pub open spec fn auth_message(frame: usize) -> Seq<char> {
    seq![spinner_char(frame)] + " Authenticating..."@
}

/// The hints of the login screen.
pub open spec fn login_hints() -> Seq<(&'static str, &'static str)> {
    seq![("Esc", "Back"), ("Enter", "Confirm")]
}

/// Height of the login box.
pub open spec fn login_box_height(auth_error: bool) -> u16 {
    if auth_error {
        11
    } else {
        9
    }
}

/// The column at which `len` columns of text center in the box at `x`.
pub open spec fn centered_x(x: u16, len: u16) -> u16 {
    (x + BOX_WIDTH.saturating_sub(len) / 2) as u16
}

/// Operations and cursor of the password prompt (when not authenticating).
#[verifier::opaque]
pub open spec fn prompt_ops(
    cols: u16,
    x: u16,
    y: u16,
    box_height: u16,
    offset: u16,
    password: Seq<char>,
    button_focus: Option<usize>,
    show_last_char: bool,
) -> Seq<Op> {
    let m = masked(password, show_last_char);
    let ast_x = centered_x(x, m.len() as u16);
    let input_y = (y + 4 + offset) as u16;
    text_ops(
        centered_x(x, byte_len("Enter your password:"@) as u16),
        (y + 2 + offset) as u16,
        "Enter your password:"@,
        FG,
        BG,
    ) + text_ops(ast_x.saturating_sub(2), input_y, "> "@, FG, BG) + (if m.len() > 0 {
        text_ops(ast_x, input_y, m, FG, BG)
    } else {
        Seq::empty()
    }) + button_pair_ops(x, (y + 6 + offset) as u16, BOX_WIDTH, "Back"@, "Confirm"@, button_focus)
        + hints_bar_ops(cols, (y + box_height + 1) as u16, login_hints())
}

/// The operations that draw the login screen.
pub open spec fn login_ops(
    cols: u16,
    rows: u16,
    username: Seq<char>,
    password: Seq<char>,
    auth_error: bool,
    authenticating: bool,
    spinner_frame: usize,
    button_focus: Option<usize>,
    show_last_char: bool,
    num_users: usize,
    icon_style: IconStyle,
) -> Seq<Op> {
    let box_height = login_box_height(auth_error);
    let title = "Login as "@ + truncated(username, 32);
    let x = cols.saturating_sub(BOX_WIDTH) / 2;
    let y = rows.saturating_sub(box_height) / 2;
    let offset: u16 = if auth_error {
        2
    } else {
        0
    };
    icon_ops(cols, rows, num_users, icon_style) + box_ops(x, y, BOX_WIDTH, box_height, title) + (
    if auth_error {
        text_ops(
            centered_x(x, byte_len("Invalid password"@) as u16),
            (y + 2) as u16,
            "Invalid password"@,
            error_color(),
            BG,
        )
    } else {
        Seq::empty()
    }) + (if authenticating {
        text_ops(
            centered_x(x, auth_message(spinner_frame).len() as u16),
            (y + box_height / 2) as u16,
            auth_message(spinner_frame),
            dim_color(),
            BG,
        )
    } else {
        prompt_ops(cols, x, y, box_height, offset, password, button_focus, show_last_char)
    })
}

/// Where the login screen leaves the cursor: after the stars of the
/// password field, unless authenticating, a button is focused or a
/// deletion flash is showing.
pub open spec fn login_cursor(
    cols: u16,
    rows: u16,
    password: Seq<char>,
    auth_error: bool,
    authenticating: bool,
    button_focus: Option<usize>,
    show_last_char: bool,
    show_delete_flash: bool,
) -> Option<(u16, u16)> {
    let box_height = login_box_height(auth_error);
    let x = cols.saturating_sub(BOX_WIDTH) / 2;
    let y = rows.saturating_sub(box_height) / 2;
    let offset: u16 = if auth_error {
        2
    } else {
        0
    };
    let m = masked(password, show_last_char);
    let ast_x = centered_x(x, m.len() as u16);
    if !authenticating && button_focus is None && !show_delete_flash {
        Some(((ast_x + m.len() as u16) as u16, (y + 4 + offset) as u16))
    } else {
        None
    }
}

/// The password field's text.
fn mask_password(password: &str, show_last_char: bool) -> (r: String)
    ensures
        r@ == masked(password@, show_last_char),
{
    // Password input area limit
    let max_length: usize = 26;
    let pw_len = password.unicode_len();
    let display_len = if pw_len < max_length {
        pw_len
    } else {
        max_length
    };
    if pw_len > 0 {
        if show_last_char {
            let n = display_len.saturating_sub(1);
            let mut m = repeat('*', n);
            string_push(&mut m, password.get_char(pw_len - 1));
            m
        } else {
            repeat('*', display_len)
        }
    } else {
        String::new()
    }
}

/// Draw the password prompt, its buttons and the hints; returns where the
/// cursor goes.
fn draw_prompt(
    ops: &mut Vec<DrawOp>,
    cols: u16,
    x: u16,
    y: u16,
    box_height: u16,
    offset: u16,
    password: &str,
    button_focus: Option<usize>,
    show_last_char: bool,
    show_delete_flash: bool,
) -> (r: Option<(u16, u16)>)
    requires
        x <= u16::MAX / 2,
        y <= u16::MAX / 2,
        box_height <= 11,
        offset <= 2,
    ensures
        ops_view(final(ops)@) == ops_view(old(ops)@) + prompt_ops(
            cols,
            x,
            y,
            box_height,
            offset,
            password@,
            button_focus,
            show_last_char,
        ),
        r == (if button_focus is None && !show_delete_flash {
            Some(
                (
                    (centered_x(x, masked(password@, show_last_char).len() as u16) + masked(
                        password@,
                        show_last_char,
                    ).len() as u16) as u16,
                    (y + 4 + offset) as u16,
                ),
            )
        } else {
            None
        }),
{
    reveal(prompt_ops);
    let ghost before = ops_view(ops@);
    // Password prompt (centered)
    let prompt = "Enter your password:";
    let prompt_x = x + (BOX_WIDTH.saturating_sub(prompt.len() as u16)) / 2;
    draw_text(ops, prompt_x, y + 2 + offset, prompt, FG, BG);
    let masked_text = mask_password(password, show_last_char);
    // The width of the stars alone (without "> " and the cursor)
    let ast_width = masked_text.as_str().unicode_len() as u16;
    let ast_x = x + (BOX_WIDTH.saturating_sub(ast_width)) / 2;
    let prefix_x = ast_x.saturating_sub(2);
    let input_y = y + 4 + offset;
    // The prefix ("> ") hangs to the left of the stars
    draw_text(ops, prefix_x, input_y, "> ", FG, BG);
    if masked_text.as_str().unicode_len() > 0 {
        draw_text(ops, ast_x, input_y, masked_text.as_str(), FG, BG);
    }
    let ghost mid = ops_view(ops@);
    // Action buttons
    proof {
        reveal_strlit("Back");
        reveal_strlit("Confirm");
        byte_len_at_most_four_per_char("Back"@);
        byte_len_at_most_four_per_char("Confirm"@);
    }
    draw_button_pair(ops, x, y + 6 + offset, BOX_WIDTH, "Back", "Confirm", button_focus);
    // Hints bar
    let mut hints: Vec<(&str, &str)> = Vec::new();
    hints.push(("Esc", "Back"));
    hints.push(("Enter", "Confirm"));
    proof {
        reveal_strlit("Esc");
        reveal_strlit("Enter");
        assert(hints@ =~= login_hints());
        display_width_bounds("Esc"@);
        display_width_bounds("Back"@);
        display_width_bounds("Enter"@);
        display_width_bounds("Confirm"@);
        reveal_with_fuel(hints_width, 3);
        assert(hints_width(hints@, 2) <= usize::MAX);
    }
    draw_hints(ops, cols, y + box_height + 1, hints.as_slice());
    assert(ops_view(ops@) =~= before + prompt_ops(
        cols,
        x,
        y,
        box_height,
        offset,
        password@,
        button_focus,
        show_last_char,
    ));
    if button_focus.is_none() && !show_delete_flash {
        Some((ast_x + ast_width, input_y))
    } else {
        None
    }
}

/// Render the login/password screen, returning where the cursor goes.
pub fn render(
    ops: &mut Vec<DrawOp>,
    cols: u16,
    rows: u16,
    username: &str,
    password: &str,
    auth_error: bool,
    authenticating: bool,
    spinner_frame: usize,
    button_focus: Option<usize>,
    show_last_char: bool,
    show_delete_flash: bool,
    num_users: usize,
    icon_style: IconStyle,
) -> (r: Option<(u16, u16)>)
    ensures
        ops_view(final(ops)@) == ops_view(old(ops)@) + login_ops(
            cols,
            rows,
            username@,
            password@,
            auth_error,
            authenticating,
            spinner_frame,
            button_focus,
            show_last_char,
            num_users,
            icon_style,
        ),
        r == login_cursor(
            cols,
            rows,
            password@,
            auth_error,
            authenticating,
            button_focus,
            show_last_char,
            show_delete_flash,
        ),
{
    let ghost before = ops_view(ops@);
    // Box grows by 2 rows when error is shown
    let box_height: u16 = if auth_error {
        11
    } else {
        9
    };
    let safe_username = truncate(username, 32);
    let mut title = String::from_str("Login as ");
    title.append(safe_username.as_str());
    let x = cols.saturating_sub(BOX_WIDTH) / 2;
    let y = rows.saturating_sub(box_height) / 2;
    draw_icon(ops, cols, rows, num_users, icon_style);
    draw_box(ops, x, y, BOX_WIDTH, box_height, title.as_str());
    let ghost after_box = ops_view(ops@);
    // Error section: content shifts down by 2 when the error is shown
    let offset: u16 = if auth_error {
        2
    } else {
        0
    };
    if auth_error {
        let err_msg = "Invalid password";
        let err_x = x + (BOX_WIDTH.saturating_sub(err_msg.len() as u16)) / 2;
        draw_text(ops, err_x, y + 2, err_msg, error_fg(), BG);
    }
    let ghost after_error = ops_view(ops@);
    let cursor_pos = if authenticating {
        let mut msg = String::new();
        string_push(&mut msg, spinner(spinner_frame));
        msg.append(" Authenticating...");
        let msg_x = x + (BOX_WIDTH.saturating_sub(msg.as_str().unicode_len() as u16)) / 2;
        let msg_y = y + box_height / 2;
        draw_text(ops, msg_x, msg_y, msg.as_str(), dim(), BG);
        None
    } else {
        draw_prompt(
            ops,
            cols,
            x,
            y,
            box_height,
            offset,
            password,
            button_focus,
            show_last_char,
            show_delete_flash,
        )
    };
    assert(ops_view(ops@) =~= before + login_ops(
        cols,
        rows,
        username@,
        password@,
        auth_error,
        authenticating,
        spinner_frame,
        button_focus,
        show_last_char,
        num_users,
        icon_style,
    ));
    cursor_pos
}

} // verus!
