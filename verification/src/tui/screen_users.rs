//! The user selection screen, with its search line and the confirmation
//! dialog for shutdown and reboot.

use vstd::prelude::*;

use crate::system::{action_label, SystemAction};
use crate::width::display_width_bounds;
use crate::text::{byte_len, byte_len_at_most_four_per_char, str_views};
use crate::tui::{
    box_ops, button_pair_ops, dim, dim_color, draw_box, draw_button_pair, draw_highlighted_row,
    draw_hints, draw_icon, draw_normal_row, draw_text, emit, highlighted_row_ops, hints_bar_ops,
    hints_width, icon_ops, ops_view, text_ops, DrawOp, IconStyle, Op, BG, BOX_WIDTH, FG,
};

verus! {

/// Maximum number of users visible at once before scrolling kicks in.
pub const MAX_VISIBLE: usize = 6;

/// The first entry shown so that the selected one stays visible: the list
/// scrolls once the selection passes the middle of the window, and stops
/// when the last entry is shown.
pub open spec fn scroll_offset(selected: usize, total: usize, max_visible: usize) -> usize {
    let half = max_visible / 2;
    if total <= max_visible {
        0
    } else if selected <= half {
        0
    } else if selected >= total - half {
        (total - max_visible) as usize
    } else {
        (selected - half) as usize
    }
}

/// Calculate the scroll offset to keep the selected item visible.
pub fn compute_scroll_offset(selected: usize, total: usize, max_visible: usize) -> (r: usize)
    ensures
        r == scroll_offset(selected, total, max_visible),
{
    if total <= max_visible {
        return 0;
    }
    let half = max_visible / 2;
    if selected <= half {
        0
    } else if selected >= total - half {
        total - max_visible
    } else {
        selected - half
    }
}

// ── Confirmation dialog ─────────────────────────────────────────

/// Operations of the confirmation dialog for `action`.
#[verifier::opaque]
pub open spec fn confirm_dialog_ops(
    cols: u16,
    rows: u16,
    action: SystemAction,
    confirm_focus: usize,
) -> Seq<Op> {
    let mx = cols.saturating_sub(30) / 2;
    let my = rows.saturating_sub(7) / 2;
    box_ops(mx, my, 30, 7, action_label(action)) + text_ops(
        (mx + (30u16).saturating_sub(byte_len("Are you sure?"@) as u16) / 2) as u16,
        (my + 2) as u16,
        "Are you sure?"@,
        FG,
        BG,
    ) + button_pair_ops(mx, (my + 4) as u16, 30, "No"@, "Yes"@, Some(confirm_focus))
}

fn draw_confirm_dialog(
    ops: &mut Vec<DrawOp>,
    cols: u16,
    rows: u16,
    action: &SystemAction,
    confirm_focus: usize,
)
    ensures
        ops_view(final(ops)@) == ops_view(old(ops)@) + confirm_dialog_ops(
            cols,
            rows,
            *action,
            confirm_focus,
        ),
{
    reveal(confirm_dialog_ops);
    let ghost before = ops_view(ops@);
    let modal_w: u16 = 30;
    let modal_h: u16 = 7;
    let mx = cols.saturating_sub(modal_w) / 2;
    let my = rows.saturating_sub(modal_h) / 2;
    draw_box(ops, mx, my, modal_w, modal_h, action.label());
    let msg = "Are you sure?";
    let msg_x = mx + (modal_w.saturating_sub(msg.len() as u16)) / 2;
    draw_text(ops, msg_x, my + 2, msg, FG, BG);
    proof {
        reveal_strlit("No");
        reveal_strlit("Yes");
        byte_len_at_most_four_per_char("No"@);
        byte_len_at_most_four_per_char("Yes"@);
    }
    draw_button_pair(ops, mx, my + 4, modal_w, "No", "Yes", Some(confirm_focus));
    assert(ops_view(ops@) =~= before + confirm_dialog_ops(cols, rows, *action, confirm_focus));
}

// ── User list ───────────────────────────────────────────────────

/// The title of the user box.
pub open spec fn users_title() -> Seq<char> {
    "Choose user"@
}

/// The width of the user box: one column wider than the other boxes when
/// that lets the title center exactly.
pub open spec fn users_box_width() -> u16 {
    if users_title().len() % 2 != BOX_WIDTH as nat % 2 {
        (BOX_WIDTH + 1) as u16
    } else {
        BOX_WIDTH
    }
}

/// How many rows the list takes: the users, at most six, at least one.
pub open spec fn visible_rows(total: usize) -> usize {
    if total == 0 {
        1
    } else if total < MAX_VISIBLE {
        total
    } else {
        MAX_VISIBLE
    }
}

/// Operations of the list rows `scroll .. scroll + n`, the selected one
/// highlighted unless a button is focused.
pub open spec fn user_rows_ops(
    x: u16,
    y: u16,
    width: u16,
    users: Seq<Seq<char>>,
    selected: usize,
    button_focus: Option<usize>,
    scroll: nat,
    n: nat,
) -> Seq<Op>
    decreases n,
{
    if n == 0 {
        Seq::empty()
    } else {
        let i = scroll + n - 1;
        let row_y = (y + 2 + (n - 1)) as u16;
        user_rows_ops(x, y, width, users, selected, button_focus, scroll, (n - 1) as nat) + (
        if i == selected && button_focus is None {
            highlighted_row_ops(x, row_y, users[i], width)
        } else {
            text_ops((x + 2) as u16, row_y, users[i], FG, BG)
        })
    }
}

/// Operations of the list part of the box.
#[verifier::opaque]
pub open spec fn list_ops(
    x: u16,
    y: u16,
    users: Seq<Seq<char>>,
    selected: usize,
    search_active: bool,
    button_focus: Option<usize>,
) -> Seq<Op> {
    if users.len() == 0 {
        text_ops(
            (x + 2) as u16,
            (y + 2) as u16,
            if search_active {
                "No matches"@
            } else {
                "No users found"@
            },
            dim_color(),
            BG,
        )
    } else {
        let scroll = scroll_offset(selected, users.len() as usize, MAX_VISIBLE);
        let end = if scroll + visible_rows(users.len() as usize) < users.len() {
            scroll + visible_rows(users.len() as usize)
        } else {
            users.len() as int
        };
        user_rows_ops(
            x,
            y,
            users_box_width(),
            users,
            selected,
            button_focus,
            scroll as nat,
            (end - scroll) as nat,
        )
    }
}

/// The search line's text.
pub open spec fn search_line(query: Seq<char>) -> Seq<char> {
    "/ "@ + query
}

/// The hints while searching.
pub open spec fn search_hints() -> Seq<(&'static str, &'static str)> {
    seq![
        ("Esc", "Cancel"),
        ("↑↓", "Navigate"),
        ("Enter", "Select"),
        ("Ctrl-R", "Reboot"),
        ("Ctrl-P", "Shutdown"),
    ]
}

/// The hints on the plain list.
pub open spec fn list_hints() -> Seq<(&'static str, &'static str)> {
    seq![
        ("↑↓", "Navigate"),
        ("Enter", "Select"),
        ("/", "Search"),
        ("Ctrl-R", "Reboot"),
        ("Ctrl-P", "Shutdown"),
    ]
}

/// Operations below the list: the search line or the buttons, then the hints.
#[verifier::opaque]
pub open spec fn bottom_ops(
    cols: u16,
    x: u16,
    y: u16,
    box_height: u16,
    bottom_y: u16,
    search_active: bool,
    search_query: Seq<char>,
    button_focus: Option<usize>,
) -> Seq<Op> {
    if search_active {
        text_ops((x + 2) as u16, bottom_y, search_line(search_query), FG, BG) + hints_bar_ops(
            cols,
            (y + box_height + 1) as u16,
            search_hints(),
        )
    } else {
        button_pair_ops(x, bottom_y, users_box_width(), "Reboot"@, "Shutdown"@, button_focus)
            + hints_bar_ops(cols, (y + box_height + 1) as u16, list_hints())
    }
}

/// The operations that draw the user list screen (no dialog open).
#[verifier::opaque]
pub open spec fn list_screen_ops(
    cols: u16,
    rows: u16,
    users: Seq<Seq<char>>,
    selected: usize,
    search_active: bool,
    search_query: Seq<char>,
    button_focus: Option<usize>,
    icon_style: IconStyle,
) -> Seq<Op> {
    let visible = visible_rows(users.len() as usize);
    let box_height = (visible + 6) as u16;
    let width = users_box_width();
    let x = cols.saturating_sub(width) / 2;
    let y = rows.saturating_sub(box_height) / 2;
    let bottom_y = (y + 2 + visible + 1) as u16;
    icon_ops(cols, rows, users.len() as usize, icon_style) + box_ops(
        x,
        y,
        width,
        box_height,
        users_title(),
    ) + list_ops(x, y, users, selected, search_active, button_focus) + seq![Op::SetBg(BG)]
        + bottom_ops(cols, x, y, box_height, bottom_y, search_active, search_query, button_focus)
}

/// The operations that draw the user selection screen: the confirmation
/// dialog when one is open, else the list.
pub open spec fn users_ops(
    cols: u16,
    rows: u16,
    users: Seq<Seq<char>>,
    selected: usize,
    search_active: bool,
    search_query: Seq<char>,
    button_focus: Option<usize>,
    confirm_action: Option<SystemAction>,
    confirm_focus: usize,
    icon_style: IconStyle,
) -> Seq<Op> {
    match confirm_action {
        Some(a) => confirm_dialog_ops(cols, rows, a, confirm_focus),
        None => list_screen_ops(
            cols,
            rows,
            users,
            selected,
            search_active,
            search_query,
            button_focus,
            icon_style,
        ),
    }
}

/// Where the user selection screen leaves the cursor: after the search
/// text while searching, nowhere otherwise.
pub open spec fn users_cursor(
    cols: u16,
    rows: u16,
    users_len: usize,
    search_active: bool,
    search_query: Seq<char>,
    confirm_action: Option<SystemAction>,
) -> Option<(u16, u16)> {
    let visible = visible_rows(users_len);
    let box_height = (visible + 6) as u16;
    let x = cols.saturating_sub(users_box_width()) / 2;
    let y = rows.saturating_sub(box_height) / 2;
    if confirm_action is None && search_active {
        Some(
            (
                (x + 2 + search_line(search_query).len() as u16) as u16,
                (y + 2 + visible + 1) as u16,
            ),
        )
    } else {
        None
    }
}

/// The inputs for which the cursor column after the search text does not
/// overflow.
pub open spec fn users_screen_fits(cols: u16, search_active: bool, search_query: Seq<char>) -> bool {
    search_active ==> cols.saturating_sub(users_box_width()) / 2 + 2 + (search_line(
        search_query,
    ).len() as u16) <= u16::MAX
}

fn draw_user_rows(
    ops: &mut Vec<DrawOp>,
    x: u16,
    y: u16,
    users: &[&str],
    selected_index: usize,
    search_active: bool,
    button_focus: Option<usize>,
)
    requires
        x <= u16::MAX / 2,
        y <= u16::MAX / 2,
    ensures
        ops_view(final(ops)@) == ops_view(old(ops)@) + list_ops(
            x,
            y,
            str_views(users@),
            selected_index,
            search_active,
            button_focus,
        ),
{
    reveal(list_ops);
    let ghost before = ops_view(ops@);
    let ghost uv = str_views(users@);
    let actual_width: u16 = BOX_WIDTH + 1;
    proof {
        reveal_strlit("Choose user");
    }
    assert(actual_width == users_box_width());
    if users.len() == 0 {
        let msg = if search_active {
            "No matches"
        } else {
            "No users found"
        };
        draw_text(ops, x + 2, y + 2, msg, dim(), BG);
        return;
    }
    let visible_count: usize = if users.len() < MAX_VISIBLE {
        users.len()
    } else {
        MAX_VISIBLE
    };
    let scroll = compute_scroll_offset(selected_index, users.len(), MAX_VISIBLE);
    let end = if scroll + visible_count < users.len() {
        scroll + visible_count
    } else {
        users.len()
    };
    let mut i: usize = scroll;
    while i < end
        invariant
            x <= u16::MAX / 2,
            y <= u16::MAX / 2,
            actual_width == users_box_width(),
            uv == str_views(users@),
            scroll <= i <= end,
            end <= users@.len(),
            end <= scroll + MAX_VISIBLE,
            ops_view(ops@) == before + user_rows_ops(
                x,
                y,
                actual_width,
                uv,
                selected_index,
                button_focus,
                scroll as nat,
                (i - scroll) as nat,
            ),
        decreases end - i,
    {
        let row_y = y + 2 + (i - scroll) as u16;
        assert(uv[i as int] == users@[i as int]@);
        if i == selected_index && button_focus.is_none() {
            draw_highlighted_row(ops, x, row_y, users[i], actual_width);
        } else {
            draw_normal_row(ops, x, row_y, users[i]);
        }
        i = i + 1;
    }
}

fn draw_bottom(
    ops: &mut Vec<DrawOp>,
    cols: u16,
    x: u16,
    y: u16,
    box_height: u16,
    bottom_y: u16,
    search_active: bool,
    search_query: &str,
    button_focus: Option<usize>,
)
    requires
        x <= u16::MAX / 2,
        y <= u16::MAX / 2,
        box_height <= 12,
    ensures
        ops_view(final(ops)@) == ops_view(old(ops)@) + bottom_ops(
            cols,
            x,
            y,
            box_height,
            bottom_y,
            search_active,
            search_query@,
            button_focus,
        ),
{
    reveal(bottom_ops);
    let ghost before = ops_view(ops@);
    let actual_width: u16 = BOX_WIDTH + 1;
    proof {
        reveal_strlit("Choose user");
    }
    assert(actual_width == users_box_width());
    if search_active {
        let mut search_display = String::from_str("/ ");
        search_display.append(search_query);
        draw_text(ops, x + 2, bottom_y, search_display.as_str(), FG, BG);
        let mut hints: Vec<(&str, &str)> = Vec::new();
        hints.push(("Esc", "Cancel"));
        hints.push(("↑↓", "Navigate"));
        hints.push(("Enter", "Select"));
        hints.push(("Ctrl-R", "Reboot"));
        hints.push(("Ctrl-P", "Shutdown"));
        proof {
            reveal_strlit("Esc");
            reveal_strlit("Cancel");
            reveal_strlit("↑↓");
            reveal_strlit("Navigate");
            reveal_strlit("Enter");
            reveal_strlit("Select");
            reveal_strlit("Ctrl-R");
            reveal_strlit("Reboot");
            reveal_strlit("Ctrl-P");
            reveal_strlit("Shutdown");
            assert(hints@ =~= search_hints());
            display_width_bounds("Esc"@);
            display_width_bounds("Cancel"@);
            display_width_bounds("↑↓"@);
            display_width_bounds("Navigate"@);
            display_width_bounds("Enter"@);
            display_width_bounds("Select"@);
            display_width_bounds("Ctrl-R"@);
            display_width_bounds("Reboot"@);
            display_width_bounds("Ctrl-P"@);
            display_width_bounds("Shutdown"@);
            reveal_with_fuel(hints_width, 6);
            assert(hints_width(hints@, 5) <= usize::MAX);
        }
        draw_hints(ops, cols, y + box_height + 1, hints.as_slice());
    } else {
        proof {
            reveal_strlit("Reboot");
            reveal_strlit("Shutdown");
            byte_len_at_most_four_per_char("Reboot"@);
            byte_len_at_most_four_per_char("Shutdown"@);
        }
        draw_button_pair(ops, x, bottom_y, actual_width, "Reboot", "Shutdown", button_focus);
        let mut hints: Vec<(&str, &str)> = Vec::new();
        hints.push(("↑↓", "Navigate"));
        hints.push(("Enter", "Select"));
        hints.push(("/", "Search"));
        hints.push(("Ctrl-R", "Reboot"));
        hints.push(("Ctrl-P", "Shutdown"));
        proof {
            reveal_strlit("↑↓");
            reveal_strlit("Navigate");
            reveal_strlit("Enter");
            reveal_strlit("Select");
            reveal_strlit("/");
            reveal_strlit("Search");
            reveal_strlit("Ctrl-R");
            reveal_strlit("Reboot");
            reveal_strlit("Ctrl-P");
            reveal_strlit("Shutdown");
            assert(hints@ =~= list_hints());
            display_width_bounds("↑↓"@);
            display_width_bounds("Navigate"@);
            display_width_bounds("Enter"@);
            display_width_bounds("Select"@);
            display_width_bounds("/"@);
            display_width_bounds("Search"@);
            display_width_bounds("Ctrl-R"@);
            display_width_bounds("Reboot"@);
            display_width_bounds("Ctrl-P"@);
            display_width_bounds("Shutdown"@);
            reveal_with_fuel(hints_width, 6);
            assert(hints_width(hints@, 5) <= usize::MAX);
        }
        draw_hints(ops, cols, y + box_height + 1, hints.as_slice());
    }
    assert(ops_view(ops@) =~= before + bottom_ops(
        cols,
        x,
        y,
        box_height,
        bottom_y,
        search_active,
        search_query@,
        button_focus,
    ));
}

/// Draw the list screen; returns where the cursor goes.
#[verifier::rlimit(60)]
fn draw_list_screen(
    ops: &mut Vec<DrawOp>,
    cols: u16,
    rows: u16,
    users: &[&str],
    selected_index: usize,
    search_active: bool,
    search_query: &str,
    button_focus: Option<usize>,
    icon_style: IconStyle,
) -> (r: Option<(u16, u16)>)
    requires
        users_screen_fits(cols, search_active, search_query@),
    ensures
        ops_view(final(ops)@) == ops_view(old(ops)@) + list_screen_ops(
            cols,
            rows,
            str_views(users@),
            selected_index,
            search_active,
            search_query@,
            button_focus,
            icon_style,
        ),
        r == users_cursor(cols, rows, users@.len() as usize, search_active, search_query@, None),
{
    reveal(list_screen_ops);
    let ghost before = ops_view(ops@);
    let visible_count: usize = if users.len() == 0 {
        1
    } else if users.len() < MAX_VISIBLE {
        users.len()
    } else {
        MAX_VISIBLE
    };
    // Box height is constant for a given list:
    // top(1) + pad(1) + users(visible) + pad(1) + buttons_or_search(1) + pad(1) + bottom(1)
    let box_height = visible_count as u16 + 6;
    let title = "Choose user";
    // One column wider when the title's parity differs from BOX_WIDTH's,
    // so that the title centers exactly.
    let actual_width = BOX_WIDTH + (if title.unicode_len() % 2 != BOX_WIDTH as usize % 2 {
        1u16
    } else {
        0u16
    });
    let x = cols.saturating_sub(actual_width) / 2;
    let y = rows.saturating_sub(box_height) / 2;
    let ghost uv = str_views(users@);
    assert(uv.len() == users@.len());
    assert(actual_width == users_box_width());
    assert(visible_count == visible_rows(uv.len() as usize));
    draw_icon(ops, cols, rows, users.len(), icon_style);
    let ghost a1 = ops_view(ops@);
    draw_box(ops, x, y, actual_width, box_height, title);
    let ghost a2 = ops_view(ops@);
    // User list with scroll
    draw_user_rows(ops, x, y, users, selected_index, search_active, button_focus);
    let ghost a3 = ops_view(ops@);
    // Reset background after user list
    emit(ops, DrawOp::SetBg(BG));
    // The bottom section: either search input OR action buttons
    let bottom_y = y + 2 + visible_count as u16 + 1;
    let ghost a4 = ops_view(ops@);
    draw_bottom(
        ops,
        cols,
        x,
        y,
        box_height,
        bottom_y,
        search_active,
        search_query,
        button_focus,
    );
    assert(a1 == before + icon_ops(cols, rows, users@.len() as usize, icon_style));
    assert(a2 == a1 + box_ops(x, y, actual_width, box_height, users_title()));
    assert(a3 == a2 + list_ops(x, y, uv, selected_index, search_active, button_focus));
    assert(a4 == a3.push(Op::SetBg(BG)));
    assert(ops_view(ops@) =~= before + list_screen_ops(
        cols,
        rows,
        str_views(users@),
        selected_index,
        search_active,
        search_query@,
        button_focus,
        icon_style,
    ));
    if search_active {
        let mut search_display = String::from_str("/ ");
        search_display.append(search_query);
        let n = search_display.as_str().unicode_len();
        Some((x + 2 + n as u16, bottom_y))
    } else {
        None
    }
}


/// Render the user selection screen with navigable, scrollable user list;
/// returns where the cursor goes.
pub fn render(
    ops: &mut Vec<DrawOp>,
    cols: u16,
    rows: u16,
    users: &[&str],
    selected_index: usize,
    search_active: bool,
    search_query: &str,
    button_focus: Option<usize>,
    confirm_action: Option<&SystemAction>,
    confirm_focus: usize,
    icon_style: IconStyle,
) -> (r: Option<(u16, u16)>)
    requires
        confirm_action is None ==> users_screen_fits(cols, search_active, search_query@),
    ensures
        ops_view(final(ops)@) == ops_view(old(ops)@) + users_ops(
            cols,
            rows,
            str_views(users@),
            selected_index,
            search_active,
            search_query@,
            button_focus,
            match confirm_action {
                Some(a) => Some(*a),
                None => None,
            },
            confirm_focus,
            icon_style,
        ),
        r == users_cursor(
            cols,
            rows,
            users@.len() as usize,
            search_active,
            search_query@,
            match confirm_action {
                Some(a) => Some(*a),
                None => None,
            },
        ),
{
    if let Some(action) = confirm_action {
        draw_confirm_dialog(ops, cols, rows, action, confirm_focus);
        return None;
    }
    draw_list_screen(
        ops,
        cols,
        rows,
        users,
        selected_index,
        search_active,
        search_query,
        button_focus,
        icon_style,
    )
}

} // verus!
