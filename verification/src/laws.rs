//! Properties of the screen state machine that hold for every state and key.

use vstd::prelude::*;

use crate::state::{
    confirm_step, expire, filtered, is_quit_key, key_step, login_step, next_timeout, poll_step,
    filter_users, poll_timeout, remaining, search_step, user_matches, selected_name, user_select_step, wf, ActionView, AppView,
    AuthPoll, Key, KeyCode, Screen,
};
use crate::system::SystemAction;
use crate::text::{ascii_lower, byte_len_at_most_four_per_char, contains_sub, lowercase_of};
use crate::tui::{
    before_deadline, render_cursor,
    box_top_ops, buttons_len, decorated_title, gap_width, icon_ops, render_fits, screen_ops,
    truncated,
};
use crate::tui::screen_users::{
    confirm_dialog_ops, list_ops, list_screen_ops, user_rows_ops, users_box_width, visible_rows,
    MAX_VISIBLE,
};
use crate::tui::screen_login::{auth_message, login_box_height};
use crate::tui::pad_right;
use crate::tui::{box_ops, bracketed, button_pair_ops, Attribute, Op};
use crate::tui::screen_login::masked;
use crate::tui::screen_users::{scroll_offset, search_line};

verus! {

/// Keys in the confirmation dialog keep the state invariant.
pub proof fn confirm_step_keeps_wf(m: AppView, k: Key)
    requires
        wf(m),
    ensures
        wf(confirm_step(m, k).0),
{
}

/// Keys on the user list keep the state invariant.
pub proof fn user_select_step_keeps_wf(m: AppView, k: Key)
    requires
        wf(m),
        !m.search_active,
    ensures
        wf(user_select_step(m, k)),
{
}

/// Keys while searching on the user list keep the state invariant.
pub proof fn search_step_keeps_wf(m: AppView, k: Key)
    requires
        wf(m),
        m.search_active,
        m.screen == Screen::UserSelect,
    ensures
        wf(search_step(m, k)),
{
    byte_len_at_most_four_per_char(m.search_query);
}

/// Keys on the password screen keep the state invariant.
pub proof fn login_step_keeps_wf(m: AppView, k: Key, now: u64)
    requires
        wf(m),
    ensures
        wf(login_step(m, k, now).0),
{
    byte_len_at_most_four_per_char(m.password);
}

/// Every key press, as the main loop handles it, keeps the state invariant.
pub proof fn key_step_keeps_wf(m: AppView, k: Key, now: u64)
    requires
        wf(m),
    ensures
        wf(key_step(m, k, now).0),
{
    if !m.authenticating && !is_quit_key(k) {
        if m.confirm_action is Some {
            confirm_step_keeps_wf(m, k);
        } else if m.screen == Screen::UserSelect {
            if m.search_active {
                search_step_keeps_wf(m, k);
            } else {
                user_select_step_keeps_wf(m, k);
            }
        } else {
            login_step_keeps_wf(m, k, now);
        }
    }
}

/// Every answer of the background authentication keeps the state invariant.
pub proof fn poll_step_keeps_wf(m: AppView, p: AuthPoll)
    requires
        wf(m),
    ensures
        wf(poll_step(m, p)),
{
}

/// Ctrl+C ends the program from any state in which keys are read, and
/// changes nothing else.
pub proof fn quit_key_stops(m: AppView, k: Key, now: u64)
    requires
        is_quit_key(k),
        !m.authenticating,
    ensures
        key_step(m, k, now) == (AppView { running: false, ..m }, ActionView::Nothing),
{
}

/// While authentication runs, key presses change nothing.
pub proof fn keys_ignored_while_authenticating(m: AppView, k: Key, now: u64)
    requires
        m.authenticating,
    ensures
        key_step(m, k, now) == (m, ActionView::Nothing),
{
}

/// The machine is only shut down or rebooted through the confirmation
/// dialog: the dialog was open for that action with "Yes" focused, the key
/// was Enter, and the dialog is closed afterwards.
pub proof fn system_action_needs_confirmation(m: AppView, k: Key, now: u64)
    ensures
        key_step(m, k, now).1 is Shutdown ==> {
            &&& m.confirm_action == Some(SystemAction::Shutdown)
            &&& m.confirm_focus == 1
            &&& k.code == KeyCode::Enter
            &&& key_step(m, k, now).0.confirm_action is None
        },
        key_step(m, k, now).1 is Reboot ==> {
            &&& m.confirm_action == Some(SystemAction::Reboot)
            &&& m.confirm_focus == 1
            &&& k.code == KeyCode::Enter
            &&& key_step(m, k, now).0.confirm_action is None
        },
{
}

/// While the confirmation dialog is open, a key other than Ctrl+C changes
/// only the dialog.
pub proof fn dialog_captures_input(m: AppView, k: Key, now: u64)
    requires
        m.confirm_action is Some,
        !is_quit_key(k),
        !m.authenticating,
    ensures
        ({
            let r = key_step(m, k, now).0;
            r == AppView { confirm_action: r.confirm_action, confirm_focus: r.confirm_focus, ..m }
        }),
{
}

/// Authentication starts only from the password screen, with no dialog open
/// and none running; it is given the selected user (or the empty name) and
/// exactly the typed password, and the spinner starts from its first frame.
pub proof fn auth_starts_from_login(m: AppView, k: Key, now: u64)
    ensures
        key_step(m, k, now).1 matches ActionView::StartAuth(u, p) ==> {
            &&& m.screen == Screen::Login
            &&& m.confirm_action is None
            &&& !m.authenticating
            &&& p == m.password
            &&& u == (match selected_name(m) {
                Some(n) => n,
                None => Seq::empty(),
            })
            &&& key_step(m, k, now).0.authenticating
            &&& key_step(m, k, now).0.spinner_frame == 0
        },
{
}

/// Leaving the password screen forgets the password.
pub proof fn leaving_login_forgets_password(m: AppView, k: Key, now: u64)
    requires
        m.screen == Screen::Login,
        key_step(m, k, now).0.screen == Screen::UserSelect,
    ensures
        key_step(m, k, now).0.password.len() == 0,
        !key_step(m, k, now).0.auth_error,
{
}

/// The password screen is always entered with an empty password, no error
/// shown, and (in a well-formed state) a user selected.
pub proof fn entering_login_starts_fresh(m: AppView, k: Key, now: u64)
    requires
        m.screen == Screen::UserSelect,
        key_step(m, k, now).0.screen == Screen::Login,
    ensures
        key_step(m, k, now).0.password.len() == 0,
        !key_step(m, k, now).0.auth_error,
        filtered(m).len() > 0,
        wf(m) ==> selected_name(key_step(m, k, now).0) is Some,
{
}

/// Dropping reached deadlines keeps the state invariant.
pub proof fn expiry_keeps_wf(m: AppView, now: u64)
    requires
        wf(m),
    ensures
        wf(AppView {
            unmasked_until: expire(m.unmasked_until, now),
            deleted_until: expire(m.deleted_until, now),
            ..m
        }),
{
}

/// A failed authentication forgets the password, shows the error and lets
/// keys be read again.
pub proof fn failed_auth_forgets_password(m: AppView)
    requires
        m.authenticating,
    ensures
        poll_step(m, AuthPoll::Failed).password.len() == 0,
        poll_step(m, AuthPoll::Failed).auth_error,
        !poll_step(m, AuthPoll::Failed).authenticating,
        poll_step(m, AuthPoll::Failed).running == m.running,
{
}

/// In a well-formed state a user is selected exactly when the list shown is
/// not empty, and on the password screen a user is always selected.
pub proof fn selection_inside_list(m: AppView)
    requires
        wf(m),
    ensures
        selected_name(m) is Some <==> filtered(m).len() > 0,
        m.screen == Screen::Login ==> selected_name(m) is Some,
{
}

/// One turn of the main loop while authentication runs and has not
/// answered yet: the spinner advances by one frame modulo 8, the loop waits
/// 100 ms for a key, and a key read then (Ctrl+C included) changes nothing.
pub proof fn authenticating_turn(m: AppView, k: Key, now: u64)
    requires
        m.authenticating,
    ensures
        ({
            let m1 = poll_step(m, AuthPoll::Pending);
            &&& m1.spinner_frame == (m.spinner_frame + 1) % 8
            &&& m1.spinner_frame < 8
            &&& m1 == AppView { spinner_frame: m1.spinner_frame, ..m }
            &&& poll_timeout(m1, now) == 100
            &&& key_step(m1, k, now) == (m1, ActionView::Nothing)
        }),
{
}

/// The main loop never waits zero time, and never longer than an hour
/// unless a deadline lies further ahead.
pub proof fn poll_timeout_positive(m: AppView, now: u64)
    ensures
        poll_timeout(m, now) > 0,
        next_timeout(m, now) is None ==> poll_timeout(m, now) <= 3_600_000,
{
}

/// The wait until the next deadline ends no later than either deadline.
pub proof fn next_timeout_is_earliest(m: AppView, now: u64)
    ensures
        next_timeout(m, now) matches Some(d) ==> {
            &&& (remaining(m.unmasked_until, now) matches Some(a) ==> d <= a)
            &&& (remaining(m.deleted_until, now) matches Some(b) ==> d <= b)
            &&& (d == remaining(m.unmasked_until, now)->0 || d == remaining(m.deleted_until, now)->0)
        },
        next_timeout(m, now) is None <==> (remaining(m.unmasked_until, now) is None && remaining(
            m.deleted_until,
            now,
        ) is None),
{
}

/// A well-formed state can always be drawn, whatever the terminal's size.
pub proof fn wf_state_fits_render(m: AppView, cols: u16)
    requires
        wf(m),
    ensures
        render_fits(m, cols),
{
    reveal_strlit("Choose user");
    reveal_strlit("/ ");
    assert(search_line(m.search_query).len() <= 34);
}

/// The password field never shows more than 26 characters, and never a
/// typed character but the last one, and that only while it is unmasked.
pub proof fn password_field_hides_password(password: Seq<char>, show_last_char: bool)
    ensures
        masked(password, show_last_char).len() == (if password.len() < 26 {
            password.len()
        } else {
            26
        }),
        forall|i: int|
            0 <= i < masked(password, show_last_char).len() - 1 ==> masked(
                password,
                show_last_char,
            )[i] == '*',
        masked(password, show_last_char).len() > 0 ==> masked(password, show_last_char).last() == (
        if show_last_char {
            password.last()
        } else {
            '*'
        }),
{
}

/// The list scrolls so that the selected entry is always inside the
/// window of entries shown, and the window never runs past the list.
pub proof fn scroll_keeps_selection_visible(selected: usize, total: usize, max_visible: usize)
    requires
        0 < max_visible,
        selected < total,
    ensures
        scroll_offset(selected, total, max_visible) <= selected,
        selected < scroll_offset(selected, total, max_visible) + max_visible,
        total > max_visible ==> scroll_offset(selected, total, max_visible) + max_visible <= total,
{
}

/// Truncation keeps short strings and cuts long ones to exactly the
/// limit: with room for it, the start of the string and "..".
pub proof fn truncate_respects_limit(s: Seq<char>, max_len: usize)
    ensures
        s.len() <= max_len ==> truncated(s, max_len) == s,
        truncated(s, max_len).len() <= max_len,
        s.len() > max_len ==> truncated(s, max_len).len() == max_len,
        s.len() > max_len && max_len >= 2 ==> truncated(s, max_len) == s.take(max_len - 2)
            + ".."@,
{
    reveal_strlit("..");
}

/// The top border of a box is exactly as wide as the box whenever the
/// decorated title fits in it, with the title centered: the two runs of
/// line beside it differ by at most one column.
pub proof fn box_title_centered(x: u16, y: u16, width: u16, title: Seq<char>)
    requires
        decorated_title(title).len() + 2 <= width,
    ensures
        ({
            let top = box_top_ops(x, y, width, title);
            let left = top[4]->Print_0.len();
            let right = top[6]->Print_0.len();
            &&& 1 + left + decorated_title(title).len() + right + 1 == width
            &&& left <= right <= left + 1
        }),
{
}

/// The gap between two buttons is chosen so that the pair centers exactly:
/// the columns left over in the box split evenly on both sides.
pub proof fn button_pair_centered(box_width: u16, left: Seq<char>, right: Seq<char>)
    requires
        buttons_len(left, right) + 5 <= box_width,
    ensures
        (box_width - (buttons_len(left, right) + gap_width(box_width, buttons_len(left, right))))
            % 2 == 0,
{
}

/// The icon does not move when switching between the user list and the
/// password screen: both draw it first, at the same place, for the same
/// number of listed users.
pub proof fn icon_stays_put(m: AppView, cols: u16, rows: u16, now: u64)
    requires
        m.confirm_action is None,
    ensures
        ({
            let icon = icon_ops(cols, rows, filtered(m).len() as usize, m.icon_style);
            let on_list = screen_ops(AppView { screen: Screen::UserSelect, ..m }, cols, rows, now);
            let on_login = screen_ops(AppView { screen: Screen::Login, ..m }, cols, rows, now);
            &&& on_list.take(icon.len() as int) == icon
            &&& on_login.take(icon.len() as int) == icon
        }),
{
    reveal(list_screen_ops);
    let icon = icon_ops(cols, rows, filtered(m).len() as usize, m.icon_style);
    let on_list = screen_ops(AppView { screen: Screen::UserSelect, ..m }, cols, rows, now);
    let on_login = screen_ops(AppView { screen: Screen::Login, ..m }, cols, rows, now);
    assert(on_list.take(icon.len() as int) =~= icon);
    assert(on_login.take(icon.len() as int) =~= icon);
}

/// On the password screen the cursor marks where the next character goes,
/// except while authenticating, while a button is focused, and during the
/// brief flash after a deletion, when it is hidden.
pub proof fn login_cursor_rules(m: AppView, cols: u16, rows: u16, now: u64)
    requires
        m.screen == Screen::Login,
    ensures
        before_deadline(m.deleted_until, now) ==> render_cursor(m, cols, rows, now) is None,
        m.authenticating ==> render_cursor(m, cols, rows, now) is None,
        m.button_focus is Some ==> render_cursor(m, cols, rows, now) is None,
        !m.authenticating && m.button_focus is None && !before_deadline(m.deleted_until, now)
            ==> render_cursor(m, cols, rows, now) is Some,
{
}

/// On the user list the cursor is shown exactly while searching with no
/// dialog open.
pub proof fn list_cursor_rules(m: AppView, cols: u16, rows: u16, now: u64)
    requires
        m.screen == Screen::UserSelect,
    ensures
        render_cursor(m, cols, rows, now) is Some <==> (m.search_active && m.confirm_action is None),
{
}

/// Filtering by a stronger condition is filtering again.
proof fn filter_twice(xs: Seq<Seq<char>>, p1: spec_fn(Seq<char>) -> bool, p2: spec_fn(Seq<char>) -> bool)
    requires
        forall|u: Seq<char>| #[trigger] p2(u) ==> p1(u),
    ensures
        xs.filter(p2) == xs.filter(p1).filter(p2),
    decreases xs.len(),
{
    reveal(Seq::filter);
    if xs.len() > 0 {
        filter_twice(xs.drop_last(), p1, p2);
        let rest = xs.drop_last().filter(p1);
        if p1(xs.last()) {
            assert(rest.push(xs.last()).drop_last() =~= rest);
        }
    }
}

/// A text that contains a run contains every prefix of it.
proof fn contains_prefix(hay: Seq<char>, a: Seq<char>, b: Seq<char>)
    requires
        contains_sub(hay, a + b),
    ensures
        contains_sub(hay, a),
{
    let n = (a + b).len();
    let i = choose|i: int| 0 <= i && i + n <= hay.len() && #[trigger] hay.subrange(i, i + n) == a + b;
    assert(hay.subrange(i, i + a.len()) =~= a);
}

/// Typing more of an ASCII search query never adds matches: the list for
/// the longer query is the list for the shorter one, filtered again. (An
/// empty query lists every user.)
pub proof fn longer_query_never_adds_matches(users: Seq<Seq<char>>, q: Seq<char>, s: Seq<char>)
    requires
        vstd::utf8::is_ascii_chars(q),
        vstd::utf8::is_ascii_chars(s),
        s.len() > 0,
    ensures
        filter_users(users, q + s) == filter_users(users, q).filter(
            |u: Seq<char>| user_matches(u, q + s),
        ),
        q.len() == 0 ==> filter_users(users, q) == users,
{
    let p1 = |u: Seq<char>| user_matches(u, q);
    let p2 = |u: Seq<char>| user_matches(u, q + s);
    if q.len() > 0 {
        assert(vstd::utf8::is_ascii_chars(q + s));
        // The lowercase of the longer query extends that of the shorter one;
        // both are ASCII lowercases by the lowercasing contract.
        assert forall|u: Seq<char>| #[trigger] p2(u) implies p1(u) by {
            assert(ascii_lower(q + s) =~= ascii_lower(q) + ascii_lower(s));
            contains_prefix(lowercase_of(u), ascii_lower(q), ascii_lower(s));
        }
        filter_twice(users, p1, p2);
    } else {
        assert(q + s =~= s);
    }
}

/// In the confirmation dialog Left focuses "No" and Right focuses "Yes",
/// keeping the dialog open; Enter then cancels after Left and carries out
/// the dialog's action after Right. Esc closes the dialog with no action.
pub proof fn dialog_left_is_no_right_is_yes(m: AppView, k: Key, e: Key, now: u64)
    requires
        m.confirm_action is Some,
        !m.authenticating,
        e.code == KeyCode::Enter,
    ensures
        k.code == KeyCode::Left ==> {
            let r = key_step(m, k, now).0;
            &&& r.confirm_focus == 0
            &&& r.confirm_action == m.confirm_action
            &&& key_step(r, e, now).1 is Nothing
            &&& key_step(r, e, now).0.confirm_action is None
        },
        k.code == KeyCode::Right ==> {
            let r = key_step(m, k, now).0;
            &&& r.confirm_focus == 1
            &&& r.confirm_action == m.confirm_action
            &&& (m.confirm_action == Some(SystemAction::Shutdown) ==> key_step(r, e, now).1 is Shutdown)
            &&& (m.confirm_action == Some(SystemAction::Reboot) ==> key_step(r, e, now).1 is Reboot)
            &&& key_step(r, e, now).0.confirm_action is None
        },
        k.code == KeyCode::Esc ==> key_step(m, k, now).1 is Nothing && key_step(
            m,
            k,
            now,
        ).0.confirm_action is None,
{
}

/// The dialog's buttons read "[No]" then "[Yes]", and the one drawn
/// highlighted is "[No]" for focus 0 and "[Yes]" for focus 1: the choice the
/// keys make (focus 0 cancels, focus 1 confirms).
pub proof fn dialog_buttons_match_focus(cols: u16, rows: u16, a: SystemAction, f: usize)
    requires
        f <= 1,
    ensures
        ({
            let ops = confirm_dialog_ops(cols, rows, a, f);
            let focused = if f == 0 {
                bracketed("No"@)
            } else {
                bracketed("Yes"@)
            };
            &&& exists|i: int|
                #![trigger ops[i]]
                0 <= i && i + 1 < ops.len() && ops[i] == Op::SetAttr(Attribute::Reverse) && ops[i
                    + 1] == Op::Print(focused)
            &&& exists|i: int, j: int|
                #![trigger ops[i], ops[j]]
                0 <= i < j < ops.len() && ops[i] == Op::Print(bracketed("No"@)) && ops[j]
                    == Op::Print(bracketed("Yes"@))
        }),
{
    reveal(confirm_dialog_ops);
    reveal(button_pair_ops);
    let ops = confirm_dialog_ops(cols, rows, a, f);
    let mx = cols.saturating_sub(30) / 2;
    let my = rows.saturating_sub(7) / 2;
    let pre = box_ops(mx, my, 30, 7, crate::system::action_label(a)) + crate::tui::text_ops(
        (mx + (30u16).saturating_sub(crate::text::byte_len("Are you sure?"@) as u16) / 2) as u16,
        (my + 2) as u16,
        "Are you sure?"@,
        crate::tui::FG,
        crate::tui::BG,
    );
    let pair = button_pair_ops(mx, (my + 4) as u16, 30, "No"@, "Yes"@, Some(f));
    assert(ops == pre + pair);
    let n = pre.len() as int;
    if f == 0 {
        assert(ops[n + 1] == Op::SetAttr(Attribute::Reverse));
        assert(ops[n + 2] == Op::Print(bracketed("No"@)));
        assert(ops[n + 10] == Op::Print(bracketed("Yes"@)));
    } else {
        assert(ops[n + 2] == Op::Print(bracketed("No"@)));
        assert(ops[n + 6] == Op::SetAttr(Attribute::Reverse));
        assert(ops[n + 7] == Op::Print(bracketed("Yes"@)));
    }
}

/// The arrow keys move the selection by one entry within the list shown,
/// and leave the list itself alone: while searching they stop at the ends;
/// on the plain list Up stops at the top and Down past the last entry moves
/// the focus to the buttons. (The user list, like any vector, has at most
/// `usize::MAX` entries.)
pub proof fn arrows_move_selection(m: AppView, k: Key, now: u64)
    requires
        wf(m),
        m.screen == Screen::UserSelect,
        m.confirm_action is None,
        !m.authenticating,
        m.button_focus is None,
        m.users.len() <= usize::MAX,
        k.code == KeyCode::Up || k.code == KeyCode::Down,
    ensures
        ({
            let r = key_step(m, k, now);
            let len = filtered(m).len();
            &&& filtered(r.0) == filtered(m)
            &&& r.1 is Nothing
            &&& r.0.screen == Screen::UserSelect
            &&& (k.code == KeyCode::Up && m.selected_index > 0 ==> r.0.selected_index
                == m.selected_index - 1 && selected_name(r.0) == Some(
                filtered(m)[m.selected_index - 1],
            ))
            &&& (k.code == KeyCode::Up && m.selected_index == 0 ==> r.0.selected_index == 0)
            &&& (k.code == KeyCode::Down && m.selected_index + 1 < len ==> r.0.selected_index
                == m.selected_index + 1 && selected_name(r.0) == Some(
                filtered(m)[m.selected_index + 1],
            ))
            &&& (k.code == KeyCode::Down && m.selected_index + 1 >= len ==> r.0.selected_index
                == m.selected_index)
            &&& (k.code == KeyCode::Down && m.selected_index + 1 == len && !m.search_active
                ==> r.0.button_focus == Some(0usize))
            &&& (m.search_active ==> r.0.button_focus is None)
        }),
{
    m.users.lemma_filter_len(|u: Seq<char>| user_matches(u, m.search_query));
}

/// On the password screen Esc always goes back to the user list, with the
/// password forgotten, no error and no button focused, whether or not a
/// button was focused; the list and its selection stay as they were.
pub proof fn esc_leaves_login(m: AppView, k: Key, now: u64)
    requires
        m.screen == Screen::Login,
        m.confirm_action is None,
        !m.authenticating,
        k.code == KeyCode::Esc,
    ensures
        ({
            let r = key_step(m, k, now);
            &&& r.1 is Nothing
            &&& r.0.screen == Screen::UserSelect
            &&& r.0.password.len() == 0
            &&& !r.0.auth_error
            &&& r.0.button_focus is None
            &&& filtered(r.0) == filtered(m)
            &&& r.0.selected_index == m.selected_index
        }),
{
}

/// The login screen names the user whose password is asked for: its box is
/// titled "Login as " and the selected name (cut to 32 characters), and
/// Enter in the password field authenticates that same user.
pub proof fn login_screen_names_the_user(m: AppView, k: Key, cols: u16, rows: u16, now: u64)
    requires
        wf(m),
        m.screen == Screen::Login,
    ensures
        selected_name(m) is Some,
        ({
            let ops = screen_ops(m, cols, rows, now);
            let title = Op::Print(
                decorated_title("Login as "@ + truncated(selected_name(m)->0, 32)),
            );
            exists|i: int| #![trigger ops[i]] 0 <= i < ops.len() && ops[i] == title
        }),
        k.code == KeyCode::Enter && !m.authenticating && m.confirm_action is None
            && m.button_focus is None ==> key_step(m, k, now).1 == ActionView::StartAuth(
            selected_name(m)->0,
            m.password,
        ),
{
    reveal(box_ops);
    let ops = screen_ops(m, cols, rows, now);
    let n = selected_name(m)->0;
    let bh: u16 = if m.auth_error {
        11
    } else {
        9
    };
    let x = cols.saturating_sub(60) / 2;
    let y = rows.saturating_sub(bh) / 2;
    let icon = icon_ops(cols, rows, filtered(m).len() as usize, m.icon_style);
    let title = "Login as "@ + truncated(n, 32);
    let top = box_top_ops(x, y, 60, title);
    let k0 = icon.len() as int;
    assert(ops.subrange(0, k0 + top.len() as int) =~= icon + top);
    assert(ops[k0 + 5] == top[5]);
}

/// Ctrl+P asks to shut down and Ctrl+R to reboot, from the list or while
/// searching: the dialog opens for that action with "No" focused, and
/// nothing else changes.
pub proof fn power_keys_open_the_dialog(m: AppView, k: Key, now: u64)
    requires
        m.screen == Screen::UserSelect,
        m.confirm_action is None,
        !m.authenticating,
        m.button_focus is None,
        k.ctrl,
        k.code == KeyCode::Char('p') || k.code == KeyCode::Char('r'),
    ensures
        ({
            let r = key_step(m, k, now);
            let a = if k.code == KeyCode::Char('p') {
                SystemAction::Shutdown
            } else {
                SystemAction::Reboot
            };
            &&& r.1 is Nothing
            &&& r.0 == AppView { confirm_action: Some(a), confirm_focus: 0, ..m }
        }),
{
}

/// With a button focused under the list, Left and Right pick the button,
/// Up goes back to the list, and Enter asks for confirmation of the
/// focused button's action (left Reboot, right Shutdown) with "No" focused.
pub proof fn list_buttons(m: AppView, k: Key, now: u64)
    requires
        m.screen == Screen::UserSelect,
        !m.search_active,
        m.confirm_action is None,
        !m.authenticating,
        m.button_focus == Some(0usize) || m.button_focus == Some(1usize),
    ensures
        ({
            let r = key_step(m, k, now);
            &&& r.1 is Nothing
            &&& (k.code == KeyCode::Left ==> r.0 == AppView { button_focus: Some(0), ..m })
            &&& (k.code == KeyCode::Right ==> r.0 == AppView { button_focus: Some(1), ..m })
            &&& (k.code == KeyCode::Up ==> r.0 == AppView { button_focus: None, ..m })
            &&& (k.code == KeyCode::Enter ==> r.0 == AppView {
                confirm_action: Some(
                    if m.button_focus == Some(0usize) {
                        SystemAction::Reboot
                    } else {
                        SystemAction::Shutdown
                    },
                ),
                confirm_focus: 0,
                ..m
            })
        }),
{
}

/// On the plain list, Left and Right focus the buttons, '/' starts a
/// search with an empty query and the first entry selected, and Enter on a
/// non-empty list opens the password screen for the selected user.
pub proof fn list_keys(m: AppView, k: Key, now: u64)
    requires
        wf(m),
        m.screen == Screen::UserSelect,
        !m.search_active,
        m.confirm_action is None,
        !m.authenticating,
        m.button_focus is None,
    ensures
        ({
            let r = key_step(m, k, now).0;
            let len = filtered(m).len();
            &&& (k.code == KeyCode::Left && len > 0 ==> r.button_focus == Some(0usize))
            &&& (k.code == KeyCode::Right && len > 0 ==> r.button_focus == Some(1usize))
            &&& (k.code == KeyCode::Char('/') ==> r.search_active && r.search_query.len() == 0
                && r.selected_index == 0 && r.screen == Screen::UserSelect)
            &&& (k.code == KeyCode::Enter && len > 0 ==> r.screen == Screen::Login
                && selected_name(r) == selected_name(m) && r.password.len() == 0)
            &&& (k.code == KeyCode::Enter && len == 0 ==> r == m)
        }),
{
}

/// While searching: a character typed without Ctrl is appended to a query
/// of fewer than 32 bytes and the first match is selected; Backspace drops
/// the last character (all of them with Ctrl or Alt), as does Ctrl+U, W or
/// H; Esc ends the search with an empty query and the first entry
/// selected; Enter opens the password screen when something matches.
pub proof fn search_keys(m: AppView, k: Key, c: char, now: u64)
    requires
        wf(m),
        m.screen == Screen::UserSelect,
        m.search_active,
        m.confirm_action is None,
        !m.authenticating,
    ensures
        ({
            let r = key_step(m, k, now).0;
            &&& (k.code == KeyCode::Char(c) && !k.ctrl ==> r.search_query == (if crate::text::byte_len(
                m.search_query,
            ) < 32 {
                m.search_query.push(c)
            } else {
                m.search_query
            }))
            &&& (k.code == KeyCode::Char(c) && !k.ctrl && crate::text::byte_len(m.search_query)
                < 32 ==> r.selected_index == 0)
            &&& (k.code == KeyCode::Backspace && !k.ctrl && !k.alt ==> r.search_query == (
            if m.search_query.len() == 0 {
                m.search_query
            } else {
                m.search_query.drop_last()
            }))
            &&& (k.code == KeyCode::Backspace && (k.ctrl || k.alt) ==> r.search_query.len() == 0)
            &&& (k.ctrl && (k.code == KeyCode::Char('u') || k.code == KeyCode::Char('w')
                || k.code == KeyCode::Char('h')) ==> r.search_query.len() == 0)
            &&& (k.code == KeyCode::Esc ==> !r.search_active && r.search_query.len() == 0
                && r.selected_index == 0)
            &&& (k.code == KeyCode::Enter ==> (r.screen == Screen::Login <==> filtered(m).len() > 0))
            &&& (k.code == KeyCode::Enter && filtered(m).len() > 0 ==> selected_name(r)
                == selected_name(m) && r.password.len() == 0)
        }),
{
}

/// In the password field: a character typed without Ctrl or Alt is appended
/// to a password of fewer than 128 bytes and shown for 500 ms; Backspace
/// drops the last character (all of them with Ctrl or Alt), as does Ctrl+U,
/// W or H, each hiding the unmasked character and starting a 150 ms
/// deletion flash; any edit clears the error; Down and Left focus the Back
/// button and Right the Confirm button.
pub proof fn password_keys(m: AppView, k: Key, c: char, now: u64)
    requires
        m.screen == Screen::Login,
        m.confirm_action is None,
        !m.authenticating,
        m.button_focus is None,
        now <= u64::MAX - 500,
    ensures
        ({
            let r = key_step(m, k, now).0;
            &&& r.screen == Screen::Login || k.code == KeyCode::Esc || is_quit_key(k)
            &&& (k.code == KeyCode::Char(c) && !k.ctrl && !k.alt && crate::text::byte_len(
                m.password,
            ) < 128 ==> r.password == m.password.push(c) && r.unmasked_until == Some(
                (now + 500) as u64,
            ) && !r.auth_error)
            &&& (k.code == KeyCode::Backspace ==> r.password == (if k.ctrl || k.alt
                || m.password.len() == 0 {
                Seq::empty()
            } else {
                m.password.drop_last()
            }) && r.unmasked_until is None && r.deleted_until == Some((now + 150) as u64)
                && !r.auth_error)
            &&& (k.ctrl && (k.code == KeyCode::Char('u') || k.code == KeyCode::Char('w')
                || k.code == KeyCode::Char('h')) ==> r.password.len() == 0
                && r.deleted_until == Some((now + 150) as u64))
            &&& (k.code == KeyCode::Down || k.code == KeyCode::Left ==> r.button_focus == Some(
                0usize,
            ))
            &&& (k.code == KeyCode::Right ==> r.button_focus == Some(1usize))
        }),
{
}

/// The buttons under the password field: Back (focus 0) returns to the
/// list forgetting the password, Confirm (focus 1) starts authenticating
/// the selected user with the typed password; Left, Right and Up move the
/// focus.
pub proof fn password_buttons(m: AppView, k: Key, now: u64)
    requires
        m.screen == Screen::Login,
        m.confirm_action is None,
        !m.authenticating,
        m.button_focus == Some(0usize) || m.button_focus == Some(1usize),
    ensures
        ({
            let r = key_step(m, k, now);
            &&& (k.code == KeyCode::Enter && m.button_focus == Some(0usize) ==> r.1 is Nothing
                && r.0.screen == Screen::UserSelect && r.0.password.len() == 0)
            &&& (k.code == KeyCode::Enter && m.button_focus == Some(1usize) ==> r.1
                == ActionView::StartAuth(
                match selected_name(m) {
                    Some(n) => n,
                    None => Seq::empty(),
                },
                m.password,
            ) && r.0.authenticating && r.0.button_focus is None)
            &&& (k.code == KeyCode::Left ==> r.0 == AppView { button_focus: Some(0), ..m })
            &&& (k.code == KeyCode::Right ==> r.0 == AppView { button_focus: Some(1), ..m })
            &&& (k.code == KeyCode::Up ==> r.0 == AppView { button_focus: None, ..m })
        }),
{
}

/// A successful authentication ends the loop with success; a pending one
/// only advances the spinner.
pub proof fn auth_answers(m: AppView)
    requires
        m.authenticating,
    ensures
        !poll_step(m, AuthPoll::Succeeded).running,
        poll_step(m, AuthPoll::Succeeded).auth_success,
        poll_step(m, AuthPoll::Pending) == (AppView {
            spinner_frame: ((m.spinner_frame + 1) % 8) as usize,
            ..m
        }),
{
}

/// Deadlines are dropped exactly when reached, and the wait until the next
/// one is the time left to the earliest pending deadline.
pub proof fn deadlines_expire_when_reached(t: Option<u64>, d: u64, now: u64)
    ensures
        t == Some(d) ==> (expire(t, now) is None <==> now >= d),
        t == Some(d) ==> (expire(t, now) is Some ==> expire(t, now) == t),
        t is None ==> expire(t, now) is None,
        t == Some(d) && d > now ==> remaining(t, now) == Some((d - now) as u64),
        t == Some(d) && d <= now ==> remaining(t, now) is None,
{
}

/// The login screen shows "Invalid password" after a failed attempt, and
/// the spinner message (its frame chosen by the spinner counter) while
/// authenticating.
pub proof fn login_screen_shows_state(m: AppView, cols: u16, rows: u16, now: u64)
    requires
        m.screen == Screen::Login,
    ensures
        ({
            let ops = screen_ops(m, cols, rows, now);
            &&& m.auth_error ==> exists|i: int|
                #![trigger ops[i]]
                0 <= i < ops.len() && ops[i] == Op::Print("Invalid password"@)
            &&& m.authenticating ==> exists|i: int|
                #![trigger ops[i]]
                0 <= i < ops.len() && ops[i] == Op::Print(auth_message(m.spinner_frame))
        }),
{
    let ops = screen_ops(m, cols, rows, now);
    let bh = login_box_height(m.auth_error);
    let x = cols.saturating_sub(60) / 2;
    let y = rows.saturating_sub(bh) / 2;
    let name = match selected_name(m) {
        Some(n) => n,
        None => "?"@,
    };
    let icon = icon_ops(cols, rows, filtered(m).len() as usize, m.icon_style);
    let bx = box_ops(x, y, 60, bh, "Login as "@ + truncated(name, 32));
    let k0 = (icon.len() + bx.len()) as int;
    if m.auth_error {
        assert(ops[k0 + 3] == Op::Print("Invalid password"@));
    }
    if m.authenticating {
        let k1 = if m.auth_error {
            k0 + 4
        } else {
            k0
        };
        assert(ops[k1 + 3] == Op::Print(auth_message(m.spinner_frame)));
    }
}

/// Every row of the window `scroll .. scroll + n` is drawn; the selected
/// one, when no button is focused, in reverse video and padded to the box.
proof fn row_is_drawn(
    x: u16,
    y: u16,
    width: u16,
    users: Seq<Seq<char>>,
    selected: usize,
    scroll: nat,
    n: nat,
)
    requires
        scroll <= selected < scroll + n,
    ensures
        ({
            let ops = user_rows_ops(x, y, width, users, selected, None, scroll, n);
            exists|i: int|
                #![trigger ops[i]]
                0 <= i && i + 2 < ops.len() && ops[i] == Op::SetAttr(Attribute::Reverse) && ops[i
                    + 2] == Op::Print(pad_right(users[selected as int], width.saturating_sub(4) as nat))
        }),
    decreases n,
{
    let ops = user_rows_ops(x, y, width, users, selected, None, scroll, n);
    let prev = user_rows_ops(x, y, width, users, selected, None, scroll, (n - 1) as nat);
    if selected == scroll + n - 1 {
        let k = prev.len() as int;
        assert(ops[k + 1] == Op::SetAttr(Attribute::Reverse));
        assert(ops[k + 3] == Op::Print(pad_right(users[selected as int], width.saturating_sub(4) as nat)));
        assert(ops[k + 1 + 2] == ops[k + 3]);
    } else {
        row_is_drawn(x, y, width, users, selected, scroll, (n - 1) as nat);
        let i = choose|i: int|
            #![trigger prev[i]]
            0 <= i && i + 2 < prev.len() && prev[i] == Op::SetAttr(Attribute::Reverse) && prev[i
                + 2] == Op::Print(pad_right(users[selected as int], width.saturating_sub(4) as nat));
        assert(ops[i] == prev[i]);
        assert(ops[i + 2] == prev[i + 2]);
    }
}

/// On the user list (no dialog, no button focused) the selected user is
/// always drawn, in reverse video and padded to the box's width, however
/// far the list has scrolled.
pub proof fn selected_user_is_highlighted(m: AppView, cols: u16, rows: u16, now: u64)
    requires
        wf(m),
        m.screen == Screen::UserSelect,
        m.confirm_action is None,
        m.button_focus is None,
        filtered(m).len() > 0,
        m.users.len() <= usize::MAX,
    ensures
        ({
            let ops = screen_ops(m, cols, rows, now);
            exists|i: int|
                #![trigger ops[i]]
                0 <= i && i + 2 < ops.len() && ops[i] == Op::SetAttr(Attribute::Reverse) && ops[i
                    + 2] == Op::Print(
                    pad_right(
                        filtered(m)[m.selected_index as int],
                        users_box_width().saturating_sub(4) as nat,
                    ),
                )
        }),
{
    reveal(list_screen_ops);
    reveal(list_ops);
    m.users.lemma_filter_len(|u: Seq<char>| user_matches(u, m.search_query));
    let users = filtered(m);
    let len = users.len() as usize;
    let sel = m.selected_index;
    scroll_keeps_selection_visible(sel, len, MAX_VISIBLE);
    let scroll = scroll_offset(sel, len, MAX_VISIBLE);
    let visible = visible_rows(len);
    let end = if scroll + visible < len {
        scroll + visible
    } else {
        len as int
    };
    let w = users_box_width();
    let bh = (visible + 6) as u16;
    let x = cols.saturating_sub(w) / 2;
    let y = rows.saturating_sub(bh) / 2;
    let rows_ops = user_rows_ops(x, y, w, users, sel, None, scroll as nat, (end - scroll) as nat);
    row_is_drawn(x, y, w, users, sel, scroll as nat, (end - scroll) as nat);
    let i = choose|i: int|
        #![trigger rows_ops[i]]
        0 <= i && i + 2 < rows_ops.len() && rows_ops[i] == Op::SetAttr(Attribute::Reverse)
            && rows_ops[i + 2] == Op::Print(pad_right(users[sel as int], w.saturating_sub(4) as nat));
    let ops = screen_ops(m, cols, rows, now);
    let pre = icon_ops(cols, rows, len, m.icon_style) + box_ops(x, y, w, bh, crate::tui::screen_users::users_title());
    let k = pre.len() as int;
    assert(list_ops(x, y, users, sel, m.search_active, None) == rows_ops);
    assert(ops[k + i] == rows_ops[i]);
    assert(ops[k + i + 2] == rows_ops[i + 2]);
}

} // verus!
