//! Screen layout: every drawing routine appends the terminal operations that
//! draw its part of the screen to a list, which the caller then sends to the
//! terminal in order.

pub mod screen_login;
pub mod screen_users;

use vstd::prelude::*;

use crate::state::{filtered, selected_name, App, AppView, Screen};
use crate::text::{byte_len, chars_of, repeat, repeat_char, string_from_chars};
use crate::width::{display_width, str_width};
use crate::tui::screen_login::{login_cursor, login_ops};
use crate::tui::screen_users::{users_cursor, users_ops, users_screen_fits};

verus! {

/// Which icon is drawn above the boxes.
#[derive(Debug, Clone, Copy, PartialEq, Eq, Structural)]
pub enum IconStyle {
    Hidden,
    Filled,
    Outline,
}

/// A terminal color.
#[derive(Debug, Clone, Copy, PartialEq, Eq, Structural)]
pub enum Color {
    /// The terminal's own default.
    Reset,
    Rgb { r: u8, g: u8, b: u8 },
}

/// A text attribute.
#[derive(Debug, Clone, Copy, PartialEq, Eq, Structural)]
pub enum Attribute {
    Reverse,
    Bold,
    /// Back to plain text.
    Reset,
}

/// One terminal operation.
#[derive(Debug, PartialEq, Eq)]
pub enum DrawOp {
    /// Clear the whole screen.
    Clear,
    MoveTo(u16, u16),
    SetFg(Color),
    SetBg(Color),
    SetAttr(Attribute),
    Print(String),
    ShowCursor,
    HideCursor,
}

/// The mathematical value of a `DrawOp`.
pub enum Op {
    Clear,
    MoveTo(u16, u16),
    SetFg(Color),
    SetBg(Color),
    SetAttr(Attribute),
    Print(Seq<char>),
    ShowCursor,
    HideCursor,
}

impl View for DrawOp {
    type V = Op;

    open spec fn view(&self) -> Op {
        match self {
            DrawOp::Clear => Op::Clear,
            DrawOp::MoveTo(x, y) => Op::MoveTo(*x, *y),
            DrawOp::SetFg(c) => Op::SetFg(*c),
            DrawOp::SetBg(c) => Op::SetBg(*c),
            DrawOp::SetAttr(a) => Op::SetAttr(*a),
            DrawOp::Print(s) => Op::Print(s@),
            DrawOp::ShowCursor => Op::ShowCursor,
            DrawOp::HideCursor => Op::HideCursor,
        }
    }
}

/// The operations of a list, as values.
pub open spec fn ops_view(v: Seq<DrawOp>) -> Seq<Op> {
    v.map_values(|o: DrawOp| o@)
}

// ── Aesthetic tokens ────────────────────────────────────────────

/// Background color.
pub const BG: Color = Color::Reset;

/// Foreground color.
pub const FG: Color = Color::Reset;

/// Width of the main boxes.
pub const BOX_WIDTH: u16 = 60;

/// The dimmed color of hints and secondary text.
pub open spec fn dim_color() -> Color {
    Color::Rgb { r: 136, g: 136, b: 136 }
}

/// The dimmed color of hints and secondary text.
pub fn dim() -> (c: Color)
    ensures
        c == dim_color(),
{
    Color::Rgb { r: 136, g: 136, b: 136 }
}

// ── Operation lists ─────────────────────────────────────────────

/// Append one operation.
pub fn emit(ops: &mut Vec<DrawOp>, op: DrawOp)
    ensures
        ops_view(final(ops)@) == ops_view(old(ops)@).push(op@),
{
    let ghost before = ops@;
    ops.push(op);
    assert(ops_view(ops@) =~= ops_view(before).push(op@));
}

/// Append a printed string.
pub fn emit_str(ops: &mut Vec<DrawOp>, s: &str)
    ensures
        ops_view(final(ops)@) == ops_view(old(ops)@).push(Op::Print(s@)),
{
    emit(ops, DrawOp::Print(String::from_str(s)));
}

/// `s` cut to `max_len` characters when it is longer: its first
/// `max_len - 2` characters and "..", or just the first `max_len` dots of
/// ".." when there is no room for more.
pub open spec fn truncated(s: Seq<char>, max_len: usize) -> Seq<char> {
    if s.len() <= max_len {
        s
    } else if max_len >= 2 {
        s.take(max_len - 2) + ".."@
    } else {
        ".."@.take(max_len as int)
    }
}

/// Truncate a string to a maximum length, appending ".." if truncated.
pub fn truncate(s: &str, max_len: usize) -> (r: String)
    ensures
        r@ == truncated(s@, max_len),
{
    let cs = chars_of(s);
    if cs.len() <= max_len {
        String::from_str(s)
    } else if max_len >= 2 {
        let mut t = string_from_chars(&cs, max_len - 2);
        t.append("..");
        t
    } else {
        proof {
            reveal_strlit("..");
        }
        let r = repeat('.', max_len);
        assert(r@ =~= ".."@.take(max_len as int));
        r
    }
}

// ── Box drawing primitives ──────────────────────────────────────

/// Operations that print `text` at a position in the given colors.
pub open spec fn text_ops(x: u16, y: u16, text: Seq<char>, fg: Color, bg: Color) -> Seq<Op> {
    seq![Op::MoveTo(x, y), Op::SetFg(fg), Op::SetBg(bg), Op::Print(text)]
}

/// Draw text at a position with specified colors.
pub fn draw_text(ops: &mut Vec<DrawOp>, x: u16, y: u16, text: &str, fg: Color, bg: Color)
    ensures
        ops_view(final(ops)@) == ops_view(old(ops)@) + text_ops(x, y, text@, fg, bg),
{
    let ghost before = ops_view(ops@);
    emit(ops, DrawOp::MoveTo(x, y));
    emit(ops, DrawOp::SetFg(fg));
    emit(ops, DrawOp::SetBg(bg));
    emit_str(ops, text);
    assert(ops_view(ops@) =~= before + text_ops(x, y, text@, fg, bg));
}

/// Draw a normal row.
pub fn draw_normal_row(ops: &mut Vec<DrawOp>, x: u16, y: u16, text: &str)
    requires
        x + 2 <= u16::MAX,
    ensures
        ops_view(final(ops)@) == ops_view(old(ops)@) + text_ops((x + 2) as u16, y, text@, FG, BG),
{
    draw_text(ops, x + 2, y, text, FG, BG)
}

/// `text` filled up with spaces on the right to `width` characters.
pub open spec fn pad_right(text: Seq<char>, width: nat) -> Seq<char> {
    if text.len() >= width {
        text
    } else {
        text + repeat_char(' ', (width - text.len()) as nat)
    }
}

/// Operations that draw a full-width highlighted row.
pub open spec fn highlighted_row_ops(x: u16, y: u16, text: Seq<char>, width: u16) -> Seq<Op> {
    seq![
        Op::MoveTo((x + 2) as u16, y),
        Op::SetAttr(Attribute::Reverse),
        Op::SetAttr(Attribute::Bold),
        Op::Print(pad_right(text, width.saturating_sub(4) as nat)),
        Op::SetAttr(Attribute::Reset),
        Op::SetFg(FG),
        Op::SetBg(BG),
    ]
}

/// Draw a full-width highlighted row (for selected items).
pub fn draw_highlighted_row(ops: &mut Vec<DrawOp>, x: u16, y: u16, text: &str, width: u16)
    requires
        x + 2 <= u16::MAX,
    ensures
        ops_view(final(ops)@) == ops_view(old(ops)@) + highlighted_row_ops(x, y, text@, width),
{
    let ghost before = ops_view(ops@);
    let inner = width.saturating_sub(4) as usize;
    let n = text.unicode_len();
    let mut padded = String::from_str(text);
    if n < inner {
        let fill = repeat(' ', inner - n);
        padded.append(fill.as_str());
    }
    emit(ops, DrawOp::MoveTo(x + 2, y));
    emit(ops, DrawOp::SetAttr(Attribute::Reverse));
    emit(ops, DrawOp::SetAttr(Attribute::Bold));
    emit(ops, DrawOp::Print(padded));
    emit(ops, DrawOp::SetAttr(Attribute::Reset));
    emit(ops, DrawOp::SetFg(FG));
    emit(ops, DrawOp::SetBg(BG));
    assert(ops_view(ops@) =~= before + highlighted_row_ops(x, y, text@, width));
}

/// The title as it stands in the top border.
pub open spec fn decorated_title(title: Seq<char>) -> Seq<char> {
    "┤ "@ + title + " ├"@
}

/// Operations of the top border.
pub open spec fn box_top_ops(x: u16, y: u16, width: u16, title: Seq<char>) -> Seq<Op> {
    let title_len = decorated_title(title).len() as u16;
    let remaining = width.saturating_sub(2).saturating_sub(title_len);
    let left_pad = remaining / 2;
    let right_pad = (remaining - left_pad) as u16;
    seq![
        Op::SetFg(FG),
        Op::SetBg(BG),
        Op::MoveTo(x, y),
        Op::Print("┌"@),
        Op::Print(repeat_char('─', left_pad as nat)),
        Op::Print(decorated_title(title)),
        Op::Print(repeat_char('─', right_pad as nat)),
        Op::Print("┐"@),
    ]
}

/// Operations of one side row of a box, `row` rows below its top.
pub open spec fn box_row_ops(x: u16, y: u16, width: u16, row: u16) -> Seq<Op> {
    seq![
        Op::MoveTo(x, (y + row) as u16),
        Op::Print("│"@),
        Op::Print(repeat_char(' ', width.saturating_sub(2) as nat)),
        Op::MoveTo((x + width - 1) as u16, (y + row) as u16),
        Op::Print("│"@),
    ]
}

/// Operations of the side rows 1 to `count`.
pub open spec fn box_rows_ops(x: u16, y: u16, width: u16, count: u16) -> Seq<Op>
    decreases count,
{
    if count == 0 {
        Seq::empty()
    } else {
        box_rows_ops(x, y, width, (count - 1) as u16) + box_row_ops(x, y, width, count)
    }
}

/// Operations of the bottom border.
pub open spec fn box_bottom_ops(x: u16, y: u16, width: u16, height: u16) -> Seq<Op> {
    seq![
        Op::MoveTo(x, (y + height - 1) as u16),
        Op::Print("└"@),
        Op::Print(repeat_char('─', width.saturating_sub(2) as nat)),
        Op::Print("┘"@),
    ]
}

/// Operations that draw a box with a centered title on its top border.
#[verifier::opaque]
pub open spec fn box_ops(x: u16, y: u16, width: u16, height: u16, title: Seq<char>) -> Seq<Op> {
    box_top_ops(x, y, width, title) + box_rows_ops(x, y, width, height.saturating_sub(2))
        + box_bottom_ops(x, y, width, height)
}

/// The positions that a box may take without its coordinates overflowing.
pub open spec fn box_fits(x: u16, y: u16, width: u16, height: u16) -> bool {
    &&& 1 <= y + height <= u16::MAX
    &&& (height >= 3 ==> 1 <= x + width <= u16::MAX)
}

/// Draw a box with a centered title on the top border.
///
/// ```text
/// ┌──────┤ Title ├──────┐
/// │                     │
/// └─────────────────────┘
/// ```
pub fn draw_box(ops: &mut Vec<DrawOp>, x: u16, y: u16, width: u16, height: u16, title: &str)
    requires
        box_fits(x, y, width, height),
    ensures
        ops_view(final(ops)@) == ops_view(old(ops)@) + box_ops(x, y, width, height, title@),
{
    reveal(box_ops);
    let ghost before = ops_view(ops@);
    emit(ops, DrawOp::SetFg(FG));
    emit(ops, DrawOp::SetBg(BG));
    // Top border with title
    let mut title_decorated = String::from_str("┤ ");
    title_decorated.append(title);
    title_decorated.append(" ├");
    let title_len = title_decorated.as_str().unicode_len() as u16;
    let remaining = width.saturating_sub(2).saturating_sub(title_len);
    let left_pad = remaining / 2;
    let right_pad = remaining - left_pad;
    emit(ops, DrawOp::MoveTo(x, y));
    emit_str(ops, "┌");
    emit(ops, DrawOp::Print(repeat('─', left_pad as usize)));
    emit(ops, DrawOp::Print(title_decorated));
    emit(ops, DrawOp::Print(repeat('─', right_pad as usize)));
    emit_str(ops, "┐");
    assert(ops_view(ops@) =~= before + box_top_ops(x, y, width, title@));
    // Side borders with cleared interior
    let last = height.saturating_sub(1);
    let mut row: u16 = 1;
    while row < last
        invariant
            box_fits(x, y, width, height),
            last == height.saturating_sub(1),
            1 <= row,
            row <= last || row == 1,
            ops_view(ops@) == before + box_top_ops(x, y, width, title@) + box_rows_ops(
                x,
                y,
                width,
                (row - 1) as u16,
            ),
        decreases last - row,
    {
        let ghost mid = ops_view(ops@);
        emit(ops, DrawOp::MoveTo(x, y + row));
        emit_str(ops, "│");
        emit(ops, DrawOp::Print(repeat(' ', width.saturating_sub(2) as usize)));
        emit(ops, DrawOp::MoveTo(x + width - 1, y + row));
        emit_str(ops, "│");
        assert(ops_view(ops@) =~= mid + box_row_ops(x, y, width, row));
        row = row + 1;
    }
    assert((row - 1) as u16 == height.saturating_sub(2));
    let ghost mid = ops_view(ops@);
    // Bottom border
    emit(ops, DrawOp::MoveTo(x, y + height - 1));
    emit_str(ops, "└");
    emit(ops, DrawOp::Print(repeat('─', width.saturating_sub(2) as usize)));
    emit_str(ops, "┘");
    assert(ops_view(ops@) =~= mid + box_bottom_ops(x, y, width, height));
}


// ── Buttons ─────────────────────────────────────────────────────

/// A button label in its brackets.
pub open spec fn bracketed(label: Seq<char>) -> Seq<char> {
    "["@ + label + "]"@
}

/// The width of two buttons with their brackets, counting bytes.
pub open spec fn buttons_len(left: Seq<char>, right: Seq<char>) -> u16 {
    (byte_len(left) + 2 + byte_len(right) + 2) as u16
}

/// The gap between the buttons: four spaces, or five when that makes the
/// pair center exactly in a box of this width.
pub open spec fn gap_width(box_width: u16, buttons: u16) -> u16 {
    if box_width % 2 != (buttons + 4) % 2 {
        5
    } else {
        4
    }
}

/// The column at which the pair starts.
pub open spec fn buttons_x(x: u16, box_width: u16, left: Seq<char>, right: Seq<char>) -> u16 {
    let b = buttons_len(left, right);
    (x + box_width.saturating_sub((b + gap_width(box_width, b)) as u16) / 2) as u16
}

/// The inputs for which the button arithmetic does not overflow.
pub open spec fn button_pair_fits(x: u16, box_width: u16, left: Seq<char>, right: Seq<char>) -> bool {
    let b = buttons_len(left, right);
    &&& byte_len(left) + byte_len(right) + 4 <= usize::MAX
    &&& b + 4 <= u16::MAX
    &&& b + gap_width(box_width, b) <= u16::MAX
    &&& x + box_width.saturating_sub((b + gap_width(box_width, b)) as u16) / 2 <= u16::MAX
}

/// Operations of one button, highlighted when focused.
pub open spec fn button_ops(label: Seq<char>, focused: bool) -> Seq<Op> {
    if focused {
        seq![
            Op::SetAttr(Attribute::Reverse),
            Op::Print(bracketed(label)),
            Op::SetAttr(Attribute::Reset),
            Op::SetFg(FG),
            Op::SetBg(BG),
        ]
    } else {
        seq![Op::SetFg(FG), Op::Print(bracketed(label))]
    }
}

/// Operations that draw a pair of buttons centered in a box.
#[verifier::opaque]
pub open spec fn button_pair_ops(
    x: u16,
    y: u16,
    box_width: u16,
    left: Seq<char>,
    right: Seq<char>,
    focus: Option<usize>,
) -> Seq<Op> {
    let b = buttons_len(left, right);
    seq![Op::MoveTo(buttons_x(x, box_width, left, right), y)] + button_ops(left, focus == Some(0usize))
        + seq![Op::SetFg(FG), Op::SetBg(BG), Op::Print(repeat_char(' ', gap_width(box_width, b) as nat))]
        + button_ops(right, focus == Some(1usize)) + seq![Op::SetFg(FG), Op::SetBg(BG)]
}

/// Draw one button.
fn draw_button(ops: &mut Vec<DrawOp>, label: &str, focused: bool)
    ensures
        ops_view(final(ops)@) == ops_view(old(ops)@) + button_ops(label@, focused),
{
    let ghost before = ops_view(ops@);
    let mut text = String::from_str("[");
    text.append(label);
    text.append("]");
    if focused {
        emit(ops, DrawOp::SetAttr(Attribute::Reverse));
        emit(ops, DrawOp::Print(text));
        emit(ops, DrawOp::SetAttr(Attribute::Reset));
        emit(ops, DrawOp::SetFg(FG));
        emit(ops, DrawOp::SetBg(BG));
    } else {
        emit(ops, DrawOp::SetFg(FG));
        emit(ops, DrawOp::Print(text));
    }
    assert(ops_view(ops@) =~= before + button_ops(label@, focused));
}

/// Draw a pair of buttons centered in the box, with optional focus highlight.
///
/// `button_focus`: None = both dim, Some(0) = left highlighted, Some(1) = right highlighted.
pub fn draw_button_pair(
    ops: &mut Vec<DrawOp>,
    x: u16,
    y: u16,
    box_width: u16,
    left: &str,
    right: &str,
    button_focus: Option<usize>,
)
    requires
        button_pair_fits(x, box_width, left@, right@),
    ensures
        ops_view(final(ops)@) == ops_view(old(ops)@) + button_pair_ops(
            x,
            y,
            box_width,
            left@,
            right@,
            button_focus,
        ),
{
    reveal(button_pair_ops);
    let ghost before = ops_view(ops@);
    // Visual length of the texts, including the brackets "[]"
    let buttons = (left.len() + 2 + right.len() + 2) as u16;
    // If the parity of the box width does not match the parity of the buttons
    // plus the base gap of 4, one more space lets the pair center exactly.
    let gap: u16 = if box_width % 2 != (buttons + 4) % 2 {
        5
    } else {
        4
    };
    let total = buttons + gap;
    let btn_x = x + (box_width.saturating_sub(total)) / 2;
    emit(ops, DrawOp::MoveTo(btn_x, y));
    draw_button(ops, left, button_focus == Some(0usize));
    emit(ops, DrawOp::SetFg(FG));
    emit(ops, DrawOp::SetBg(BG));
    emit(ops, DrawOp::Print(repeat(' ', gap as usize)));
    draw_button(ops, right, button_focus == Some(1usize));
    emit(ops, DrawOp::SetFg(FG));
    emit(ops, DrawOp::SetBg(BG));
    assert(ops_view(ops@) =~= before + button_pair_ops(x, y, box_width, left@, right@, button_focus));
}

// ── Hints bar ───────────────────────────────────────────────────

/// The columns that the first `n` hints take, with two spaces between hints
/// and wide and ambiguous characters counting two columns.
pub open spec fn hints_width(hints: Seq<(&str, &str)>, n: nat) -> nat
    decreases n,
{
    if n == 0 {
        0
    } else {
        let i = (n - 1) as int;
        hints_width(hints, (n - 1) as nat) + (if i > 0 { 2nat } else { 0nat }) + display_width(
            hints[i].0@,
        ) + 1 + display_width(hints[i].1@)
    }
}

/// Operations that print the first `n` hints.
pub open spec fn hints_ops(hints: Seq<(&str, &str)>, n: nat) -> Seq<Op>
    decreases n,
{
    if n == 0 {
        Seq::empty()
    } else {
        let i = (n - 1) as int;
        hints_ops(hints, (n - 1) as nat) + (if i > 0 { seq![Op::Print("  "@)] } else { Seq::empty() })
            + seq![
            Op::SetFg(FG),
            Op::Print(hints[i].0@),
            Op::SetFg(dim_color()),
            Op::Print(" "@ + hints[i].1@),
        ]
    }
}

/// Operations of the hints bar: centered on the terminal at row `y`.
#[verifier::opaque]
pub open spec fn hints_bar_ops(cols: u16, y: u16, hints: Seq<(&str, &str)>) -> Seq<Op> {
    let total = hints_width(hints, hints.len());
    let x = (cols as nat - total) / 2;
    seq![Op::MoveTo((if total >= cols { 0 } else { x }) as u16, y)] + hints_ops(hints, hints.len())
}

proof fn hints_width_grows(hints: Seq<(&str, &str)>, i: nat, n: nat)
    requires
        i <= n,
    ensures
        hints_width(hints, i) <= hints_width(hints, n),
    decreases n,
{
    if i < n {
        hints_width_grows(hints, i, (n - 1) as nat);
    }
}

/// Draw the hints bar below the box, centered on the terminal.
///
/// Measures the display width of the whole bar first, counting East Asian
/// Wide and Ambiguous characters such as ↑↓ (which some terminals render as
/// two columns) as two, then positions it once.
pub fn draw_hints(ops: &mut Vec<DrawOp>, cols: u16, y: u16, hints: &[(&str, &str)])
    requires
        hints_width(hints@, hints@.len()) <= usize::MAX,
    ensures
        ops_view(final(ops)@) == ops_view(old(ops)@) + hints_bar_ops(cols, y, hints@),
{
    reveal(hints_bar_ops);
    let ghost before = ops_view(ops@);
    // Measure total visible columns of the rendered hints string
    let mut total: usize = 0;
    let mut i: usize = 0;
    while i < hints.len()
        invariant
            i <= hints@.len(),
            total == hints_width(hints@, i as nat),
            hints_width(hints@, hints@.len()) <= usize::MAX,
        decreases hints@.len() - i,
    {
        proof {
            hints_width_grows(hints@, (i + 1) as nat, hints@.len());
        }
        let (key, action) = hints[i];
        let sep: usize = if i > 0 {
            2
        } else {
            0
        };
        total = total + sep + str_width(key) + 1 + str_width(action);
        i = i + 1;
    }
    let x = (cols as usize).saturating_sub(total) / 2;
    emit(ops, DrawOp::MoveTo(x as u16, y));
    let ghost start = ops_view(ops@);
    let mut j: usize = 0;
    while j < hints.len()
        invariant
            j <= hints@.len(),
            ops_view(ops@) == start + hints_ops(hints@, j as nat),
        decreases hints@.len() - j,
    {
        let ghost mid = ops_view(ops@);
        let (key, action) = hints[j];
        if j > 0 {
            emit_str(ops, "  ");
        }
        emit(ops, DrawOp::SetFg(FG));
        emit_str(ops, key);
        emit(ops, DrawOp::SetFg(dim()));
        let mut a = String::from_str(" ");
        a.append(action);
        emit(ops, DrawOp::Print(a));
        assert(ops_view(ops@) =~= start + hints_ops(hints@, (j + 1) as nat));
        j = j + 1;
    }
    assert(ops_view(ops@) =~= before + hints_bar_ops(cols, y, hints@));
}

// ── Icon ────────────────────────────────────────────────────────

/// The lines of each icon.
pub open spec fn icon_rows(style: IconStyle) -> Seq<Seq<char>> {
    match style {
        IconStyle::Hidden => Seq::empty(),
        IconStyle::Filled => seq![
                "   ▄███████████▄   "@,
                "  ▀▀▀█████████▀▀▀  "@,
                " ▄▀▀▄ ▀█████▀ ▄▀▀▄ "@,
                "▀▄  ▄▀ █▀▀▀█ ▀▄  ▄▀"@,
                "▄ ▀▀ ▄▀     ▀▄ ▀▀ ▄"@,
                "██████▄     ▄██████"@,
                "████████▄ ▄████████"@,
                "███████████████████"@,
                "▀█████████████████▀"@,
                "  ▀█████████████▀  "@,
            ],
        IconStyle::Outline => seq![
                "    ▄▀▀▀▀▀▀▀▀▀▀▀▄    "@,
                "   ▀             ▀   "@,
                " ▄▀▀▀▀▄       ▄▀▀▀▀▄ "@,
                "█ ▄██▄ █     █ ▄██▄ █"@,
                "█▄ ▀▀ ▄▀▄▀▀▀▄▀▄ ▀▀ ▄█"@,
                "█ ▀▀▀▀ █     █ ▀▀▀▀ █"@,
                "█       ▀▄ ▄▀       █"@,
                "█         ▀         █"@,
                "█                   █"@,
                "▀▄                 ▄▀"@,
                "  ▀▄▄▄▄▄▄▄▄▄▄▄▄▄▄▄▀  "@,
            ],
    }
}

/// The lines of an icon.
pub fn icon_lines(style: IconStyle) -> (r: Vec<&'static str>)
    ensures
        r@.map_values(|s: &str| s@) == icon_rows(style),
{
    let mut v: Vec<&'static str> = Vec::new();
    match style {
        IconStyle::Hidden => {},
        IconStyle::Filled => {
            v.push("   ▄███████████▄   ");
            v.push("  ▀▀▀█████████▀▀▀  ");
            v.push(" ▄▀▀▄ ▀█████▀ ▄▀▀▄ ");
            v.push("▀▄  ▄▀ █▀▀▀█ ▀▄  ▄▀");
            v.push("▄ ▀▀ ▄▀     ▀▄ ▀▀ ▄");
            v.push("██████▄     ▄██████");
            v.push("████████▄ ▄████████");
            v.push("███████████████████");
            v.push("▀█████████████████▀");
            v.push("  ▀█████████████▀  ");
        },
        IconStyle::Outline => {
            v.push("    ▄▀▀▀▀▀▀▀▀▀▀▀▄    ");
            v.push("   ▀             ▀   ");
            v.push(" ▄▀▀▀▀▄       ▄▀▀▀▀▄ ");
            v.push("█ ▄██▄ █     █ ▄██▄ █");
            v.push("█▄ ▀▀ ▄▀▄▀▀▀▄▀▄ ▀▀ ▄█");
            v.push("█ ▀▀▀▀ █     █ ▀▀▀▀ █");
            v.push("█       ▀▄ ▄▀       █");
            v.push("█         ▀         █");
            v.push("█                   █");
            v.push("▀▄                 ▄▀");
            v.push("  ▀▄▄▄▄▄▄▄▄▄▄▄▄▄▄▄▀  ");
        },
    }
    assert(v@.map_values(|s: &str| s@) =~= icon_rows(style));
    v
}

/// Operations that print `lines[from..n]` on consecutive rows from `y`,
/// the first of them at row `y + from`.
pub open spec fn lines_ops(x: u16, y: u16, lines: Seq<Seq<char>>, n: nat) -> Seq<Op>
    decreases n,
{
    if n == 0 {
        Seq::empty()
    } else {
        lines_ops(x, y, lines, (n - 1) as nat) + text_ops(
            x,
            (y + (n - 1)) as u16,
            lines[n - 1],
            FG,
            BG,
        )
    }
}

/// Operations that draw the icon centered in the space above the user box.
#[verifier::opaque]
pub open spec fn icon_ops(cols: u16, rows: u16, num_users: usize, style: IconStyle) -> Seq<Op> {
    let icon = icon_rows(style);
    let icon_height = icon.len() as u16;
    let visible_count = (if num_users < 10 { num_users } else { 10 }) as u16;
    let user_box_height = (visible_count + 6) as u16;
    let safe_box_y = rows.saturating_sub(user_box_height) / 2;
    if style == IconStyle::Hidden || safe_box_y <= icon_height {
        Seq::empty()
    } else {
        let start_y = ((safe_box_y - icon_height) / 2 + 1) as u16;
        let start_x = cols.saturating_sub(icon[0].len() as u16) / 2;
        lines_ops(start_x, start_y, icon, icon.len())
    }
}

/// Draws the icon centered in the empty space above, ensuring it doesn't
/// jump when switching screens.
pub fn draw_icon(ops: &mut Vec<DrawOp>, cols: u16, rows: u16, num_users: usize, style: IconStyle)
    ensures
        ops_view(final(ops)@) == ops_view(old(ops)@) + icon_ops(cols, rows, num_users, style),
{
    reveal(icon_ops);
    let ghost before = ops_view(ops@);
    if style == IconStyle::Hidden {
        assert(ops_view(ops@) =~= before + icon_ops(cols, rows, num_users, style));
        return;
    }
    let icon = icon_lines(style);
    let ghost rows_v = icon_rows(style);
    assert(icon@.map_values(|s: &str| s@).len() == icon@.len());
    let icon_height = icon.len() as u16;
    // The highest point that the users box reaches
    let visible_count = (if num_users < 10 {
        num_users
    } else {
        10
    }) as u16;
    let user_box_height = visible_count + 6;
    // The row at which the users box starts
    let safe_box_y = rows.saturating_sub(user_box_height) / 2;
    // If there is enough space for the icon, center it in that space
    if safe_box_y > icon_height {
        // One row lower: the optical center of the logo sits below its middle
        let start_y = (safe_box_y - icon_height) / 2 + 1;
        assert(icon@.map_values(|s: &str| s@)[0] == icon@[0]@);
        let icon_width = icon[0].unicode_len() as u16;
        let start_x = cols.saturating_sub(icon_width) / 2;
        let mut i: usize = 0;
        while i < icon.len()
            invariant
                rows_v == icon_rows(style),
                icon@.map_values(|s: &str| s@) == rows_v,
                rows_v.len() <= 11,
                start_y <= u16::MAX / 2 + 1,
                i <= icon@.len(),
                ops_view(ops@) == before + lines_ops(start_x, start_y, rows_v, i as nat),
            decreases icon@.len() - i,
        {
            assert(icon@.map_values(|s: &str| s@)[i as int] == icon@[i as int]@);
            draw_text(ops, start_x, start_y + i as u16, icon[i], FG, BG);
            i = i + 1;
        }
    }
}

// ── Whole screen ────────────────────────────────────────────────

/// Whether a deadline is still ahead of `now`.
pub open spec fn before_deadline(t: Option<u64>, now: u64) -> bool {
    match t {
        Some(until) => now < until,
        None => false,
    }
}

/// The name shown on the login screen: the selected user, or "?".
pub open spec fn login_name(m: AppView) -> Seq<char> {
    match selected_name(m) {
        Some(n) => n,
        None => "?"@,
    }
}

/// The operations of the active screen, without the cursor.
pub open spec fn screen_ops(m: AppView, cols: u16, rows: u16, now: u64) -> Seq<Op> {
    match m.screen {
        Screen::UserSelect => users_ops(
            cols,
            rows,
            filtered(m),
            m.selected_index,
            m.search_active,
            m.search_query,
            m.button_focus,
            m.confirm_action,
            m.confirm_focus,
            m.icon_style,
        ),
        Screen::Login => login_ops(
            cols,
            rows,
            login_name(m),
            m.password,
            m.auth_error,
            m.authenticating,
            m.spinner_frame,
            m.button_focus,
            before_deadline(m.unmasked_until, now),
            filtered(m).len() as usize,
            m.icon_style,
        ),
    }
}

/// Where the whole screen leaves the cursor: where the active screen puts
/// it, the login screen being told from `now` whether the last typed
/// character is unmasked and whether a deletion flash is showing.
pub open spec fn render_cursor(m: AppView, cols: u16, rows: u16, now: u64) -> Option<(u16, u16)> {
    match m.screen {
        Screen::UserSelect => users_cursor(
            cols,
            rows,
            filtered(m).len() as usize,
            m.search_active,
            m.search_query,
            m.confirm_action,
        ),
        Screen::Login => login_cursor(
            cols,
            rows,
            m.password,
            m.auth_error,
            m.authenticating,
            m.button_focus,
            before_deadline(m.unmasked_until, now),
            before_deadline(m.deleted_until, now),
        ),
    }
}

/// The operations that place or hide the cursor.
pub open spec fn cursor_ops(cursor: Option<(u16, u16)>) -> Seq<Op> {
    match cursor {
        Some((cx, cy)) => seq![Op::ShowCursor, Op::MoveTo(cx, cy)],
        None => seq![Op::HideCursor],
    }
}

/// The operations that draw the whole screen for state `m`, ending with the
/// cursor placed where the screen puts it (`cursor`).
pub open spec fn render_ops(
    m: AppView,
    cols: u16,
    rows: u16,
    now: u64,
    cursor: Option<(u16, u16)>,
) -> Seq<Op> {
    seq![Op::SetBg(BG), Op::Clear] + text_ops(0, 0, "Terminal Login Manager Daemon"@, FG, BG)
        + screen_ops(m, cols, rows, now) + cursor_ops(cursor)
}

/// The states in which drawing does not overflow a coordinate.
pub open spec fn render_fits(m: AppView, cols: u16) -> bool {
    m.screen == Screen::UserSelect && m.confirm_action is None ==> users_screen_fits(
        cols,
        m.search_active,
        m.search_query,
    )
}

/// Whether `render` may draw this state on a terminal this wide.
pub fn fits(app: &App, cols: u16) -> (r: bool)
    ensures
        r == render_fits(app@, cols),
{
    if app.screen == Screen::UserSelect && app.confirm_action.is_none() && app.search_active {
        let mut search_display = String::from_str("/ ");
        search_display.append(app.search_query.as_str());
        let n = search_display.as_str().unicode_len() as u16;
        proof {
            reveal_strlit("Choose user");
        }
        (cols.saturating_sub(BOX_WIDTH + 1) / 2) as u32 + 2 + n as u32 <= 0xFFFF
    } else {
        true
    }
}

/// Render the current screen; returns where the cursor goes.
pub fn render(ops: &mut Vec<DrawOp>, app: &App, cols: u16, rows: u16, now: u64) -> (r: Option<
    (u16, u16),
>)
    requires
        render_fits(app@, cols),
    ensures
        r == render_cursor(app@, cols, rows, now),
        ops_view(final(ops)@) == ops_view(old(ops)@) + render_ops(app@, cols, rows, now, r),
{
    let ghost before = ops_view(ops@);
    emit(ops, DrawOp::SetBg(BG));
    emit(ops, DrawOp::Clear);
    // The top header at absolute zero, without padding
    draw_text(ops, 0, 0, "Terminal Login Manager Daemon", FG, BG);
    let ghost head = ops_view(ops@);
    let cursor_pos = match app.screen {
        Screen::UserSelect => {
            let filtered_names = app.filtered_users();
            crate::tui::screen_users::render(
                ops,
                cols,
                rows,
                filtered_names.as_slice(),
                app.selected_index,
                app.search_active,
                app.search_query.as_str(),
                app.button_focus,
                app.confirm_action.as_ref(),
                app.confirm_focus,
                app.icon_style,
            )
        },
        Screen::Login => {
            let username = match app.selected_username() {
                Some(u) => u,
                None => "?",
            };
            let show_last_char = match app.unmasked_until {
                Some(until) => now < until,
                None => false,
            };
            let show_delete_flash = match app.deleted_until {
                Some(until) => now < until,
                None => false,
            };
            crate::tui::screen_login::render(
                ops,
                cols,
                rows,
                username,
                app.password.as_string().as_str(),
                app.auth_error,
                app.authenticating,
                app.spinner_frame,
                app.button_focus,
                show_last_char,
                show_delete_flash,
                app.filtered_users().len(),
                app.icon_style,
            )
        },
    };
    assert(ops_view(ops@) == head + screen_ops(app@, cols, rows, now));
    let ghost body = ops_view(ops@);
    match cursor_pos {
        Some((cx, cy)) => {
            emit(ops, DrawOp::ShowCursor);
            emit(ops, DrawOp::MoveTo(cx, cy));
        },
        None => {
            emit(ops, DrawOp::HideCursor);
        },
    }
    assert(ops_view(ops@) =~= before + render_ops(app@, cols, rows, now, cursor_pos));
    cursor_pos
}
} // verus!
