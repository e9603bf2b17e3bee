//! The frame layout of the month view.
//!
//! A frame is a sequence of [`DrawOp`]s: clear the screen, then
//! write each piece of text at an absolute cell position, optionally
//! in reverse video. The library computes the whole frame; an
//! executable only has to replay the operations on a terminal.
//!
//! The grid is 7 columns of 3 characters (no trailing space after
//! the last column, so 20 visible columns) by 6 rows, starting at
//! screen row 2 under a centered title and a fixed weekday header.
//! Day `d` occupies column `(first_column + d - 1) % 7` and row
//! `(first_column + d - 1) / 7`, where `first_column` is the grid
//! column of the month's first weekday.

use vstd::prelude::*;

use crate::date::{
    days_in_month, days_in_month_spec, first_of_month_spec, month_name, month_name_spec,
    sunday_start_index, valid_date, weekday_column_of_date, weekday_of, Date,
};

verus! {

/// One drawing instruction for the terminal.
#[derive(Debug)]
pub enum DrawOp {
    /// Clear the whole screen.
    Clear,
    /// Write `text` with its first character at column `x` of row
    /// `y`, in reverse video when `reverse` is set.
    Text { x: u16, y: u16, text: String, reverse: bool },
}

/// Whether `op` writes exactly `text` at (`x`, `y`) with the given
/// video attribute.
pub open spec fn is_text_op(op: DrawOp, x: int, y: int, text: Seq<char>, reverse: bool) -> bool {
    match op {
        DrawOp::Text { x: ox, y: oy, text: otext, reverse: orev } => {
            &&& ox == x
            &&& oy == y
            &&& otext@ == text
            &&& orev == reverse
        },
        _ => false,
    }
}

/// `n` spaces.
pub open spec fn spaces_seq(n: nat) -> Seq<char> {
    Seq::new(n, |i: int| ' ')
}

/// The decimal digit `d` as a character sequence, for `d` in 0..=9.
pub open spec fn digit_seq(d: int) -> Seq<char> {
    if d == 0 {
        "0"@
    } else if d == 1 {
        "1"@
    } else if d == 2 {
        "2"@
    } else if d == 3 {
        "3"@
    } else if d == 4 {
        "4"@
    } else if d == 5 {
        "5"@
    } else if d == 6 {
        "6"@
    } else if d == 7 {
        "7"@
    } else if d == 8 {
        "8"@
    } else {
        "9"@
    }
}

/// `n` written in decimal without leading zeros, for `n >= 0`.
pub open spec fn dec_seq(n: int) -> Seq<char>
    decreases n,
    when n >= 0
{
    if n < 10 {
        digit_seq(n)
    } else {
        dec_seq(n / 10) + digit_seq(n % 10)
    }
}

/// A day of month right-aligned to two characters.
pub open spec fn day2_seq(d: int) -> Seq<char> {
    if d < 10 {
        " "@ + digit_seq(d)
    } else {
        digit_seq(d / 10) + digit_seq(d % 10)
    }
}

/// The title of the month view: month name, a space, the year.
pub open spec fn title_seq(y: int, m: int) -> Seq<char> {
    month_name_spec(m) + " "@ + dec_seq(y)
}

/// Spaces that center the title in the grid's 20 visible columns.
pub open spec fn title_pad(y: int, m: int) -> int {
    let l = title_seq(y, m).len();
    if l <= 20 {
        (20 - l) / 2
    } else {
        0
    }
}

/// The weekday header over the grid.
pub open spec fn header_seq() -> Seq<char> {
    "Su Mo Tu We Th Fr Sa"@
}

/// The key-binding legend under the grid.
pub open spec fn legend_seq() -> Seq<char> {
    "←/→ day  ↑/↓ week  PgUp/PgDn year  t today  q quit"@
}

/// Grid column of the first day of the month shown by `ms`.
pub open spec fn start_column(ms: Date) -> int {
    weekday_column_of_date(first_of_month_spec(ms))
}

/// The whole frame for the month of `ms` with `selected`
/// highlighted: a screen clear, the centered title, the weekday
/// header, six pre-cleared grid rows (so the previous frame leaves
/// no stale glyphs), one cell per day of the month, and the legend
/// one row under the last occupied grid row. The cell of `selected`
/// — and no other — is in reverse video.
pub open spec fn frame_ops(ops: Seq<DrawOp>, ms: Date, selected: Date) -> bool {
    let n = days_in_month_spec(ms.year as int, ms.month as int);
    let sw = start_column(ms);
    &&& ops.len() == n + 10
    &&& ops[0] is Clear
    &&& is_text_op(
        ops[1],
        0,
        0,
        spaces_seq(title_pad(ms.year as int, ms.month as int) as nat) + title_seq(
            ms.year as int,
            ms.month as int,
        ),
        false,
    )
    &&& is_text_op(ops[2], 0, 1, header_seq(), false)
    &&& forall|r: int| 0 <= r < 6 ==> is_text_op(#[trigger] ops[3 + r], 0, 2 + r, spaces_seq(20), false)
    &&& forall|i: int|
        0 <= i < n ==> is_text_op(
            #[trigger] ops[9 + i],
            3 * ((sw + i) % 7),
            2 + (sw + i) / 7,
            day2_seq(i + 1),
            selected == (Date { year: ms.year, month: ms.month, day: (i + 1) as u8 }),
        )
    &&& is_text_op(ops[9 + n], 0, 2 + (sw + n + 6) / 7, legend_seq(), false)
}

/// A string of `n` spaces.
fn spaces(n: usize) -> (s: String)
    ensures
        s@ == spaces_seq(n as nat),
{
    let mut s = String::new();
    let mut i: usize = 0;
    while i < n
        invariant
            i <= n,
            s@ == spaces_seq(i as nat),
        decreases n - i,
    {
        s.append(" ");
        proof {
            reveal_strlit(" ");
            assert(s@ =~= spaces_seq((i + 1) as nat));
        }
        i = i + 1;
    }
    s
}

/// The decimal digit `d` as text.
fn digit_str(d: u32) -> (r: &'static str)
    requires
        d < 10,
    ensures
        r@ == digit_seq(d as int),
{
    match d {
        0 => "0",
        1 => "1",
        2 => "2",
        3 => "3",
        4 => "4",
        5 => "5",
        6 => "6",
        7 => "7",
        8 => "8",
        _ => "9",
    }
}

/// Appends `n` in decimal to `s`.
fn push_decimal(s: &mut String, n: u32)
    ensures
        final(s)@ == old(s)@ + dec_seq(n as int),
    decreases n,
{
    if n < 10 {
        s.append(digit_str(n));
    } else {
        proof {
            assert(0 <= n / 10 < n) by (nonlinear_arith)
                requires
                    n >= 10,
            ;
        }
        let ghost before = s@;
        push_decimal(s, n / 10);
        s.append(digit_str(n % 10));
        proof {
            assert(s@ =~= before + dec_seq(n as int));
        }
    }
}

/// A day of month right-aligned to two characters.
fn day2(d: u32) -> (s: String)
    requires
        1 <= d <= 31,
    ensures
        s@ == day2_seq(d as int),
{
    if d < 10 {
        let mut s = String::from_str(" ");
        s.append(digit_str(d));
        s
    } else {
        let mut s = String::from_str(digit_str(d / 10));
        s.append(digit_str(d % 10));
        s
    }
}

/// Computes the frame that shows the month of `month_start` with
/// `selected` highlighted. Only the year and month of `month_start`
/// matter; the frame is the same for every day of that month.
pub fn render_plan(month_start: Date, selected: Date) -> (ops: Vec<DrawOp>)
    requires
        valid_date(month_start),
        valid_date(selected),
    ensures
        frame_ops(ops@, month_start, selected),
{
    let ghost msy = month_start.year as int;
    let ghost msm = month_start.month as int;
    let mut ops: Vec<DrawOp> = Vec::new();
    ops.push(DrawOp::Clear);

    // Centered title.
    let mut title = String::from_str(month_name(month_start.month as u32));
    title.append(" ");
    push_decimal(&mut title, month_start.year as u32);
    let tlen = title.as_str().unicode_len();
    let pad: usize = if tlen <= 20 {
        (20 - tlen) / 2
    } else {
        0
    };
    let mut padded = spaces(pad);
    padded.append(title.as_str());
    ops.push(DrawOp::Text { x: 0, y: 0, text: padded, reverse: false });

    // Weekday header.
    ops.push(DrawOp::Text { x: 0, y: 1, text: String::from_str("Su Mo Tu We Th Fr Sa"), reverse: false });

    // Pre-clear the six grid rows.
    let mut r: u16 = 0;
    while r < 6
        invariant
            r <= 6,
            ops@.len() == 3 + r,
            ops@[0] is Clear,
            is_text_op(
                ops@[1],
                0,
                0,
                spaces_seq(title_pad(msy, msm) as nat) + title_seq(msy, msm),
                false,
            ),
            is_text_op(ops@[2], 0, 1, header_seq(), false),
            forall|j: int|
                0 <= j < r ==> is_text_op(#[trigger] ops@[3 + j], 0, 2 + j, spaces_seq(20), false),
        decreases 6 - r,
    {
        ops.push(DrawOp::Text { x: 0, y: 2 + r, text: spaces(20), reverse: false });
        r = r + 1;
    }

    // Day cells.
    let first = month_start.first_of_month();
    let sw = sunday_start_index(weekday_of(first)) as u32;
    let n = days_in_month(month_start.year, month_start.month as u32);
    let mut day: u32 = 1;
    while day <= n
        invariant
            valid_date(month_start),
            valid_date(selected),
            msy == month_start.year as int,
            msm == month_start.month as int,
            1 <= day <= n + 1,
            sw == start_column(month_start),
            0 <= sw < 7,
            n == days_in_month_spec(msy, msm),
            n <= 31,
            ops@.len() == 9 + day - 1,
            ops@[0] is Clear,
            is_text_op(
                ops@[1],
                0,
                0,
                spaces_seq(title_pad(msy, msm) as nat) + title_seq(msy, msm),
                false,
            ),
            is_text_op(ops@[2], 0, 1, header_seq(), false),
            forall|j: int|
                0 <= j < 6 ==> is_text_op(#[trigger] ops@[3 + j], 0, 2 + j, spaces_seq(20), false),
            forall|i: int|
                0 <= i < day - 1 ==> is_text_op(
                    #[trigger] ops@[9 + i],
                    3 * ((sw + i) % 7),
                    2 + (sw + i) / 7,
                    day2_seq(i + 1),
                    selected == (Date {
                        year: month_start.year,
                        month: month_start.month,
                        day: (i + 1) as u8,
                    }),
                ),
        decreases n + 1 - day,
    {
        let idx = sw + day - 1;
        let col = (idx % 7) as u16;
        let row = (idx / 7) as u16;
        proof {
            assert(idx / 7 <= 5) by (nonlinear_arith)
                requires
                    idx <= 36,
            ;
        }
        let cell = Date { year: month_start.year, month: month_start.month, day: day as u8 };
        let is_sel = cell == selected;
        ops.push(DrawOp::Text { x: col * 3, y: 2 + row, text: day2(day), reverse: is_sel });
        day = day + 1;
    }

    // Legend, one row under the last occupied grid row.
    let weeks_used = ((sw + n + 6) / 7) as u16;
    proof {
        assert((sw + n + 6) / 7 <= 6) by (nonlinear_arith)
            requires
                sw + n + 6 <= 43,
        ;
    }
    ops.push(
        DrawOp::Text {
            x: 0,
            y: 2 + weeks_used,
            text: String::from_str("←/→ day  ↑/↓ week  PgUp/PgDn year  t today  q quit"),
            reverse: false,
        },
    );
    ops
}

} // verus!
