use cal_navigate::date::Date;
use cal_navigate::render::{render_plan, DrawOp};

fn d(year: i32, month: u32, day: u32) -> Date {
    Date::new(year, month, day).unwrap()
}

fn text_op(op: &DrawOp) -> (u16, u16, &str, bool) {
    match op {
        DrawOp::Text { x, y, text, reverse } => (*x, *y, text.as_str(), *reverse),
        DrawOp::Clear => panic!("expected a text operation"),
    }
}

#[test]
fn frame_shape_for_march_2024() {
    let ops = render_plan(d(2024, 3, 1), d(2024, 3, 15));
    // Clear, title, header, 6 grid rows, 31 day cells, legend.
    assert_eq!(ops.len(), 41);
    assert!(matches!(ops[0], DrawOp::Clear));

    // "March 2024" is 10 characters, centered in 20 columns.
    assert_eq!(text_op(&ops[1]), (0, 0, "     March 2024", false));
    assert_eq!(text_op(&ops[2]), (0, 1, "Su Mo Tu We Th Fr Sa", false));
    for r in 0..6u16 {
        assert_eq!(text_op(&ops[3 + r as usize]), (0, 2 + r, " ".repeat(20).as_str(), false));
    }
}

#[test]
fn day_cells_follow_the_weekday_grid() {
    let ops = render_plan(d(2024, 3, 1), d(2024, 3, 15));
    // March 1, 2024 is a Friday: column 5, first grid row.
    assert_eq!(text_op(&ops[9]), (15, 2, " 1", false));
    // March 2 is a Saturday, last column of the first row.
    assert_eq!(text_op(&ops[10]), (18, 2, " 2", false));
    // March 3 is a Sunday, first column of the second row.
    assert_eq!(text_op(&ops[11]), (0, 3, " 3", false));
    // Day 15 lands at index 5 + 14 = 19: column 5, row 2.
    let (x, y, text, reverse) = text_op(&ops[9 + 14]);
    assert_eq!((x, y, text), (15, 4, "15"));
    assert!(reverse);
    // Exactly one cell is highlighted.
    let highlighted = ops
        .iter()
        .filter(|op| matches!(op, DrawOp::Text { reverse: true, .. }))
        .count();
    assert_eq!(highlighted, 1);
}

#[test]
fn selected_day_outside_visible_month_highlights_nothing() {
    let ops = render_plan(d(2024, 3, 1), d(2024, 4, 15));
    let highlighted = ops
        .iter()
        .filter(|op| matches!(op, DrawOp::Text { reverse: true, .. }))
        .count();
    assert_eq!(highlighted, 0);
}

#[test]
fn legend_sits_below_the_last_grid_row() {
    // March 2024 spans (5 + 31 + 6) / 7 = 6 grid rows, the last at
    // row 7: legend one row below, at row 8.
    let ops = render_plan(d(2024, 3, 1), d(2024, 3, 15));
    let (x, y, text, reverse) = text_op(&ops[40]);
    assert_eq!((x, y), (0, 8));
    assert_eq!(text, "←/→ day  ↑/↓ week  PgUp/PgDn year  t today  q quit");
    assert!(!reverse);

    // February 2015 starts on a Sunday and spans exactly 4 rows, the
    // last at row 5: legend at row 6.
    let ops = render_plan(d(2015, 2, 1), d(2015, 2, 1));
    assert_eq!(ops.len(), 38);
    let (_, y, _, _) = text_op(&ops[37]);
    assert_eq!(y, 6);
}

#[test]
fn title_pads_single_digit_years() {
    let ops = render_plan(d(846, 5, 1), d(846, 5, 7));
    // "May 846" is 7 characters; pad is (20 - 7) / 2 = 6.
    assert_eq!(text_op(&ops[1]), (0, 0, "      May 846", false));
}
