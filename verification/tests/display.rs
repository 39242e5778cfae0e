use pixel_timer::display::{
    digit_height_sized, digit_width_sized, draw_colon_sized, draw_digit_sized, draw_time, DrawCmd,
    Rgba,
};

fn ink() -> Rgba {
    Rgba { red: 80, green: 80, blue: 75, alpha: 255 }
}

fn cells(cmds: &[DrawCmd]) -> Vec<(i64, i64)> {
    cmds.iter().map(|c| (c.x, c.y)).collect()
}

#[test]
fn digit_zero_matches_its_bitmap_exactly() {
    // Unit cells with no gap, so a command at (c, r) means bitmap cell
    // (row r, column c) is lit.
    let cmds = draw_digit_sized(0, 0, 0, ink(), 1, 0);
    let expected = vec![
        (1, 0),
        (2, 0),
        (3, 0),
        (0, 1),
        (4, 1),
        (0, 2),
        (3, 2),
        (4, 2),
        (0, 3),
        (2, 3),
        (4, 3),
        (0, 4),
        (1, 4),
        (4, 4),
        (0, 5),
        (4, 5),
        (1, 6),
        (2, 6),
        (3, 6),
    ];
    assert_eq!(cells(&cmds), expected);
    for c in &cmds {
        assert_eq!(c.size, 1);
        assert_eq!(c.color, ink());
    }
}

#[test]
fn digit_one_has_ten_lit_cells() {
    let cmds = draw_digit_sized(1, 0, 0, ink(), 1, 0);
    let expected = vec![
        (2, 0),
        (1, 1),
        (2, 1),
        (2, 2),
        (2, 3),
        (2, 4),
        (2, 5),
        (1, 6),
        (2, 6),
        (3, 6),
    ];
    assert_eq!(cells(&cmds), expected);
}

#[test]
fn digit_cells_scale_with_size_and_gap() {
    let cmds = draw_digit_sized(7, 100, 200, ink(), 8, 2);
    // Top row of 7 is fully lit: five cells, one step (10) apart.
    assert_eq!(cmds[0].x, 100);
    assert_eq!(cmds[0].y, 200);
    assert_eq!(cmds[1].x, 110);
    assert_eq!(cmds[4].x, 140);
    for c in &cmds {
        assert_eq!(c.size, 8);
    }
}

#[test]
fn out_of_range_digit_draws_nothing() {
    let cmds = draw_digit_sized(10, 0, 0, ink(), 8, 2);
    assert!(cmds.is_empty());
    let cmds = draw_digit_sized(255, 0, 0, ink(), 8, 2);
    assert!(cmds.is_empty());
}

#[test]
fn colon_off_draws_nothing() {
    let cmds = draw_colon_sized(50, 60, ink(), false, 16, 4);
    assert!(cmds.is_empty());
}

#[test]
fn colon_on_draws_two_dots_at_rows_two_and_four() {
    let cmds = draw_colon_sized(50, 60, ink(), true, 16, 4);
    assert_eq!(cmds.len(), 2);
    assert_eq!((cmds[0].x, cmds[0].y), (50, 60 + 2 * 20));
    assert_eq!((cmds[1].x, cmds[1].y), (50, 60 + 4 * 20));
    assert_eq!(cmds[0].size, 16);
    assert_eq!(cmds[1].size, 16);
}

#[test]
fn glyph_measurements() {
    assert_eq!(digit_width_sized(16, 4), 96);
    assert_eq!(digit_height_sized(16, 4), 136);
    assert_eq!(digit_width_sized(10, 2), 58);
    assert_eq!(digit_height_sized(10, 2), 82);
}

#[test]
fn time_display_composes_the_five_glyphs() {
    let color = ink();
    let (cx, cy) = (1000, 500);
    let cmds = draw_time(12, 34, cx, cy, color, true, false);

    // Rebuild the expected list glyph by glyph at the documented columns.
    let left = cx - 270;
    let top = cy - 68;
    let mut expected = draw_digit_sized(1, left, top, color, 16, 4);
    expected.extend(draw_digit_sized(2, left + 126, top, color, 16, 4));
    expected.extend(draw_colon_sized(left + 252, top, color, true, 16, 4));
    expected.extend(draw_digit_sized(3, left + 318, top, color, 16, 4));
    expected.extend(draw_digit_sized(4, left + 444, top, color, 16, 4));
    assert_eq!(cmds, expected);
}

#[test]
fn hidden_colon_omits_exactly_the_two_dots() {
    let shown = draw_time(12, 34, 0, 0, ink(), true, false);
    let hidden = draw_time(12, 34, 0, 0, ink(), false, false);
    assert_eq!(shown.len(), hidden.len() + 2);
}

#[test]
fn full_zero_display_is_symmetric_about_the_centre() {
    // Digit 0 lights its leftmost and rightmost columns, so the lit extent
    // of 00:00 spans the whole layout width.
    for &(overlay, half_width) in &[(false, 270), (true, 163)] {
        let (cx, cy) = (1000, 500);
        let cmds = draw_time(0, 0, cx, cy, ink(), true, overlay);
        let leftmost = cmds.iter().map(|c| c.x).min().unwrap();
        let rightmost = cmds.iter().map(|c| c.x + c.size).max().unwrap();
        assert_eq!(cx - leftmost, half_width);
        assert_eq!(rightmost - cx, half_width);
    }
}

#[test]
fn overlay_preset_is_compact() {
    let normal = draw_time(5, 9, 0, 0, ink(), true, false);
    let overlay = draw_time(5, 9, 0, 0, ink(), true, true);
    assert_eq!(normal.len(), overlay.len());
    for c in &normal {
        assert_eq!(c.size, 16);
    }
    for c in &overlay {
        assert_eq!(c.size, 10);
    }
}
