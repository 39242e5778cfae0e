//! The pixel-block digit renderer.
//!
//! Every function here is a pure layout computation: it turns a digit or an
//! MM:SS reading into a list of filled-square draw commands that the
//! embedding GUI paints. Digits come from a fixed table of 7-row by
//! 5-column bitmaps; the colon is two single cells at rows 2 and 4.
//!
//! All lengths are integers in half-points: twice the point values the GUI
//! works in. Doubling keeps every coordinate exact, since the layout uses a
//! spacing of one and a half steps and centres the block on a given point.

use vstd::prelude::*;

verus! {

/// Cell edge, in half-points, of the normal display.
pub const PIXEL_SIZE: i64 = 16;

/// Gap between cells, in half-points, of the normal display.
pub const PIXEL_GAP: i64 = 4;

/// Cell edge, in half-points, of the compact overlay display.
pub const OVERLAY_PIXEL_SIZE: i64 = 10;

/// Gap between cells, in half-points, of the compact overlay display.
pub const OVERLAY_PIXEL_GAP: i64 = 2;

/// Bound on the cell size and gap a caller may pass.
pub const SIZE_LIMIT: i64 = 1000000;

/// Bound on the coordinates a caller may pass.
pub const COORD_LIMIT: i64 = 2000000000000;

/// Bound on the centre coordinates of the composed display.
pub const CENTER_LIMIT: i64 = 1000000000000;

/// An RGBA color, carried through to the draw commands untouched.
#[derive(Debug, Clone, Copy, PartialEq, Eq, Structural)]
pub struct Rgba {
    pub red: u8,
    pub green: u8,
    pub blue: u8,
    pub alpha: u8,
}

/// One filled square: the only primitive the renderer needs.
#[derive(Debug, Clone, Copy, PartialEq, Eq, Structural)]
pub struct DrawCmd {
    /// Left edge, in half-points.
    pub x: i64,
    /// Top edge, in half-points.
    pub y: i64,
    /// Edge length, in half-points.
    pub size: i64,
    pub color: Rgba,
}

/// The 7x5 bitmaps for the digits 0 through 9, packed row-major into 35
/// bits: the top row is the most significant 5-bit group, and within a row
/// the leftmost column is the most significant bit.
pub const DIGIT_0_BITS: u64 = 0b01110_10001_10011_10101_11001_10001_01110;

pub const DIGIT_1_BITS: u64 = 0b00100_01100_00100_00100_00100_00100_01110;

pub const DIGIT_2_BITS: u64 = 0b01110_10001_00001_00110_01000_10000_11111;

pub const DIGIT_3_BITS: u64 = 0b01110_10001_00001_00110_00001_10001_01110;

pub const DIGIT_4_BITS: u64 = 0b00010_00110_01010_10010_11111_00010_00010;

pub const DIGIT_5_BITS: u64 = 0b11111_10000_11110_00001_00001_10001_01110;

pub const DIGIT_6_BITS: u64 = 0b00110_01000_10000_11110_10001_10001_01110;

pub const DIGIT_7_BITS: u64 = 0b11111_00001_00010_00100_01000_01000_01000;

pub const DIGIT_8_BITS: u64 = 0b01110_10001_10001_01110_10001_10001_01110;

pub const DIGIT_9_BITS: u64 = 0b01110_10001_10001_01111_00001_00010_01100;

/// The packed bitmap of a digit; anything outside 0 through 9 is blank.
pub open spec fn digit_bits(digit: int) -> u64 {
    if digit == 0 {
        DIGIT_0_BITS
    } else if digit == 1 {
        DIGIT_1_BITS
    } else if digit == 2 {
        DIGIT_2_BITS
    } else if digit == 3 {
        DIGIT_3_BITS
    } else if digit == 4 {
        DIGIT_4_BITS
    } else if digit == 5 {
        DIGIT_5_BITS
    } else if digit == 6 {
        DIGIT_6_BITS
    } else if digit == 7 {
        DIGIT_7_BITS
    } else if digit == 8 {
        DIGIT_8_BITS
    } else if digit == 9 {
        DIGIT_9_BITS
    } else {
        0
    }
}

fn digit_bits_of(digit: u8) -> (bits: u64)
    ensures
        bits == digit_bits(digit as int),
{
    match digit {
        0 => DIGIT_0_BITS,
        1 => DIGIT_1_BITS,
        2 => DIGIT_2_BITS,
        3 => DIGIT_3_BITS,
        4 => DIGIT_4_BITS,
        5 => DIGIT_5_BITS,
        6 => DIGIT_6_BITS,
        7 => DIGIT_7_BITS,
        8 => DIGIT_8_BITS,
        9 => DIGIT_9_BITS,
        _ => 0,
    }
}

/// Whether the cell at `row` (0 at the top) and `col` (0 at the left) of a
/// digit's bitmap is lit.
pub open spec fn lit(digit: int, row: int, col: int) -> bool {
    (digit_bits(digit) >> ((5 * (6 - row) + 4 - col) as u64)) & 1 == 1
}

/// The draw command for one lit cell of a digit drawn at `(x, y)`.
pub open spec fn cell_cmd(x: int, y: int, row: int, col: int, size: int, gap: int, color: Rgba) -> DrawCmd {
    DrawCmd {
        x: (x + col * (size + gap)) as i64,
        y: (y + row * (size + gap)) as i64,
        size: size as i64,
        color,
    }
}

/// The commands for the first `n` cells of a digit's bitmap, scanned top
/// row to bottom row and left column to right column, one command per lit
/// cell.
pub open spec fn digit_cmds_prefix(
    digit: int,
    x: int,
    y: int,
    size: int,
    gap: int,
    color: Rgba,
    n: int,
) -> Seq<DrawCmd>
    decreases n,
{
    if n <= 0 {
        Seq::empty()
    } else {
        let i = n - 1;
        let prev = digit_cmds_prefix(digit, x, y, size, gap, color, i);
        if lit(digit, i / 5, i % 5) {
            prev.push(cell_cmd(x, y, i / 5, i % 5, size, gap, color))
        } else {
            prev
        }
    }
}

/// All commands of one digit glyph: its 35 bitmap cells in scan order.
pub open spec fn digit_cmds(digit: int, x: int, y: int, size: int, gap: int, color: Rgba) -> Seq<
    DrawCmd,
> {
    digit_cmds_prefix(digit, x, y, size, gap, color, 35)
}

/// A digit with a blank bitmap produces no commands at all.
pub proof fn lemma_blank_digit_cmds(
    digit: int,
    x: int,
    y: int,
    size: int,
    gap: int,
    color: Rgba,
    n: int,
)
    requires
        digit_bits(digit) == 0,
        n >= 0,
    ensures
        digit_cmds_prefix(digit, x, y, size, gap, color, n) == Seq::<DrawCmd>::empty(),
    decreases n,
{
    if n > 0 {
        lemma_blank_digit_cmds(digit, x, y, size, gap, color, n - 1);
        let shift = ((5 * (6 - (n - 1) / 5) + 4 - (n - 1) % 5) as u64);
        assert((0u64 >> shift) & 1 == 0) by (bit_vector);
    }
}

/// Produce the commands of one digit glyph at top-left `(x, y)`: a filled
/// square of edge `size` for each lit bitmap cell, cells `size + gap`
/// apart. Digits outside 0 through 9 produce nothing.
pub fn draw_digit_sized(digit: u8, x: i64, y: i64, color: Rgba, size: i64, gap: i64) -> (cmds: Vec<
    DrawCmd,
>)
    requires
        0 <= size <= SIZE_LIMIT,
        0 <= gap <= SIZE_LIMIT,
        -COORD_LIMIT <= x <= COORD_LIMIT,
        -COORD_LIMIT <= y <= COORD_LIMIT,
    ensures
        cmds@ == digit_cmds(digit as int, x as int, y as int, size as int, gap as int, color),
{
    let mut cmds: Vec<DrawCmd> = Vec::new();
    if digit > 9 {
        proof {
            lemma_blank_digit_cmds(digit as int, x as int, y as int, size as int, gap as int, color, 35);
        }
        return cmds;
    }
    let bits = digit_bits_of(digit);
    let step = size + gap;
    let mut row: i64 = 0;
    while row < 7
        invariant
            0 <= row <= 7,
            digit <= 9,
            0 <= size <= SIZE_LIMIT,
            0 <= gap <= SIZE_LIMIT,
            -COORD_LIMIT <= x <= COORD_LIMIT,
            -COORD_LIMIT <= y <= COORD_LIMIT,
            step == size + gap,
            bits == digit_bits(digit as int),
            cmds@ == digit_cmds_prefix(
                digit as int,
                x as int,
                y as int,
                size as int,
                gap as int,
                color,
                5 * row,
            ),
        decreases 7 - row,
    {
        let mut col: i64 = 0;
        while col < 5
            invariant
                0 <= row < 7,
                0 <= col <= 5,
                digit <= 9,
                0 <= size <= SIZE_LIMIT,
                0 <= gap <= SIZE_LIMIT,
                -COORD_LIMIT <= x <= COORD_LIMIT,
                -COORD_LIMIT <= y <= COORD_LIMIT,
                step == size + gap,
                bits == digit_bits(digit as int),
                cmds@ == digit_cmds_prefix(
                    digit as int,
                    x as int,
                    y as int,
                    size as int,
                    gap as int,
                    color,
                    5 * row + col,
                ),
            decreases 5 - col,
        {
            proof {
                assert((5 * row + col) / 5 == row && (5 * row + col) % 5 == col)
                    by (nonlinear_arith)
                    requires
                        0 <= row,
                        0 <= col < 5,
                ;
            }
            proof {
                assert(0 <= col * step <= 4 * (SIZE_LIMIT + SIZE_LIMIT)
                    && 0 <= row * step <= 6 * (SIZE_LIMIT + SIZE_LIMIT)) by (nonlinear_arith)
                    requires
                        0 <= col < 5,
                        0 <= row < 7,
                        0 <= step <= SIZE_LIMIT + SIZE_LIMIT,
                ;
            }
            let shift: u64 = (5 * (6 - row) + 4 - col) as u64;
            if (bits >> shift) & 1 == 1 {
                cmds.push(
                    DrawCmd { x: x + col * step, y: y + row * step, size, color },
                );
            }
            col = col + 1;
        }
        row = row + 1;
    }
    cmds
}

/// The commands of the colon glyph at top-left `(x, y)`: nothing while the
/// blink flag is off, and exactly the two dots at bitmap rows 2 and 4 while
/// it is on.
pub open spec fn colon_cmds(x: int, y: int, color: Rgba, blink: bool, size: int, gap: int) -> Seq<
    DrawCmd,
> {
    if blink {
        seq![
            DrawCmd { x: x as i64, y: (y + 2 * (size + gap)) as i64, size: size as i64, color },
            DrawCmd { x: x as i64, y: (y + 4 * (size + gap)) as i64, size: size as i64, color },
        ]
    } else {
        Seq::empty()
    }
}

/// Produce the colon separator's commands: two single cells at rows 2 and
/// 4 of the glyph grid when `blink` is on, nothing when it is off. The
/// caller owns the blinking by toggling the flag over time.
pub fn draw_colon_sized(x: i64, y: i64, color: Rgba, blink: bool, size: i64, gap: i64) -> (cmds:
    Vec<DrawCmd>)
    requires
        0 <= size <= SIZE_LIMIT,
        0 <= gap <= SIZE_LIMIT,
        -COORD_LIMIT <= x <= COORD_LIMIT,
        -COORD_LIMIT <= y <= COORD_LIMIT,
    ensures
        cmds@ == colon_cmds(x as int, y as int, color, blink, size as int, gap as int),
{
    let mut cmds: Vec<DrawCmd> = Vec::new();
    if !blink {
        assert(cmds@ =~= colon_cmds(x as int, y as int, color, blink, size as int, gap as int));
        return cmds;
    }
    let step = size + gap;
    cmds.push(DrawCmd { x, y: y + 2 * step, size, color });
    cmds.push(DrawCmd { x, y: y + 4 * step, size, color });
    assert(cmds@ =~= colon_cmds(x as int, y as int, color, blink, size as int, gap as int));
    cmds
}

/// Width of a digit glyph: five columns of cells with gaps between them.
pub fn digit_width_sized(size: i64, gap: i64) -> (w: i64)
    requires
        0 <= size <= SIZE_LIMIT,
        0 <= gap <= SIZE_LIMIT,
    ensures
        w == 5 * (size + gap) - gap,
{
    5 * (size + gap) - gap
}

/// Height of a digit glyph: seven rows of cells with gaps between them.
pub fn digit_height_sized(size: i64, gap: i64) -> (h: i64)
    requires
        0 <= size <= SIZE_LIMIT,
        0 <= gap <= SIZE_LIMIT,
    ensures
        h == 7 * (size + gap) - gap,
{
    7 * (size + gap) - gap
}

/// Cell edge of the chosen preset.
pub open spec fn preset_size(overlay_mode: bool) -> int {
    if overlay_mode {
        OVERLAY_PIXEL_SIZE as int
    } else {
        PIXEL_SIZE as int
    }
}

/// Cell gap of the chosen preset.
pub open spec fn preset_gap(overlay_mode: bool) -> int {
    if overlay_mode {
        OVERLAY_PIXEL_GAP as int
    } else {
        PIXEL_GAP as int
    }
}

/// Distance between neighbouring cell origins.
pub open spec fn preset_step(overlay_mode: bool) -> int {
    preset_size(overlay_mode) + preset_gap(overlay_mode)
}

/// Width of one digit glyph under the preset.
pub open spec fn preset_digit_width(overlay_mode: bool) -> int {
    5 * preset_step(overlay_mode) - preset_gap(overlay_mode)
}

/// Height of one glyph under the preset.
pub open spec fn preset_digit_height(overlay_mode: bool) -> int {
    7 * preset_step(overlay_mode) - preset_gap(overlay_mode)
}

/// Width of the colon column: one cell plus one step.
pub open spec fn preset_colon_width(overlay_mode: bool) -> int {
    preset_size(overlay_mode) + preset_step(overlay_mode)
}

/// Space between neighbouring glyph columns: one and a half steps.
pub open spec fn preset_spacing(overlay_mode: bool) -> int {
    3 * preset_step(overlay_mode) / 2
}

/// Width of the whole composed display: four digits, the colon column and
/// four inter-glyph spaces.
pub open spec fn total_width(overlay_mode: bool) -> int {
    4 * preset_digit_width(overlay_mode) + preset_colon_width(overlay_mode) + 4 * preset_spacing(
        overlay_mode,
    )
}

/// Left edge of the composed display centred on `center_x`.
pub open spec fn layout_left(center_x: int, overlay_mode: bool) -> int {
    center_x - total_width(overlay_mode) / 2
}

/// Top edge of the composed display centred on `center_y`.
pub open spec fn layout_top(center_y: int, overlay_mode: bool) -> int {
    center_y - preset_digit_height(overlay_mode) / 2
}

/// Left edge of glyph column `i` of the display, counted left to right:
/// minutes tens, minutes ones, colon, seconds tens, seconds ones.
pub open spec fn slot_x(center_x: int, overlay_mode: bool, i: int) -> int {
    let advance = preset_digit_width(overlay_mode) + preset_spacing(overlay_mode);
    if i <= 2 {
        layout_left(center_x, overlay_mode) + i * advance
    } else {
        layout_left(center_x, overlay_mode) + i * advance + preset_colon_width(overlay_mode)
            + preset_spacing(overlay_mode) - advance
    }
}

/// Width of glyph column `i`: the colon column in the middle, a digit
/// everywhere else.
pub open spec fn slot_width(overlay_mode: bool, i: int) -> int {
    if i == 2 {
        preset_colon_width(overlay_mode)
    } else {
        preset_digit_width(overlay_mode)
    }
}

/// All commands of the composed MM:SS display: the four digits and the
/// colon laid out left to right on their five columns.
pub open spec fn time_cmds(
    minutes: int,
    seconds: int,
    center_x: int,
    center_y: int,
    color: Rgba,
    show_colon: bool,
    overlay_mode: bool,
) -> Seq<DrawCmd> {
    let size = preset_size(overlay_mode);
    let gap = preset_gap(overlay_mode);
    let top = layout_top(center_y, overlay_mode);
    digit_cmds(minutes / 10, slot_x(center_x, overlay_mode, 0), top, size, gap, color)
        + digit_cmds(minutes % 10, slot_x(center_x, overlay_mode, 1), top, size, gap, color)
        + colon_cmds(slot_x(center_x, overlay_mode, 2), top, color, show_colon, size, gap)
        + digit_cmds(seconds / 10, slot_x(center_x, overlay_mode, 3), top, size, gap, color)
        + digit_cmds(seconds % 10, slot_x(center_x, overlay_mode, 4), top, size, gap, color)
}

/// Produce the full MM:SS display centred on `(center_x, center_y)`:
/// minutes tens, minutes ones, colon, seconds tens, seconds ones, with
/// uniform spacing, under the normal or the compact overlay preset.
pub fn draw_time(
    minutes: u32,
    seconds: u32,
    center_x: i64,
    center_y: i64,
    color: Rgba,
    show_colon: bool,
    overlay_mode: bool,
) -> (cmds: Vec<DrawCmd>)
    requires
        minutes <= 99,
        seconds <= 59,
        -CENTER_LIMIT <= center_x <= CENTER_LIMIT,
        -CENTER_LIMIT <= center_y <= CENTER_LIMIT,
    ensures
        cmds@ == time_cmds(
            minutes as int,
            seconds as int,
            center_x as int,
            center_y as int,
            color,
            show_colon,
            overlay_mode,
        ),
{
    let (pixel_size, pixel_gap): (i64, i64) = if overlay_mode {
        (OVERLAY_PIXEL_SIZE, OVERLAY_PIXEL_GAP)
    } else {
        (PIXEL_SIZE, PIXEL_GAP)
    };
    let step = pixel_size + pixel_gap;
    let d_width = digit_width_sized(pixel_size, pixel_gap);
    let d_height = digit_height_sized(pixel_size, pixel_gap);
    let colon_width = pixel_size + step;
    let spacing = 3 * step / 2;
    let width = 4 * d_width + colon_width + 4 * spacing;
    let start_x = center_x - width / 2;
    let start_y = center_y - d_height / 2;

    let m1 = (minutes / 10) as u8;
    let m2 = (minutes % 10) as u8;
    let s1 = (seconds / 10) as u8;
    let s2 = (seconds % 10) as u8;

    let mut x = start_x;
    let mut cmds = draw_digit_sized(m1, x, start_y, color, pixel_size, pixel_gap);

    x = x + d_width + spacing;
    let mut part = draw_digit_sized(m2, x, start_y, color, pixel_size, pixel_gap);
    cmds.append(&mut part);

    x = x + d_width + spacing;
    let mut part = draw_colon_sized(x, start_y, color, show_colon, pixel_size, pixel_gap);
    cmds.append(&mut part);

    x = x + colon_width + spacing;
    let mut part = draw_digit_sized(s1, x, start_y, color, pixel_size, pixel_gap);
    cmds.append(&mut part);

    x = x + d_width + spacing;
    let mut part = draw_digit_sized(s2, x, start_y, color, pixel_size, pixel_gap);
    cmds.append(&mut part);

    cmds
}

/// The composed display is horizontally symmetric about its centre: for
/// each glyph column, the distance from the centre out to its left edge
/// equals the distance from the mirror column's right edge back to the
/// centre.
pub proof fn lemma_layout_symmetric(center_x: int, overlay_mode: bool, i: int)
    requires
        0 <= i <= 4,
    ensures
        center_x - slot_x(center_x, overlay_mode, i) == (slot_x(center_x, overlay_mode, 4 - i)
            + slot_width(overlay_mode, 4 - i)) - center_x,
{
    let left = layout_left(center_x, overlay_mode);
    if overlay_mode {
        assert(total_width(true) == 326);
        assert(left == center_x - 163);
        assert(slot_x(center_x, true, 0) == left);
        assert(slot_x(center_x, true, 1) == left + 76);
        assert(slot_x(center_x, true, 2) == left + 152);
        assert(slot_x(center_x, true, 3) == left + 192);
        assert(slot_x(center_x, true, 4) == left + 268);
    } else {
        assert(total_width(false) == 540);
        assert(left == center_x - 270);
        assert(slot_x(center_x, false, 0) == left);
        assert(slot_x(center_x, false, 1) == left + 126);
        assert(slot_x(center_x, false, 2) == left + 252);
        assert(slot_x(center_x, false, 3) == left + 318);
        assert(slot_x(center_x, false, 4) == left + 444);
    }
}

} // verus!
