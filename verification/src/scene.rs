//! The static scene: the board background and the 19 ruled lines per axis.
//!
//! The lines span 598 board units (600 minus one line width) and sit one
//! half line width in from the board edge, so their centres run from `-299`
//! board units upward in steps of `598/18` — exactly `56810` fine units.
//! That spacing differs slightly from the `600/19` cell used for snapping
//! (18 gaps between 19 lines, against 19 cells); the scene keeps both
//! quantities as they are.

use vstd::prelude::*;

verus! {

/// Width of a ruled line, 2 board units, in fine units.
pub const LINE_WIDTH_FINE: i64 = 3420;

/// Length of a ruled line, 598 board units, in fine units.
pub const LINE_LENGTH_FINE: i64 = 1_022_580;

/// Distance between neighbouring line centres, `598/18` board units, in
/// fine units.
pub const LINE_SPACING_FINE: i64 = 56810;

/// Centre of the first line, `-299` board units, in fine units.
pub const LINE_START_FINE: i64 = -511_290;

/// Side of the square board background, 600 board units, in fine units.
pub const BOARD_SIZE_FINE: i64 = 1_026_000;

/// Depth layer of the board background.
pub const BACKGROUND_LAYER: u8 = 0;

/// Depth layer of the ruled lines, above the background.
pub const LINE_LAYER: u8 = 1;

/// Depth layer of placed stones, above the lines.
pub const STONE_LAYER: u8 = 2;

/// An axis-aligned rectangle of the scene: centre and size in fine units.
#[derive(Clone, Copy, Debug, PartialEq, Eq, Structural)]
pub struct LineSpec {
    pub center_x: i64,
    pub center_y: i64,
    pub size_x: i64,
    pub size_y: i64,
}

/// The centre coordinate of line `i` on its axis.
pub open spec fn line_position(i: int) -> int {
    -511_290 + i * 56810
}

/// The `i`-th horizontal line: full length wide, one line width tall,
/// centred on the vertical axis.
pub open spec fn horizontal_line(i: int) -> LineSpec {
    LineSpec {
        center_x: 0,
        center_y: line_position(i) as i64,
        size_x: 1_022_580,
        size_y: 3420,
    }
}

/// The `i`-th vertical line: one line width wide, full length tall, centred
/// on the horizontal axis.
pub open spec fn vertical_line(i: int) -> LineSpec {
    LineSpec {
        center_x: line_position(i) as i64,
        center_y: 0,
        size_x: 3420,
        size_y: 1_022_580,
    }
}

/// Builds the 38 ruled lines of the board, the horizontal and the vertical
/// line of each index in turn, as the scene spawns them.
pub fn grid_lines() -> (r: Vec<LineSpec>)
    ensures
        r@.len() == 38,
        forall|i: int| 0 <= i < 19 ==> #[trigger] r@[2 * i] == horizontal_line(i),
        forall|i: int| 0 <= i < 19 ==> #[trigger] r@[2 * i + 1] == vertical_line(i),
{
    let mut r: Vec<LineSpec> = Vec::new();
    let mut i: usize = 0;
    while i < 19
        invariant
            i <= 19,
            r@.len() == 2 * i,
            forall|j: int| 0 <= j < i ==> #[trigger] r@[2 * j] == horizontal_line(j),
            forall|j: int| 0 <= j < i ==> #[trigger] r@[2 * j + 1] == vertical_line(j),
        decreases 19 - i,
    {
        let pos: i64 = LINE_START_FINE + (i as i64) * LINE_SPACING_FINE;
        r.push(LineSpec { center_x: 0, center_y: pos, size_x: LINE_LENGTH_FINE, size_y: LINE_WIDTH_FINE });
        r.push(LineSpec { center_x: pos, center_y: 0, size_x: LINE_WIDTH_FINE, size_y: LINE_LENGTH_FINE });
        i = i + 1;
    }
    r
}

} // verus!
