//! Screen-to-board coordinate mapping and grid snapping.
//!
//! The board is a 600-by-600-unit square centred on the origin, with 19 grid
//! intersections per axis spaced `600/19` board units apart for the purpose of
//! snapping.  Coordinates are held in *fine units*: 1710 fine units per board
//! unit, chosen so that one grid cell is exactly `54000` fine units and the
//! half board extent (300 units, 9.5 cells) is exactly `513000`.

use vstd::prelude::*;

verus! {

use crate::input::EdgeDetector;
use crate::input::PointerState;
use vstd::arithmetic::div_mod::lemma_div_is_ordered;
use vstd::arithmetic::div_mod::lemma_div_multiples_vanish;
use vstd::arithmetic::div_mod::lemma_div_nonincreasing;
use vstd::arithmetic::div_mod::lemma_div_of0;
use vstd::arithmetic::div_mod::lemma_fundamental_div_mod;
use vstd::arithmetic::div_mod::lemma_fundamental_div_mod_converse_div;
use vstd::arithmetic::div_mod::lemma_hoist_over_denominator;
use vstd::arithmetic::div_mod::lemma_mod_division_less_than_divisor;
use vstd::arithmetic::div_mod::lemma_mod_multiples_basic;

/// A position in screen coordinates: `x` grows rightward, `y` upward, both
/// from the viewport's lower-left corner, in the caller's screen units.
#[derive(Clone, Copy, Debug, PartialEq, Eq, Structural)]
pub struct ScreenPoint {
    pub x: i64,
    pub y: i64,
}

/// The viewport extent in screen units.  A zero extent is the degenerate
/// (e.g. minimised) window, on which no stone can be placed.
#[derive(Clone, Copy, Debug, PartialEq, Eq, Structural)]
pub struct Viewport {
    pub width: i64,
    pub height: i64,
}

/// A stone placed on the board: a board-space position in fine units, always
/// on a grid intersection, and a fixed radius.
#[derive(Clone, Copy, Debug, PartialEq, Eq, Structural)]
pub struct StoneMarker {
    pub x: i64,
    pub y: i64,
    pub radius: i64,
}

/// Fine units per board unit.
pub const FINE_PER_UNIT: i64 = 1710;

/// One grid cell, `600/19` board units, in fine units.
pub const CELL_FINE: i64 = 54000;

/// Half a grid cell in fine units.
pub const HALF_CELL_FINE: i64 = 27000;

/// Half the board extent (300 board units, 9.5 cells) in fine units.
pub const HALF_BOARD_FINE: i64 = 513000;

/// Radius of a placed stone, 0.4 grid cells, in fine units.
pub const STONE_RADIUS_FINE: i64 = 21600;

/// Largest magnitude accepted by [`snap_to_grid`]; far beyond any coordinate
/// the board mapping can produce, bounded only so the arithmetic fits in
/// `i64`.
pub const SNAP_INPUT_BOUND: i64 = 1_000_000_000_000;

/// Largest viewport extent (in screen units) accepted by the mapping; bounded
/// only so the arithmetic fits in `u64`.
pub const VIEWPORT_MAX: i64 = 1_000_000_000;

/// The board-space coordinate, in fine units, of screen coordinate `p` on an
/// axis whose viewport extent is `v` screen units: the screen position is
/// normalised to `[-1/2, 1/2]` and scaled to the board extent of `+-300`
/// board units, `((p/v) - 1/2) * 600 = (2p - v) * 300 / v` board units.
/// Division rounds the magnitude down (toward zero).
pub open spec fn board_of_screen(p: int, v: int) -> int {
    if 2 * p >= v {
        (2 * p - v) * 513000 / v
    } else {
        -((v - 2 * p) * 513000 / v)
    }
}

/// The grid intersection nearest to fine coordinate `x`: `floor(x/g + 1/2) * g`
/// for the cell size `g = 54000` fine units, with halves rounding up.
pub open spec fn snapped(x: int) -> int {
    ((x + 27000) / 54000) * 54000
}

/// Maps screen coordinate `p` to board space, in fine units, on an axis of
/// viewport extent `v`.
pub fn screen_to_board(p: i64, v: i64) -> (r: i64)
    requires
        0 < v <= VIEWPORT_MAX,
        0 <= p <= v,
    ensures
        r == board_of_screen(p as int, v as int),
        -HALF_BOARD_FINE <= r <= HALF_BOARD_FINE,
{
    let vv: u64 = v as u64;
    if 2 * p >= v {
        let num: u64 = ((2 * p - v) as u64) * 513000;
        let q: u64 = num / vv;
        proof {
            lemma_div_is_ordered(num as int, v * 513000, v as int);
            lemma_div_multiples_vanish(513000, v as int);
        }
        q as i64
    } else {
        let num: u64 = ((v - 2 * p) as u64) * 513000;
        let q: u64 = num / vv;
        proof {
            lemma_div_is_ordered(num as int, v * 513000, v as int);
            lemma_div_multiples_vanish(513000, v as int);
        }
        -(q as i64)
    }
}

/// Snaps fine coordinate `x` to the nearest grid intersection.
pub fn snap_to_grid(x: i64) -> (r: i64)
    requires
        -SNAP_INPUT_BOUND <= x <= SNAP_INPUT_BOUND,
    ensures
        r == snapped(x as int),
{
    let shifted: i64 = x + HALF_CELL_FINE + 1_080_000_000_000;
    let q: u64 = (shifted as u64) / (CELL_FINE as u64);
    proof {
        lemma_hoist_over_denominator(x + 27000, 20_000_000int, 54000nat);
        lemma_div_nonincreasing(shifted as int, 54000);
    }
    (q as i64 - 20_000_000) * 54000
}

/// The stone that a click at screen point `p` in viewport `v` creates: the
/// board-space click position snapped to the nearest grid intersection, with
/// the fixed stone radius.
pub open spec fn stone_at(p: ScreenPoint, v: Viewport) -> StoneMarker {
    StoneMarker {
        x: snapped(board_of_screen(p.x as int, v.width as int)) as i64,
        y: snapped(board_of_screen(p.y as int, v.height as int)) as i64,
        radius: 21600,
    }
}

/// What one click produces: no stone while the pointer position is unknown
/// or the viewport is degenerate, otherwise the snapped stone of [`stone_at`].
pub open spec fn placement(last_seen: Option<ScreenPoint>, v: Viewport) -> Option<StoneMarker> {
    match last_seen {
        None => None,
        Some(p) => if v.width > 0 && v.height > 0 {
            Some(stone_at(p, v))
        } else {
            None
        },
    }
}

/// Whether pointer state `last_seen` is consistent with viewport `v`: the
/// extents are within machine bounds and any known position lies inside the
/// viewport.
pub open spec fn pointer_in_viewport(last_seen: Option<ScreenPoint>, v: Viewport) -> bool {
    &&& 0 <= v.width <= VIEWPORT_MAX
    &&& 0 <= v.height <= VIEWPORT_MAX
    &&& (last_seen matches Some(p) ==> {
        &&& 0 <= p.x <= v.width
        &&& 0 <= p.y <= v.height
    })
}

/// Computes the stone a click creates, if any: the last known pointer
/// position is mapped to board space per axis, snapped to the nearest grid
/// intersection, and given the fixed stone radius.  Returns `None` when no
/// pointer position is known yet, or when the viewport is degenerate.
pub fn place_stone(last_seen: &Option<ScreenPoint>, viewport: &Viewport) -> (r: Option<StoneMarker>)
    requires
        pointer_in_viewport(*last_seen, *viewport),
    ensures
        r == placement(*last_seen, *viewport),
{
    match last_seen {
        None => None,
        Some(p) => {
            if viewport.width == 0 || viewport.height == 0 {
                None
            } else {
                let bx: i64 = screen_to_board(p.x, viewport.width);
                let by: i64 = screen_to_board(p.y, viewport.height);
                Some(StoneMarker { x: snap_to_grid(bx), y: snap_to_grid(by), radius: STONE_RADIUS_FINE })
            }
        },
    }
}

/// One frame of the stone-placement handler.  `down` is this frame's held
/// state of the primary pointer button; a stone is placed only on the
/// button's rising edge, and then exactly as [`place_stone`] says.  Frames
/// where the button stays held place nothing.
pub fn click_frame(
    button: &mut EdgeDetector,
    down: bool,
    pointer: &PointerState,
    viewport: &Viewport,
) -> (r: Option<StoneMarker>)
    requires
        pointer_in_viewport(pointer.last_seen, *viewport),
    ensures
        final(button).was_down == down,
        (down && !old(button).was_down) ==> r == placement(pointer.last_seen, *viewport),
        !(down && !old(button).was_down) ==> r is None,
{
    let rising = button.step(down);
    if rising {
        place_stone(&pointer.last_seen, viewport)
    } else {
        None
    }
}

/// Snapping an already-snapped coordinate returns it unchanged.
pub proof fn lemma_snap_idempotent(x: int)
    ensures
        snapped(snapped(x)) == snapped(x),
{
    let q = (x + 27000) / 54000;
    lemma_fundamental_div_mod_converse_div(q * 54000 + 27000, 54000, q, 27000);
}

/// Every coordinate within half a cell of the intersection `k * 54000` (the
/// lower boundary included, the upper excluded) snaps to that intersection.
pub proof fn lemma_snap_in_cell(x: int, k: int)
    requires
        k * 54000 - 27000 <= x < k * 54000 + 27000,
    ensures
        snapped(x) == k * 54000,
{
    lemma_fundamental_div_mod_converse_div(x + 27000, 54000, k, x + 27000 - k * 54000);
}

/// A snapped coordinate is an exact grid intersection, and the nearest one:
/// it is a multiple of the cell size and within half a cell of the input,
/// with a halfway input rounding to the intersection above it.
pub proof fn lemma_snap_is_nearest(x: int)
    ensures
        snapped(x) % 54000 == 0,
        -27000 < snapped(x) - x <= 27000,
{
    let q = (x + 27000) / 54000;
    lemma_fundamental_div_mod(x + 27000, 54000);
    lemma_mod_division_less_than_divisor(x + 27000, 54000);
    lemma_mod_multiples_basic(q, 54000);
}

/// Anchors of the board mapping: the viewport centre maps to the board
/// origin, the low screen edge to `-300` board units, and the high screen
/// edge to `+300` board units.
pub proof fn lemma_board_map_anchors(p: int, v: int)
    requires
        0 < v,
    ensures
        2 * p == v ==> board_of_screen(p, v) == 0,
        p == 0 ==> board_of_screen(p, v) == -513000,
        p == v ==> board_of_screen(p, v) == 513000,
{
    if 2 * p == v {
        lemma_div_of0(v);
    }
    if p == 0 {
        lemma_div_multiples_vanish(513000, v);
    }
    if p == v {
        lemma_div_multiples_vanish(513000, v);
    }
}

} // verus!
