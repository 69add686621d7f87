//! Caret-relative popup placement.
//!
//! The locator attaches to the foreground window's input thread, reads the
//! caret position and converts it to screen coordinates; that part is pure
//! operating-system work and stays outside the library. What is verified
//! here is the placement itself: given the monitor's size, the caret's
//! screen position (if one was found) and the popup's size, compute where
//! the popup opens.

use vstd::prelude::*;

verus! {

/// Vertical gap kept between the caret and the popup.
pub const PLACEMENT_GAP: i32 = 30;

/// Assumed height of the caret, added when the popup is placed below it.
pub const CARET_HEIGHT: i32 = 50;

/// Assumed width of the caret, kept clear on its right-hand side.
pub const CARET_WIDTH: i32 = 4;

/// Coordinate bound under which the placement arithmetic stays within
/// `i32` range (sums of at most four such terms cannot overflow).
pub const COORD_LIMIT: i32 = 0x2000_0000;

/// A point in screen coordinates.
#[derive(Clone, Copy, PartialEq, Eq, Structural, Debug)]
pub struct ScreenPoint {
    pub x: i32,
    pub y: i32,
}

/// Vertical placement: prefer the space above the caret, leaving
/// `PLACEMENT_GAP`; if that does not fit, go below the caret (its height
/// plus the gap) when the popup still fits on the monitor; otherwise the
/// monitor top.
pub open spec fn spec_popup_y(mheight: int, cy: int, wheight: int) -> int {
    let above = cy - PLACEMENT_GAP - wheight;
    if above >= 0 {
        above
    } else {
        let below = cy + CARET_HEIGHT + PLACEMENT_GAP;
        if mheight - below - wheight >= 0 {
            below
        } else {
            0
        }
    }
}

/// Horizontal placement: center the popup on the caret, but clamp so it
/// stays on the monitor — the left edge wins when the caret sits near the
/// left border, the right edge when it sits near the right border.
pub open spec fn spec_popup_x(mwidth: int, cx: int, wwidth: int) -> int {
    let half = wwidth / 2;
    if cx - half < 0 {
        0
    } else if mwidth - cx - CARET_WIDTH - half < 0 {
        mwidth - wwidth
    } else {
        cx - half
    }
}

/// Choose where the popup opens on the monitor of the foreground window.
///
/// `caret` is the caret's screen position when the locator found one;
/// without a caret hint the popup falls back to the monitor's origin.
/// The horizontal result always lies in `[0, mwidth - wwidth]`.
pub fn choose_init_window_pos(
    mwidth: i32,
    mheight: i32,
    caret: Option<ScreenPoint>,
    wwidth: i32,
    wheight: i32,
) -> (pos: ScreenPoint)
    requires
        0 <= wwidth <= mwidth < COORD_LIMIT,
        0 <= wheight < COORD_LIMIT,
        0 <= mheight < COORD_LIMIT,
        caret matches Some(c) ==> -COORD_LIMIT < c.x < COORD_LIMIT && -COORD_LIMIT < c.y
            < COORD_LIMIT,
    ensures
        caret is None ==> pos == (ScreenPoint { x: 0, y: 0 }),
        caret matches Some(c) ==> pos.x == spec_popup_x(mwidth as int, c.x as int, wwidth as int)
            && pos.y == spec_popup_y(mheight as int, c.y as int, wheight as int),
        0 <= pos.x <= mwidth - wwidth,
{
    match caret {
        None => ScreenPoint { x: 0, y: 0 },
        Some(c) => {
            let above: i32 = c.y - PLACEMENT_GAP - wheight;
            let ypos: i32 = if above >= 0 {
                above
            } else {
                let below: i32 = c.y + CARET_HEIGHT + PLACEMENT_GAP;
                if mheight - below - wheight >= 0 {
                    below
                } else {
                    0
                }
            };
            let half_wwidth: i32 = wwidth / 2;
            let left_space: i32 = c.x - half_wwidth;
            let right_space: i32 = mwidth - c.x - CARET_WIDTH - half_wwidth;
            let xpos: i32 = if left_space < 0 {
                0
            } else if right_space < 0 {
                mwidth - wwidth
            } else {
                left_space
            };
            ScreenPoint { x: xpos, y: ypos }
        },
    }
}

} // verus!
