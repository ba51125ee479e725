//! Where the bubble goes: the bottom-right corner of the primary monitor,
//! clear of the screen edge and of the task bar.

use vstd::prelude::*;

verus! {

/// Side of the bubble's window, in logical pixels: the bubble itself plus
/// room for its menu.
pub const BUBBLE_EXTENT: u32 = 220;

/// Gap between the bubble's window and the right edge, in logical pixels.
pub const BUBBLE_MARGIN: u32 = 20;

/// Height left free for the task bar, in logical pixels.
pub const TASKBAR_ALLOWANCE: u32 = 50;

/// The size of a monitor in physical pixels.
#[derive(Clone, Copy, Debug, PartialEq, Eq, Structural)]
pub struct ScreenSize {
    pub width: u32,
    pub height: u32,
}

/// The three lengths above in physical pixels: each multiplied by the
/// monitor's scale factor and cut to a whole number by the host.
#[derive(Clone, Copy, Debug, PartialEq, Eq, Structural)]
pub struct BubbleMetrics {
    pub extent: i32,
    pub margin: i32,
    pub taskbar: i32,
}

/// A screen length read as a signed 32-bit number, bit for bit.
pub open spec fn as_signed(length: u32) -> int {
    if length > i32::MAX {
        length - 0x1_0000_0000
    } else {
        length as int
    }
}

/// The left edge of the bubble's window.
pub open spec fn spec_bubble_x(screen: ScreenSize, metrics: BubbleMetrics) -> int {
    as_signed(screen.width) - metrics.extent - metrics.margin
}

/// The top edge of the bubble's window.
pub open spec fn spec_bubble_y(screen: ScreenSize, metrics: BubbleMetrics) -> int {
    as_signed(screen.height) - metrics.extent - metrics.taskbar
}

/// Whether a number is a signed 32-bit coordinate.
pub open spec fn is_coordinate(v: int) -> bool {
    i32::MIN <= v <= i32::MAX
}

fn signed(length: u32) -> (v: i64)
    ensures
        v == as_signed(length),
{
    if length > 0x7fff_ffff {
        length as i64 - 0x1_0000_0000
    } else {
        length as i64
    }
}

/// The position that pins the bubble's window to the bottom-right corner of
/// the screen, in physical pixels. `None` when a coordinate would not fit a
/// signed 32-bit number; the bubble then stays where the window system put
/// it.
pub fn position_bubble_bottom_right(screen: ScreenSize, metrics: BubbleMetrics) -> (position:
    Option<(i32, i32)>)
    ensures
        is_coordinate(spec_bubble_x(screen, metrics)) && is_coordinate(
            spec_bubble_y(screen, metrics),
        ) ==> position == Some(
            (spec_bubble_x(screen, metrics) as i32, spec_bubble_y(screen, metrics) as i32),
        ),
        !(is_coordinate(spec_bubble_x(screen, metrics)) && is_coordinate(
            spec_bubble_y(screen, metrics),
        )) ==> position is None,
{
    let x: i64 = signed(screen.width) - metrics.extent as i64 - metrics.margin as i64;
    let y: i64 = signed(screen.height) - metrics.extent as i64 - metrics.taskbar as i64;
    if -0x8000_0000 <= x && x <= 0x7fff_ffff && -0x8000_0000 <= y && y <= 0x7fff_ffff {
        Some((x as i32, y as i32))
    } else {
        None
    }
}

} // verus!
