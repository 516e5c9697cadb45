//! Player input: confirming, the keyboard's direction and the on-screen stick
//! driven by touch or mouse.
use vstd::prelude::*;

verus! {

/// Whether the player confirms this frame: space, a new touch or a left click.
/// Used on the title screen, between waves and on the result screen.
pub fn confirm_just_pressed(space_just_pressed: bool, touch_just_pressed: bool, left_click_just_pressed: bool) -> (confirm:
    bool)
    ensures
        confirm == (space_just_pressed || touch_just_pressed || left_click_just_pressed),
{
    space_just_pressed || touch_just_pressed || left_click_just_pressed
}

/// The direction of one axis from the keys held for its two ends: +1, -1, or
/// 0 when neither or both are held.
pub open spec fn spec_axis(positive: bool, negative: bool) -> i8 {
    if positive && !negative {
        1i8
    } else if negative && !positive {
        -1i8
    } else {
        0i8
    }
}

/// The direction asked for by the keys held (W or up, S or down, A or left, D
/// or right), as steps along x (right positive) and y (up positive), before
/// it is scaled to unit length.
pub fn keyboard_axes(up: bool, down: bool, left: bool, right: bool) -> (axes: (i8, i8))
    ensures
        axes == (spec_axis(right, left), spec_axis(up, down)),
{
    let mut x: i8 = 0;
    let mut y: i8 = 0;
    if up {
        y = y + 1;
    }
    if down {
        y = y - 1;
    }
    if left {
        x = x - 1;
    }
    if right {
        x = x + 1;
    }
    (x, y)
}

/// What drives the on-screen stick.
#[derive(Clone, Copy, PartialEq, Eq, Debug, Structural)]
pub enum PointerSource {
    /// The touch with this id.
    Touch(u64),
    Mouse,
}

/// Which pointer, if any, takes hold of the stick this frame. None while the
/// stick is held already or the keyboard is moving the player; otherwise a
/// new touch first, then a left click with the cursor in the window.
pub fn stick_start(
    stick_held: bool,
    keyboard_moving: bool,
    new_touch: Option<u64>,
    click_in_window: bool,
) -> (pointer: Option<PointerSource>)
    ensures
        pointer == if stick_held || keyboard_moving {
            None
        } else if new_touch is Some {
            Some(PointerSource::Touch(new_touch->0))
        } else if click_in_window {
            Some(PointerSource::Mouse)
        } else {
            None
        },
{
    if stick_held || keyboard_moving {
        None
    } else if let Some(id) = new_touch {
        Some(PointerSource::Touch(id))
    } else if click_in_window {
        Some(PointerSource::Mouse)
    } else {
        None
    }
}

/// Whether the pointer holding the stick let go this frame: a touch that is
/// no longer pressed, or the mouse button released or the cursor out of the
/// window.
pub fn stick_released(pointer: PointerSource, touch_pressed: bool, button_released: bool, cursor_in_window: bool) -> (released:
    bool)
    ensures
        released == match pointer {
            PointerSource::Touch(_) => !touch_pressed,
            PointerSource::Mouse => button_released || !cursor_in_window,
        },
{
    match pointer {
        PointerSource::Touch(_) => !touch_pressed,
        PointerSource::Mouse => button_released || !cursor_in_window,
    }
}

} // verus!
