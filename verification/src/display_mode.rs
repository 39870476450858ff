//! Display-mode planning for the raw display-API rotation variant.
//!
//! The OS display-mode descriptor stores width and height relative to
//! the unrotated panel, so a change that crosses the portrait /
//! landscape boundary must swap the two dimensions.  This module holds
//! the verified planning step: from the current mode and a target
//! orientation it computes the mode to write back.

use vstd::prelude::*;
use crate::rotate_screen::Orientation;

verus! {

/// What the rotation logic reads and writes of the OS display-mode
/// descriptor: the resolution and the orientation flag.
#[derive(Clone, Copy, Debug, PartialEq, Eq, Structural)]
pub struct DisplayMode {
    pub width: u32,
    pub height: u32,
    pub orientation: Orientation,
}

/// Whether an orientation belongs to the landscape group of the
/// unrotated panel (0° or 180°).
pub open spec fn is_landscape(orientation: Orientation) -> bool {
    orientation == Orientation::D0 || orientation == Orientation::D180
}

/// Width and height must be swapped exactly when the change crosses
/// the portrait / landscape boundary.
pub open spec fn spec_need_swap(current: Orientation, target: Orientation) -> bool {
    is_landscape(current) != is_landscape(target)
}

/// Whether rotating the display of `display_mode` to `orientation`
/// requires swapping width and height.
pub fn is_need_to_swap_dimensions(display_mode: &DisplayMode, orientation: Orientation) -> (r: bool)
    ensures
        r == spec_need_swap(display_mode.orientation, orientation),
{
    let current = display_mode.orientation;
    let is_changed_to_portrait = (current == Orientation::D0 || current == Orientation::D180) && (
    orientation == Orientation::D90 || orientation == Orientation::D270);
    let is_changed_to_landscape = (current == Orientation::D90 || current == Orientation::D270) && (
    orientation == Orientation::D0 || orientation == Orientation::D180);
    is_changed_to_portrait || is_changed_to_landscape
}

/// The numeric value of the orientation flag in the OS display-mode
/// descriptor for each orientation.
pub open spec fn spec_orientation_flag(orientation: Orientation) -> u32 {
    match orientation {
        Orientation::D0 => 0u32,
        Orientation::D90 => 1u32,
        Orientation::D180 => 2u32,
        Orientation::D270 => 3u32,
    }
}

/// Orientation flag value for the OS display-mode descriptor.
pub fn orientation_to_display_mode(orientation: Orientation) -> (r: u32)
    ensures
        r == spec_orientation_flag(orientation),
{
    match orientation {
        Orientation::D0 => 0,
        Orientation::D90 => 1,
        Orientation::D180 => 2,
        Orientation::D270 => 3,
    }
}

/// Plans the mode to write back when rotating to `target`: the target
/// orientation, with width and height swapped exactly when the change
/// crosses the portrait / landscape boundary.
pub fn plan_display_mode_change(current: &DisplayMode, target: Orientation) -> (r: DisplayMode)
    ensures
        r.orientation == target,
        spec_need_swap(current.orientation, target) ==> r.width == current.height && r.height
            == current.width,
        !spec_need_swap(current.orientation, target) ==> r.width == current.width && r.height
            == current.height,
{
    if is_need_to_swap_dimensions(current, target) {
        DisplayMode { width: current.height, height: current.width, orientation: target }
    } else {
        DisplayMode { width: current.width, height: current.height, orientation: target }
    }
}

} // verus!
