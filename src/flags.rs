use vstd::prelude::*;

verus! {

/// Message sent to top-level windows when a system-wide setting changes.
pub const WM_SETTINGCHANGE: u32 = 26;

/// Message sent to all windows when the display resolution changes.
pub const WM_DISPLAYCHANGE: u32 = 126;

/// Message that notifies a window of a change to the device configuration.
pub const WM_DEVICECHANGE: u32 = 537;

/// Message carrying a raw input record for a registered window.
pub const WM_INPUT: u32 = 255;

/// Settings-change discriminant: the desktop work area changed.
pub const SPI_SETWORKAREA: u32 = 47;

/// Settings-change discriminant: the vertical icon spacing changed.
pub const SPI_ICONVERTICALSPACING: u32 = 24;

/// Device-change discriminant: a device was added to or removed from the
/// system.
pub const DBT_DEVNODES_CHANGED: u32 = 7;

/// Raw input record type of a mouse.
pub const RIM_TYPEMOUSE: u32 = 0;

/// Button transition: the left button went down.
pub const RI_MOUSE_LEFT_BUTTON_DOWN: u32 = 1;

/// Button transition: the left button went up.
pub const RI_MOUSE_LEFT_BUTTON_UP: u32 = 2;

/// Button transition: the right button went down.
pub const RI_MOUSE_RIGHT_BUTTON_DOWN: u32 = 4;

/// Button transition: the right button went up.
pub const RI_MOUSE_RIGHT_BUTTON_UP: u32 = 8;

/// Motion flags: the movement is relative to the last position. This is the
/// empty mask, so every motion bitmask contains it.
pub const MOUSE_MOVE_RELATIVE: u32 = 0;

/// Motion flags: the movement is given in absolute coordinates.
pub const MOUSE_MOVE_ABSOLUTE: u32 = 1;

/// Whether every bit of `mask` is also set in `value`.
pub open spec fn contains_bits(value: u16, mask: u16) -> bool {
    value & mask == mask
}

/// Checks whether `short` contains all the bits of `mask`. Only the low
/// sixteen bits of `mask` take part: raw mouse flags are sixteen bits wide.
pub fn has_flags(short: u16, mask: u32) -> (r: bool)
    ensures
        r == contains_bits(short, mask as u16),
{
    short & (mask as u16) == (mask as u16)
}

} // verus!
