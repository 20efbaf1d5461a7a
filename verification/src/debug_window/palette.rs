//! The colours of the panels.

use crate::debug_window::raster::Color;
use vstd::prelude::*;

verus! {

/// Behind the panels.
#[verifier::allow_in_spec]
pub fn bg() -> Color
    returns
        Color(0x1E, 0x1E, 0x1E, 0xFF),
{
    Color(0x1E, 0x1E, 0x1E, 0xFF)
}

/// Behind the contents of a panel.
#[verifier::allow_in_spec]
pub fn panel_bg() -> Color
    returns
        Color(0x25, 0x25, 0x25, 0xFF),
{
    Color(0x25, 0x25, 0x25, 0xFF)
}

/// Outlines.
#[verifier::allow_in_spec]
pub fn frame() -> Color
    returns
        Color(0x40, 0x40, 0x40, 0xFF),
{
    Color(0x40, 0x40, 0x40, 0xFF)
}

/// Text.
#[verifier::allow_in_spec]
pub fn text() -> Color
    returns
        Color(0xE8, 0xE8, 0xE8, 0xFF),
{
    Color(0xE8, 0xE8, 0xE8, 0xFF)
}

/// Text of lesser weight.
#[verifier::allow_in_spec]
pub fn text_dim() -> Color
    returns
        Color(0x90, 0x90, 0x90, 0xFF),
{
    Color(0x90, 0x90, 0x90, 0xFF)
}

/// Headings.
#[verifier::allow_in_spec]
pub fn text_head() -> Color
    returns
        Color(0xFF, 0xFF, 0xFF, 0xFF),
{
    Color(0xFF, 0xFF, 0xFF, 0xFF)
}

/// Behind bars and tracks.
#[verifier::allow_in_spec]
pub fn bar_bg() -> Color
    returns
        Color(0x2A, 0x2A, 0x2A, 0xFF),
{
    Color(0x2A, 0x2A, 0x2A, 0xFF)
}

/// The colour of the allocations of a memory type. Eight colours take turns.
pub open spec fn color_of_type(memory_type_index: int) -> Color {
    let k = memory_type_index % 8;
    if k == 0 {
        Color(0xB0, 0xC9, 0x4E, 0xFF)
    } else if k == 1 {
        Color(0xAA, 0xDC, 0xDC, 0xFF)
    } else if k == 2 {
        Color(0x78, 0x91, 0xCE, 0xFF)
    } else if k == 3 {
        Color(0xFE, 0xDC, 0x9C, 0xFF)
    } else if k == 4 {
        Color(0xC0, 0x86, 0xC5, 0xFF)
    } else if k == 5 {
        Color(0xD6, 0x9C, 0x56, 0xFF)
    } else if k == 6 {
        Color(0x4E, 0x8B, 0x60, 0xFF)
    } else {
        Color(0x7D, 0xBA, 0xD7, 0xFF)
    }
}

/// The colour of the allocations of a memory type.
pub fn alloc_color(memory_type_index: u32) -> (c: Color)
    ensures
        c == color_of_type(memory_type_index as int),
{
    match memory_type_index % 8 {
        0 => Color::rgb(0x4E, 0xC9, 0xB0),
        1 => Color::rgb(0xDC, 0xDC, 0xAA),
        2 => Color::rgb(0xCE, 0x91, 0x78),
        3 => Color::rgb(0x9C, 0xDC, 0xFE),
        4 => Color::rgb(0xC5, 0x86, 0xC0),
        5 => Color::rgb(0x56, 0x9C, 0xD6),
        6 => Color::rgb(0x60, 0x8B, 0x4E),
        _ => Color::rgb(0xD7, 0xBA, 0x7D),
    }
}

/// Allocations in the timeline.
#[verifier::allow_in_spec]
pub fn evt_alloc() -> Color
    returns
        Color(0x80, 0xD0, 0x60, 0xFF),
{
    Color(0x80, 0xD0, 0x60, 0xFF)
}

/// Frees in the timeline.
#[verifier::allow_in_spec]
pub fn evt_free() -> Color
    returns
        Color(0x60, 0x60, 0xE0, 0xFF),
{
    Color(0x60, 0x60, 0xE0, 0xFF)
}

/// Submissions in the timeline.
#[verifier::allow_in_spec]
pub fn evt_submit() -> Color
    returns
        Color(0xE0, 0xA0, 0x70, 0xFF),
{
    Color(0xE0, 0xA0, 0x70, 0xFF)
}

/// Transitions in the timeline.
#[verifier::allow_in_spec]
pub fn evt_transition() -> Color
    returns
        Color(0x40, 0xC0, 0xF0, 0xFF),
{
    Color(0x40, 0xC0, 0xF0, 0xFF)
}

/// Passes in the timeline.
#[verifier::allow_in_spec]
pub fn evt_pass() -> Color
    returns
        Color(0xE0, 0x80, 0xC0, 0xFF),
{
    Color(0xE0, 0x80, 0xC0, 0xFF)
}

/// Custom events in the timeline.
#[verifier::allow_in_spec]
pub fn evt_custom() -> Color
    returns
        Color(0xA0, 0xA0, 0xA0, 0xFF),
{
    Color(0xA0, 0xA0, 0xA0, 0xFF)
}

} // verus!
