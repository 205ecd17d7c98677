//! Sizes and decisions for the raster preview of an object.
//!
//! Drawing and the handling of the pointer are the host's part. What is
//! here is what the host has to work out in between: how large a pixel
//! buffer must be, and what a drag of the pointer means.

use vstd::prelude::*;

verus! {

/// The bit that is set in a pointer state while the first button is held.
pub const BUTTON1_MASK: u32 = 256;

/// The bit that is set in a pointer state while the third button is held.
pub const BUTTON3_MASK: u32 = 1024;

/// Bytes per pixel of a preview image.
pub const BYTES_PER_PIXEL: i32 = 4;

/// What a drag of the pointer does to the view.
#[derive(Clone, Copy, Debug, PartialEq, Eq, Structural)]
pub enum DragAction {
    /// Turn the object.
    Rotate,
    /// Move the object across the screen.
    Translate,
    /// Neither: no button that the preview listens to is held.
    Ignore,
}

/// The first button turns; without it the third button moves.
pub open spec fn spec_drag_action(state: u32) -> DragAction {
    if state & BUTTON1_MASK != 0 {
        DragAction::Rotate
    } else if state & BUTTON3_MASK != 0 {
        DragAction::Translate
    } else {
        DragAction::Ignore
    }
}

/// Bytes in one row of an image `width` pixels wide.
pub open spec fn spec_stride(width: i32) -> int {
    width * BYTES_PER_PIXEL
}

/// Bytes in an image of `width` by `height` pixels.
pub open spec fn spec_buffer_len(width: i32, height: i32) -> int {
    width * height * BYTES_PER_PIXEL
}

/// Whether an image of this size has a buffer: no side is negative and
/// the number of its bytes fits the signed 32 bits that the drawing
/// surface counts in.
pub open spec fn drawable(width: i32, height: i32) -> bool {
    &&& width >= 0
    &&& height >= 0
    &&& spec_buffer_len(width, height) <= i32::MAX
}

/// What a drag means while the buttons and keys of `state` are held.
#[verifier::when_used_as_spec(spec_drag_action)]
pub fn drag_action(state: u32) -> (r: DragAction)
    ensures
        r == spec_drag_action(state),
{
    if state & BUTTON1_MASK != 0 {
        DragAction::Rotate
    } else if state & BUTTON3_MASK != 0 {
        DragAction::Translate
    } else {
        DragAction::Ignore
    }
}

/// Bytes in one row of an image `width` pixels wide, where that can be
/// drawn.
pub fn stride(width: i32) -> (r: Option<i32>)
    ensures
        r.is_some() <==> 0 <= width && spec_stride(width) <= i32::MAX,
        r matches Some(bytes) ==> bytes == spec_stride(width),
{
    if width < 0 {
        None
    } else {
        width.checked_mul(BYTES_PER_PIXEL)
    }
}

/// Bytes in the pixel buffer of an image of `width` by `height` pixels,
/// where it has one.
pub fn buffer_len(width: i32, height: i32) -> (r: Option<usize>)
    ensures
        r.is_some() <==> drawable(width, height),
        r matches Some(bytes) ==> bytes == spec_buffer_len(width, height),
{
    if width < 0 || height < 0 {
        return None;
    }
    assert(0 <= width * height <= 0x7fff_ffff * 0x7fff_ffff) by (nonlinear_arith)
        requires
            0 <= width <= 0x7fff_ffff,
            0 <= height <= 0x7fff_ffff,
    ;
    let pixels: u64 = (width as u64) * (height as u64);
    if pixels > (i32::MAX as u64) / 4 {
        None
    } else {
        Some((pixels * 4) as usize)
    }
}

} // verus!
