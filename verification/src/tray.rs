//! The tray icon's image, drawn without any image file: a square of one colour.
use vstd::prelude::*;

verus! {

/// The icon's width and height in pixels.
pub const TRAY_ICON_SIZE: u32 = 16;

/// The icon's colour as RGBA.
pub open spec fn tray_icon_color() -> Seq<u8> {
    seq![0x4Au8, 0x90u8, 0xD9u8, 0xFFu8]
}

/// The icon's RGBA pixels: `TRAY_ICON_SIZE` by `TRAY_ICON_SIZE` pixels, each
/// of them the icon's colour.
pub fn tray_icon_rgba() -> (rgba: Vec<u8>)
    ensures
        rgba@.len() == TRAY_ICON_SIZE * TRAY_ICON_SIZE * 4,
        forall|i: int| 0 <= i < rgba@.len() ==> #[trigger] rgba@[i] == tray_icon_color()[i % 4],
{
    let pixels: u32 = TRAY_ICON_SIZE * TRAY_ICON_SIZE;
    let mut rgba: Vec<u8> = Vec::new();
    let mut p: u32 = 0;
    while p < pixels
        invariant
            pixels == TRAY_ICON_SIZE * TRAY_ICON_SIZE,
            p <= pixels,
            rgba@.len() == 4 * p,
            forall|i: int| 0 <= i < rgba@.len() ==> #[trigger] rgba@[i] == tray_icon_color()[i % 4],
        decreases pixels - p,
    {
        rgba.push(0x4A);
        rgba.push(0x90);
        rgba.push(0xD9);
        rgba.push(0xFF);
        p += 1;
    }
    rgba
}

} // verus!
