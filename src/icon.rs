use std::rc::Rc;
use vstd::prelude::*;

verus! {

/// Image formats a tray icon can be given in.
#[derive(Clone, Copy, Debug, PartialEq, Eq, Structural)]
pub enum ImageFormat {
    Png,
    Jpeg,
    Svg,
    RawRgba,
}

/// The icon shown in the tray.
#[derive(Clone, Debug)]
pub enum TrayIcon {
    /// Icon from encoded image data.
    Image { format: ImageFormat, data: Vec<u8> },
    /// Icon from a theme name (used by desktop environments with icon themes).
    Name(String),
}

impl TrayIcon {
    /// Creates an icon from a theme name.
    pub fn from_name(name: &str) -> (r: Self)
        ensures
            r matches TrayIcon::Name(n) && n@ == name@,
    {
        TrayIcon::Name(name.to_string())
    }

    /// Creates an icon from image data in the given format.
    pub fn from_data(format: ImageFormat, data: Vec<u8>) -> (r: Self)
        ensures
            r matches TrayIcon::Image { format: f, data: d } && f == format && d@ == data@,
    {
        TrayIcon::Image { format, data }
    }

    /// Creates an icon from PNG image data.
    pub fn from_bytes(data: Vec<u8>) -> (r: Self)
        ensures
            r matches TrayIcon::Image { format: f, data: d } && f == ImageFormat::Png && d@
                == data@,
    {
        TrayIcon::Image { format: ImageFormat::Png, data }
    }
}

/// Decoded RGBA pixels of an icon, ready for the platform to render.
#[derive(Clone, Debug)]
pub struct TrayIconData {
    pub data: Rc<Vec<u8>>,
    pub width: u32,
    pub height: u32,
}

/// The transparency-mask byte of one pixel, from its alpha byte: the alpha
/// minus 255, wrapping.
pub open spec fn mask_byte(alpha: u8) -> u8 {
    ((alpha as int + 1) % 256) as u8
}

/// The mask the native icon is created with: one byte per whole RGBA pixel (four bytes),
/// derived from that pixel's alpha byte. Trailing bytes that do not make up a
/// whole pixel are ignored.
pub fn icon_and_mask(rgba: &Vec<u8>) -> (mask: Vec<u8>)
    ensures
        mask@.len() == rgba@.len() / 4,
        forall|i: int|
            0 <= i < mask@.len() ==> #[trigger] mask@[i] == mask_byte(rgba@[4 * i + 3]),
{
    let mut mask: Vec<u8> = Vec::with_capacity(rgba.len() / 4);
    let mut base: usize = 0;
    while rgba.len() - base >= 4
        invariant
            base <= rgba@.len(),
            base == 4 * mask@.len(),
            forall|j: int|
                0 <= j < mask@.len() ==> #[trigger] mask@[j] == mask_byte(rgba@[4 * j + 3]),
        decreases rgba@.len() - base,
    {
        mask.push(rgba[base + 3].wrapping_sub(u8::MAX));
        base = base + 4;
    }
    assert(mask@.len() == rgba@.len() / 4);
    mask
}

} // verus!
