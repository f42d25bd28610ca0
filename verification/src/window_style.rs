//! The Win32 window style bits of the pet's window: no frame, a floating
//! tool window kept on top, and click-through switched on and off.

use vstd::prelude::*;

verus! {

/// `WS_CAPTION | WS_THICKFRAME | WS_MINIMIZEBOX | WS_MAXIMIZEBOX | WS_SYSMENU`:
/// the frame that the pet's window does without.
pub const FRAME_STYLES: u32 = 0x00cf_0000;

/// `WS_EX_LAYERED | WS_EX_TOOLWINDOW | WS_EX_TOPMOST`: a see-through tool
/// window kept above the others.
pub const FLOATING_EX_STYLES: isize = 0x0008_0088;

/// `WS_EX_APPWINDOW`: a taskbar button, which the pet does without.
pub const APP_WINDOW_EX_STYLE: isize = 0x0004_0000;

/// `WS_EX_TRANSPARENT`: clicks go through the window.
pub const TRANSPARENT_EX_STYLE: isize = 0x0000_0020;

/// `WS_EX_LAYERED`.
pub const LAYERED_EX_STYLE: isize = 0x0008_0000;

/// The window style without its frame: the style masked with the 32-bit
/// complement of the frame bits, widened without sign. The frame bits are
/// cleared and the other low 32 bits kept (and, where `isize` is wider than
/// 32 bits, the bits above them are cleared too).
pub fn frameless_style(style: isize) -> (r: isize)
    ensures
        r == style & ((!0x00cf_0000u32) as isize),
        r & 0x00cf_0000 == 0,
{
    let mask: u32 = !FRAME_STYLES;
    let r = style & (mask as isize);
    assert(r & 0x00cf_0000 == 0) by (bit_vector)
        requires
            r == style & ((!0x00cf_0000u32) as isize),
    ;
    r
}

/// The extended style of a floating pet: layered, a tool window, topmost,
/// and without a taskbar button; every other bit kept.
pub fn floating_ex_style(ex: isize) -> (r: isize)
    ensures
        r & 0x0008_0088 == 0x0008_0088,
        r & 0x0004_0000 == 0,
        r & !0x000c_0088isize == ex & !0x000c_0088isize,
{
    let r = (ex | FLOATING_EX_STYLES) & !APP_WINDOW_EX_STYLE;
    assert(r & 0x0008_0088 == 0x0008_0088 && r & 0x0004_0000 == 0 && r & !0x000c_0088isize == ex
        & !0x000c_0088isize) by (bit_vector)
        requires
            r == (ex | 0x0008_0088isize) & !0x0004_0000isize,
    ;
    r
}

/// The extended style with click-through switched on or off; every other
/// bit kept.
pub fn click_through_ex_style(ex: isize, transparent: bool) -> (r: isize)
    ensures
        (r & 0x20 != 0) == transparent,
        r & !0x20isize == ex & !0x20isize,
{
    if transparent {
        let r = ex | TRANSPARENT_EX_STYLE;
        assert(r & 0x20 != 0 && r & !0x20isize == ex & !0x20isize) by (bit_vector)
            requires
                r == ex | 0x20isize,
        ;
        r
    } else {
        let r = ex & !TRANSPARENT_EX_STYLE;
        assert(r & 0x20 == 0 && r & !0x20isize == ex & !0x20isize) by (bit_vector)
            requires
                r == ex & !0x20isize,
        ;
        r
    }
}

/// The extended style the pet's window starts with when click-through is
/// installed: layered and letting clicks through; every other bit kept.
pub fn subclassed_ex_style(ex: isize) -> (r: isize)
    ensures
        r & 0x0008_0020 == 0x0008_0020,
        r & !0x0008_0020isize == ex & !0x0008_0020isize,
{
    let r = ex | TRANSPARENT_EX_STYLE | LAYERED_EX_STYLE;
    assert(r & 0x0008_0020 == 0x0008_0020 && r & !0x0008_0020isize == ex & !0x0008_0020isize)
        by (bit_vector)
        requires
            r == ex | 0x20isize | 0x0008_0000isize,
    ;
    r
}

} // verus!
