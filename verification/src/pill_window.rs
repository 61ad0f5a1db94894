//! The styles and the place of the main window: an invisible pill while dictating, a
//! framed panel for setup and settings.
use vstd::prelude::*;

verus! {

pub const PILL_WIDTH: i32 = 340;

pub const PILL_HEIGHT: i32 = 64;

pub const PANEL_WIDTH: i32 = 800;

pub const PANEL_HEIGHT: i32 = 600;

pub const WS_CAPTION: u32 = 0x00c0_0000;

pub const WS_SYSMENU: u32 = 0x0008_0000;

pub const WS_THICKFRAME: u32 = 0x0004_0000;

pub const WS_MINIMIZEBOX: u32 = 0x0002_0000;

pub const WS_MAXIMIZEBOX: u32 = 0x0001_0000;

pub const WS_POPUP: u32 = 0x8000_0000;

pub const WS_EX_TOPMOST: u32 = 0x8;

pub const WS_EX_TRANSPARENT: u32 = 0x20;

pub const WS_EX_TOOLWINDOW: u32 = 0x80;

pub const WS_EX_APPWINDOW: u32 = 0x0004_0000;

pub const WS_EX_NOACTIVATE: u32 = 0x0800_0000;

/// The styles that make up a frame: the caption with its menu and boxes, and the
/// sizing border.
pub const CHROME_CLEAR_MASK: u32 = 0x00cf_0000;

/// The extended styles in which the pill and the panel differ.
pub const EX_CLEAR_MASK: u32 = 0x0804_0088;

/// The extended styles of the pill.
pub const EX_PILL: u32 = 0x0800_0088;

/// The style of the pill: a popup without a frame, otherwise as it was.
pub fn pill_style(style: u32) -> (r: u32)
    ensures
        r == (style & !CHROME_CLEAR_MASK) | WS_POPUP,
{
    (style & !CHROME_CLEAR_MASK) | WS_POPUP
}

/// The style of the panel: a frame and no popup, otherwise as it was.
pub fn panel_style(style: u32) -> (r: u32)
    ensures
        r == (style & !(CHROME_CLEAR_MASK | WS_POPUP)) | CHROME_CLEAR_MASK,
{
    let frame: u32 = WS_CAPTION | WS_SYSMENU | WS_MINIMIZEBOX | WS_MAXIMIZEBOX | WS_THICKFRAME;
    assert(0x00c0_0000u32 | 0x0008_0000u32 | 0x0002_0000u32 | 0x0001_0000u32 | 0x0004_0000u32
        == 0x00cf_0000u32) by (bit_vector);
    (style & !(CHROME_CLEAR_MASK | WS_POPUP)) | frame
}

/// The extended style of the pill.
pub fn pill_ex_style(ex_style: u32) -> (r: u32)
    ensures
        r == (ex_style & !EX_CLEAR_MASK) | EX_PILL,
{
    (ex_style & !EX_CLEAR_MASK) | EX_PILL
}

/// The extended style of the panel: it shows in the task bar.
pub fn panel_ex_style(ex_style: u32) -> (r: u32)
    ensures
        r == (ex_style & !EX_CLEAR_MASK) | WS_EX_APPWINDOW,
{
    (ex_style & !EX_CLEAR_MASK) | WS_EX_APPWINDOW
}

/// The extended style with clicks going through the window or not, and whether that is
/// a change.
pub fn click_through_style(ex_style: u32, enabled: bool) -> (r: (u32, bool))
    ensures
        r.0 == (if enabled {
            ex_style | WS_EX_TRANSPARENT
        } else {
            ex_style & !WS_EX_TRANSPARENT
        }),
        r.1 == (r.0 != ex_style),
{
    let updated: u32 = if enabled {
        ex_style | WS_EX_TRANSPARENT
    } else {
        ex_style & !WS_EX_TRANSPARENT
    };
    (updated, updated != ex_style)
}

/// Turning the window into a panel and into a pill again, or the other way round,
/// gives what turning it once gives; and the two touch no style but the frame and the
/// popup.
pub proof fn styles_switch_back_and_forth(style: u32)
    ensures
        ({
            let pill = (style & !CHROME_CLEAR_MASK) | WS_POPUP;
            let panel = (style & !(CHROME_CLEAR_MASK | WS_POPUP)) | CHROME_CLEAR_MASK;
            &&& (panel & !CHROME_CLEAR_MASK) | WS_POPUP == pill
            &&& (pill & !(CHROME_CLEAR_MASK | WS_POPUP)) | CHROME_CLEAR_MASK == panel
            &&& pill & CHROME_CLEAR_MASK == 0
            &&& panel & WS_POPUP == 0
            &&& pill & !(CHROME_CLEAR_MASK | WS_POPUP) == style & !(CHROME_CLEAR_MASK | WS_POPUP)
            &&& panel & !(CHROME_CLEAR_MASK | WS_POPUP) == style & !(CHROME_CLEAR_MASK | WS_POPUP)
        }),
{
    let m = CHROME_CLEAR_MASK;
    let p = WS_POPUP;
    let pill = (style & !m) | p;
    let panel = (style & !(m | p)) | m;
    assert((((style & !(m | p)) | m) & !m) | p == (style & !m) | p) by (bit_vector)
        requires
            m == 0x00cf_0000u32,
            p == 0x8000_0000u32,
    ;
    assert((((style & !m) | p) & !(m | p)) | m == (style & !(m | p)) | m) by (bit_vector)
        requires
            m == 0x00cf_0000u32,
            p == 0x8000_0000u32,
    ;
    assert(((style & !m) | p) & m == 0) by (bit_vector)
        requires
            m == 0x00cf_0000u32,
            p == 0x8000_0000u32,
    ;
    assert(((style & !(m | p)) | m) & p == 0) by (bit_vector)
        requires
            m == 0x00cf_0000u32,
            p == 0x8000_0000u32,
    ;
    assert(((style & !m) | p) & !(m | p) == style & !(m | p)) by (bit_vector)
        requires
            m == 0x00cf_0000u32,
            p == 0x8000_0000u32,
    ;
    assert(((style & !(m | p)) | m) & !(m | p) == style & !(m | p)) by (bit_vector)
        requires
            m == 0x00cf_0000u32,
            p == 0x8000_0000u32,
    ;
}

/// Letting clicks through and catching them again leaves the style as it was, where
/// it caught them before.
pub proof fn click_through_is_undone(ex_style: u32)
    requires
        ex_style & WS_EX_TRANSPARENT == 0,
    ensures
        (ex_style | WS_EX_TRANSPARENT) & !WS_EX_TRANSPARENT == ex_style,
{
    let t = WS_EX_TRANSPARENT;
    assert((ex_style | t) & !t == ex_style) by (bit_vector)
        requires
            ex_style & t == 0,
    ;
}

/// A rectangle by its corner and its size.
#[derive(Clone, Copy, Debug, PartialEq, Eq, Structural)]
pub struct Area {
    pub x: i32,
    pub y: i32,
    pub w: i32,
    pub h: i32,
}

/// Whether a number is one of 32 bits.
pub open spec fn fits(n: int) -> bool {
    i32::MIN <= n <= i32::MAX
}

/// Half of a difference, rounded towards zero.
pub open spec fn half(n: int) -> int {
    if n >= 0 {
        n / 2
    } else {
        -((-n) / 2)
    }
}

/// Half of a difference, rounded towards zero.
pub fn halved(n: i32) -> (r: i32)
    ensures
        r == half(n as int),
{
    if n >= 0 {
        n / 2
    } else if n == i32::MIN {
        -1_073_741_824
    } else {
        -((-n) / 2)
    }
}

/// Where the pill's window stands in the work area: at the bottom, in the middle.
pub fn pill_place(area: Area, frame_w: i32, frame_h: i32) -> (r: (i32, i32))
    requires
        fits(area.w - frame_w),
        fits(area.x + half(area.w - frame_w)),
        fits(area.y + area.h),
        fits(area.y + area.h - frame_h),
        fits(area.y + area.h - frame_h - 12),
    ensures
        r.0 == area.x + half(area.w - frame_w),
        r.1 == area.y + area.h - frame_h - 12,
{
    (area.x + halved(area.w - frame_w), area.y + area.h - frame_h - 12)
}

/// Where the panel stands in the work area: in the middle.
pub fn panel_place(area: Area, frame_w: i32, frame_h: i32) -> (r: (i32, i32))
    requires
        fits(area.w - frame_w),
        fits(area.x + half(area.w - frame_w)),
        fits(area.h - frame_h),
        fits(area.y + half(area.h - frame_h)),
    ensures
        r.0 == area.x + half(area.w - frame_w),
        r.1 == area.y + half(area.h - frame_h),
{
    (area.x + halved(area.w - frame_w), area.y + halved(area.h - frame_h))
}

/// The size of a window is asked for.
pub const WM_NCCALCSIZE: u32 = 0x0083;

/// It is asked what part of a window a point belongs to.
pub const WM_NCHITTEST: u32 = 0x0084;

/// Who handles a message.
#[derive(Clone, Copy, Debug, PartialEq, Eq, Structural)]
pub enum Handler {
    System,
    /// The procedure that the window had before.
    Before,
    /// The point belongs to the caption.
    Caption,
}

/// Who handles a message of the panel: the system draws and sizes its frame, and the
/// procedure before does the rest where there is one.
pub fn panel_handler(message: u32, has_before: bool) -> (handler: Handler)
    ensures
        handler == (if message == WM_NCCALCSIZE || message == WM_NCHITTEST || !has_before {
            Handler::System
        } else {
            Handler::Before
        }),
{
    if message == WM_NCCALCSIZE || message == WM_NCHITTEST || !has_before {
        Handler::System
    } else {
        Handler::Before
    }
}

/// Who handles a message of the installer while it works: its strip is a caption.
pub fn progress_handler(message: u32, in_strip: bool, has_before: bool) -> (handler: Handler)
    ensures
        handler == (if message == WM_NCHITTEST {
            if in_strip {
                Handler::Caption
            } else {
                Handler::System
            }
        } else if has_before {
            Handler::Before
        } else {
            Handler::System
        }),
{
    if message == WM_NCHITTEST {
        if in_strip {
            Handler::Caption
        } else {
            Handler::System
        }
    } else if has_before {
        Handler::Before
    } else {
        Handler::System
    }
}

/// Half of a number is so towards zero.
pub proof fn halves_are_even(n: int)
    ensures
        -1 <= n - 2 * half(n) <= 1,
        n >= 0 ==> 0 <= 2 * half(n) <= n,
        n <= 0 ==> n <= 2 * half(n) <= 0,
        half(-n) == -half(n),
{
}

/// The pill stands in the middle above the lower edge, and the panel in the middle of the
/// screen.
pub proof fn windows_stand_in_the_middle(
    area: Area,
    w: i32,
    h: i32,
    pill: (i32, i32),
    panel: (i32, i32),
)
    requires
        call_ensures(pill_place, (area, w, h), pill),
        call_ensures(panel_place, (area, w, h), panel),
    ensures
        pill.0 == panel.0,
        -1 <= (pill.0 - area.x) - (area.x + area.w - (pill.0 + w)) <= 1,
        pill.1 + h + 12 == area.y + area.h,
        -1 <= (panel.1 - area.y) - (area.y + area.h - (panel.1 + h)) <= 1,
{
}

/// The pill has no frame and the panel has one, and neither changes any other style; the
/// pill stays on top, off the task bar and out of the focus, and the panel does not.
pub proof fn pills_have_no_frame(
    style: u32,
    ex_style: u32,
    pill: u32,
    panel: u32,
    pill_ex: u32,
    panel_ex: u32,
)
    requires
        call_ensures(pill_style, (style,), pill),
        call_ensures(panel_style, (style,), panel),
        call_ensures(pill_ex_style, (ex_style,), pill_ex),
        call_ensures(panel_ex_style, (ex_style,), panel_ex),
    ensures
        pill & 0x80cf_0000 == 0x8000_0000,
        panel & 0x80cf_0000 == 0x00cf_0000,
        pill & 0x7f30_ffff == style & 0x7f30_ffff,
        panel & 0x7f30_ffff == style & 0x7f30_ffff,
        pill_ex & 0x0804_0088 == 0x0800_0088,
        panel_ex & 0x0804_0088 == 0x0004_0000,
        pill_ex & 0xf7fb_ff77 == ex_style & 0xf7fb_ff77,
        panel_ex & 0xf7fb_ff77 == ex_style & 0xf7fb_ff77,
{
    assert(((style & !0x00cf_0000u32) | 0x8000_0000u32) & 0x80cf_0000u32 == 0x8000_0000u32 && ((style
        & !0x00cf_0000u32) | 0x8000_0000u32) & 0x7f30_ffffu32 == style & 0x7f30_ffffu32)
        by (bit_vector);
    assert(((style & !(0x00cf_0000u32 | 0x8000_0000u32)) | 0x00cf_0000u32) & 0x80cf_0000u32
        == 0x00cf_0000u32 && ((style & !(0x00cf_0000u32 | 0x8000_0000u32)) | 0x00cf_0000u32)
        & 0x7f30_ffffu32 == style & 0x7f30_ffffu32) by (bit_vector);
    assert(((ex_style & !0x0804_0088u32) | 0x0800_0088u32) & 0x0804_0088u32 == 0x0800_0088u32 && ((
    ex_style & !0x0804_0088u32) | 0x0800_0088u32) & 0xf7fb_ff77u32 == ex_style & 0xf7fb_ff77u32)
        by (bit_vector);
    assert(((ex_style & !0x0804_0088u32) | 0x0004_0000u32) & 0x0804_0088u32 == 0x0004_0000u32 && ((
    ex_style & !0x0804_0088u32) | 0x0004_0000u32) & 0xf7fb_ff77u32 == ex_style & 0xf7fb_ff77u32)
        by (bit_vector);
}

/// Clicks go through the window exactly while that is switched on, and a style is set only
/// where it changes.
pub proof fn clicks_go_through_while_switched_on(ex_style: u32, enabled: bool, r: (u32, bool))
    requires
        call_ensures(click_through_style, (ex_style, enabled), r),
    ensures
        r.0 & 0x20 == (if enabled {
            0x20u32
        } else {
            0u32
        }),
        r.0 & 0xffff_ffdf == ex_style & 0xffff_ffdf,
        r.1 <==> r.0 != ex_style,
{
    assert((ex_style | 0x20u32) & 0x20u32 == 0x20u32 && (ex_style & !0x20u32) & 0x20u32 == 0u32
        && (ex_style | 0x20u32) & 0xffff_ffdfu32 == ex_style & 0xffff_ffdfu32 && (ex_style
        & !0x20u32) & 0xffff_ffdfu32 == ex_style & 0xffff_ffdfu32) by (bit_vector);
}

/// The size and the parts of the panel are the system's, and of the window of the installer
/// the strip along its edge counts as its title; all other messages go on to who had them.
pub proof fn other_messages_go_on(
    message: u32,
    in_strip: bool,
    has_before: bool,
    panel: Handler,
    progress: Handler,
)
    requires
        call_ensures(panel_handler, (message, has_before), panel),
        call_ensures(progress_handler, (message, in_strip, has_before), progress),
    ensures
        panel == Handler::Before <==> has_before && message != 0x83 && message != 0x84,
        panel != Handler::Before ==> panel == Handler::System,
        progress == Handler::Caption <==> message == 0x84 && in_strip,
        progress == Handler::Before <==> has_before && message != 0x84,
{
}

} // verus!
