//! The window probe: which window is opened, what is done to it, and whether it can be
//! seen in the picture that is taken of it.
use crate::text::{joined, same_text};
use crate::words::wide;
use vstd::prelude::*;

verus! {

/// The title of the probed window, before the name of the variant.
pub const TITLE_PREFIX: &'static str = "win-probe-window";

/// What window a variant opens and what it does to it.
#[derive(Clone, Copy, Debug, PartialEq, Eq, Structural)]
pub struct VariantConfig {
    pub popup: bool,
    pub transparent: bool,
    pub morph: bool,
    pub hide_cycle: bool,
    pub long_hide: bool,
}

/// A variant.
pub open spec fn variant(
    popup: bool,
    transparent: bool,
    morph: bool,
    hide_cycle: bool,
    long_hide: bool,
) -> VariantConfig {
    VariantConfig { popup, transparent, morph, hide_cycle, long_hide }
}

/// The variant of a name: an unknown one is the baseline.
pub open spec fn variant_of(name: Seq<char>) -> VariantConfig {
    if name == "opaque"@ {
        variant(true, false, false, false, false)
    } else if name == "normal-trans"@ {
        variant(false, true, false, false, false)
    } else if name == "normal-opaque"@ {
        variant(false, false, false, false, false)
    } else if name == "rawhide"@ {
        variant(true, true, false, true, false)
    } else if name == "morph"@ || name == "morph-after-show"@ {
        variant(true, true, true, false, false)
    } else if name == "morph-hide"@ {
        variant(true, true, true, true, false)
    } else if name == "rawhide-long"@ {
        variant(true, true, false, true, true)
    } else if name == "morph-hidden"@ || name == "hide-before-paint"@ {
        variant(true, true, true, true, true)
    } else {
        variant(true, true, false, false, false)
    }
}

fn config(
    popup: bool,
    transparent: bool,
    morph: bool,
    hide_cycle: bool,
    long_hide: bool,
) -> (config: VariantConfig)
    ensures
        config == variant(popup, transparent, morph, hide_cycle, long_hide),
{
    VariantConfig { popup, transparent, morph, hide_cycle, long_hide }
}

/// The variant of a name.
pub fn variant_config(name: &str) -> (r: VariantConfig)
    ensures
        r == variant_of(name@),
{
    if same_text(name, "opaque") {
        config(true, false, false, false, false)
    } else if same_text(name, "normal-trans") {
        config(false, true, false, false, false)
    } else if same_text(name, "normal-opaque") {
        config(false, false, false, false, false)
    } else if same_text(name, "rawhide") {
        config(true, true, false, true, false)
    } else if same_text(name, "morph") || same_text(name, "morph-after-show") {
        config(true, true, true, false, false)
    } else if same_text(name, "morph-hide") {
        config(true, true, true, true, false)
    } else if same_text(name, "rawhide-long") {
        config(true, true, false, true, true)
    } else if same_text(name, "morph-hidden") || same_text(name, "hide-before-paint") {
        config(true, true, true, true, true)
    } else {
        config(true, true, false, false, false)
    }
}

/// What is done to the window before it is shown again, in this order.
#[derive(Clone, Copy, Debug, PartialEq, Eq, Structural)]
pub struct ShowPlan {
    pub hide: bool,
    /// How long to wait, in milliseconds.
    pub wait_ms: u64,
    /// Give the window the look of the pill.
    pub morph: bool,
}

/// What is done to the window of a variant before it is shown again.
pub open spec fn plan_of(name: Seq<char>) -> ShowPlan {
    let config = variant_of(name);
    if name == "morph-hidden"@ {
        ShowPlan { hide: true, wait_ms: 3000, morph: true }
    } else if name == "morph-after-show"@ {
        ShowPlan { hide: false, wait_ms: 200, morph: true }
    } else {
        ShowPlan {
            hide: config.hide_cycle,
            wait_ms: if !config.hide_cycle {
                0
            } else if config.long_hide {
                3000
            } else {
                400
            },
            morph: config.morph,
        }
    }
}

/// What is done to the window of a variant before it is shown again.
pub fn show_plan(name: &str) -> (plan: ShowPlan)
    ensures
        plan == plan_of(name@),
{
    if same_text(name, "morph-hidden") {
        return ShowPlan { hide: true, wait_ms: 3000, morph: true };
    }
    if same_text(name, "morph-after-show") {
        return ShowPlan { hide: false, wait_ms: 200, morph: true };
    }
    let config = variant_config(name);
    let wait_ms: u64 = if !config.hide_cycle {
        0
    } else if config.long_hide {
        3000
    } else {
        400
    };
    ShowPlan { hide: config.hide_cycle, wait_ms, morph: config.morph }
}

/// The title of the window of a variant for the system.
pub fn title_utf16(variant: &str) -> (units: Vec<u16>)
    ensures
        units@ == crate::words::encoded(TITLE_PREFIX@ + "-"@ + variant@).push(0),
{
    wide(joined(joined(TITLE_PREFIX, "-").as_str(), variant).as_str())
}

/// The extent of a window: none if it has no area.
pub fn capture_size(left: i32, top: i32, right: i32, bottom: i32) -> (size: Option<(i32, i32)>)
    requires
        right - left <= i32::MAX,
        right - left >= i32::MIN,
        bottom - top <= i32::MAX,
        bottom - top >= i32::MIN,
    ensures
        size == (if right > left && bottom > top {
            Some(((right - left) as i32, (bottom - top) as i32))
        } else {
            None
        }),
{
    let width: i32 = right - left;
    let height: i32 = bottom - top;
    if width <= 0 || height <= 0 {
        None
    } else {
        Some((width, height))
    }
}

/// The points whose colours are looked at: near the corners, and the middle.
pub open spec fn points_of(width: int, height: int) -> Seq<(int, int)> {
    seq![
        (6, 6),
        (width - 7, 6),
        (6, height - 7),
        (width - 7, height - 7),
        (width / 2, height / 2),
    ]
}

/// The points whose colours are looked at.
pub fn sample_points(width: i32, height: i32) -> (points: Vec<(i32, i32)>)
    requires
        width > 0,
        height > 0,
    ensures
        points@.map_values(|p: (i32, i32)| (p.0 as int, p.1 as int)) == points_of(
            width as int,
            height as int,
        ),
{
    let points: Vec<(i32, i32)> = vec![
        (6, 6),
        (width - 7, 6),
        (6, height - 7),
        (width - 7, height - 7),
        (width / 2, height / 2),
    ];
    assert(points@.map_values(|p: (i32, i32)| (p.0 as int, p.1 as int)) =~= points_of(
        width as int,
        height as int,
    ));
    points
}

/// Red, green and blue of a colour.
pub open spec fn rgb_of(color: u32) -> (u8, u8, u8) {
    (
        (color as int % 256) as u8,
        (color as int / 256 % 256) as u8,
        (color as int / 65536 % 256) as u8,
    )
}

/// Red, green and blue of a colour.
pub fn color_parts(color: u32) -> (rgb: (u8, u8, u8))
    ensures
        rgb == rgb_of(color),
{
    ((color % 256) as u8, (color / 256 % 256) as u8, (color / 65536 % 256) as u8)
}

/// Whether a colour is that of the probed window.
pub open spec fn is_red(color: (u8, u8, u8)) -> bool {
    color.0 > 150 && color.1 < 90 && color.2 < 90
}

/// How many of the first `k` colours are that of the probed window.
pub open spec fn red_among(colors: Seq<(u8, u8, u8)>, k: int) -> int
    decreases k,
{
    if k <= 0 {
        0
    } else {
        red_among(colors, k - 1) + (if k <= colors.len() && is_red(colors[k - 1]) {
            1int
        } else {
            0
        })
    }
}

/// How many corners show the probed window, and whether it can be seen: in at least
/// three of the four.
pub fn corners_seen(colors: &[(u8, u8, u8)]) -> (r: (usize, bool))
    ensures
        r.0 == red_among(colors@, 4),
        r.1 == (red_among(colors@, 4) >= 3),
{
    let mut red: usize = 0;
    let mut i: usize = 0;
    while i < 4
        invariant
            i <= 4,
            red <= i,
            red == red_among(colors@, i as int),
        decreases 4 - i,
    {
        if i < colors.len() {
            let c = colors[i];
            if c.0 > 150 && c.1 < 90 && c.2 < 90 {
                red += 1;
            }
        }
        i += 1;
    }
    (red, red >= 3)
}

/// The number that little-endian bytes stand for.
pub open spec fn le_value(bytes: Seq<u8>) -> nat
    decreases bytes.len(),
{
    if bytes.len() == 0 {
        0
    } else {
        bytes[0] as nat + 256 * le_value(bytes.drop_first())
    }
}

/// The four bytes of a number, the low byte first.
pub open spec fn le4(n: u32) -> Seq<u8> {
    seq![
        (n % 256) as u8,
        (n / 256 % 256) as u8,
        (n / 65536 % 256) as u8,
        (n / 16777216) as u8,
    ]
}

fn put4(bytes: &mut Vec<u8>, n: u32)
    ensures
        final(bytes)@ == old(bytes)@ + le4(n),
{
    bytes.push((n % 256) as u8);
    bytes.push((n / 256 % 256) as u8);
    bytes.push((n / 65536 % 256) as u8);
    bytes.push((n / 16777216) as u8);
    assert(bytes@ =~= old(bytes)@ + le4(n));
}

/// The bytes of a picture before its pixels: two headers.
pub const DATA_OFFSET: u32 = 54;

/// A picture as a bitmap file: four bytes for each pixel, the rows from the bottom to
/// the top, uncompressed.
pub open spec fn bmp_of(width: u32, height: u32, pixels: Seq<u8>) -> Seq<u8> {
    seq![66u8, 77u8] + le4((54 + pixels.len()) as u32) + le4(0) + le4(54) + le4(40) + le4(width)
        + le4(height) + seq![1u8, 0u8, 32u8, 0u8] + le4(0) + le4((width * 4 * height) as u32) + le4(0)
        + le4(0) + le4(0) + le4(0) + pixels
}

/// A picture as a bitmap file.
pub fn bmp_bytes(width: u32, height: u32, pixels: &[u8]) -> (bytes: Vec<u8>)
    requires
        width * 4 * height == pixels@.len(),
        54 + pixels@.len() <= u32::MAX,
    ensures
        bytes@ == bmp_of(width, height, pixels@),
{
    let size: u32 = pixels.len() as u32;
    let mut bytes: Vec<u8> = Vec::new();
    bytes.push(66);
    bytes.push(77);
    assert(bytes@ =~= seq![66u8, 77u8]);
    put4(&mut bytes, DATA_OFFSET + size);
    put4(&mut bytes, 0);
    put4(&mut bytes, DATA_OFFSET);
    put4(&mut bytes, 40);
    put4(&mut bytes, width);
    put4(&mut bytes, height);
    let ghost head = bytes@;
    bytes.push(1);
    bytes.push(0);
    bytes.push(32);
    bytes.push(0);
    assert(bytes@ =~= head + seq![1u8, 0u8, 32u8, 0u8]);
    put4(&mut bytes, 0);
    put4(&mut bytes, size);
    put4(&mut bytes, 0);
    put4(&mut bytes, 0);
    put4(&mut bytes, 0);
    put4(&mut bytes, 0);
    let ghost lead = bytes@;
    let mut i: usize = 0;
    assert(lead + pixels@.subrange(0, 0) =~= lead);
    while i < pixels.len()
        invariant
            i <= pixels@.len(),
            bytes@ == lead + pixels@.subrange(0, i as int),
        decreases pixels@.len() - i,
    {
        bytes.push(pixels[i]);
        i += 1;
        assert(bytes@ =~= lead + pixels@.subrange(0, i as int));
    }
    assert(pixels@.subrange(0, i as int) =~= pixels@);
    bytes
}

/// The pixels of a bitmap file stand where its header says, and are all that follows.
pub proof fn pixels_stand_behind_the_headers(width: u32, height: u32, pixels: Seq<u8>)
    requires
        54 + pixels.len() <= u32::MAX,
    ensures
        bmp_of(width, height, pixels).len() == 54 + pixels.len(),
        bmp_of(width, height, pixels).subrange(54, 54 + pixels.len() as int) == pixels,
        bmp_of(width, height, pixels).subrange(10, 14) == le4(54),
        bmp_of(width, height, pixels).subrange(2, 6) == le4((54 + pixels.len()) as u32),
{
    let file = bmp_of(width, height, pixels);
    assert(file.subrange(54, 54 + pixels.len() as int) =~= pixels);
    assert(file.subrange(10, 14) =~= le4(54));
    assert(file.subrange(2, 6) =~= le4((54 + pixels.len()) as u32));
}

/// The bytes of a number give the number back.
pub proof fn numbers_are_read_back(n: u32)
    ensures
        le_value(le4(n)) == n,
{
    let b = le4(n);
    reveal_with_fuel(le_value, 5);
    assert(b.drop_first() =~= seq![b[1], b[2], b[3]]);
    assert(b.drop_first().drop_first() =~= seq![b[2], b[3]]);
    assert(b.drop_first().drop_first().drop_first() =~= seq![b[3]]);
    assert(b.drop_first().drop_first().drop_first().drop_first() =~= Seq::empty());
    assert(n as int == n as int % 256 + 256 * (n as int / 256));
    assert(n as int / 256 == n as int / 256 % 256 + 256 * (n as int / 65536));
    assert(n as int / 65536 == n as int / 65536 % 256 + 256 * (n as int / 16777216));
}

/// What is done to the window follows from its name: one that is hidden is waited for,
/// briefly or for long, and one that is not is waited for only where it changes its shape
/// behind being shown.
pub proof fn hidden_windows_are_waited_for(name: Seq<char>)
    ensures
        plan_of(name).hide == variant_of(name).hide_cycle,
        plan_of(name).morph == variant_of(name).morph,
        plan_of(name).hide ==> plan_of(name).wait_ms == (if variant_of(name).long_hide {
            3000int
        } else {
            400
        }),
        !plan_of(name).hide ==> plan_of(name).wait_ms == (if name == "morph-after-show"@ {
            200int
        } else {
            0
        }),
        variant_of(name).long_hide ==> variant_of(name).hide_cycle,
{
    reveal_strlit("opaque");
    reveal_strlit("normal-trans");
    reveal_strlit("normal-opaque");
    reveal_strlit("rawhide");
    reveal_strlit("morph");
    reveal_strlit("morph-after-show");
    reveal_strlit("morph-hide");
    reveal_strlit("rawhide-long");
    reveal_strlit("morph-hidden");
    reveal_strlit("hide-before-paint");
    assert("morph-hidden"@.len() == 12 && "normal-trans"@.len() == 12 && "rawhide-long"@.len() == 12);
    assert("morph-hidden"@[0] == 'm' && "normal-trans"@[0] == 'n' && "rawhide-long"@[0] == 'r');
    assert("opaque"@.len() == 6 && "normal-opaque"@.len() == 13 && "rawhide"@.len() == 7
        && "morph"@.len() == 5 && "morph-after-show"@.len() == 16 && "morph-hide"@.len() == 10);
}

/// The points are inside the picture, four near its corners and one in the middle, where it
/// is large enough for them.
pub proof fn points_are_inside(width: int, height: int, i: int)
    requires
        width >= 13,
        height >= 13,
        0 <= i < 5,
    ensures
        points_of(width, height).len() == 5,
        0 <= points_of(width, height)[i].0 < width,
        0 <= points_of(width, height)[i].1 < height,
        i < 4 ==> points_of(width, height)[i].0 == (if i % 2 == 0 {
            6
        } else {
            width - 7
        }),
        i < 4 ==> points_of(width, height)[i].1 == (if i < 2 {
            6
        } else {
            height - 7
        }),
        points_of(width, height)[4] == (width / 2, height / 2),
{
}

/// The window is seen where at least three of its corners are red.
pub proof fn three_red_corners_are_seen(colors: &[(u8, u8, u8)], seen: (usize, bool))
    requires
        colors@.len() >= 4,
        call_ensures(corners_seen, (colors,), seen),
    ensures
        (forall|i: int| 0 <= i < 4 ==> (#[trigger] colors@[i]).0 > 150 && colors@[i].1 < 90
            && colors@[i].2 < 90) ==> seen == (4usize, true),
        (forall|i: int| 0 <= i < 4 ==> !is_red(#[trigger] colors@[i])) ==> seen == (0usize, false),
        seen.1 <==> seen.0 >= 3,
        seen.0 <= 4,
{
    reveal_with_fuel(red_among, 5);
    let c = colors@;
    assert(is_red(c[0]) || !is_red(c[0]));
    assert(is_red(c[1]) || !is_red(c[1]));
    assert(is_red(c[2]) || !is_red(c[2]));
    assert(is_red(c[3]) || !is_red(c[3]));
}

/// A colour holds its red in the low byte, and green and blue above it.
pub proof fn colours_hold_red_first(red: u8, green: u8, blue: u8)
    ensures
        rgb_of((red + 256 * green + 65_536 * blue) as u32) == (red, green, blue),
{
    let n = red + 256 * green + 65_536 * blue;
    assert(n / 256 == green + 256 * blue);
    assert(n / 65_536 == blue);
}

/// The headers of a picture say what it is: its mark, its width and height, and thirty-two
/// bits for each point, with no compression.
pub proof fn headers_describe_the_picture(width: u32, height: u32, pixels: Seq<u8>)
    requires
        54 + pixels.len() <= u32::MAX,
    ensures
        ({
            let bytes = bmp_of(width, height, pixels);
            &&& bytes[0] == 'B' as u8 && bytes[1] == 'M' as u8
            &&& bytes.subrange(14, 18) == le4(40)
            &&& bytes.subrange(18, 22) == le4(width)
            &&& bytes.subrange(22, 26) == le4(height)
            &&& bytes[26] == 1 && bytes[27] == 0
            &&& bytes[28] == 32 && bytes[29] == 0
            &&& bytes.subrange(30, 34) == le4(0)
            &&& bytes.subrange(34, 38) == le4((width * 4 * height) as u32)
        }),
{
    let bytes = bmp_of(width, height, pixels);
    assert(bytes.subrange(14, 18) =~= le4(40));
    assert(bytes.subrange(18, 22) =~= le4(width));
    assert(bytes.subrange(22, 26) =~= le4(height));
    assert(bytes.subrange(30, 34) =~= le4(0));
    assert(bytes.subrange(34, 38) =~= le4((width * 4 * height) as u32));
}

} // verus!
