//! Badge-counter content and geometry: the label text for an unread count,
//! the colors, and the raster dimensions of the badge pill or dot. The
//! actual pixel work sits in `raster`.
use vstd::prelude::*;

use vstd::math::{max, min};

use crate::raster::{
    Raster, circle_filled, encode_png, fill_circle, fill_rect, overlaid, overlay_onto, png_bytes,
    rect_filled,
};

verus! {

/// The decimal digit character for `d`.
pub open spec fn spec_digit(d: int) -> char {
    if d == 0 {
        '0'
    } else if d == 1 {
        '1'
    } else if d == 2 {
        '2'
    } else if d == 3 {
        '3'
    } else if d == 4 {
        '4'
    } else if d == 5 {
        '5'
    } else if d == 6 {
        '6'
    } else if d == 7 {
        '7'
    } else if d == 8 {
        '8'
    } else {
        '9'
    }
}

/// The text shown on the badge for a non-negative count: the decimal of the
/// count below 100, and an ellipsis followed by the two-digit remainder
/// modulo 100 from 100 on.
pub open spec fn spec_badge_label(n: int) -> Seq<char>
    recommends
        n >= 0,
{
    if n < 10 {
        seq![spec_digit(n)]
    } else if n < 100 {
        seq![spec_digit(n / 10), spec_digit(n % 10)]
    } else {
        seq!['.', '.', spec_digit((n % 100) / 10), spec_digit(n % 10)]
    }
}

fn digit_str(d: u32) -> (r: &'static str)
    requires
        d < 10,
    ensures
        r@ =~= seq![spec_digit(d as int)],
{
    proof {
        reveal_strlit("0");
        reveal_strlit("1");
        reveal_strlit("2");
        reveal_strlit("3");
        reveal_strlit("4");
        reveal_strlit("5");
        reveal_strlit("6");
        reveal_strlit("7");
        reveal_strlit("8");
        reveal_strlit("9");
    }
    match d {
        0 => "0",
        1 => "1",
        2 => "2",
        3 => "3",
        4 => "4",
        5 => "5",
        6 => "6",
        7 => "7",
        8 => "8",
        _ => "9",
    }
}

/// Render the badge text for a non-negative count.
pub fn badge_label(count: i32) -> (r: String)
    requires
        count >= 0,
    ensures
        r@ == spec_badge_label(count as int),
        r@.len() == spec_label_len(count as int),
{
    let n = count as u32;
    if n < 10 {
        let r = digit_str(n).to_owned();
        proof {
            assert(r@ =~= spec_badge_label(count as int));
        }
        r
    } else if n < 100 {
        let mut r = digit_str(n / 10).to_owned();
        r.append(digit_str(n % 10));
        proof {
            assert(r@ =~= spec_badge_label(count as int));
        }
        r
    } else {
        let m = n % 100;
        proof {
            reveal_strlit("..");
        }
        let mut r: String = "..".to_owned();
        r.append(digit_str(m / 10));
        r.append(digit_str(m % 10));
        proof {
            assert(m / 10 == (count as int % 100) / 10);
            assert(m % 10 == count as int % 10);
            assert(r@ =~= spec_badge_label(count as int));
        }
        r
    }
}

/// How many characters the badge label has for a non-negative count.
pub open spec fn spec_label_len(n: int) -> int {
    if n < 10 {
        1
    } else if n < 100 {
        2
    } else {
        4
    }
}

/// Font scale used for the label: nine tenths of the base size for labels
/// shorter than three characters, three quarters otherwise, rounded up.
pub open spec fn spec_scale(size: int, count: int) -> int {
    if spec_label_len(count) < 3 {
        (9 * size + 9) / 10
    } else {
        (3 * size + 3) / 4
    }
}

/// Inner padding around the label.
pub open spec fn spec_padding(size: int) -> int {
    size / 10
}

/// Width of the badge shape: the label plus padding, at least the base size;
/// a negative count draws a plain dot of the base size.
pub open spec fn spec_badge_width(size: int, count: int, text_w: int) -> int {
    if count < 0 {
        size
    } else {
        max(text_w + 2 * spec_padding(size), size)
    }
}

/// Height of the badge shape, by the same rule as the width.
pub open spec fn spec_badge_height(size: int, count: int, text_h: int) -> int {
    if count < 0 {
        size
    } else {
        max(text_h + 2 * spec_padding(size), size)
    }
}

/// Transparent margin left around the shape so that the blur has room.
pub open spec fn spec_edge_space(size: int, count: int) -> int {
    if count < 0 {
        1
    } else {
        max((spec_scale(size, count) + 9) / 10, 1)
    }
}

/// Width of the whole raster: the shape plus the margin on both sides.
pub open spec fn spec_img_width(size: int, count: int, text_w: int) -> int {
    spec_badge_width(size, count, text_w) + 2 * spec_edge_space(size, count)
}

/// Height of the whole raster.
pub open spec fn spec_img_height(size: int, count: int, text_h: int) -> int {
    spec_badge_height(size, count, text_h) + 2 * spec_edge_space(size, count)
}

/// Corner radius: a full circle for the dot, half the height for the pill.
pub open spec fn spec_corner_radius(size: int, count: int, text_w: int, text_h: int) -> int {
    if count < 0 {
        min(spec_badge_width(size, count, text_w), spec_badge_height(size, count, text_h)) / 2
    } else {
        spec_badge_height(size, count, text_h) / 2
    }
}

/// The computed raster dimensions for one badge.
pub struct BadgeGeometry {
    pub scale: u32,
    pub badge_width: u32,
    pub badge_height: u32,
    pub edge_space: u32,
    pub img_width: u32,
    pub img_height: u32,
    pub corner_radius: u32,
}

/// Compute the badge raster's dimensions from the base size, the count and
/// the measured extent of the label text (zero for the dot). The raster is
/// never smaller than the base size in either direction.
pub fn badge_geometry(size: u32, count: i32, text_w: u32, text_h: u32) -> (g: BadgeGeometry)
    requires
        1 <= size <= 2560,
        text_w <= 2048,
        text_h <= 2048,
    ensures
        count >= 0 ==> g.scale as int == spec_scale(size as int, count as int),
        g.badge_width as int == spec_badge_width(size as int, count as int, text_w as int),
        g.badge_height as int == spec_badge_height(size as int, count as int, text_h as int),
        g.edge_space as int == spec_edge_space(size as int, count as int),
        g.img_width as int == spec_img_width(size as int, count as int, text_w as int),
        g.img_height as int == spec_img_height(size as int, count as int, text_h as int),
        g.corner_radius as int == spec_corner_radius(
            size as int,
            count as int,
            text_w as int,
            text_h as int,
        ),
        g.img_width >= size,
        g.img_height >= size,
        1 <= g.badge_width <= 2560,
        1 <= g.badge_height <= 2560,
        1 <= g.edge_space <= 231,
        g.img_width <= 3022,
        g.img_height <= 3022,
{
    if count < 0 {
        let g = BadgeGeometry {
            scale: 0,
            badge_width: size,
            badge_height: size,
            edge_space: 1,
            img_width: size + 2,
            img_height: size + 2,
            corner_radius: size / 2,
        };
        g
    } else {
        let label_len: u32 = if count < 10 {
            1
        } else if count < 100 {
            2
        } else {
            4
        };
        let scale: u32 = if label_len < 3 {
            (9 * size + 9) / 10
        } else {
            (3 * size + 3) / 4
        };
        let padding = size / 10;
        let content_w = text_w + 2 * padding;
        let content_h = text_h + 2 * padding;
        let badge_width = if content_w > size {
            content_w
        } else {
            size
        };
        let badge_height = if content_h > size {
            content_h
        } else {
            size
        };
        let edge_raw = (scale + 9) / 10;
        let edge_space = if edge_raw > 1 {
            edge_raw
        } else {
            1
        };
        BadgeGeometry {
            scale,
            badge_width,
            badge_height,
            edge_space,
            img_width: badge_width + 2 * edge_space,
            img_height: badge_height + 2 * edge_space,
            corner_radius: badge_height / 2,
        }
    }
}

/// A badge raster is square whenever the label's measured extent, padded,
/// fits inside the base square: both dimensions then equal the base size.
/// The plain dot for a negative count is always square.
pub proof fn lemma_badge_square(size: int, count: int, text_w: int, text_h: int)
    requires
        size >= 1,
        count >= 0 ==> text_w + 2 * spec_padding(size) <= size,
        count >= 0 ==> text_h + 2 * spec_padding(size) <= size,
    ensures
        spec_img_width(size, count, text_w) == spec_img_height(size, count, text_h),
        spec_badge_width(size, count, text_w) == size,
        spec_badge_height(size, count, text_h) == size,
{
}

/// Both raster dimensions always reach at least the requested base size.
pub proof fn lemma_badge_at_least_base(size: int, count: int, text_w: int, text_h: int)
    requires
        size >= 1,
        text_w >= 0,
        text_h >= 0,
    ensures
        spec_img_width(size, count, text_w) >= size,
        spec_img_height(size, count, text_h) >= size,
{
}

/// Badge fill color as (red, green, blue, alpha): a fixed gray when muted,
/// the fixed red otherwise.
pub open spec fn spec_badge_color(is_muted: bool) -> (u8, u8, u8, u8) {
    if is_muted {
        (0x88u8, 0x88u8, 0x88u8, 0xFFu8)
    } else {
        (0xF2u8, 0x3Cu8, 0x34u8, 0xFFu8)
    }
}

/// Badge fill color: a fixed gray when muted, the fixed red otherwise,
/// as (red, green, blue, alpha).
pub fn badge_background_color(is_muted: bool) -> (r: (u8, u8, u8, u8))
    ensures
        r == spec_badge_color(is_muted),
{
    if is_muted {
        (0x88, 0x88, 0x88, 0xFF)
    } else {
        (0xF2, 0x3C, 0x34, 0xFF)
    }
}

/// Label text color: opaque white.
pub fn badge_text_color() -> (r: (u8, u8, u8, u8))
    ensures
        r == (0xFFu8, 0xFFu8, 0xFFu8, 0xFFu8),
{
    (0xFF, 0xFF, 0xFF, 0xFF)
}

/// The pixels left by drawing a rounded rectangle: a center rectangle,
/// two horizontal bands, two vertical bands, and four corner discs, each
/// drawn only where the shape is thick enough, with the radius clamped to
/// half the shape.
pub open spec fn spec_rounded_rect(
    p: Seq<u8>,
    iw: nat,
    ih: nat,
    x: int,
    y: int,
    w: int,
    h: int,
    r0: int,
    cr: u8,
    cg: u8,
    cb: u8,
    ca: u8,
) -> Seq<u8> {
    let r = min(r0, min(w / 2, h / 2));
    if r == 0 {
        rect_filled(p, iw, ih, x, y, w as nat, h as nat, cr, cg, cb, ca)
    } else {
        let p1 = if w > 2 * r && h > 2 * r {
            rect_filled(p, iw, ih, x + r, y + r, (w - 2 * r) as nat, (h - 2 * r) as nat, cr, cg, cb, ca)
        } else {
            p
        };
        let p2 = if w > 2 * r {
            rect_filled(
                rect_filled(p1, iw, ih, x + r, y, (w - 2 * r) as nat, r as nat, cr, cg, cb, ca),
                iw,
                ih,
                x + r,
                y + h - r,
                (w - 2 * r) as nat,
                r as nat,
                cr,
                cg,
                cb,
                ca,
            )
        } else {
            p1
        };
        let p3 = if h > 2 * r {
            rect_filled(
                rect_filled(p2, iw, ih, x, y + r, r as nat, (h - 2 * r) as nat, cr, cg, cb, ca),
                iw,
                ih,
                x + w - r,
                y + r,
                r as nat,
                (h - 2 * r) as nat,
                cr,
                cg,
                cb,
                ca,
            )
        } else {
            p2
        };
        let p4 = circle_filled(p3, iw, ih, x + r, y + r, r, cr, cg, cb, ca);
        let p5 = circle_filled(p4, iw, ih, x + w - r, y + r, r, cr, cg, cb, ca);
        let p6 = circle_filled(p5, iw, ih, x + r, y + h - r, r, cr, cg, cb, ca);
        circle_filled(p6, iw, ih, x + w - r, y + h - r, r, cr, cg, cb, ca)
    }
}

/// Draw a filled rounded rectangle at (`x`, `y`) of the given size, the
/// radius clamped to half the shape: a center rectangle, the four edge
/// bands and four corner discs.
pub fn draw_rounded_rect(
    img: &mut Raster,
    x: u32,
    y: u32,
    width: u32,
    height: u32,
    radius: u32,
    color: (u8, u8, u8, u8),
)
    requires
        old(img).wf(),
        x <= 50000,
        y <= 50000,
        1 <= width <= 50000,
        1 <= height <= 50000,
        radius <= 50000,
    ensures
        final(img).wf(),
        final(img).width == old(img).width,
        final(img).height == old(img).height,
        final(img).data@ == spec_rounded_rect(
            old(img).data@,
            old(img).width as nat,
            old(img).height as nat,
            x as int,
            y as int,
            width as int,
            height as int,
            radius as int,
            color.0,
            color.1,
            color.2,
            color.3,
        ),
{
    let (cr, cg, cb, ca) = color;
    let half_w = width / 2;
    let half_h = height / 2;
    let r1 = if radius < half_w {
        radius
    } else {
        half_w
    };
    let radius = if r1 < half_h {
        r1
    } else {
        half_h
    };
    if radius == 0 {
        fill_rect(img, x, y, width, height, cr, cg, cb, ca);
        return ;
    }
    if width > 2 * radius && height > 2 * radius {
        fill_rect(
            img,
            x + radius,
            y + radius,
            width - 2 * radius,
            height - 2 * radius,
            cr,
            cg,
            cb,
            ca,
        );
    }
    if width > 2 * radius {
        fill_rect(img, x + radius, y, width - 2 * radius, radius, cr, cg, cb, ca);
        fill_rect(img, x + radius, y + height - radius, width - 2 * radius, radius, cr, cg, cb, ca);
    }
    if height > 2 * radius {
        fill_rect(img, x, y + radius, radius, height - 2 * radius, cr, cg, cb, ca);
        fill_rect(img, x + width - radius, y + radius, radius, height - 2 * radius, cr, cg, cb, ca);
    }
    fill_circle(img, x + radius, y + radius, radius, cr, cg, cb, ca);
    fill_circle(img, x + width - radius, y + radius, radius, cr, cg, cb, ca);
    fill_circle(img, x + radius, y + height - radius, radius, cr, cg, cb, ca);
    fill_circle(img, x + width - radius, y + height - radius, radius, cr, cg, cb, ca);
}

/// The pixels of a freshly rendered badge shape: the rounded rectangle (or
/// dot) in the badge color over a transparent raster of the computed size.
pub open spec fn spec_badge_base_pixels(size: int, count: int, text_w: int, text_h: int, is_muted: bool) -> Seq<u8> {
    let iw = spec_img_width(size, count, text_w) as nat;
    let ih = spec_img_height(size, count, text_h) as nat;
    let c = spec_badge_color(is_muted);
    spec_rounded_rect(
        Seq::new(4 * iw * ih, |i: int| 0u8),
        iw,
        ih,
        spec_edge_space(size, count),
        spec_edge_space(size, count),
        spec_badge_width(size, count, text_w),
        spec_badge_height(size, count, text_h),
        spec_corner_radius(size, count, text_w, text_h),
        c.0,
        c.1,
        c.2,
        c.3,
    )
}

/// Render the badge shape for a count: a colored dot for a negative count,
/// a rounded pill sized for the measured label text otherwise, on a
/// transparent raster never smaller than the base size. The label itself
/// and the anti-aliasing blur are applied by the host on top of this.
pub fn render_badge_base(size: u32, count: i32, is_muted: bool, text_w: u32, text_h: u32) -> (r: (
    Raster,
    BadgeGeometry,
))
    requires
        1 <= size <= 2560,
        text_w <= 2048,
        text_h <= 2048,
    ensures
        r.0.wf(),
        r.0.width as int == spec_img_width(size as int, count as int, text_w as int),
        r.0.height as int == spec_img_height(size as int, count as int, text_h as int),
        r.0.width >= size,
        r.0.height >= size,
        r.0.width <= 3022,
        r.0.height <= 3022,
        r.0.data@ == spec_badge_base_pixels(
            size as int,
            count as int,
            text_w as int,
            text_h as int,
            is_muted,
        ),
        r.1.badge_width as int == spec_badge_width(size as int, count as int, text_w as int),
        r.1.badge_height as int == spec_badge_height(size as int, count as int, text_h as int),
        r.1.edge_space as int == spec_edge_space(size as int, count as int),
        r.1.img_width == r.0.width,
        r.1.img_height == r.0.height,
        count >= 0 ==> r.1.scale as int == spec_scale(size as int, count as int),
{
    let g = badge_geometry(size, count, text_w, text_h);
    let color = badge_background_color(is_muted);
    let mut img = Raster::new(g.img_width, g.img_height);
    draw_rounded_rect(
        &mut img,
        g.edge_space,
        g.edge_space,
        g.badge_width,
        g.badge_height,
        g.corner_radius,
        color,
    );
    (img, g)
}

/// The offset at which the counter badge lands on the tray icon: flush
/// with the bottom-right corner, clamped at zero.
pub open spec fn spec_overlay_offset(base: int, counter: int) -> int {
    if base >= counter {
        base - counter
    } else {
        0
    }
}

/// Composite a counter badge onto the bottom-right corner of the base tray
/// icon and encode the result as PNG; the composition always encodes.
pub fn overlay_tray_icon(icon: &Raster, counter: &Raster) -> (r: Option<Vec<u8>>)
    requires
        icon.wf(),
        counter.wf(),
        1 <= icon.width <= 4096,
        1 <= icon.height <= 4096,
    ensures
        r matches Some(b) && b@ == png_bytes(
            icon.width as nat,
            icon.height as nat,
            overlaid(
                icon.data@,
                icon.width as nat,
                icon.height as nat,
                counter.data@,
                counter.width as nat,
                counter.height as nat,
                spec_overlay_offset(icon.width as int, counter.width as int),
                spec_overlay_offset(icon.height as int, counter.height as int),
            ),
        ),
{
    let mut base = Raster { width: icon.width, height: icon.height, data: copy_bytes(&icon.data) };
    let x = if icon.width >= counter.width {
        icon.width - counter.width
    } else {
        0
    };
    let y = if icon.height >= counter.height {
        icon.height - counter.height
    } else {
        0
    };
    overlay_onto(&mut base, counter, x, y);
    encode_png(&base)
}

fn copy_bytes(v: &Vec<u8>) -> (r: Vec<u8>)
    ensures
        r@ == v@,
{
    let mut r: Vec<u8> = Vec::new();
    let n = v.len();
    let mut i: usize = 0;
    while i < n
        invariant
            n == v@.len(),
            i <= n,
            r@.len() == i,
            forall|j: int| 0 <= j < i ==> r@[j] == v@[j],
        decreases n - i,
    {
        r.push(v[i]);
        i = i + 1;
    }
    proof {
        assert(r@ =~= v@);
    }
    r
}

/// What the host must apply after a notification-count change: clear both
/// the window overlay and the tray icon, or draw counter badges of the
/// given sizes over them.
pub enum BadgeIconPlan {
    /// Count zero: no overlay icon, plain base tray icon.
    Clear,
    /// Draw a counter badge: one at the fixed overlay size for the window,
    /// one scaled to the tray icon.
    Draw { window_badge_size: u32, tray_badge_size: u32, is_muted: bool },
}

/// Decide how the unread badge is applied to the window overlay icon and
/// the tray icon. The tray badge is six tenths of the tray icon's width;
/// an icon at least two pixels wide keeps that badge nonempty, and both
/// planned sizes stay within what the renderer accepts.
pub fn set_badge_count_icon(amount: i32, is_muted: bool, base_icon_width: u32) -> (r: BadgeIconPlan)
    requires
        2 <= base_icon_width <= 4096,
    ensures
        amount == 0 ==> r is Clear,
        amount != 0 ==> (r matches BadgeIconPlan::Draw { window_badge_size, tray_badge_size, is_muted: m }
            && window_badge_size == 48 && tray_badge_size == (6 * base_icon_width as int) / 10 && m
            == is_muted && 1 <= tray_badge_size <= 2457),
{
    if amount == 0 {
        BadgeIconPlan::Clear
    } else {
        BadgeIconPlan::Draw {
            window_badge_size: 48,
            tray_badge_size: (6 * base_icon_width) / 10,
            is_muted,
        }
    }
}

} // verus!
