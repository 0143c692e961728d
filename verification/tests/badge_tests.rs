use telegram_air::badge::{
    BadgeIconPlan, badge_background_color, badge_geometry, badge_label, badge_text_color,
    overlay_tray_icon, render_badge_base, set_badge_count_icon,
};
use telegram_air::raster::{Raster, encode_png};

#[test]
fn label_single_digits() {
    assert_eq!(badge_label(0), "0");
    assert_eq!(badge_label(7), "7");
    assert_eq!(badge_label(9), "9");
}

#[test]
fn label_two_digits() {
    assert_eq!(badge_label(10), "10");
    assert_eq!(badge_label(42), "42");
    assert_eq!(badge_label(99), "99");
}

#[test]
fn label_caps_at_two_digits_with_ellipsis() {
    assert_eq!(badge_label(100), "..00");
    assert_eq!(badge_label(142), "..42");
    assert_eq!(badge_label(205), "..05");
    assert_eq!(badge_label(999), "..99");
    assert_eq!(badge_label(1234), "..34");
}

#[test]
fn geometry_small_label_is_square() {
    // Label "5" measured 20x30 fits the 48-pixel base square.
    let g = badge_geometry(48, 5, 20, 30);
    assert_eq!(g.badge_width, 48);
    assert_eq!(g.badge_height, 48);
    assert_eq!(g.scale, (9 * 48 + 9) / 10);
    assert_eq!(g.edge_space, (g.scale + 9) / 10);
    assert_eq!(g.img_width, 48 + 2 * g.edge_space);
    assert_eq!(g.img_height, g.img_width);
    assert_eq!(g.corner_radius, 24);
}

#[test]
fn geometry_never_below_base_size() {
    for &(count, tw, th) in &[(0i32, 0u32, 0u32), (42, 60, 20), (150, 90, 33), (-3, 0, 0)] {
        let g = badge_geometry(48, count, tw, th);
        assert!(g.img_width >= 48);
        assert!(g.img_height >= 48);
    }
}

#[test]
fn geometry_wide_label_grows_width() {
    let g = badge_geometry(48, 42, 60, 20);
    // padding is 4, so the content width 68 beats the base size.
    assert_eq!(g.badge_width, 68);
    assert_eq!(g.badge_height, 48);
    assert!(g.img_width > g.img_height);
}

#[test]
fn geometry_long_label_uses_smaller_scale() {
    let g = badge_geometry(48, 150, 90, 33);
    assert_eq!(g.scale, (3 * 48 + 3) / 4);
    assert_eq!(g.scale, 36);
}

#[test]
fn geometry_dot_for_negative_count() {
    let g = badge_geometry(48, -1, 0, 0);
    assert_eq!(g.badge_width, 48);
    assert_eq!(g.badge_height, 48);
    assert_eq!(g.edge_space, 1);
    assert_eq!(g.img_width, 50);
    assert_eq!(g.img_height, 50);
    assert_eq!(g.corner_radius, 24);
}

#[test]
fn colors() {
    assert_eq!(badge_background_color(false), (0xF2, 0x3C, 0x34, 0xFF));
    assert_eq!(badge_background_color(true), (0x88, 0x88, 0x88, 0xFF));
    assert_eq!(badge_text_color(), (0xFF, 0xFF, 0xFF, 0xFF));
}

#[test]
fn icon_plan_clear_on_zero() {
    match set_badge_count_icon(0, false, 32) {
        BadgeIconPlan::Clear => {}
        _ => panic!("count zero must clear the badge"),
    }
}

#[test]
fn icon_plan_draw_sizes() {
    match set_badge_count_icon(5, true, 32) {
        BadgeIconPlan::Draw { window_badge_size, tray_badge_size, is_muted } => {
            assert_eq!(window_badge_size, 48);
            assert_eq!(tray_badge_size, 19);
            assert!(is_muted);
        }
        _ => panic!("nonzero count must draw"),
    }
}

#[test]
fn render_paints_the_pill() {
    let (img, g) = render_badge_base(48, 5, false, 20, 30);
    assert_eq!(img.width, g.img_width);
    assert_eq!(img.height, g.img_height);
    assert_eq!(img.data.len(), 4 * (img.width as usize) * (img.height as usize));
    // The raster center lies inside the pill and carries the badge red.
    let cx = (img.width / 2) as usize;
    let cy = (img.height / 2) as usize;
    let at = 4 * (cy * img.width as usize + cx);
    assert_eq!(&img.data[at..at + 4], &[0xF2, 0x3C, 0x34, 0xFF]);
    // The top-left corner stays transparent.
    assert_eq!(&img.data[0..4], &[0, 0, 0, 0]);
}

#[test]
fn render_muted_uses_gray() {
    let (img, _) = render_badge_base(48, -1, true, 0, 0);
    let cx = (img.width / 2) as usize;
    let cy = (img.height / 2) as usize;
    let at = 4 * (cy * img.width as usize + cx);
    assert_eq!(&img.data[at..at + 4], &[0x88, 0x88, 0x88, 0xFF]);
}

#[test]
fn encode_yields_real_png() {
    let (img, _) = render_badge_base(48, -1, false, 0, 0);
    let png = encode_png(&img).expect("encoding a small raster succeeds");
    assert_eq!(&png[0..8], &[0x89, 0x50, 0x4E, 0x47, 0x0D, 0x0A, 0x1A, 0x0A]);
    // Round-trip through the image crate: same dimensions, same center pixel.
    let decoded = image::load_from_memory(&png).expect("png decodes").to_rgba8();
    assert_eq!(decoded.width(), img.width);
    assert_eq!(decoded.height(), img.height);
    let p = decoded.get_pixel(img.width / 2, img.height / 2);
    assert_eq!(p.0, [0xF2, 0x3C, 0x34, 0xFF]);
}

#[test]
fn badge_png_is_deterministic() {
    // The badge is a pure function of (size, count, muted): two calls with
    // equal arguments yield identical PNG byte vectors.
    let (img1, _) = render_badge_base(48, 7, false, 21, 33);
    let (img2, _) = render_badge_base(48, 7, false, 21, 33);
    assert_eq!(img1.data, img2.data);
    let png1 = encode_png(&img1).unwrap();
    let png2 = encode_png(&img2).unwrap();
    assert_eq!(png1, png2);
}

#[test]
fn icon_plan_sizes_feed_the_renderer() {
    // The sizes the plan hands out stay within what the renderer accepts,
    // even for the largest admitted tray icon.
    for &w in &[2u32, 32, 853, 4096] {
        match set_badge_count_icon(3, false, w) {
            BadgeIconPlan::Draw { window_badge_size, tray_badge_size, is_muted } => {
                let (img, _) = render_badge_base(window_badge_size, 3, is_muted, 10, 10);
                assert!(img.width >= window_badge_size);
                let (img, _) = render_badge_base(tray_badge_size, 3, is_muted, 10, 10);
                assert!(img.width >= tray_badge_size);
            }
            _ => panic!("nonzero count must draw"),
        }
    }
}

#[test]
fn overlay_lands_bottom_right() {
    let base = Raster::new(32, 32);
    let (counter, _) = render_badge_base(10, -1, false, 0, 0);
    let png = overlay_tray_icon(&base, &counter).expect("overlay encodes");
    let decoded = image::load_from_memory(&png).expect("png decodes").to_rgba8();
    assert_eq!(decoded.width(), 32);
    assert_eq!(decoded.height(), 32);
    // The counter is 12x12, placed at (20, 20): its center is painted red.
    let p = decoded.get_pixel(26, 26);
    assert_eq!(p.0, [0xF2, 0x3C, 0x34, 0xFF]);
    // Far corner away from the counter stays transparent.
    assert_eq!(decoded.get_pixel(0, 0).0, [0, 0, 0, 0]);
}
