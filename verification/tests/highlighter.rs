use los::service::highlighter::{darken_channel, ORIGIN_MARKER_RADIUS};
use los::service::HighlighterService;

fn pixel(raw: &(u32, u32, Vec<u8>), x: u32, y: u32) -> [u8; 4] {
    let i = 4 * (y as usize * raw.0 as usize + x as usize);
    [raw.2[i], raw.2[i + 1], raw.2[i + 2], raw.2[i + 3]]
}

fn compose(
    w: u32,
    h: u32,
    red: &Vec<u8>,
    green: &Vec<u8>,
    blue: &Vec<u8>,
    vis: &Vec<Option<bool>>,
    ox: isize,
    oy: isize,
) -> (u32, u32, Vec<u8>) {
    let rgba = HighlighterService::default().compose_highlight(w, h, red, green, blue, vis, ox, oy);
    (w, h, rgba)
}

#[test]
fn darken_matches_rounded_three_fifths() {
    for c in 0..=255u8 {
        let expected = (c as f64 * 0.6).round() as u8;
        assert_eq!(darken_channel(c), expected, "channel {}", c);
    }
}

#[test]
fn darken_never_brightens_and_keeps_order() {
    for c in 0..=255u8 {
        assert!(darken_channel(c) <= c);
        if c < 255 {
            assert!(darken_channel(c) <= darken_channel(c + 1));
        }
    }
}

#[test]
fn default_highlighter_uses_200_dpi() {
    assert_eq!(HighlighterService::default().image_dpi(), 200);
    assert_eq!(HighlighterService::new(72).image_dpi(), 72);
}

#[test]
fn compose_shades_hidden_pixels_only() {
    let (w, h) = (40u32, 30u32);
    let n = (w * h) as usize;
    let red = vec![200u8; n];
    let green = vec![100u8; n];
    let blue = vec![50u8; n];
    let mut vis = vec![Some(true); n];
    // Far from the marker: one hidden pixel and one outside the viewshed.
    vis[(25 * w + 35) as usize] = Some(false);
    vis[(25 * w + 36) as usize] = None;
    let raw = compose(w, h, &red, &green, &blue, &vis, 5, 5);
    assert_eq!(raw.2.len(), 4 * n);
    assert_eq!(pixel(&raw, 35, 25), [120, 60, 30, 255]);
    assert_eq!(pixel(&raw, 36, 25), [200, 100, 50, 255]);
    assert_eq!(pixel(&raw, 37, 25), [200, 100, 50, 255]);
}

#[test]
fn compose_output_loads_as_an_rgba_image() {
    let (w, h) = (3u32, 2u32);
    let n = (w * h) as usize;
    let red: Vec<u8> = (0..n as u8).collect();
    let vis = vec![Some(true); n];
    let raw = compose(w, h, &red, &red, &red, &vis, -100, -100);
    let img = image::RgbaImage::from_raw(w, h, raw.2).unwrap();
    assert_eq!(img.get_pixel(2, 1).0, [5, 5, 5, 255]);
    assert_eq!(img.get_pixel(1, 0).0, [1, 1, 1, 255]);
}

#[test]
fn compose_marks_the_viewer_with_a_red_disc() {
    let (w, h) = (41u32, 41u32);
    let n = (w * h) as usize;
    let zeros = vec![0u8; n];
    let vis = vec![Some(false); n];
    let raw = compose(w, h, &zeros, &zeros, &zeros, &vis, 20, 20);
    let mut red_count = 0;
    for y in 0..h {
        for x in 0..w {
            let dx = x as i64 - 20;
            let dy = y as i64 - 20;
            let r = ORIGIN_MARKER_RADIUS as i64;
            let expect_red = dx * dx + dy * dy <= r * r;
            let p = pixel(&raw, x, y);
            if expect_red {
                red_count += 1;
                assert_eq!(p, [255, 0, 0, 255]);
            } else {
                assert_eq!(p, [0, 0, 0, 255]);
            }
        }
    }
    assert_eq!(red_count, 317);
}

#[test]
fn compose_clips_the_marker_at_the_border() {
    let (w, h) = (5u32, 4u32);
    let n = (w * h) as usize;
    let grey = vec![90u8; n];
    let vis = vec![None; n];
    let raw = compose(w, h, &grey, &grey, &grey, &vis, -12, 0);
    // Only columns within 10 pixels of x = -12 can be red: none here but x <= -2.
    for y in 0..h {
        for x in 0..w {
            assert_eq!(pixel(&raw, x, y), [90, 90, 90, 255]);
        }
    }
    let raw = compose(w, h, &grey, &grey, &grey, &vis, -10, 0);
    assert_eq!(pixel(&raw, 0, 0), [255, 0, 0, 255]);
    assert_eq!(pixel(&raw, 0, 1), [90, 90, 90, 255]);
}

#[test]
fn compose_empty_image() {
    let raw = compose(0, 0, &vec![], &vec![], &vec![], &vec![], 0, 0);
    assert!(raw.2.is_empty());
}
