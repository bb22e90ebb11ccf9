use twitchmonitor::audio::{sound_bytes, sound_payload_of};
use base64::Engine;
use twitchmonitor::images::{
    avatar, decode_b64_png, decode_key_image, follows_background, follows_icon_name,
    key_base_image, placeholder, to_base64_png,
};
use twitchmonitor::raster::{
    blank, fill_rounded_rect, follows_label_color, follows_overlay, live_badge_background,
    placeholder_raster, shade, viewer_banner, Raster, Rgba8,
};

fn px(img: &Raster, x: u32, y: u32) -> Rgba8 {
    img.pixels[(y * img.width + x) as usize]
}

fn rgba(r: u8, g: u8, b: u8, a: u8) -> Rgba8 {
    Rgba8 { r, g, b, a }
}

/// A small test picture as PNG bytes: a red/blue checkerboard.
fn png_bytes(w: u32, h: u32) -> Vec<u8> {
    let img = image::RgbaImage::from_fn(w, h, |x, y| {
        if (x + y) % 2 == 0 {
            image::Rgba([200, 30, 40, 255])
        } else {
            image::Rgba([10, 20, 230, 255])
        }
    });
    let mut buf = std::io::Cursor::new(Vec::new());
    image::DynamicImage::ImageRgba8(img).write_to(&mut buf, image::ImageFormat::Png).unwrap();
    buf.into_inner()
}

/// The rounded-rectangle test of the key drawing code.
fn in_badge_by_reference(px: i32, py: i32, x: u32, y: u32, w: u32, h: u32, r: u32) -> bool {
    let r = r.min(w / 2).min(h / 2);
    let (x1, y1) = (x as i32, y as i32);
    let (x2, y2) = ((x + w) as i32, (y + h) as i32);
    let ri = r as i32;
    if px < x1 || px >= x2 || py < y1 || py >= y2 {
        return false;
    }
    let cx = if px < x1 + ri { x1 + ri } else if px >= x2 - ri { x2 - ri - 1 } else { px };
    let cy = if py < y1 + ri { y1 + ri } else if py >= y2 - ri { y2 - ri - 1 } else { py };
    let dx = px - cx;
    let dy = py - cy;
    dx * dx + dy * dy <= ri * ri
}

/// The overlay blend of the key drawing code for a black overlay.
fn blend_by_reference(c: u8, alpha: u8) -> u8 {
    let a = alpha as f32 / 255.0;
    (a * 0.0 + (1.0 - a) * c as f32) as u8
}

#[test]
fn placeholder_pixels() {
    let live = placeholder_raster(true);
    let off = placeholder_raster(false);
    assert_eq!((live.width, live.height), (144, 144));
    assert_eq!(px(&live, 72, 72), rgba(0xff, 0xff, 0xff, 0xff));
    assert_eq!(px(&off, 72, 72), rgba(0xaa, 0xaa, 0xaa, 0xff));
    assert_eq!(px(&live, 72, 130), rgba(0x91, 0x46, 0xff, 0xff));
    assert_eq!(px(&off, 72, 130), rgba(0x55, 0x55, 0x55, 0xff));
    assert_eq!(px(&live, 0, 0), rgba(0, 0, 0, 0));
    assert_eq!(px(&live, 36, 44), rgba(0xff, 0xff, 0xff, 0xff));
    assert_eq!(px(&live, 108, 44), rgba(0x91, 0x46, 0xff, 0xff));
    assert_eq!(px(&live, 72, 4), rgba(0x91, 0x46, 0xff, 0xff));
    assert_eq!(px(&live, 72, 3), rgba(0, 0, 0, 0));
}

#[test]
fn placeholder_image_round_trips() {
    let uri = placeholder(false).unwrap();
    assert!(uri.starts_with("data:image/png;base64,"));
    let img = decode_key_image(&uri).unwrap();
    let want = placeholder_raster(false);
    assert_eq!((img.width, img.height), (144, 144));
    assert!(img.pixels == want.pixels);
}

#[test]
fn rounded_rect_matches_the_drawing_code() {
    for (x, y, w, h, r) in [(94u32, 116u32, 46u32, 24u32, 5u32), (0, 0, 10, 4, 9), (130, 130, 30, 30, 8), (5, 5, 0, 3, 1)] {
        let mut img = blank(144, 144);
        let c = rgba(1, 2, 3, 4);
        fill_rounded_rect(&mut img, x, y, w, h, r, c);
        for py in 0..144u32 {
            for pxx in 0..144u32 {
                let want = if in_badge_by_reference(pxx as i32, py as i32, x, y, w, h, r) {
                    c
                } else {
                    rgba(0, 0, 0, 0)
                };
                assert_eq!(px(&img, pxx, py), want, "({}, {}) for {:?}", pxx, py, (x, y, w, h, r));
            }
        }
    }
}

#[test]
fn live_badge_is_red_at_the_bottom_right() {
    let mut img = placeholder_raster(true);
    live_badge_background(&mut img);
    assert_eq!(px(&img, 100, 120), rgba(0xe9, 0x19, 0x16, 0xff));
    assert_eq!(px(&img, 94, 116), px(&placeholder_raster(true), 94, 116));
    assert_eq!(px(&img, 139, 139), px(&placeholder_raster(true), 139, 139));
    assert_eq!(px(&img, 139, 130), rgba(0xe9, 0x19, 0x16, 0xff));
    assert_eq!(px(&img, 90, 130), px(&placeholder_raster(true), 90, 130));
}

#[test]
fn shading_matches_single_precision_blend() {
    let mut img = Raster { width: 256, height: 80, pixels: Vec::new() };
    for _y in 0..80u32 {
        for x in 0..256u32 {
            img.pixels.push(rgba(x as u8, (255 - x) as u8, x as u8, 77));
        }
    }
    let mut banner = Raster { width: 256, height: 80, pixels: img.pixels.clone() };
    viewer_banner(&mut banner);
    for y in 0..80u32 {
        for x in 0..256u32 {
            let p = px(&img, x, y);
            let q = px(&banner, x, y);
            if y < 40 && x < 144 {
                assert_eq!(q, rgba(blend_by_reference(p.r, 179), blend_by_reference(p.g, 179), blend_by_reference(p.b, 179), 77));
            } else {
                assert_eq!(q, p);
            }
        }
    }
    let mut over = Raster { width: 256, height: 80, pixels: img.pixels.clone() };
    follows_overlay(&mut over);
    for y in 0..80u32 {
        for x in 0..256u32 {
            let p = px(&img, x, y);
            let q = px(&over, x, y);
            if y < 72 && x < 72 {
                assert_eq!(q, rgba(blend_by_reference(p.r, 140), blend_by_reference(p.g, 140), blend_by_reference(p.b, 140), 77));
            } else {
                assert_eq!(q, p);
            }
        }
    }
}

#[test]
fn shade_keeps_everything_outside_the_region() {
    let mut img = placeholder_raster(true);
    shade(&mut img, 0, 0, 0);
    assert!(img.pixels == placeholder_raster(true).pixels);
    shade(&mut img, 144, 144, 0);
    assert_eq!(px(&img, 72, 72), rgba(0, 0, 0, 0xff));
}

#[test]
fn follows_label_colour() {
    assert_eq!(follows_label_color(0), rgba(0x88, 0x88, 0x88, 0xff));
    assert_eq!(follows_label_color(4), rgba(0x91, 0x46, 0xff, 0xff));
    assert_eq!(follows_icon_name(0), "key_offline.png");
    assert_eq!(follows_icon_name(1), "key_online.png");
}

#[test]
fn base64_matches_the_standard_alphabet() {
    assert_eq!(decode_b64_png("").unwrap(), Vec::<u8>::new());
    assert_eq!(decode_b64_png("aA==").unwrap(), b"h".to_vec());
    assert_eq!(decode_b64_png("aGU=").unwrap(), b"he".to_vec());
    assert_eq!(decode_b64_png("+/8=").unwrap(), vec![0xfb, 0xff]);
    assert!(decode_b64_png("aGVsbG8").is_err());
    assert!(decode_b64_png("@@@@").is_err());
}

#[test]
fn data_uri_is_the_png_of_the_pixels_in_base64() {
    let mut img = blank(5, 3);
    img.pixels[7] = rgba(250, 1, 2, 255);
    let uri = to_base64_png(&img).unwrap();
    let raw: Vec<u8> = img.pixels.iter().flat_map(|p| [p.r, p.g, p.b, p.a]).collect();
    let buf = image::RgbaImage::from_raw(5, 3, raw).unwrap();
    let mut png = std::io::Cursor::new(Vec::new());
    image::DynamicImage::ImageRgba8(buf).write_to(&mut png, image::ImageFormat::Png).unwrap();
    let want = format!(
        "data:image/png;base64,{}",
        base64::engine::general_purpose::STANDARD.encode(png.into_inner())
    );
    assert_eq!(uri, want);
}

#[test]
fn png_data_uri_prefix_is_removed_before_decoding() {
    assert_eq!(decode_b64_png("data:image/png;base64,aGVsbG8=").unwrap(), b"hello".to_vec());
    assert_eq!(
        decode_b64_png("data:image/png;base64,data:image/png;base64,aGVsbG8=").unwrap(),
        b"hello".to_vec()
    );
    assert_eq!(decode_b64_png("aGVsbG8=").unwrap(), b"hello".to_vec());
    assert!(decode_b64_png("data:image/jpeg;base64,aGVsbG8=").is_err());
}

#[test]
fn raster_round_trips_through_a_data_uri() {
    let mut img = blank(3, 2);
    img.pixels[4] = rgba(9, 8, 7, 6);
    let uri = to_base64_png(&img).unwrap();
    let back = decode_key_image(&uri).unwrap();
    assert_eq!((back.width, back.height), (3, 2));
    assert!(back.pixels == img.pixels);
}

#[test]
fn avatar_is_resized_and_greyed_when_offline() {
    let bytes = png_bytes(20, 10);
    let colour = decode_key_image(&avatar(&bytes, false).unwrap()).unwrap();
    assert_eq!((colour.width, colour.height), (144, 144));
    assert!(colour.pixels.iter().any(|p| p.r != p.b));
    let grey = decode_key_image(&avatar(&bytes, true).unwrap()).unwrap();
    assert_eq!((grey.width, grey.height), (144, 144));
    assert!(grey.pixels.iter().all(|p| p.r == p.g && p.g == p.b && p.a == 255));
    assert!(avatar(b"not an image", false).is_err());
}

#[test]
fn key_base_falls_back_to_the_placeholder() {
    let live_ph = placeholder(true).unwrap();
    let off_ph = placeholder(false).unwrap();
    assert_eq!(key_base_image(None, true), live_ph);
    assert_eq!(key_base_image(Some(Err("timeout".to_string())), false), off_ph);
    assert_eq!(key_base_image(Some(Ok(b"junk".to_vec())), false), off_ph);
    let bytes = png_bytes(4, 4);
    assert_eq!(key_base_image(Some(Ok(bytes.clone())), true), avatar(&bytes, false).unwrap());
    assert_eq!(key_base_image(Some(Ok(bytes.clone())), false), avatar(&bytes, true).unwrap());
}

#[test]
fn follows_background_from_icon_or_empty() {
    let empty = follows_background(None);
    assert_eq!((empty.width, empty.height), (72, 72));
    assert!(empty.pixels.iter().all(|p| *p == rgba(0, 0, 0, 0)));
    assert!(follows_background(Some(Err("missing".to_string()))).pixels == empty.pixels);
    assert!(follows_background(Some(Ok(b"junk".to_vec()))).pixels == empty.pixels);
    let icon = follows_background(Some(Ok(png_bytes(72, 72))));
    assert_eq!((icon.width, icon.height), (72, 72));
    assert_eq!(
        px(&icon, 0, 0),
        rgba(blend_by_reference(200, 140), blend_by_reference(30, 140), blend_by_reference(40, 140), 255)
    );
    assert_eq!(
        px(&icon, 1, 0),
        rgba(blend_by_reference(10, 140), blend_by_reference(20, 140), blend_by_reference(230, 140), 255)
    );
    let big = follows_background(Some(Ok(png_bytes(144, 144))));
    assert_eq!((big.width, big.height), (72, 72));
}

#[test]
fn alert_sound_bytes_come_from_the_data_uri() {
    assert_eq!(sound_payload_of("data:audio/mpeg;base64,aGVsbG8="), "aGVsbG8=");
    assert_eq!(sound_payload_of("aGVsbG8="), "aGVsbG8=");
    assert_eq!(sound_payload_of("a,b,c"), "b,c");
    assert_eq!(sound_bytes("data:audio/mpeg;base64,aGVsbG8=").unwrap(), b"hello".to_vec());
    assert_eq!(sound_bytes("aGVsbG8=").unwrap(), b"hello".to_vec());
    assert!(sound_bytes("data:audio/mpeg;base64,@@").is_err());
}
