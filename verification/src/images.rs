//! Key images as base64 PNG data URIs: decoding and encoding them (through
//! the `image` and `base64` crates), the placeholder avatar, and the
//! channel's avatar resized (and greyed when offline).
use vstd::prelude::*;
use base64::Engine;
use crate::raster::{
    blank, follows_keep, follows_overlay, lemma_index_in_bounds, pixel_at, placeholder_pixel,
    placeholder_raster, shade_pixel, Raster, Rgba8,
};
use crate::strs::{owned, push_str, res_str, to_chars, string_of};

verus! {

// ── base64 ─────────────────────────────────────────────────────────────────

/// The character of a 6-bit value in the standard base64 alphabet.
pub open spec fn b64_char(v: nat) -> char {
    if v < 26 {
        ((65 + v) as u32) as char
    } else if v < 52 {
        ((71 + v) as u32) as char
    } else if v < 62 {
        ((v - 4) as u32) as char
    } else if v == 62 {
        '+'
    } else {
        '/'
    }
}

/// Standard base64 with `=` padding (RFC 4648): each group of three bytes
/// becomes four characters, a last group of one or two bytes is padded.
pub open spec fn base64_spec(b: Seq<u8>) -> Seq<char>
    decreases b.len(),
{
    if b.len() == 0 {
        Seq::empty()
    } else if b.len() == 1 {
        seq![b64_char(b[0] as nat / 4), b64_char((b[0] as nat % 4) * 16), '=', '=']
    } else if b.len() == 2 {
        seq![
            b64_char(b[0] as nat / 4),
            b64_char((b[0] as nat % 4) * 16 + b[1] as nat / 16),
            b64_char((b[1] as nat % 16) * 4),
            '=',
        ]
    } else {
        seq![
            b64_char(b[0] as nat / 4),
            b64_char((b[0] as nat % 4) * 16 + b[1] as nat / 16),
            b64_char((b[1] as nat % 16) * 4 + b[2] as nat / 64),
            b64_char(b[2] as nat % 64),
        ] + base64_spec(b.subrange(3, b.len() as int))
    }
}

/// What the `base64` crate's standard engine decodes from these characters
/// (the bytes, or the error's text).
pub uninterp spec fn base64_decoded(s: Seq<char>) -> Result<Seq<u8>, Seq<char>>;

/// The `base64` crate's `STANDARD.encode`: standard alphabet with padding.
/// The standard engine's decoder reads the text back as the same bytes.
#[verifier::external_body]
pub(crate) fn base64_encode(bytes: &[u8]) -> (r: String)
    ensures
        r@ == base64_spec(bytes@),
        base64_decoded(r@) is Ok && base64_decoded(r@)->Ok_0 == bytes@,
{
    base64::engine::general_purpose::STANDARD.encode(bytes)
}

/// The `base64` crate's `STANDARD.decode` (canonical padding, no trailing
/// bits); the result, with the error's text, is named by `base64_decoded`.
/// The standard engine reads back exactly what it writes.
#[verifier::external_body]
pub(crate) fn base64_decode(s: &str) -> (r: Result<Vec<u8>, String>)
    ensures
        res_bytes(r) == base64_decoded(s@),
        forall|b: Seq<u8>| s@ == base64_spec(b) ==> (res_bytes(r) is Ok && res_bytes(r)->Ok_0 == b),
{
    base64::engine::general_purpose::STANDARD.decode(s).map_err(|e| e.to_string())
}

/// The view of a byte result.
pub open spec fn res_bytes(r: Result<Vec<u8>, String>) -> Result<Seq<u8>, Seq<char>> {
    match r {
        Ok(v) => Ok(v@),
        Err(e) => Err(e@),
    }
}

/// The view of a decoded image.
pub open spec fn res_raster(r: Result<Raster, String>) -> Result<(u32, u32, Seq<Rgba8>), Seq<char>> {
    match r {
        Ok(img) => Ok((img.width, img.height, img.pixels@)),
        Err(e) => Err(e@),
    }
}

// ── The image crate ────────────────────────────────────────────────────────

/// What `image::load_from_memory` followed by `to_rgba8` makes of these
/// bytes: width, height and pixels, or the error's text.
pub uninterp spec fn image_decoded(bytes: Seq<u8>) -> Result<(u32, u32, Seq<Rgba8>), Seq<char>>;

/// The pixels that `image::imageops::resize` with the Lanczos3 filter
/// produces from a `w × h` image when scaling it to `nw × nh`.
pub uninterp spec fn lanczos3_resized(w: u32, h: u32, px: Seq<Rgba8>, nw: u32, nh: u32) -> Seq<Rgba8>;

/// The pixels of an RGBA image converted to 8-bit luma and back to RGBA
/// (the `image` crate's `to_luma8` then `to_rgba8`).
pub uninterp spec fn greyed(w: u32, h: u32, px: Seq<Rgba8>) -> Seq<Rgba8>;

/// Whether a pixel is an opaque grey: equal red, green and blue, alpha 255.
pub open spec fn is_grey(p: Rgba8) -> bool {
    p.r == p.g && p.g == p.b && p.a == 255
}

/// Whether every pixel is an opaque grey.
pub open spec fn all_grey(px: Seq<Rgba8>) -> bool {
    forall|i: int| 0 <= i < px.len() ==> is_grey(#[trigger] px[i])
}

/// The image sizes for which writing a PNG is known to succeed and to read
/// back: non-empty, at most 4096 pixels each way.
pub open spec fn png_size_ok(w: u32, h: u32) -> bool {
    0 < w <= 4096 && 0 < h <= 4096
}

/// A successful read of a `w × h` image with pixels `px`.
pub open spec fn read_back(w: u32, h: u32, px: Seq<Rgba8>) -> Result<(u32, u32, Seq<Rgba8>), Seq<char>> {
    Ok((w, h, px))
}

/// The PNG file that the `image` crate writes for an RGBA image, or the
/// error's text.
pub uninterp spec fn png_encoded(w: u32, h: u32, px: Seq<Rgba8>) -> Result<Seq<u8>, Seq<char>>;

/// `image::load_from_memory` (format guessed from the bytes) and
/// `DynamicImage::to_rgba8`; the result is named by `image_decoded`.  A
/// decoded image holds one pixel per position.
#[verifier::external_body]
pub(crate) fn decode_image(bytes: &[u8]) -> (r: Result<Raster, String>)
    ensures
        r matches Ok(img) ==> img.wf(),
        res_raster(r) == image_decoded(bytes@),
{
    match image::load_from_memory(bytes) {
        Ok(d) => {
            let img = d.to_rgba8();
            let (width, height) = img.dimensions();
            let pixels = img.pixels().map(|p| Rgba8 { r: p[0], g: p[1], b: p[2], a: p[3] }).collect();
            Ok(Raster { width, height, pixels })
        },
        Err(e) => Err(e.to_string()),
    }
}

/// `image::imageops::resize` with `FilterType::Lanczos3`; the pixels are
/// named by `lanczos3_resized`.  The result has the requested size, and an
/// image already of that size is copied as it is.
#[verifier::external_body]
pub(crate) fn resize_lanczos3(img: &Raster, nw: u32, nh: u32) -> (r: Raster)
    requires
        img.wf(),
    ensures
        r.wf(),
        r.width == nw,
        r.height == nh,
        r.pixels@ == lanczos3_resized(img.width, img.height, img.pixels@, nw, nh),
        (nw == img.width && nh == img.height) ==> r.pixels@ == img.pixels@,
{
    let raw: Vec<u8> = img.pixels.iter().flat_map(|p| [p.r, p.g, p.b, p.a]).collect();
    let src = image::RgbaImage::from_raw(img.width, img.height, raw).unwrap_or_default();
    let out = image::imageops::resize(&src, nw, nh, image::imageops::FilterType::Lanczos3);
    let pixels = out.pixels().map(|p| Rgba8 { r: p[0], g: p[1], b: p[2], a: p[3] }).collect();
    Raster { width: nw, height: nh, pixels }
}

/// `DynamicImage::to_luma8` then `to_rgba8` on an RGBA image; the pixels are
/// named by `greyed`.  The size stays, and every pixel comes out grey (its
/// luma in red, green and blue) and opaque.
#[verifier::external_body]
pub(crate) fn greyscale(img: &Raster) -> (r: Raster)
    requires
        img.wf(),
    ensures
        r.wf(),
        r.width == img.width,
        r.height == img.height,
        r.pixels@ == greyed(img.width, img.height, img.pixels@),
        all_grey(r.pixels@),
{
    let raw: Vec<u8> = img.pixels.iter().flat_map(|p| [p.r, p.g, p.b, p.a]).collect();
    let src = image::RgbaImage::from_raw(img.width, img.height, raw).unwrap_or_default();
    let luma = image::DynamicImage::ImageRgba8(src).to_luma8();
    let out = image::DynamicImage::ImageLuma8(luma).to_rgba8();
    let pixels = out.pixels().map(|p| Rgba8 { r: p[0], g: p[1], b: p[2], a: p[3] }).collect();
    Raster { width: img.width, height: img.height, pixels }
}

/// `DynamicImage::write_to` with `ImageFormat::Png` into memory, for an RGBA
/// image; the bytes (or the error's text) are named by `png_encoded`.  For a
/// non-empty image of at most 4096 × 4096 pixels writing into memory cannot
/// fail (the PNG encoder refuses only zero sizes), and the file is lossless:
/// `image::load_from_memory` with `to_rgba8` reads back the same image.
#[verifier::external_body]
pub(crate) fn encode_png(img: &Raster) -> (r: Result<Vec<u8>, String>)
    requires
        img.wf(),
    ensures
        res_bytes(r) == png_encoded(img.width, img.height, img.pixels@),
        png_size_ok(img.width, img.height) ==> r is Ok,
        png_size_ok(img.width, img.height) ==> (r matches Ok(b) ==> image_decoded(b@)
            == read_back(img.width, img.height, img.pixels@)),
{
    let raw: Vec<u8> = img.pixels.iter().flat_map(|p| [p.r, p.g, p.b, p.a]).collect();
    let src = image::RgbaImage::from_raw(img.width, img.height, raw).unwrap_or_default();
    let mut buf = std::io::Cursor::new(Vec::new());
    match image::DynamicImage::ImageRgba8(src).write_to(&mut buf, image::ImageFormat::Png) {
        Ok(()) => Ok(buf.into_inner()),
        Err(e) => Err(e.to_string()),
    }
}

// ── Data URIs ──────────────────────────────────────────────────────────────

/// The prefix of a base64 PNG data URI.
pub open spec fn png_uri_prefix() -> Seq<char> {
    "data:image/png;base64,"@
}

/// A PNG file as a data URI.
pub open spec fn png_data_uri(png: Seq<u8>) -> Seq<char> {
    png_uri_prefix() + base64_spec(png)
}

/// The data URI of an image, or the PNG encoder's error.
pub open spec fn to_base64_png_spec(w: u32, h: u32, px: Seq<Rgba8>) -> Result<Seq<char>, Seq<char>> {
    match png_encoded(w, h, px) {
        Ok(b) => Ok(png_data_uri(b)),
        Err(e) => Err(e),
    }
}

/// An image as a base64 PNG data URI.
pub fn to_base64_png(img: &Raster) -> (r: Result<String, String>)
    requires
        img.wf(),
    ensures
        res_str(r) == to_base64_png_spec(img.width, img.height, img.pixels@),
        png_size_ok(img.width, img.height) ==> (r matches Ok(s) && decode_key_image_spec(s@)
            == read_back(img.width, img.height, img.pixels@)),
{
    match encode_png(img) {
        Ok(b) => {
            let mut s = owned("data:image/png;base64,");
            let enc = base64_encode(b.as_slice());
            push_str(&mut s, enc.as_str());
            proof {
                reveal_strlit("data:image/png;base64,");
                assert(s@ =~= png_data_uri(b@));
                lemma_data_uri_round_trip(b@);
            }
            Ok(s)
        },
        Err(e) => Err(e),
    }
}

/// `s` with every leading copy of `prefix` removed (std's
/// `trim_start_matches` with a string pattern).
pub open spec fn strip_all(s: Seq<char>, prefix: Seq<char>) -> Seq<char>
    decreases s.len(),
{
    if prefix.len() > 0 && prefix.len() <= s.len() && s.subrange(0, prefix.len() as int) == prefix {
        strip_all(s.subrange(prefix.len() as int, s.len() as int), prefix)
    } else {
        s
    }
}

/// The bytes of a PNG data URI: every leading `data:image/png;base64,`
/// removed, the rest decoded as base64.
pub open spec fn decode_b64_png_spec(s: Seq<char>) -> Result<Seq<u8>, Seq<char>> {
    base64_decoded(strip_all(s, png_uri_prefix()))
}

#[verifier::loop_isolation(false)]
fn strip_prefix_start(v: &[char], prefix: &[char]) -> (i: usize)
    requires
        prefix@.len() > 0,
    ensures
        i <= v@.len(),
        v@.subrange(i as int, v@.len() as int) == strip_all(v@, prefix@),
{
    let n = v.len();
    let m = prefix.len();
    let mut i: usize = 0;
    assert(v@.subrange(0, n as int) == v@);
    loop
        invariant
            n == v@.len(),
            m == prefix@.len(),
            i <= n,
            strip_all(v@.subrange(i as int, n as int), prefix@) == strip_all(v@, prefix@),
        decreases n - i,
    {
        let ghost rest = v@.subrange(i as int, n as int);
        if n - i < m {
            return i;
        }
        let mut k: usize = 0;
        while k < m
            invariant
                i + m <= n,
                k <= m,
                forall|j: int| 0 <= j < k ==> v@[i + j] == prefix@[j],
            decreases m - k,
        {
            if v[i + k] != prefix[k] {
                assert(rest.subrange(0, m as int)[k as int] != prefix@[k as int]);
                return i;
            }
            k = k + 1;
        }
        assert(rest.subrange(0, m as int) =~= prefix@);
        assert(rest.subrange(m as int, rest.len() as int) =~= v@.subrange(i + m, n as int));
        i = i + m;
    }
}

/// The bytes of a PNG data URI (the prefix, however often it repeats, is
/// removed before decoding).
pub fn decode_b64_png(b64: &str) -> (r: Result<Vec<u8>, String>)
    ensures
        res_bytes(r) == decode_b64_png_spec(b64@),
{
    let v = to_chars(b64);
    let p = to_chars("data:image/png;base64,");
    proof {
        reveal_strlit("data:image/png;base64,");
    }
    let i = strip_prefix_start(&v, &p);
    let raw = string_of(&v, i, v.len());
    base64_decode(raw.as_str())
}

/// Decoding the data URI of an image gives back its PNG file.
pub proof fn lemma_data_uri_round_trip(png: Seq<u8>)
    ensures
        strip_all(png_data_uri(png), png_uri_prefix()) == base64_spec(png),
{
    reveal_strlit("data:image/png;base64,");
    let s = png_data_uri(png);
    let pre = png_uri_prefix();
    assert(s.subrange(0, pre.len() as int) =~= pre);
    assert(s.subrange(pre.len() as int, s.len() as int) =~= base64_spec(png));
    lemma_base64_no_prefix(png);
}

/// A base64 text never starts with `data:image/png;base64,` (it holds no `:`).
proof fn lemma_base64_no_prefix(png: Seq<u8>)
    ensures
        strip_all(base64_spec(png), png_uri_prefix()) == base64_spec(png),
{
    reveal_strlit("data:image/png;base64,");
    let e = base64_spec(png);
    let pre = png_uri_prefix();
    if pre.len() <= e.len() && e.subrange(0, pre.len() as int) == pre {
        lemma_base64_chars(png, 4);
        assert(e.subrange(0, pre.len() as int)[4] == ':');
    }
}

/// Every character of a base64 text is a letter, a digit, `+`, `/` or `=`.
proof fn lemma_base64_chars(b: Seq<u8>, i: int)
    requires
        0 <= i < base64_spec(b).len(),
    ensures
        base64_spec(b)[i] != ':',
    decreases b.len(),
{
    if b.len() >= 3 {
        if i >= 4 {
            lemma_base64_chars(b.subrange(3, b.len() as int), i - 4);
        }
    }
}

// ── Key images ─────────────────────────────────────────────────────────────

/// The placeholder avatar's data URI.
pub open spec fn placeholder_spec(is_live: bool) -> Result<Seq<char>, Seq<char>> {
    to_base64_png_spec(
        144,
        144,
        Seq::new(20736, |i: int| placeholder_pixel(is_live, i % 144, i / 144)),
    )
}

/// The circular placeholder avatar (purple when live, grey when offline)
/// as a base64 PNG data URI.
pub fn placeholder(is_live: bool) -> (r: Result<String, String>)
    ensures
        res_str(r) == placeholder_spec(is_live),
        r matches Ok(s) && decode_key_image_spec(s@) == read_back(
            144,
            144,
            Seq::new(20736, |i: int| placeholder_pixel(is_live, i % 144, i / 144)),
        ),
{
    let img = placeholder_raster(is_live);
    proof {
        let want = Seq::new(20736, |i: int| placeholder_pixel(is_live, i % 144, i / 144));
        assert forall|i: int| 0 <= i < 20736 implies #[trigger] img.pixels@[i] == want[i] by {
            let x = i % 144;
            let y = i / 144;
            assert(y * 144 + x == i);
            assert(pixel_at(img.pixels@, 144, x, y) == placeholder_pixel(is_live, x, y));
        }
        assert(img.pixels@ =~= want);
    }
    to_base64_png(&img)
}

/// The key image made from a downloaded avatar: decoded, resized to
/// 144 × 144 with Lanczos3, greyed when asked, as a data URI.
pub open spec fn avatar_spec(bytes: Seq<u8>, greyscale: bool) -> Result<Seq<char>, Seq<char>> {
    match image_decoded(bytes) {
        Err(e) => Err(e),
        Ok((w, h, px)) => {
            let resized = lanczos3_resized(w, h, px, 144, 144);
            if greyscale {
                to_base64_png_spec(144, 144, greyed(144, 144, resized))
            } else {
                to_base64_png_spec(144, 144, resized)
            }
        },
    }
}

/// A downloaded avatar resized to 144 × 144 and optionally greyscaled, as a
/// base64 PNG data URI.
pub fn avatar(bytes: &[u8], greyscale: bool) -> (r: Result<String, String>)
    ensures
        res_str(r) == avatar_spec(bytes@, greyscale),
        r is Ok <==> image_decoded(bytes@) is Ok,
        greyscale ==> (image_decoded(bytes@) matches Ok((w, h, px)) ==> all_grey(
            greyed(144, 144, lanczos3_resized(w, h, px, 144, 144)),
        )),
{
    let src = match decode_image(bytes) {
        Ok(img) => img,
        Err(e) => return Err(e),
    };
    let resized = resize_lanczos3(&src, 144, 144);
    if greyscale {
        let grey = self::greyscale(&resized);
        to_base64_png(&grey)
    } else {
        to_base64_png(&resized)
    }
}

/// The base image of a monitor key: the downloaded avatar (greyed when
/// offline) where it downloaded and decodes, otherwise the placeholder, or
/// empty where even that fails.
pub open spec fn key_base_spec(download: Option<Result<Seq<u8>, Seq<char>>>, is_live: bool) -> Seq<
    char,
> {
    let fallback = match placeholder_spec(is_live) {
        Ok(s) => s,
        Err(_) => Seq::empty(),
    };
    match download {
        Some(Ok(bytes)) => match avatar_spec(bytes, !is_live) {
            Ok(s) => s,
            Err(_) => fallback,
        },
        _ => fallback,
    }
}

/// A monitor key shows its channel's avatar in full colour while the channel
/// is live and greyed while it is offline, wherever the avatar downloaded and
/// decodes; otherwise it shows the placeholder of the same status.
pub proof fn lemma_avatar_colour_follows_live(download: Option<Result<Seq<u8>, Seq<char>>>, is_live: bool)
    ensures
        (download matches Some(Ok(bytes)) && avatar_spec(bytes, !is_live) is Ok) ==> key_base_spec(
            download,
            is_live,
        ) == avatar_spec(download->0->Ok_0, !is_live)->Ok_0,
        !(download matches Some(Ok(bytes)) && avatar_spec(bytes, !is_live) is Ok)
            ==> key_base_spec(download, is_live) == (match placeholder_spec(is_live) {
            Ok(s) => s,
            Err(_) => Seq::empty(),
        }),
{
}

/// The view of an optional download.
pub open spec fn opt_res_bytes(d: Option<Result<Vec<u8>, String>>) -> Option<Result<Seq<u8>, Seq<char>>> {
    match d {
        Some(r) => Some(res_bytes(r)),
        None => None,
    }
}

/// The base image of a monitor key from the avatar download (none where the
/// channel has no avatar URL).
pub fn key_base_image(download: Option<Result<Vec<u8>, String>>, is_live: bool) -> (r: String)
    ensures
        r@ == key_base_spec(opt_res_bytes(download), is_live),
{
    match download {
        Some(Ok(bytes)) => match avatar(bytes.as_slice(), !is_live) {
            Ok(s) => return s,
            Err(_) => {},
        },
        _ => {},
    }
    match placeholder(is_live) {
        Ok(s) => s,
        Err(_) => String::new(),
    }
}

/// A key image given as a data URI, decoded to pixels, or the error.
pub open spec fn decode_key_image_spec(b64: Seq<char>) -> Result<(u32, u32, Seq<Rgba8>), Seq<char>> {
    match decode_b64_png_spec(b64) {
        Err(e) => Err(e),
        Ok(png) => image_decoded(png),
    }
}

/// A key image given as a data URI, decoded to pixels.
pub fn decode_key_image(b64: &str) -> (r: Result<Raster, String>)
    ensures
        r matches Ok(img) ==> img.wf(),
        res_raster(r) == decode_key_image_spec(b64@),
{
    let data = match decode_b64_png(b64) {
        Ok(d) => d,
        Err(e) => return Err(e),
    };
    decode_image(data.as_slice())
}

/// A fully transparent pixel.
pub open spec fn clear_pixel() -> Rgba8 {
    Rgba8 { r: 0, g: 0, b: 0, a: 0 }
}

/// The follows counter's 72 × 72 icon: the icon file (decoded and resized
/// with Lanczos3) where it was read and decodes, otherwise transparent.
pub open spec fn follows_icon_pixels(icon: Option<Result<Seq<u8>, Seq<char>>>) -> Seq<Rgba8> {
    let empty = Seq::new(5184, |i: int| clear_pixel());
    match icon {
        Some(Ok(bytes)) => match image_decoded(bytes) {
            Ok((w, h, px)) => lanczos3_resized(w, h, px, 72, 72),
            Err(_) => empty,
        },
        _ => empty,
    }
}

/// The follows counter's background, under its text: the icon file's image
/// (none where the file is missing) at 72 × 72, darkened by the overlay.
pub fn follows_background(icon: Option<Result<Vec<u8>, String>>) -> (r: Raster)
    ensures
        r.wf(),
        r.width == 72,
        r.height == 72,
        forall|x: int, y: int|
            0 <= x < 72 && 0 <= y < 72 ==> #[trigger] pixel_at(r.pixels@, 72, x, y) == shade_pixel(
                pixel_at(follows_icon_pixels(opt_res_bytes(icon)), 72, x, y),
                follows_keep(),
            ),
{
    let ghost want = follows_icon_pixels(opt_res_bytes(icon));
    let mut base = match icon {
        Some(Ok(bytes)) => match decode_image(bytes.as_slice()) {
            Ok(img) => resize_lanczos3(&img, 72, 72),
            Err(_) => blank(72, 72),
        },
        _ => blank(72, 72),
    };
    proof {
        assert forall|x: int, y: int| 0 <= x < 72 && 0 <= y < 72 implies #[trigger] pixel_at(
            base.pixels@,
            72,
            x,
            y,
        ) == pixel_at(want, 72, x, y) by {
            lemma_index_in_bounds(72, 72, x, y);
        }
    }
    follows_overlay(&mut base);
    base
}

/// A solid black, opaque pixel.
pub open spec fn black_pixel() -> Rgba8 {
    Rgba8 { r: 0, g: 0, b: 0, a: 255 }
}

/// The data URI of the solid black 144 × 144 key of an empty slot.
pub open spec fn black_key_spec() -> Result<Seq<char>, Seq<char>> {
    to_base64_png_spec(144, 144, Seq::new(20736, |i: int| black_pixel()))
}

/// The solid black key of a live-channel-by-index key whose slot is empty.
pub fn black_key() -> (r: Result<String, String>)
    ensures
        res_str(r) == black_key_spec(),
        r matches Ok(s) && decode_key_image_spec(s@) == read_back(
            144,
            144,
            Seq::new(20736, |i: int| black_pixel()),
        ),
{
    let v: Vec<Rgba8> = vec![Rgba8 { r: 0, g: 0, b: 0, a: 255 }; 20736];
    let img = Raster { width: 144, height: 144, pixels: v };
    assert(img.pixels@ =~= Seq::new(20736, |i: int| black_pixel()));
    to_base64_png(&img)
}

/// What is drawn over a monitor key's base image, in order.
#[derive(Clone, Copy, Debug, PartialEq, Eq, Structural)]
pub enum KeyLayer {
    /// The red LIVE badge at the bottom right.
    LiveBadge,
    /// The viewer-count banner at the top, with this count.
    ViewerCount(u32),
}

/// The layers over a key's avatar: for a live channel the LIVE badge, then
/// the viewer count where it is known; nothing for an offline one.
pub open spec fn key_layers_spec(is_live: bool, viewer_count: Option<u32>) -> Seq<KeyLayer> {
    if is_live {
        seq![KeyLayer::LiveBadge] + match viewer_count {
            Some(n) => seq![KeyLayer::ViewerCount(n)],
            None => Seq::empty(),
        }
    } else {
        Seq::empty()
    }
}

/// The layers to draw over a key's avatar (see `key_layers_spec`).
pub fn key_layers(is_live: bool, viewer_count: Option<u32>) -> (r: Vec<KeyLayer>)
    ensures
        r@ == key_layers_spec(is_live, viewer_count),
{
    let mut r: Vec<KeyLayer> = Vec::new();
    if is_live {
        r.push(KeyLayer::LiveBadge);
        match viewer_count {
            Some(n) => r.push(KeyLayer::ViewerCount(n)),
            None => {},
        }
    }
    assert(r@ =~= key_layers_spec(is_live, viewer_count));
    r
}

/// The file name of the follows counter's base icon: the "online" icon
/// while some followed channel is live.
pub fn follows_icon_name(count: u32) -> (r: String)
    ensures
        r@ == (if count > 0 {
            "key_online.png"@
        } else {
            "key_offline.png"@
        }),
{
    if count > 0 {
        owned("key_online.png")
    } else {
        owned("key_offline.png")
    }
}

} // verus!
