//! The screenshot capturer's own work: where a capture is written, turning
//! the display's RGBA pixels into RGB, compressing them, and checking a
//! capture for signs of missing permission. Taking the capture and writing
//! the file are the caller's.

use vstd::prelude::*;
use crate::text::{padded, push_padded};

verus! {

/// Why a capture failed.
#[derive(Debug, Clone, PartialEq, Eq)]
pub enum CaptureError {
    /// No display could be enumerated.
    NoDisplay,
    /// The operating system refused access to the screen.
    CapturePermission { detail: String },
    /// The pixels could not be compressed.
    EncodeFailure { detail: String },
    /// The file could not be written.
    WriteFailure { detail: String },
}

/// Local calendar date and time of a capture, as plain fields.
#[derive(Debug, Clone, Copy, PartialEq, Eq, Structural)]
pub struct CaptureClock {
    pub year: u32,
    pub month: u32,
    pub day: u32,
    pub hour: u32,
    pub minute: u32,
    pub second: u32,
}

/// The JPEG quality used for captures: a balance of size and fidelity.
pub const JPEG_QUALITY: u8 = 85;

impl CaptureClock {
    /// A date with a four-digit year and a time of day.
    pub open spec fn wf(&self) -> bool {
        &&& self.year <= 9999
        &&& 1 <= self.month <= 12
        &&& 1 <= self.day <= 31
        &&& self.hour < 24
        &&& self.minute < 60
        &&& self.second < 61
    }
}

/// `YYYY-MM-DD`.
pub open spec fn date_text(c: CaptureClock) -> Seq<char> {
    padded(c.year as nat, 4) + "-"@ + padded(c.month as nat, 2) + "-"@ + padded(c.day as nat, 2)
}

/// `HH-MM-SS`.
pub open spec fn time_text(c: CaptureClock) -> Seq<char> {
    padded(c.hour as nat, 2) + "-"@ + padded(c.minute as nat, 2) + "-"@ + padded(c.second as nat, 2)
}

/// The name of the directory that holds a day's captures, `YYYY-MM-DD`.
pub fn date_dir_name(c: &CaptureClock) -> (r: String)
    requires
        c.wf(),
    ensures
        r@ == date_text(*c),
{
    let mut r = String::new();
    push_padded(&mut r, c.year as u64, 4);
    r.append("-");
    push_padded(&mut r, c.month as u64, 2);
    r.append("-");
    push_padded(&mut r, c.day as u64, 2);
    assert(r@ =~= date_text(*c));
    r
}

/// The file name of a capture, `YYYY-MM-DD_HH-MM-SS_NNNNNN.jpg`, where the
/// index is zero-padded to six digits.
pub open spec fn capture_file_name_spec(c: CaptureClock, index: u64) -> Seq<char> {
    date_text(c) + "_"@ + time_text(c) + "_"@ + padded(index as nat, 6) + ".jpg"@
}

/// The time of day of a capture, `HH-MM-SS`.
pub fn time_name(c: &CaptureClock) -> (r: String)
    requires
        c.wf(),
    ensures
        r@ == time_text(*c),
{
    let mut r = String::new();
    push_padded(&mut r, c.hour as u64, 2);
    r.append("-");
    push_padded(&mut r, c.minute as u64, 2);
    r.append("-");
    push_padded(&mut r, c.second as u64, 2);
    assert(r@ =~= time_text(*c));
    r
}

/// The file name of the capture numbered `index`, taken at `c`.
pub fn capture_file_name(c: &CaptureClock, index: u64) -> (r: String)
    requires
        c.wf(),
    ensures
        r@ == capture_file_name_spec(*c, index),
{
    let date = date_dir_name(c);
    let time = time_name(c);
    let mut number = String::new();
    push_padded(&mut number, index, 6);
    assert(number@ =~= padded(index as nat, 6));
    let mut r = date;
    r.append("_");
    r.append(time.as_str());
    r.append("_");
    r.append(number.as_str());
    r.append(".jpg");
    r
}

/// The RGB bytes of RGBA pixels: each pixel's alpha byte dropped.
pub open spec fn rgb_of(rgba: Seq<u8>) -> Seq<u8> {
    Seq::new((rgba.len() / 4 * 3) as nat, |k: int| rgba[(k / 3) * 4 + k % 3])
}

/// Drops the alpha channel of RGBA pixels.
pub fn rgba_to_rgb(rgba: &Vec<u8>) -> (r: Vec<u8>)
    requires
        rgba@.len() % 4 == 0,
    ensures
        r@ == rgb_of(rgba@),
{
    let len = rgba.len();
    let n = len / 4;
    let mut r: Vec<u8> = Vec::new();
    let mut p: usize = 0;
    while p < n
        invariant
            n == rgba@.len() / 4,
            len == rgba@.len(),
            rgba@.len() % 4 == 0,
            p <= n,
            r@.len() == p * 3,
            forall|k: int| 0 <= k < r@.len() ==> #[trigger] r@[k] == rgba@[(k / 3) * 4 + k % 3],
        decreases n - p,
    {
        assert(p * 4 + 3 < rgba@.len()) by (nonlinear_arith)
            requires
                p < n,
                n == rgba@.len() / 4,
                rgba@.len() % 4 == 0,
        ;
        let base = p * 4;
        r.push(rgba[base]);
        r.push(rgba[base + 1]);
        r.push(rgba[base + 2]);
        assert forall|k: int| 0 <= k < r@.len() implies #[trigger] r@[k] == rgba@[(k / 3) * 4 + k
            % 3] by {
            if k >= p * 3 {
                assert(k / 3 == p);
            }
        }
        p = p + 1;
    }
    assert(r@ =~= rgb_of(rgba@));
    r
}

#[verifier::external_type_specification]
#[verifier::external_body]
pub struct ExImageError(image::ImageError);

/// The JPEG encoding of RGB pixels of the given size at the given quality.
pub uninterp spec fn jpeg_of(rgb: Seq<u8>, width: u32, height: u32, quality: u8) -> Seq<u8>;

/// Relies on `image::codecs::jpeg::JpegEncoder::new_with_quality` and its
/// `encode` with `ExtendedColorType::Rgb8`: it panics unless the buffer
/// holds exactly three bytes per pixel, refuses a zero side or one past
/// 65535, and otherwise fails only on an error of its writer, here a
/// `Vec<u8>`, which never fails.
#[verifier::external_body]
fn jpeg_encode(rgb: &Vec<u8>, width: u32, height: u32, quality: u8) -> (r: Result<Vec<u8>, image::ImageError>)
    requires
        rgb@.len() == width as int * height as int * 3,
    ensures
        r matches Ok(b) ==> b@ == jpeg_of(rgb@, width, height, quality),
        r is Ok <==> (1 <= width <= 65535 && 1 <= height <= 65535),
{
    let mut out: Vec<u8> = Vec::new();
    let mut encoder = image::codecs::jpeg::JpegEncoder::new_with_quality(&mut out, quality);
    encoder.encode(rgb, width, height, image::ExtendedColorType::Rgb8)?;
    Ok(out)
}

/// Relies on the `Display` text of `image::ImageError`.
#[verifier::external_body]
fn image_error_text(e: &image::ImageError) -> (r: String) {
    e.to_string()
}

/// Compresses a captured RGBA frame of `width` by `height` pixels to JPEG
/// at quality 85, after dropping its alpha channel. It fails, with
/// `EncodeFailure`, exactly when a side is zero or over 65535 pixels.
pub fn encode_capture(rgba: &Vec<u8>, width: u32, height: u32) -> (r: Result<Vec<u8>, CaptureError>)
    requires
        rgba@.len() == width as int * height as int * 4,
    ensures
        r matches Ok(b) ==> b@ == jpeg_of(rgb_of(rgba@), width, height, JPEG_QUALITY),
        r is Ok <==> (1 <= width <= 65535 && 1 <= height <= 65535),
        r matches Err(e) ==> e is EncodeFailure,
{
    let rgb = rgba_to_rgb(rgba);
    assert(rgb@.len() == width as int * height as int * 3) by (nonlinear_arith)
        requires
            rgb@.len() == rgba@.len() / 4 * 3,
            rgba@.len() == width as int * height as int * 4,
    ;
    match jpeg_encode(&rgb, width, height, JPEG_QUALITY) {
        Ok(b) => Ok(b),
        Err(e) => Err(CaptureError::EncodeFailure { detail: image_error_text(&e) }),
    }
}

/// The colour of each whole RGBA pixel, alpha left out.
pub open spec fn pixel_colors(raw: Seq<u8>) -> Seq<(u8, u8, u8)> {
    Seq::new((raw.len() / 4) as nat, |i: int| (raw[4 * i], raw[4 * i + 1], raw[4 * i + 2]))
}

/// How many of the colours are not black.
pub open spec fn count_non_black(cs: Seq<(u8, u8, u8)>) -> nat
    decreases cs.len(),
{
    if cs.len() == 0 {
        0
    } else {
        count_non_black(cs.drop_last()) + (if cs.last() != (0u8, 0u8, 0u8) {
            1nat
        } else {
            0nat
        })
    }
}

/// The most distinct colours a capture check samples.
pub const COLOR_SAMPLE_LIMIT: u64 = 100;

/// What a capture check found.
#[derive(Debug, Clone, Copy, PartialEq, Eq, Structural)]
pub struct CaptureAnalysis {
    /// Width times height.
    pub pixel_count: u64,
    /// Pixels whose colour is not black.
    pub non_black_pixels: u64,
    /// Distinct colours, counted up to `COLOR_SAMPLE_LIMIT`.
    pub sampled_colors: u64,
    /// Under one percent of the pixels are not black, or under five
    /// colours were seen: the mark of a capture taken without permission.
    pub mostly_blank: bool,
}

/// Whether `c` is among the colours in `seen`.
fn color_seen(seen: &Vec<(u8, u8, u8)>, c: (u8, u8, u8)) -> (r: bool)
    ensures
        r == seen@.contains(c),
{
    let mut i: usize = 0;
    while i < seen.len()
        invariant
            i <= seen@.len(),
            forall|k: int| 0 <= k < i ==> seen@[k] != c,
        decreases seen@.len() - i,
    {
        let s = seen[i];
        if s.0 == c.0 && s.1 == c.1 && s.2 == c.2 {
            return true;
        }
        i = i + 1;
    }
    false
}

/// Checks a raw RGBA capture of `width` by `height` pixels for signs of
/// missing screen-recording permission: it counts the pixels that are not
/// black and samples up to 100 distinct colours.
pub fn analyze_capture(raw: &Vec<u8>, width: u32, height: u32) -> (r: CaptureAnalysis)
    ensures
        r.pixel_count == width as int * height as int,
        r.non_black_pixels == count_non_black(pixel_colors(raw@)),
        r.sampled_colors == if pixel_colors(raw@).to_set().len() < 100 {
            pixel_colors(raw@).to_set().len()
        } else {
            100
        },
        r.mostly_blank == (r.non_black_pixels * 100 < r.pixel_count || r.sampled_colors < 5),
{
    broadcast use vstd::seq_lib::seq_to_set_is_finite;

    let ghost pc = pixel_colors(raw@);
    let len = raw.len();
    let n = len / 4;
    let mut non_black: u64 = 0;
    let mut seen: Vec<(u8, u8, u8)> = Vec::new();
    let mut p: usize = 0;
    while p < n
        invariant
            len == raw@.len(),
            n == len / 4,
            pc == pixel_colors(raw@),
            p <= n,
            non_black <= p,
            non_black == count_non_black(pc.subrange(0, p as int)),
            seen@.no_duplicates(),
            seen@.len() <= 100,
            seen@.to_set().subset_of(pc.subrange(0, p as int).to_set()),
            seen@.len() < 100 ==> seen@.to_set() == pc.subrange(0, p as int).to_set(),
        decreases n - p,
    {
        assert(p * 4 + 3 < len) by (nonlinear_arith)
            requires
                p < n,
                n == len / 4,
        ;
        let c = (raw[4 * p], raw[4 * p + 1], raw[4 * p + 2]);
        let ghost before = pc.subrange(0, p as int);
        let ghost after = pc.subrange(0, p + 1);
        proof {
            assert(after =~= before + seq![c]);
            assert(after.drop_last() =~= before);
            Seq::lemma_to_set_insert_commutes(before, c);
        }
        if c.0 != 0 || c.1 != 0 || c.2 != 0 {
            non_black = non_black + 1;
        }
        if (seen.len() as u64) < COLOR_SAMPLE_LIMIT && !color_seen(&seen, c) {
            let ghost old_seen = seen@;
            seen.push(c);
            proof {
                assert(seen@ =~= old_seen + seq![c]);
                Seq::lemma_to_set_insert_commutes(old_seen, c);
            }
        }
        p = p + 1;
    }
    proof {
        assert(pc.subrange(0, n as int) =~= pc);
        seen@.unique_seq_to_set();
        vstd::set_lib::lemma_len_subset(seen@.to_set(), pc.to_set());
    }
    assert(width as int * height as int <= u64::MAX) by (nonlinear_arith)
        requires
            width <= u32::MAX,
            height <= u32::MAX,
    ;
    let pixel_count = width as u64 * height as u64;
    let sampled = seen.len() as u64;
    let mostly_blank = (non_black as u128) * 100 < pixel_count as u128 || sampled < 5;
    CaptureAnalysis { pixel_count, non_black_pixels: non_black, sampled_colors: sampled, mostly_blank }
}

/// The words of the base64 encoding of bytes.
pub uninterp spec fn base64_of(b: Seq<u8>) -> Seq<char>;

/// Relies on `base64::Engine::encode` with `general_purpose::STANDARD`:
/// padded base64, four characters for each started group of three bytes.
/// Its length computation overflows only past `usize::MAX / 4 * 3` bytes,
/// more than a `Vec` can hold.
#[verifier::external_body]
fn base64_standard(b: &Vec<u8>) -> (r: String)
    ensures
        r@ == base64_of(b@),
        r@.len() == 4 * ((b@.len() + 2) / 3),
{
    base64::Engine::encode(&base64::engine::general_purpose::STANDARD, b)
}

/// A stored capture's bytes as a `data:` URL for display.
pub fn jpeg_data_url(bytes: &Vec<u8>) -> (r: String)
    ensures
        r@ == "data:image/jpeg;base64,"@ + base64_of(bytes@),
{
    let mut r = String::from_str("data:image/jpeg;base64,");
    let e = base64_standard(bytes);
    r.append(e.as_str());
    r
}

} // verus!
