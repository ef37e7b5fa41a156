//! Turning a stored clipboard image (base64 text holding a PNG file) back
//! into pixels for a thumbnail.
use vstd::prelude::*;
use base64::Engine;

verus! {

/// A decoded image: its size and its pixels as 8-bit RGBA.
#[derive(Clone, Debug)]
pub struct DecodedImage {
    pub width: u32,
    pub height: u32,
    /// Four bytes per pixel (red, green, blue, alpha), row by row.
    pub pixels: Vec<u8>,
}

/// What the standard base64 engine (`base64::prelude::BASE64_STANDARD`,
/// padded, standard alphabet) decodes `text` to; `None` when it reports an
/// error.
pub uninterp spec fn base64_standard_decode(text: Seq<char>) -> Option<Seq<u8>>;

/// The first frame that the `png` crate decodes from the file `bytes` with
/// the `normalize_to_color8` transformations and default limits: its width,
/// height, PNG colour type code, bit depth and samples; `None` when decoding
/// fails.
pub uninterp spec fn png_first_frame(bytes: Seq<u8>) -> Option<(u32, u32, u8, u8, Seq<u8>)>;

/// Samples per pixel of an 8-bit frame of the PNG colour type `color_type`
/// that can be turned into RGBA (grey 0, RGB 2, grey with alpha 4, RGBA 6);
/// 0 for any other code (palette 3 among them).
pub open spec fn channels_of(color_type: u8) -> int {
    if color_type == 0 {
        1
    } else if color_type == 2 {
        3
    } else if color_type == 4 {
        2
    } else if color_type == 6 {
        4
    } else {
        0
    }
}

/// Pixel `p` of the samples as RGBA: grey spreads to red, green and blue,
/// and a frame without an alpha channel is opaque (alpha 255).
pub open spec fn rgba_pixel(color_type: u8, samples: Seq<u8>, p: int) -> Seq<u8> {
    if color_type == 6 {
        seq![samples[4 * p], samples[4 * p + 1], samples[4 * p + 2], samples[4 * p + 3]]
    } else if color_type == 2 {
        seq![samples[3 * p], samples[3 * p + 1], samples[3 * p + 2], 255u8]
    } else if color_type == 4 {
        seq![samples[2 * p], samples[2 * p], samples[2 * p], samples[2 * p + 1]]
    } else {
        seq![samples[p], samples[p], samples[p], 255u8]
    }
}

/// The first `n` pixels of the samples as RGBA, one after the other.
pub open spec fn rgba_of(color_type: u8, samples: Seq<u8>, n: int) -> Seq<u8>
    decreases n,
{
    if n <= 0 {
        Seq::empty()
    } else {
        rgba_of(color_type, samples, n - 1) + rgba_pixel(color_type, samples, n - 1)
    }
}

/// Byte `k` of the RGBA image: pixel `k / 4`, channel `k % 4` (red, green,
/// blue, alpha). RGBA samples are copied; RGB pixels keep their colour and
/// are opaque; grey goes to all three colour channels, with its own alpha
/// or opaque.
pub proof fn lemma_rgba_bytes(color_type: u8, samples: Seq<u8>, n: int)
    requires
        0 <= n,
        color_type == 0 || color_type == 2 || color_type == 4 || color_type == 6,
    ensures
        rgba_of(color_type, samples, n).len() == 4 * n,
        forall|p: int, c: int|
            0 <= p < n && 0 <= c < 4 ==> #[trigger] rgba_of(color_type, samples, n)[4 * p + c] == if color_type == 6 {
                samples[4 * p + c]
            } else if color_type == 2 {
                if c < 3 {
                    samples[3 * p + c]
                } else {
                    255u8
                }
            } else if color_type == 4 {
                if c < 3 {
                    samples[2 * p]
                } else {
                    samples[2 * p + 1]
                }
            } else {
                if c < 3 {
                    samples[p]
                } else {
                    255u8
                }
            },
    decreases n,
{
    if n > 0 {
        lemma_rgba_bytes(color_type, samples, n - 1);
        let prev = rgba_of(color_type, samples, n - 1);
        let px = rgba_pixel(color_type, samples, n - 1);
        let all = rgba_of(color_type, samples, n);
        assert(all == prev + px);
        assert forall|p: int, c: int| 0 <= p < n && 0 <= c < 4 implies #[trigger] all[4 * p + c]
            == if color_type == 6 {
            samples[4 * p + c]
        } else if color_type == 2 {
            if c < 3 {
                samples[3 * p + c]
            } else {
                255u8
            }
        } else if color_type == 4 {
            if c < 3 {
                samples[2 * p]
            } else {
                samples[2 * p + 1]
            }
        } else {
            if c < 3 {
                samples[p]
            } else {
                255u8
            }
        } by {
            if p < n - 1 {
                assert(all[4 * p + c] == prev[4 * p + c]);
            } else {
                assert(all[4 * p + c] == px[c]);
            }
        }
    }
}

/// Whether a frame can be shown: 8 bits per sample, a colour type that has
/// an RGBA form, and exactly one pixel's samples per pixel of the frame.
pub open spec fn frame_converts(
    width: u32,
    height: u32,
    color_type: u8,
    bit_depth: u8,
    samples: Seq<u8>,
) -> bool {
    &&& bit_depth == 8
    &&& channels_of(color_type) > 0
    &&& samples.len() == width * height * channels_of(color_type)
}

/// The RGBA image of a frame, as width, height and pixels; `None` when the
/// frame cannot be shown.
pub open spec fn rgba_image(
    width: u32,
    height: u32,
    color_type: u8,
    bit_depth: u8,
    samples: Seq<u8>,
) -> Option<(u32, u32, Seq<u8>)> {
    if frame_converts(width, height, color_type, bit_depth, samples) {
        Some((width, height, rgba_of(color_type, samples, width * height)))
    } else {
        None
    }
}

/// An optional decoded image as width, height and pixels.
pub open spec fn image_view(image: Option<DecodedImage>) -> Option<(u32, u32, Seq<u8>)> {
    match image {
        Some(img) => Some((img.width, img.height, img.pixels@)),
        None => None,
    }
}

/// The image that a frame decoded from a PNG file shows, as 8-bit RGBA.
pub open spec fn png_image(bytes: Seq<u8>) -> Option<(u32, u32, Seq<u8>)> {
    match png_first_frame(bytes) {
        Some((w, h, color_type, bit_depth, samples)) => rgba_image(
            w,
            h,
            color_type,
            bit_depth,
            samples,
        ),
        None => None,
    }
}

#[verifier::external_type_specification]
#[verifier::external_body]
pub struct ExBase64DecodeError(base64::DecodeError);

/// `Engine::decode` of `BASE64_STANDARD`: the bytes that `text` encodes,
/// or the decoder's error.
#[verifier::external_body]
fn base64_decode(text: &str) -> (r: Result<Vec<u8>, base64::DecodeError>)
    ensures
        r is Ok <==> base64_standard_decode(text@) is Some,
        r matches Ok(v) ==> base64_standard_decode(text@) == Some(v@),
{
    base64::prelude::BASE64_STANDARD.decode(text)
}

/// Decodes the first frame of a PNG file with the `png` crate:
/// `Decoder::new` on the bytes, `set_transformations` with
/// `Transformations::normalize_to_color8()` (palette entries, low bit depths
/// and 16-bit samples become 8-bit samples), `read_info`, a buffer of
/// `output_buffer_size` bytes filled by `next_frame`, cut to the frame's
/// `buffer_size`; the frame's colour type and bit depth are handed out as
/// their PNG codes. `None` when `read_info` or `next_frame` fail. The
/// contract names the result; the PNG format itself is not restated here,
/// and an image too large to allocate ends the process as any failed
/// allocation does.
#[verifier::external_body]
fn png_decode_first_frame(bytes: Vec<u8>) -> (r: Option<(u32, u32, u8, u8, Vec<u8>)>)
    ensures
        match r {
            Some((w, h, ct, depth, px)) => png_first_frame(bytes@) == Some((w, h, ct, depth, px@)),
            None => png_first_frame(bytes@) is None,
        },
{
    let mut decoder = png::Decoder::new(std::io::Cursor::new(bytes));
    decoder.set_transformations(png::Transformations::normalize_to_color8());
    let mut reader = decoder.read_info().ok()?;
    let mut buf = vec![0; reader.output_buffer_size()];
    let info = reader.next_frame(&mut buf).ok()?;
    buf.truncate(info.buffer_size());
    Some((info.width, info.height, info.color_type as u8, info.bit_depth as u8, buf))
}

proof fn lemma_next_pixel_fits(p: int, n: int, ch: int)
    requires
        0 <= p < n,
        0 < ch,
    ensures
        (p + 1) * ch <= n * ch,
        (p + 1) * ch == p * ch + ch,
{
    assert((p + 1) * ch <= n * ch) by (nonlinear_arith)
        requires
            0 <= p < n,
            0 < ch,
    ;
    assert((p + 1) * ch == p * ch + ch) by (nonlinear_arith);
}

/// A decoded frame turned into 8-bit RGBA pixels: RGBA samples are kept,
/// RGB pixels become opaque, grey spreads to red, green and blue (keeping
/// its alpha, or opaque). `None` for a bit depth other than 8, a colour type
/// without an RGBA form, or samples that do not fill the frame exactly.
pub fn rgba8_from_frame(
    width: u32,
    height: u32,
    color_type: u8,
    bit_depth: u8,
    samples: Vec<u8>,
) -> (r: Option<DecodedImage>)
    ensures
        image_view(r) == rgba_image(width, height, color_type, bit_depth, samples@),
{
    let ch: usize = if color_type == 0 {
        1
    } else if color_type == 2 {
        3
    } else if color_type == 4 {
        2
    } else if color_type == 6 {
        4
    } else {
        0
    };
    if bit_depth != 8 || ch == 0 {
        return None;
    }
    let n: usize = match (width as usize).checked_mul(height as usize) {
        Some(n) => n,
        None => {
            assert(width * height * ch >= width * height) by (nonlinear_arith)
                requires
                    ch >= 1,
                    width * height >= 0,
            ;
            return None;
        },
    };
    let total: usize = match n.checked_mul(ch) {
        Some(t) => t,
        None => return None,
    };
    if samples.len() != total {
        return None;
    }
    assert(channels_of(color_type) == ch);
    let mut out: Vec<u8> = Vec::new();
    let mut p: usize = 0;
    let mut base: usize = 0;
    while p < n
        invariant
            p <= n,
            n == width * height,
            channels_of(color_type) == ch,
            0 < ch <= 4,
            samples@.len() == n * ch,
            base == p * ch,
            out@ == rgba_of(color_type, samples@, p as int),
        decreases n - p,
    {
        proof {
            lemma_next_pixel_fits(p as int, n as int, ch as int);
        }
        assert(base + ch <= samples@.len());
        let next: usize = base + ch;
        if color_type == 6 {
            out.push(samples[base]);
            out.push(samples[base + 1]);
            out.push(samples[base + 2]);
            out.push(samples[base + 3]);
        } else if color_type == 2 {
            out.push(samples[base]);
            out.push(samples[base + 1]);
            out.push(samples[base + 2]);
            out.push(255);
        } else if color_type == 4 {
            out.push(samples[base]);
            out.push(samples[base]);
            out.push(samples[base]);
            out.push(samples[base + 1]);
        } else {
            out.push(samples[base]);
            out.push(samples[base]);
            out.push(samples[base]);
            out.push(255);
        }
        assert(out@ == rgba_of(color_type, samples@, p as int + 1));
        base = next;
        p = p + 1;
    }
    Some(DecodedImage { width, height, pixels: out })
}

/// The first frame of the PNG file `bytes`, as 8-bit RGBA; `None` when the
/// file does not decode.
pub fn image_from_png(bytes: Vec<u8>) -> (r: Option<DecodedImage>)
    ensures
        image_view(r) == png_image(bytes@),
{
    match png_decode_first_frame(bytes) {
        Some((width, height, color_type, bit_depth, samples)) => rgba8_from_frame(
            width,
            height,
            color_type,
            bit_depth,
            samples,
        ),
        None => None,
    }
}

/// The pixels of a stored clipboard image, from which its thumbnail is
/// drawn: the base64 text decoded, then its first PNG frame as 8-bit RGBA;
/// `None` when either step fails.
pub fn load_slint_image_from_base64(base64_text: &str) -> (r: Option<DecodedImage>)
    ensures
        image_view(r) == match base64_standard_decode(base64_text@) {
            None => None,
            Some(bytes) => png_image(bytes),
        },
{
    match base64_decode(base64_text) {
        Ok(bytes) => image_from_png(bytes),
        Err(_) => None,
    }
}

} // verus!
