//! In-memory images as the paint pass consumes them: RGBA (byte-swapped and
//! alpha-premultiplied) or inverted greyscale, with the raw decode behind a
//! trusted wrapper.

use vstd::prelude::*;

verus! {

/// The pixel format of a decoded image.
#[derive(Clone, Copy, Debug, PartialEq, Eq, Structural, Hash)]
pub enum Format {
    RGBA,
    Luma,
}

/// A decoded image ready for the rasterizer.
#[derive(Clone, Debug)]
pub struct Image {
    pub width: u32,
    pub height: u32,
    pub format: Format,
    pub data: Vec<u8>,
}

/// The mathematical value of a decoded image.
#[verifier::ext_equal]
pub struct ImageView {
    pub width: int,
    pub height: int,
    pub format: Format,
    pub data: Seq<u8>,
}

impl View for Image {
    type V = ImageView;

    open spec fn view(&self) -> ImageView {
        ImageView {
            width: self.width as int,
            height: self.height as int,
            format: self.format,
            data: self.data@,
        }
    }
}

impl Image {
    /// A copy of this image with the same dimensions, format and pixels.
    pub fn duplicate(&self) -> (r: Image)
        ensures
            r@ == self@,
    {
        let data = self.data.clone();
        proof {
            assert(data@ =~= self.data@);
            assert(Image { width: self.width, height: self.height, format: self.format, data }@
                =~= self@);
        }
        Image { width: self.width, height: self.height, format: self.format, data }
    }
}

/// The source pixel layout the decoder reported, after 8-bit conversion.
#[derive(Clone, Copy, Debug, PartialEq, Eq, Structural)]
pub enum DecodedKind {
    Rgba,
    Rgb,
    Luma,
    LumaAlpha,
}

/// What the decoder produced: dimensions, the source layout, and the raw
/// bytes (RGBA order for color layouts, one byte per pixel for grey ones).
#[derive(Clone, Debug)]
pub struct DecodedImage {
    pub width: u32,
    pub height: u32,
    pub kind: DecodedKind,
    pub data: Vec<u8>,
}

/// The result of decoding a byte buffer: a pure function of the bytes.
pub uninterp spec fn image_decode(buffer: Seq<u8>) -> Option<DecodedImage>;

/// Bytes per pixel of each source layout after conversion.
pub open spec fn decoded_bytes_per_pixel(kind: DecodedKind) -> int {
    match kind {
        DecodedKind::Rgba => 4,
        DecodedKind::Rgb => 4,
        DecodedKind::Luma => 1,
        DecodedKind::LumaAlpha => 1,
    }
}

/// Relies on `image::load_from_memory` for format sniffing and decoding.
/// The result depends on the buffer's bytes alone. Of the decoder's pixel
/// layouts, the four 8-bit ones are kept (RGB converted to RGBA, grey+alpha
/// to grey, each buffer holding exactly bytes-per-pixel bytes per pixel, as
/// the decoder's image buffers guarantee); anything else reads as a failed
/// decode.
#[verifier::external_body]
fn decode_in_memory(buffer: &[u8]) -> (r: Option<DecodedImage>)
    ensures
        r == image_decode(buffer@),
        r matches Some(d) ==> d.data@.len() == decoded_bytes_per_pixel(d.kind) * d.width
            * d.height,
{
    let img = match image::load_from_memory(buffer) {
        Ok(i) => i,
        Err(_) => return None,
    };
    let (width, height) = (img.width(), img.height());
    let (kind, data) = match img {
        image::DynamicImage::ImageLuma8(b) => (DecodedKind::Luma, b.into_raw()),
        image::DynamicImage::ImageRgba8(b) => (DecodedKind::Rgba, b.into_raw()),
        other @ image::DynamicImage::ImageRgb8(_) => (DecodedKind::Rgb, other.to_rgba8().into_raw()),
        other @ image::DynamicImage::ImageLumaA8(_) => (DecodedKind::LumaAlpha, other.to_luma8().into_raw()),
        _ => return None,
    };
    Some(DecodedImage { width, height, kind, data })
}

/// One byte of the byte-swapped, premultiplied form of `s`: within each
/// four-byte pixel the first and third bytes trade places and the three
/// color bytes are scaled by the alpha byte; the alpha byte stays.
pub open spec fn premult_swap_byte(s: Seq<u8>, i: int) -> u8 {
    let base = i - (i % 4);
    let a = s[base + 3] as int;
    if i % 4 == 0 {
        ((s[base + 2] * a) / 255) as u8
    } else if i % 4 == 1 {
        ((s[base + 1] * a) / 255) as u8
    } else if i % 4 == 2 {
        ((s[base + 0] * a) / 255) as u8
    } else {
        s[i]
    }
}

/// The byte-swapped, alpha-premultiplied form of an RGBA byte sequence.
pub open spec fn premultiplied_swapped(s: Seq<u8>) -> Seq<u8> {
    Seq::new(s.len(), |i: int| premult_swap_byte(s, i))
}

/// One byte of the byte-swapped form of `s`: within each four-byte pixel
/// the first and third bytes trade places.
pub open spec fn swap_byte(s: Seq<u8>, i: int) -> u8 {
    let base = i - (i % 4);
    if i % 4 == 0 {
        s[base + 2]
    } else if i % 4 == 2 {
        s[base + 0]
    } else {
        s[i]
    }
}

/// The byte-swapped form of an RGBA byte sequence.
pub open spec fn swapped(s: Seq<u8>) -> Seq<u8> {
    Seq::new(s.len(), |i: int| swap_byte(s, i))
}

/// Every byte replaced by its complement.
pub open spec fn inverted(s: Seq<u8>) -> Seq<u8> {
    Seq::new(s.len(), |i: int| (255 - s[i]) as u8)
}

proof fn lemma_byte_product_bound(x: int, y: int)
    requires
        0 <= x <= 255,
        0 <= y <= 255,
    ensures
        0 <= x * y <= 255 * 255,
        0 <= x * y / 255 <= 255,
{
    assert(0 <= x * y <= 255 * 255) by (nonlinear_arith)
        requires
            0 <= x <= 255,
            0 <= y <= 255,
    ;
}

proof fn lemma_pixel_bytes_mod(w: int, h: int)
    ensures
        ((4 * w) * h) % 4 == 0,
{
    vstd::arithmetic::mul::lemma_mul_is_associative(4, w, h);
    vstd::arithmetic::mul::lemma_mul_is_commutative(4, w * h);
    vstd::arithmetic::div_mod::lemma_mod_multiples_basic(w * h, 4);
}

/// Swaps the red and blue channels of each RGBA pixel and scales the color
/// channels by the pixel's alpha.
pub fn byte_swap_and_premultiply(data: &mut Vec<u8>)
    requires
        old(data)@.len() % 4 == 0,
    ensures
        final(data)@ == premultiplied_swapped(old(data)@),
{
    let length = data.len();
    let mut i: usize = 0;
    while i < length
        invariant
            data@.len() == length,
            length == old(data)@.len(),
            length % 4 == 0,
            i % 4 == 0,
            0 <= i <= length,
            forall|j: int| 0 <= j < i ==> data@[j] == premult_swap_byte(old(data)@, j),
            forall|j: int| i <= j < length ==> data@[j] == old(data)@[j],
        decreases length - i,
    {
        let r = data[i + 2];
        let g = data[i + 1];
        let b = data[i + 0];
        let a = data[i + 3];
        proof {
            lemma_byte_product_bound(r as int, a as int);
            lemma_byte_product_bound(g as int, a as int);
            lemma_byte_product_bound(b as int, a as int);
        }
        data.set(i + 0, ((r as u32) * (a as u32) / 255) as u8);
        data.set(i + 1, ((g as u32) * (a as u32) / 255) as u8);
        data.set(i + 2, ((b as u32) * (a as u32) / 255) as u8);
        proof {
            assert forall|j: int| 0 <= j < i + 4 implies data@[j] == premult_swap_byte(
                old(data)@, j) by {
                if i <= j {
                    assert(j % 4 == j - i) by (nonlinear_arith)
                        requires
                            i % 4 == 0,
                            i <= j < i + 4,
                    ;
                }
            }
        }
        i = i + 4;
    }
    proof {
        assert(data@ =~= premultiplied_swapped(old(data)@));
    }
}

/// Swaps the red and blue channels of each RGBA pixel.
pub fn byte_swap(data: &mut Vec<u8>)
    requires
        old(data)@.len() % 4 == 0,
    ensures
        final(data)@ == swapped(old(data)@),
{
    let length = data.len();
    let mut i: usize = 0;
    while i < length
        invariant
            data@.len() == length,
            length == old(data)@.len(),
            length % 4 == 0,
            i % 4 == 0,
            0 <= i <= length,
            forall|j: int| 0 <= j < i ==> data@[j] == swap_byte(old(data)@, j),
            forall|j: int| i <= j < length ==> data@[j] == old(data)@[j],
        decreases length - i,
    {
        let r = data[i + 2];
        let b = data[i + 0];
        data.set(i + 0, r);
        data.set(i + 2, b);
        proof {
            assert forall|j: int| 0 <= j < i + 4 implies data@[j] == swap_byte(old(data)@, j) by {
                if i <= j {
                    assert(j % 4 == j - i) by (nonlinear_arith)
                        requires
                            i % 4 == 0,
                            i <= j < i + 4,
                    ;
                }
            }
        }
        i = i + 4;
    }
    proof {
        assert(data@ =~= swapped(old(data)@));
    }
}

/// Replaces every byte with its complement (greyscale inversion).
fn invert_bytes(data: &mut Vec<u8>)
    ensures
        final(data)@ == inverted(old(data)@),
{
    let length = data.len();
    let mut i: usize = 0;
    while i < length
        invariant
            data@.len() == length,
            length == old(data)@.len(),
            0 <= i <= length,
            forall|j: int| 0 <= j < i ==> data@[j] == (255 - old(data)@[j]) as u8,
            forall|j: int| i <= j < length ==> data@[j] == old(data)@[j],
        decreases length - i,
    {
        let v = data[i];
        data.set(i, 255 - v);
        i = i + 1;
    }
    proof {
        assert(data@ =~= inverted(old(data)@));
    }
}

/// The paint-ready pixel data for a decode result: RGBA sources are
/// byte-swapped and premultiplied, RGB sources byte-swapped, grey sources
/// inverted.
pub open spec fn processed_data(kind: DecodedKind, s: Seq<u8>) -> Seq<u8> {
    match kind {
        DecodedKind::Rgba => premultiplied_swapped(s),
        DecodedKind::Rgb => swapped(s),
        DecodedKind::Luma => inverted(s),
        DecodedKind::LumaAlpha => inverted(s),
    }
}

/// The format a decode result ends up in.
pub open spec fn processed_format(kind: DecodedKind) -> Format {
    match kind {
        DecodedKind::Rgba => Format::RGBA,
        DecodedKind::Rgb => Format::RGBA,
        DecodedKind::Luma => Format::Luma,
        DecodedKind::LumaAlpha => Format::Luma,
    }
}

/// Decodes an image from a byte buffer and post-processes it for painting.
/// An empty buffer, a failed decode, or an unsupported pixel layout all
/// yield nothing.
pub fn load_from_memory(buffer: &[u8]) -> (r: Option<Image>)
    ensures
        buffer@.len() == 0 ==> r is None,
        buffer@.len() > 0 ==> match image_decode(buffer@) {
            None => r is None,
            Some(d) => match r {
                Some(img) => {
                    &&& img.width == d.width
                    &&& img.height == d.height
                    &&& img.format == processed_format(d.kind)
                    &&& img.data@ == processed_data(d.kind, d.data@)
                },
                None => false,
            },
        },
{
    if buffer.len() == 0 {
        return None;
    }
    match decode_in_memory(buffer) {
        None => None,
        Some(d) => {
            let width = d.width;
            let height = d.height;
            let kind = d.kind;
            let mut data = d.data;
            let format = match kind {
                DecodedKind::Rgba => {
                    proof {
                        lemma_pixel_bytes_mod(width as int, height as int);
                    }
                    byte_swap_and_premultiply(&mut data);
                    Format::RGBA
                },
                DecodedKind::Rgb => {
                    proof {
                        lemma_pixel_bytes_mod(width as int, height as int);
                    }
                    byte_swap(&mut data);
                    Format::RGBA
                },
                DecodedKind::Luma => {
                    invert_bytes(&mut data);
                    Format::Luma
                },
                DecodedKind::LumaAlpha => {
                    invert_bytes(&mut data);
                    Format::Luma
                },
            };
            Some(Image { width, height, format, data })
        },
    }
}

} // verus!
