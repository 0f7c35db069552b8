//! Color buffers of MDL0 models.
use vstd::prelude::*;

use crate::error::{corrupted, reason_with_value, EditorError, EditorResult};
use crate::format::encoding::Deserialize;
use crate::shared::util::{can_read, u16_be, u24_be, u32_be, RefCursor};

use crate::format::mdl0::section::{deserialize_entries, EntryKind};
use crate::node::node::VirtualNodeBody;
use crate::node::refs::{VirtualNodeId, VirtualNodeMap};
verus! {

/// Whether the colors of a buffer have an alpha channel.
#[derive(Debug, Copy, Clone, PartialEq, Eq)]
pub enum ColorComponents {
    Rgb,
    Rgba,
}

impl ColorComponents {
    /// The components with code `value`: 0 for RGB, 1 for RGBA.
    pub fn try_from(value: u32) -> (r: EditorResult<Self>)
        ensures
            match r {
                Ok(c) => value <= 1 && c == (if value == 0 {
                    ColorComponents::Rgb
                } else {
                    ColorComponents::Rgba
                }),
                Err(e) => value > 1 && e is Corrupted,
            },
    {
        match value {
            0 => Ok(ColorComponents::Rgb),
            1 => Ok(ColorComponents::Rgba),
            _ => Err(corrupted(reason_with_value("invalid color format: ", value as u64, " (expected 0, 1)"), None)),
        }
    }
}

impl Deserialize for ColorComponents {
    fn deserialize(reader: &mut RefCursor) -> (r: EditorResult<Self>)
        ensures
            final(reader).bytes() == old(reader).bytes(),
            ({
                let s = old(reader).bytes();
                let p = old(reader).pos();
                match r {
                    Ok(c) => can_read(s, p, 4) && u32_be(s, p) <= 1 && c == (if u32_be(s, p) == 0 {
                        ColorComponents::Rgb
                    } else {
                        ColorComponents::Rgba
                    }) && final(reader).pos() == p + 4,
                    Err(e) => if can_read(s, p, 4) {
                        u32_be(s, p) > 1 && e is Corrupted
                    } else {
                        e is IoError
                    },
                }
            }),
    {
        let word = reader.read_u32()?;
        Self::try_from(word)
    }
}

/// The format of the pixels.
#[derive(Debug, Copy, Clone, PartialEq, Eq, Structural)]
pub enum ColorFormat {
    /// 16 bits: red 5, green 6, blue 5; no alpha.
    Rgb565,
    /// 24 bits: 8 each for red, green and blue; no alpha.
    Rgb24,
    /// 32 bits: 8 each for red, green and blue; the alpha byte is discarded.
    Rgbx32,
    /// 16 bits: 4 each for red, green, blue and alpha.
    Rgba16,
    /// 24 bits: 6 each for red, green, blue and alpha.
    Rgba24,
    /// 32 bits: 8 each for red, green, blue and alpha.
    Rgba32,
}

/// The color format with code `code` (0 to 5).
pub open spec fn color_format_of(code: u32) -> ColorFormat {
    if code == 0 {
        ColorFormat::Rgb565
    } else if code == 1 {
        ColorFormat::Rgb24
    } else if code == 2 {
        ColorFormat::Rgbx32
    } else if code == 3 {
        ColorFormat::Rgba16
    } else if code == 4 {
        ColorFormat::Rgba24
    } else {
        ColorFormat::Rgba32
    }
}

/// The codes that the file format assigns: each code stated here names the value
/// beside it, and every code not listed gives the value of the last line.
pub proof fn lemma_color_format_codes()
    ensures
        color_format_of(0) == ColorFormat::Rgb565,
        color_format_of(1) == ColorFormat::Rgb24,
        color_format_of(2) == ColorFormat::Rgbx32,
        color_format_of(3) == ColorFormat::Rgba16,
        color_format_of(4) == ColorFormat::Rgba24,
        color_format_of(5) == ColorFormat::Rgba32,
        forall|code: u32| !(code == 0 || code == 1 || code == 2 || code == 3 || code == 4) ==> #[trigger] color_format_of(code) == ColorFormat::Rgba32,
{
}

/// Number of bytes of a pixel in format `f`.
pub open spec fn color_stride(f: ColorFormat) -> u32 {
    match f {
        ColorFormat::Rgb565 => 2,
        ColorFormat::Rgb24 => 3,
        ColorFormat::Rgbx32 => 4,
        ColorFormat::Rgba16 => 2,
        ColorFormat::Rgba24 => 3,
        ColorFormat::Rgba32 => 4,
    }
}

/// The bytes that a color takes in each format: the bits of its channels (5 + 6 + 5,
/// 3 * 8, 4 * 8 with one unused, 4 * 4, 4 * 6 and 4 * 8) divided by 8.
pub proof fn lemma_color_strides()
    ensures
        color_stride(ColorFormat::Rgb565) * 8 == 5 + 6 + 5,
        color_stride(ColorFormat::Rgb24) * 8 == 3 * 8,
        color_stride(ColorFormat::Rgbx32) * 8 == 4 * 8,
        color_stride(ColorFormat::Rgba16) * 8 == 4 * 4,
        color_stride(ColorFormat::Rgba24) * 8 == 4 * 6,
        color_stride(ColorFormat::Rgba32) * 8 == 4 * 8,
{
}

impl ColorFormat {
    /// Number of bytes of a pixel in this format.
    pub fn stride(&self) -> (r: u32)
        ensures
            r == color_stride(*self),
    {
        match self {
            ColorFormat::Rgb565 => 2,
            ColorFormat::Rgb24 => 3,
            ColorFormat::Rgbx32 => 4,
            ColorFormat::Rgba16 => 2,
            ColorFormat::Rgba24 => 3,
            ColorFormat::Rgba32 => 4,
        }
    }

    /// The format with code `value`, which must be 0 to 5.
    pub fn try_from(value: u32) -> (r: EditorResult<Self>)
        ensures
            match r {
                Ok(f) => value <= 5 && f == color_format_of(value),
                Err(e) => value > 5 && e is Corrupted,
            },
    {
        match value {
            0 => Ok(ColorFormat::Rgb565),
            1 => Ok(ColorFormat::Rgb24),
            2 => Ok(ColorFormat::Rgbx32),
            3 => Ok(ColorFormat::Rgba16),
            4 => Ok(ColorFormat::Rgba24),
            5 => Ok(ColorFormat::Rgba32),
            _ => Err(corrupted(reason_with_value("invalid color format: ", value as u64, " (expected 0-5)"), None)),
        }
    }
}

impl Deserialize for ColorFormat {
    fn deserialize(reader: &mut RefCursor) -> (r: EditorResult<Self>)
        ensures
            final(reader).bytes() == old(reader).bytes(),
            ({
                let s = old(reader).bytes();
                let p = old(reader).pos();
                match r {
                    Ok(f) => can_read(s, p, 4) && u32_be(s, p) <= 5 && f == color_format_of(u32_be(s, p))
                        && final(reader).pos() == p + 4,
                    Err(e) => if can_read(s, p, 4) {
                        u32_be(s, p) > 5 && e is Corrupted
                    } else {
                        e is IoError
                    },
                }
            }),
    {
        let word = reader.read_u32()?;
        Self::try_from(word)
    }
}

/// The RGBA color of a 16-bit RGB565 pixel, each channel stretched to a byte by
/// repeating its top bits.
pub open spec fn rgb565_color(short: u16) -> Seq<u8> {
    let r = ((short & 0xf800u16) >> 11u16) as u8;
    let g = ((short & 0x07e0u16) >> 5u16) as u8;
    let b = (short & 0x001fu16) as u8;
    seq![((r << 3u8) | (r >> 2u8)) as u8, ((g << 2u8) | (g >> 4u8)) as u8, ((b << 3u8) | (b >> 2u8)) as u8, 255u8]
}

/// The RGBA color of a 24-bit RGB pixel.
pub open spec fn rgb24_color(triad: u32) -> Seq<u8> {
    seq![((triad & 0xff0000u32) >> 16u32) as u8, ((triad & 0x00ff00u32) >> 8u32) as u8, (triad & 0x0000ffu32) as u8, 255u8]
}

/// The RGBA color of a 32-bit RGBX pixel (the last byte is not alpha).
pub open spec fn rgbx32_color(word: u32) -> Seq<u8> {
    seq![
        ((word & 0xff000000u32) >> 24u32) as u8,
        ((word & 0x00ff0000u32) >> 16u32) as u8,
        ((word & 0x0000ff00u32) >> 8u32) as u8,
        255u8,
    ]
}

/// The RGBA color of a 16-bit RGBA pixel, each nibble repeated to a byte.
pub open spec fn rgba16_color(short: u16) -> Seq<u8> {
    let r = ((short & 0xf000u16) >> 12u16) as u8;
    let g = ((short & 0x0f00u16) >> 8u16) as u8;
    let b = ((short & 0x00f0u16) >> 4u16) as u8;
    let a = (short & 0x000fu16) as u8;
    seq![((r << 4u8) | r) as u8, ((g << 4u8) | g) as u8, ((b << 4u8) | b) as u8, ((a << 4u8) | a) as u8]
}

/// The RGBA color of a 24-bit RGBA pixel, each six-bit channel stretched to a byte.
pub open spec fn rgba24_color(triad: u32) -> Seq<u8> {
    let r = ((triad & 0xfc0000u32) >> 18u32) as u8;
    let g = ((triad & 0x03f000u32) >> 12u32) as u8;
    let b = ((triad & 0x000fc0u32) >> 6u32) as u8;
    let a = (triad & 0x00003fu32) as u8;
    seq![((r << 2u8) | (r >> 4u8)) as u8, ((g << 2u8) | (g >> 4u8)) as u8, ((b << 2u8) | (b >> 4u8)) as u8, ((a << 2u8) | (a >> 4u8)) as u8]
}

/// The channels of a 16-bit RGB pixel, from its top bits down: red in the top five
/// bits, green in the middle six, blue in the low five; each stretched channel keeps
/// them as its top bits, and alpha is opaque.
pub proof fn lemma_rgb565_channels(w: u16)
    ensures
        rgb565_color(w)[0] / 8 == w / 2048,
        rgb565_color(w)[1] / 4 == (w / 32) % 64,
        rgb565_color(w)[2] / 8 == w % 32,
        rgb565_color(w)[3] == 255,
{
    assert(((((((w & 0xf800u16) >> 11u16) as u8) << 3u8) | ((((w & 0xf800u16) >> 11u16) as u8) >> 2u8)) as u8) / 8 == w / 2048 && ((((((w & 0x07e0u16) >> 5u16) as u8) << 2u8) | ((((w & 0x07e0u16) >> 5u16) as u8) >> 4u8)) as u8) / 4 == (w / 32) % 64 && (((((w & 0x001fu16) as u8) << 3u8) | (((w & 0x001fu16) as u8) >> 2u8)) as u8) / 8 == w % 32) by (bit_vector);
}

/// The channels of a 16-bit RGBA pixel, one nibble each from the top down: red, green,
/// blue, alpha; each stretched channel keeps its nibble as its top bits.
pub proof fn lemma_rgba16_channels(w: u16)
    ensures
        rgba16_color(w)[0] / 16 == w / 4096,
        rgba16_color(w)[1] / 16 == (w / 256) % 16,
        rgba16_color(w)[2] / 16 == (w / 16) % 16,
        rgba16_color(w)[3] / 16 == w % 16,
{
    assert(((((((w & 0xf000u16) >> 12u16) as u8) << 4u8) | (((w & 0xf000u16) >> 12u16) as u8)) as u8) / 16 == w / 4096 && ((((((w & 0x0f00u16) >> 8u16) as u8) << 4u8) | (((w & 0x0f00u16) >> 8u16) as u8)) as u8) / 16 == (w / 256) % 16 && ((((((w & 0x00f0u16) >> 4u16) as u8) << 4u8) | (((w & 0x00f0u16) >> 4u16) as u8)) as u8) / 16 == (w / 16) % 16 && (((((w & 0x000fu16) as u8) << 4u8) | ((w & 0x000fu16) as u8)) as u8) / 16 == w % 16) by (bit_vector);
}

/// The channels of a 24-bit RGBA pixel, six bits each from the top down: red, green,
/// blue, alpha; each stretched channel keeps its six bits as its top bits.
pub proof fn lemma_rgba24_channels(w: u32)
    requires
        w < 0x1000000,
    ensures
        rgba24_color(w)[0] / 4 == w / 262144,
        rgba24_color(w)[1] / 4 == (w / 4096) % 64,
        rgba24_color(w)[2] / 4 == (w / 64) % 64,
        rgba24_color(w)[3] / 4 == w % 64,
{
    assert(w < 0x1000000 ==> (((((((w & 0xfc0000u32) >> 18u32) as u8) << 2u8) | ((((w & 0xfc0000u32) >> 18u32) as u8) >> 4u8)) as u8) / 4 == w / 262144 && ((((((w & 0x03f000u32) >> 12u32) as u8) << 2u8) | ((((w & 0x03f000u32) >> 12u32) as u8) >> 4u8)) as u8) / 4 == (w / 4096) % 64 && ((((((w & 0x000fc0u32) >> 6u32) as u8) << 2u8) | ((((w & 0x000fc0u32) >> 6u32) as u8) >> 4u8)) as u8) / 4 == (w / 64) % 64 && (((((w & 0x00003fu32) as u8) << 2u8) | (((w & 0x00003fu32) as u8) >> 4u8)) as u8) / 4 == w % 64)) by (bit_vector);
}

/// The channels of 24-bit RGB and 32-bit RGBX pixels are their bytes from the top
/// down: red, green, blue (the fourth byte of RGBX is not alpha); alpha is opaque.
pub proof fn lemma_byte_channels(w: u32)
    ensures
        w < 0x1000000 ==> rgb24_color(w) == seq![(w / 65536) as u8, ((w / 256) % 256) as u8, (w % 256) as u8, 255u8],
        rgbx32_color(w) == seq![(w / 16777216) as u8, ((w / 65536) % 256) as u8, ((w / 256) % 256) as u8, 255u8],
{
    assert(w < 0x1000000 ==> ((w & 0xff0000u32) >> 16u32) as u8 == (w / 65536) as u8 && ((w & 0x00ff00u32) >> 8u32) as u8
        == ((w / 256) % 256) as u8 && (w & 0x0000ffu32) as u8 == (w % 256) as u8 && ((w & 0xff000000u32) >> 24u32) as u8
        == (w / 16777216) as u8 && ((w & 0x00ff0000u32) >> 16u32) as u8 == ((w / 65536) % 256) as u8 && ((w & 0x0000ff00u32)
        >> 8u32) as u8 == ((w / 256) % 256) as u8) by (bit_vector);
    assert(((w & 0xff000000u32) >> 24u32) as u8 == (w / 16777216) as u8 && ((w & 0x00ff0000u32) >> 16u32) as u8 == ((w
        / 65536) % 256) as u8 && ((w & 0x0000ff00u32) >> 8u32) as u8 == ((w / 256) % 256) as u8) by (bit_vector);
    assert(w < 0x1000000 ==> rgb24_color(w) =~= seq![(w / 65536) as u8, ((w / 256) % 256) as u8, (w % 256) as u8, 255u8]);
    assert(rgbx32_color(w) =~= seq![(w / 16777216) as u8, ((w / 65536) % 256) as u8, ((w / 256) % 256) as u8, 255u8]);
}

/// The RGBA color of the pixel in format `f` stored at `q` of `s`.
pub open spec fn color_at(s: Seq<u8>, q: int, f: ColorFormat) -> Seq<u8> {
    match f {
        ColorFormat::Rgb565 => rgb565_color(u16_be(s, q)),
        ColorFormat::Rgb24 => rgb24_color(u24_be(s, q)),
        ColorFormat::Rgbx32 => rgbx32_color(u32_be(s, q)),
        ColorFormat::Rgba16 => rgba16_color(u16_be(s, q)),
        ColorFormat::Rgba24 => rgba24_color(u24_be(s, q)),
        ColorFormat::Rgba32 => s.subrange(q, q + 4),
    }
}

/// Reads one pixel in `format` as an RGBA color; channels with fewer than eight bits
/// are stretched to the full range.
pub fn deserialize_color(reader: &mut RefCursor, format: ColorFormat) -> (r: EditorResult<[u8; 4]>)
    ensures
        final(reader).bytes() == old(reader).bytes(),
        ({
            let s = old(reader).bytes();
            let p = old(reader).pos();
            let n = color_stride(format) as int;
            match r {
                Ok(c) => can_read(s, p, n) && c@ == color_at(s, p, format) && final(reader).pos() == p + n,
                Err(e) => !can_read(s, p, n) && e is IoError,
            }
        }),
{
    let ghost s = reader.bytes();
    let ghost p = reader.pos();
    match format {
        ColorFormat::Rgb565 => {
            let short = reader.read_u16()?;
            let r = ((short & 0xf800u16) >> 11u16) as u8;
            let g = ((short & 0x07e0u16) >> 5u16) as u8;
            let b = (short & 0x001fu16) as u8;
            let c = [(r << 3u8) | (r >> 2u8), (g << 2u8) | (g >> 4u8), (b << 3u8) | (b >> 2u8), 255u8];
            assert(c@ =~= rgb565_color(short));
            Ok(c)
        },
        ColorFormat::Rgb24 => {
            let triad = reader.read_u24()?;
            let c = [
                ((triad & 0xff0000u32) >> 16u32) as u8,
                ((triad & 0x00ff00u32) >> 8u32) as u8,
                (triad & 0x0000ffu32) as u8,
                255u8,
            ];
            assert(c@ =~= rgb24_color(triad));
            Ok(c)
        },
        ColorFormat::Rgbx32 => {
            let word = reader.read_u32()?;
            let c = [
                ((word & 0xff000000u32) >> 24u32) as u8,
                ((word & 0x00ff0000u32) >> 16u32) as u8,
                ((word & 0x0000ff00u32) >> 8u32) as u8,
                255u8,
            ];
            assert(c@ =~= rgbx32_color(word));
            Ok(c)
        },
        ColorFormat::Rgba16 => {
            let short = reader.read_u16()?;
            let r = ((short & 0xf000u16) >> 12u16) as u8;
            let g = ((short & 0x0f00u16) >> 8u16) as u8;
            let b = ((short & 0x00f0u16) >> 4u16) as u8;
            let a = (short & 0x000fu16) as u8;
            let c = [(r << 4u8) | r, (g << 4u8) | g, (b << 4u8) | b, (a << 4u8) | a];
            assert(c@ =~= rgba16_color(short));
            Ok(c)
        },
        ColorFormat::Rgba24 => {
            let triad = reader.read_u24()?;
            let r = ((triad & 0xfc0000u32) >> 18u32) as u8;
            let g = ((triad & 0x03f000u32) >> 12u32) as u8;
            let b = ((triad & 0x000fc0u32) >> 6u32) as u8;
            let a = (triad & 0x00003fu32) as u8;
            let c = [(r << 2u8) | (r >> 4u8), (g << 2u8) | (g >> 4u8), (b << 2u8) | (b >> 4u8), (a << 2u8) | (a >> 4u8)];
            assert(c@ =~= rgba24_color(triad));
            Ok(c)
        },
        ColorFormat::Rgba32 => {
            let c = reader.read_u8_array4()?;
            Ok(c)
        },
    }
}

/// A buffer of vertex colors.
pub struct Colors {
    /// Index of this buffer in the `Colors` section of the model.
    pub index: u32,
    pub components: ColorComponents,
    pub format: ColorFormat,
    /// The size in bytes of each entry.
    pub stride: u8,
    /// The colors as red, green, blue and alpha bytes.
    pub colors: Vec<[u8; 4]>,
}

/// Where the color buffer at `p` of `s` can be read.
pub open spec fn colors_ok(s: Seq<u8>, p: int) -> bool {
    let f = color_format_of(u32_be(s, p + 24));
    &&& can_read(s, p, 32)
    &&& u32_be(s, p + 20) <= 1
    &&& u32_be(s, p + 24) <= 5
    &&& can_read(s, p + 32, u16_be(s, p + 30) * color_stride(f))
}

/// Whether `e` is the error that reading the color buffer at `p` of `s` gives where it
/// cannot be read: an unknown component or format code, else the end of the input.
pub open spec fn colors_error(s: Seq<u8>, p: int, e: EditorError) -> bool {
    if can_read(s, p, 24) && u32_be(s, p + 20) > 1 {
        e is Corrupted
    } else if can_read(s, p, 28) && u32_be(s, p + 20) <= 1 && u32_be(s, p + 24) > 5 {
        e is Corrupted
    } else {
        e is IoError
    }
}

/// Whether `c` is the color buffer stored at `p` of `s`; its pixels follow its header.
pub open spec fn colors_is(s: Seq<u8>, p: int, c: Colors) -> bool {
    let f = color_format_of(u32_be(s, p + 24));
    let count = u16_be(s, p + 30) as int;
    &&& c.index == u32_be(s, p + 16)
    &&& c.components == (if u32_be(s, p + 20) == 0 {
        ColorComponents::Rgb
    } else {
        ColorComponents::Rgba
    })
    &&& c.format == f
    &&& c.stride == s[p + 28]
    &&& c.colors@.len() == count
    &&& forall|k: int|
        0 <= k < count ==> (#[trigger] c.colors@[k])@ == color_at(s, p + 32 + k * color_stride(f), f)
}

/// Where each field of the value lies: the bytes it is read from.
pub proof fn lemma_colors_layout(s: Seq<u8>, p: int, c: Colors)
    requires
        colors_is(s, p, c),
    ensures
        (c.index == u32_be(s, p + 16)),
        (c.components == (if u32_be(s, p + 20) == 0 { ColorComponents::Rgb } else { ColorComponents::Rgba })),
        (c.format == (color_format_of(u32_be(s, p + 24)))),
        (c.stride == s[p + 28]),
        (c.colors@.len() == (u16_be(s, p + 30) as int)),
        (forall|k: int| 0 <= k < (u16_be(s, p + 30) as int) ==> (#[trigger] c.colors@[k])@ == color_at(s, p + 32 + k * color_stride((color_format_of(u32_be(s, p + 24)))), (color_format_of(u32_be(s, p + 24))))),
{
}

impl Deserialize for Colors {
    fn deserialize(reader: &mut RefCursor) -> (r: EditorResult<Self>)
        ensures
            final(reader).bytes() == old(reader).bytes(),
            ({
                let s = old(reader).bytes();
                let p = old(reader).pos();
                match r {
                    Ok(c) => colors_ok(s, p) && colors_is(s, p, c) && final(reader).pos() == p + 32 + u16_be(
                        s,
                        p + 30,
                    ) * color_stride(color_format_of(u32_be(s, p + 24))),
                    Err(e) => !colors_ok(s, p) && colors_error(s, p, e),
                }
            }),
    {
        let ghost s = reader.bytes();
        let ghost p = reader.pos();
        let _length = reader.read_u32()?;
        let _mdl0_offset = reader.read_i32()?;
        let _data_offset = reader.read_i32()?;
        let _name_offset = reader.read_i32()?;
        let index = reader.read_u32()?;
        let components = ColorComponents::deserialize(reader)?;
        let format = ColorFormat::deserialize(reader)?;
        let stride = reader.read_u8()?;
        let _padding = reader.read_u8()?;
        let color_count = reader.read_u16()?;
        let ghost size = color_stride(format) as int;
        let mut colors: Vec<[u8; 4]> = Vec::new();
        let mut k: u16 = 0;
        while k < color_count
            invariant
                reader.bytes() == s,
                s == old(reader).bytes(),
                p == old(reader).pos(),
                can_read(s, p, 32),
                u32_be(s, p + 20) <= 1,
                u32_be(s, p + 24) <= 5,
                size == color_stride(format),
                color_count == u16_be(s, p + 30),
                format == color_format_of(u32_be(s, p + 24)),
                k <= color_count,
                can_read(s, p + 32, k * size),
                reader.pos() == p + 32 + k * size,
                colors@.len() == k,
                forall|j: int| 0 <= j < k ==> (#[trigger] colors@[j])@ == color_at(s, p + 32 + j * size, format),
            decreases color_count - k,
        {
            proof {
                assert((k + 1) * size == k * size + size) by (nonlinear_arith);
                assert((k + 1) * size <= color_count * size) by (nonlinear_arith)
                    requires
                        k < color_count,
                        size > 0,
                ;
            }
            let c = match deserialize_color(reader, format) {
                Ok(c) => c,
                Err(e) => {
                    assert(!can_read(s, p + 32, color_count * size));
                    return Err(e);
                },
            };
            colors.push(c);
            k = k + 1;
        }
        Ok(Colors { index, components, format, stride, colors })
    }
}

/// Reads the section of color buffers at the position of `reader`: a node for each entry
/// of its index group, attached to `parent_id`.
pub fn deserialize_virtual(reader: &mut RefCursor, parent_id: VirtualNodeId, node_map: &mut VirtualNodeMap) -> (r: EditorResult<VirtualNodeBody>)
    ensures
        final(reader).bytes() == old(reader).bytes(),
        crate::format::mdl0::section::entries_result(
            old(reader).bytes(),
            old(reader).pos(),
            0,
            parent_id,
            EntryKind::Colors,
            &*old(node_map),
            &*final(node_map),
            r,
        ),
{
    deserialize_entries(reader, 0, parent_id, node_map, EntryKind::Colors)
}

/// Stretching a channel to eight bits keeps its own bits on top, and takes its
/// smallest and largest values to 0 and 255: channels are rescaled to the full range.
pub proof fn lemma_channel_stretch(x: u8)
    ensures
        x < 32 ==> (((x << 3u8) | (x >> 2u8)) as u8) >> 3u8 == x,
        x < 64 ==> (((x << 2u8) | (x >> 4u8)) as u8) >> 2u8 == x,
        x < 16 ==> (((x << 4u8) | x) as u8) >> 4u8 == x,
        x == 31 ==> ((x << 3u8) | (x >> 2u8)) as u8 == 255,
        x == 63 ==> ((x << 2u8) | (x >> 4u8)) as u8 == 255,
        x == 15 ==> ((x << 4u8) | x) as u8 == 255,
        x == 0 ==> ((x << 3u8) | (x >> 2u8)) as u8 == 0 && ((x << 2u8) | (x >> 4u8)) as u8 == 0
            && ((x << 4u8) | x) as u8 == 0,
{
    assert(x < 32 ==> (((x << 3u8) | (x >> 2u8)) as u8) >> 3u8 == x) by (bit_vector);
    assert(x < 64 ==> (((x << 2u8) | (x >> 4u8)) as u8) >> 2u8 == x) by (bit_vector);
    assert(x < 16 ==> (((x << 4u8) | x) as u8) >> 4u8 == x) by (bit_vector);
    assert(x == 31 ==> ((x << 3u8) | (x >> 2u8)) as u8 == 255) by (bit_vector);
    assert(x == 63 ==> ((x << 2u8) | (x >> 4u8)) as u8 == 255) by (bit_vector);
    assert(x == 15 ==> ((x << 4u8) | x) as u8 == 255) by (bit_vector);
    assert(x == 0 ==> ((x << 3u8) | (x >> 2u8)) as u8 == 0 && ((x << 2u8) | (x >> 4u8)) as u8 == 0
        && ((x << 4u8) | x) as u8 == 0) by (bit_vector);
}

/// A white pixel decodes to opaque white and a zero pixel to black in every format
/// with fewer than eight bits per channel.
pub proof fn lemma_color_extremes()
    ensures
        rgb565_color(0xffff) == seq![255u8, 255u8, 255u8, 255u8],
        rgb565_color(0) == seq![0u8, 0u8, 0u8, 255u8],
        rgba16_color(0xffff) == seq![255u8, 255u8, 255u8, 255u8],
        rgba16_color(0) == seq![0u8, 0u8, 0u8, 0u8],
        rgba24_color(0xffffff) == seq![255u8, 255u8, 255u8, 255u8],
        rgba24_color(0) == seq![0u8, 0u8, 0u8, 0u8],
{
    assert(((0xffffu16 & 0xf800u16) >> 11u16) as u8 == 31u8) by (bit_vector);
    assert(((0xffffu16 & 0x07e0u16) >> 5u16) as u8 == 63u8) by (bit_vector);
    assert((0xffffu16 & 0x001fu16) as u8 == 31u8) by (bit_vector);
    assert(((0u16 & 0xf800u16) >> 11u16) as u8 == 0u8) by (bit_vector);
    assert(((0u16 & 0x07e0u16) >> 5u16) as u8 == 0u8) by (bit_vector);
    assert((0u16 & 0x001fu16) as u8 == 0u8) by (bit_vector);
    assert(((0xffffu16 & 0xf000u16) >> 12u16) as u8 == 15u8) by (bit_vector);
    assert(((0xffffu16 & 0x0f00u16) >> 8u16) as u8 == 15u8) by (bit_vector);
    assert(((0xffffu16 & 0x00f0u16) >> 4u16) as u8 == 15u8) by (bit_vector);
    assert((0xffffu16 & 0x000fu16) as u8 == 15u8) by (bit_vector);
    assert(((0u16 & 0xf000u16) >> 12u16) as u8 == 0u8) by (bit_vector);
    assert(((0u16 & 0x0f00u16) >> 8u16) as u8 == 0u8) by (bit_vector);
    assert(((0u16 & 0x00f0u16) >> 4u16) as u8 == 0u8) by (bit_vector);
    assert((0u16 & 0x000fu16) as u8 == 0u8) by (bit_vector);
    assert(((0xffffffu32 & 0xfc0000u32) >> 18u32) as u8 == 63u8) by (bit_vector);
    assert(((0xffffffu32 & 0x03f000u32) >> 12u32) as u8 == 63u8) by (bit_vector);
    assert(((0xffffffu32 & 0x000fc0u32) >> 6u32) as u8 == 63u8) by (bit_vector);
    assert((0xffffffu32 & 0x00003fu32) as u8 == 63u8) by (bit_vector);
    assert(((0u32 & 0xfc0000u32) >> 18u32) as u8 == 0u8) by (bit_vector);
    assert(((0u32 & 0x03f000u32) >> 12u32) as u8 == 0u8) by (bit_vector);
    assert(((0u32 & 0x000fc0u32) >> 6u32) as u8 == 0u8) by (bit_vector);
    assert((0u32 & 0x00003fu32) as u8 == 0u8) by (bit_vector);
    lemma_channel_stretch(31);
    lemma_channel_stretch(63);
    lemma_channel_stretch(15);
    lemma_channel_stretch(0);
    assert(rgb565_color(0xffff) =~= seq![255u8, 255u8, 255u8, 255u8]);
    assert(rgb565_color(0) =~= seq![0u8, 0u8, 0u8, 255u8]);
    assert(rgba16_color(0xffff) =~= seq![255u8, 255u8, 255u8, 255u8]);
    assert(rgba16_color(0) =~= seq![0u8, 0u8, 0u8, 0u8]);
    assert(rgba24_color(0xffffff) =~= seq![255u8, 255u8, 255u8, 255u8]);
    assert(rgba24_color(0) =~= seq![0u8, 0u8, 0u8, 0u8]);
}

} // verus!
