//! Scalar and vector data of MDL0 buffers, in the formats the files store them in.
use vstd::prelude::*;

use crate::error::{corrupted, invalid_input, reason_with_value, EditorError, EditorResult};
use crate::format::encoding::Deserialize;
use crate::format::mdl0::normals::NormalFormat;
use crate::shared::util::{can_read, i16_be, u16_be, u32_be, RefCursor};

verus! {

/// The data type used to store vertex data.
///
/// These formats are used for positions and UVs. Normals and colors use their own
/// formats; a [`NormalFormat`] converts into this one.
#[derive(Debug, Copy, Clone, PartialEq, Eq, Structural, PartialOrd, Ord)]
pub enum VertexFormat {
    Uint8,
    Int8,
    Uint16,
    Int16,
    Float32,
    /// Fallback for codes that name no format; data is never read in it.
    Invalid,
}

/// The vertex format with code `code`: 0 to 4 name a format, any other code is `Invalid`.
pub open spec fn vertex_format_of(code: u32) -> VertexFormat {
    if code == 0 {
        VertexFormat::Uint8
    } else if code == 1 {
        VertexFormat::Int8
    } else if code == 2 {
        VertexFormat::Uint16
    } else if code == 3 {
        VertexFormat::Int16
    } else if code == 4 {
        VertexFormat::Float32
    } else {
        VertexFormat::Invalid
    }
}

/// The codes that the file format assigns: each code stated here names the value
/// beside it, and every code not listed gives the value of the last line.
pub proof fn lemma_vertex_format_codes()
    ensures
        vertex_format_of(0) == VertexFormat::Uint8,
        vertex_format_of(1) == VertexFormat::Int8,
        vertex_format_of(2) == VertexFormat::Uint16,
        vertex_format_of(3) == VertexFormat::Int16,
        vertex_format_of(4) == VertexFormat::Float32,
        forall|code: u32| !(code == 0 || code == 1 || code == 2 || code == 3 || code == 4) ==> #[trigger] vertex_format_of(code) == VertexFormat::Invalid,
{
}

/// The code of a vertex format (5 for `Invalid`).
pub open spec fn vertex_format_code(f: VertexFormat) -> u8 {
    match f {
        VertexFormat::Uint8 => 0,
        VertexFormat::Int8 => 1,
        VertexFormat::Uint16 => 2,
        VertexFormat::Int16 => 3,
        VertexFormat::Float32 => 4,
        VertexFormat::Invalid => 5,
    }
}

/// The vertex format that has the same code as the normal format `n`.
pub open spec fn vertex_format_of_normal(n: NormalFormat) -> VertexFormat {
    match n {
        NormalFormat::Int8 => VertexFormat::Int8,
        NormalFormat::Int16 => VertexFormat::Int16,
        NormalFormat::Float32 => VertexFormat::Float32,
        NormalFormat::Invalid => VertexFormat::Invalid,
    }
}

impl VertexFormat {
    /// The format with the given code; codes above 4 give `Invalid`.
    pub fn from_bits(bits: u8) -> (r: Self)
        ensures
            r == vertex_format_of(bits as u32),
    {
        match bits {
            0 => VertexFormat::Uint8,
            1 => VertexFormat::Int8,
            2 => VertexFormat::Uint16,
            3 => VertexFormat::Int16,
            4 => VertexFormat::Float32,
            _ => VertexFormat::Invalid,
        }
    }

    /// The code of this format.
    pub fn into_bits(self) -> (r: u8)
        ensures
            r == vertex_format_code(self),
    {
        match self {
            VertexFormat::Uint8 => 0,
            VertexFormat::Int8 => 1,
            VertexFormat::Uint16 => 2,
            VertexFormat::Int16 => 3,
            VertexFormat::Float32 => 4,
            VertexFormat::Invalid => 5,
        }
    }

    /// The format with code `value`, which must be 0 to 4.
    pub fn try_from(value: u32) -> (r: EditorResult<Self>)
        ensures
            match r {
                Ok(f) => value <= 4 && f == vertex_format_of(value),
                Err(e) => value > 4 && e is Corrupted,
            },
    {
        if value > 4 {
            return Err(
                corrupted(reason_with_value("invalid vertex format: ", value as u64, " (expected 0-4)"), None),
            );
        }
        Ok(Self::from_bits(value as u8))
    }
}

impl From<NormalFormat> for VertexFormat {
    fn from(value: NormalFormat) -> (r: Self) {
        match value {
            NormalFormat::Int8 => VertexFormat::Int8,
            NormalFormat::Int16 => VertexFormat::Int16,
            NormalFormat::Float32 => VertexFormat::Float32,
            NormalFormat::Invalid => VertexFormat::Invalid,
        }
    }
}

impl vstd::std_specs::convert::FromSpecImpl<NormalFormat> for VertexFormat {
    open spec fn obeys_from_spec() -> bool {
        true
    }

    open spec fn from_spec(v: NormalFormat) -> VertexFormat {
        vertex_format_of_normal(v)
    }
}

impl Deserialize for VertexFormat {
    fn deserialize(reader: &mut RefCursor) -> (r: EditorResult<Self>)
        ensures
            final(reader).bytes() == old(reader).bytes(),
            ({
                let s = old(reader).bytes();
                let p = old(reader).pos();
                match r {
                    Ok(f) => can_read(s, p, 4) && u32_be(s, p) <= 4 && f == vertex_format_of(
                        u32_be(s, p),
                    ) && final(reader).pos() == p + 4,
                    Err(e) => if can_read(s, p, 4) {
                        u32_be(s, p) > 4 && e is Corrupted
                    } else {
                        e is IoError
                    },
                }
            }),
    {
        let word = reader.read_u32()?;
        if word >= 5 {
            return Err(
                corrupted(reason_with_value("invalid vector format: ", word as u64, ", expected (0-4)"), None),
            );
        }
        Ok(Self::from_bits(word as u8))
    }
}

/// The divisor to scale integer components by.
#[derive(Debug, Copy, Clone, PartialEq, Eq)]
pub enum VectorDivisor {
    /// The full range of the format maps to [-1, 1]; only for the signed formats.
    Normalize,
    /// Components are divided by `2^divisor`.
    Custom(u8),
}

/// A component of vertex data as stored: an integer that stands for `raw / 2^shift`,
/// or the bits of an IEEE single.
#[derive(Debug, Copy, Clone, PartialEq, Eq)]
pub enum Scalar {
    Fixed { raw: i32, shift: u32 },
    Float { bits: u32 },
}

/// The power of two that integer components in `format` are divided by, where the
/// combination of format and divisor is valid.
pub open spec fn divisor_shift(format: VertexFormat, divisor: VectorDivisor) -> Option<u32> {
    match divisor {
        VectorDivisor::Custom(d) => Some(d as u32),
        VectorDivisor::Normalize => match format {
            VertexFormat::Int8 => Some(7),
            VertexFormat::Int16 => Some(15),
            _ => None,
        },
    }
}

/// Number of bytes a component in `format` takes.
pub open spec fn scalar_size(format: VertexFormat) -> int {
    match format {
        VertexFormat::Uint8 | VertexFormat::Int8 => 1,
        VertexFormat::Uint16 | VertexFormat::Int16 => 2,
        VertexFormat::Float32 => 4,
        VertexFormat::Invalid => 0,
    }
}

/// The bytes that a component takes in each format: one for 8-bit integers, two for
/// 16-bit integers, four for single-precision floats.
pub proof fn lemma_scalar_sizes()
    ensures
        scalar_size(VertexFormat::Uint8) == 1,
        scalar_size(VertexFormat::Int8) == 1,
        scalar_size(VertexFormat::Uint16) == 2,
        scalar_size(VertexFormat::Int16) == 2,
        scalar_size(VertexFormat::Float32) == 4,
{
}

/// The component in `format` stored at `p` of `s`, scaled by `2^-shift`.
pub open spec fn scalar_at(s: Seq<u8>, p: int, format: VertexFormat, shift: u32) -> Scalar {
    match format {
        VertexFormat::Uint8 => Scalar::Fixed { raw: s[p] as i32, shift },
        VertexFormat::Int8 => Scalar::Fixed { raw: (s[p] as i8) as i32, shift },
        VertexFormat::Uint16 => Scalar::Fixed { raw: u16_be(s, p) as i32, shift },
        VertexFormat::Int16 => Scalar::Fixed { raw: i16_be(s, p) as i32, shift },
        _ => Scalar::Float { bits: u32_be(s, p) },
    }
}

/// The `n` components in `format` stored one after another from `p` on.
pub open spec fn scalars_at(s: Seq<u8>, p: int, n: nat, format: VertexFormat, shift: u32) -> Seq<Scalar> {
    Seq::new(n, |i: int| scalar_at(s, p + i * scalar_size(format), format, shift))
}

/// Where `len` bytes can be read from `p` of `s`; nothing to read always fits.
pub open spec fn fits(s: Seq<u8>, p: int, len: int) -> bool {
    len == 0 || can_read(s, p, len)
}

/// Where `n` components in `format` with `divisor` can be read from `p` of `s`.
pub open spec fn scalars_ok(s: Seq<u8>, p: int, n: int, format: VertexFormat, divisor: VectorDivisor) -> bool {
    &&& divisor_shift(format, divisor) is Some
    &&& format != VertexFormat::Invalid
    &&& fits(s, p, n * scalar_size(format))
}

/// Whether `e` is the error that reading components in `format` with `divisor` gives
/// where they cannot be read: an invalid input for a format and divisor that do not go
/// together, else the end of the input.
pub open spec fn scalars_error(format: VertexFormat, divisor: VectorDivisor, e: EditorError) -> bool {
    if divisor_shift(format, divisor) is None || format == VertexFormat::Invalid {
        e is InvalidInput
    } else {
        e is IoError
    }
}

/// Whether `e` is the error for a `format` and `divisor` that do not go together, read
/// at `p`: an invalid input that names `p` where the divisor does not suit the format,
/// and no position where the format itself is invalid.
pub open spec fn format_refused(format: VertexFormat, divisor: VectorDivisor, p: int, e: EditorError) -> bool {
    e matches EditorError::InvalidInput { source } && source.location == if divisor_shift(format, divisor) is None {
        Some(p as u64)
    } else {
        None::<u64>
    }
}

proof fn lemma_step(p: int, i: int, size: int)
    ensures
        p + (i + 1) * size == p + i * size + size,
{
    assert((i + 1) * size == i * size + size) by (nonlinear_arith);
}

proof fn lemma_prefix(i: int, n: int, size: int)
    requires
        0 <= i < n,
        0 <= size,
    ensures
        (i + 1) * size <= n * size,
{
    assert((i + 1) * size <= n * size) by (nonlinear_arith)
        requires
            0 <= i < n,
            0 <= size,
    ;
}

/// Checks the combination of `format` and `divisor` and gives its shift.
fn shift_of(format: VertexFormat, divisor: VectorDivisor, reader: &RefCursor) -> (r: EditorResult<u32>)
    ensures
        match r {
            Ok(k) => divisor_shift(format, divisor) == Some(k) && format != VertexFormat::Invalid,
            Err(e) => (divisor_shift(format, divisor) is None || format == VertexFormat::Invalid)
                && format_refused(format, divisor, reader.pos() as int, e),
        },
{
    let shift: u32 = match (format, divisor) {
        (VertexFormat::Int8, VectorDivisor::Normalize) => 7,
        (VertexFormat::Int16, VectorDivisor::Normalize) => 15,
        (_, VectorDivisor::Custom(d)) => d as u32,
        _ => {
            return Err(
                invalid_input(
                    "invalid format-divisor combination".to_owned(),
                    Some(reader.position()),
                ),
            );
        },
    };
    if format == VertexFormat::Invalid {
        return Err(invalid_input("cannot deserialize data with format `Invalid`".to_owned(), None));
    }
    Ok(shift)
}

/// Reads one component in `format`, with a shift already checked.
fn read_scalar(reader: &mut RefCursor, format: VertexFormat, shift: u32) -> (r: EditorResult<Scalar>)
    requires
        format != VertexFormat::Invalid,
    ensures
        final(reader).bytes() == old(reader).bytes(),
        ({
            let s = old(reader).bytes();
            let p = old(reader).pos();
            match r {
                Ok(v) => can_read(s, p, scalar_size(format)) && v == scalar_at(s, p, format, shift)
                    && final(reader).pos() == p + scalar_size(format),
                Err(e) => !can_read(s, p, scalar_size(format)) && e is IoError,
            }
        }),
{
    match format {
        VertexFormat::Uint8 => {
            let b = reader.read_u8()?;
            Ok(Scalar::Fixed { raw: b as i32, shift })
        },
        VertexFormat::Int8 => {
            let b = reader.read_i8()?;
            Ok(Scalar::Fixed { raw: b as i32, shift })
        },
        VertexFormat::Uint16 => {
            let v = reader.read_u16()?;
            Ok(Scalar::Fixed { raw: v as i32, shift })
        },
        VertexFormat::Int16 => {
            let v = reader.read_i16()?;
            Ok(Scalar::Fixed { raw: v as i32, shift })
        },
        _ => {
            let bits = reader.read_u32()?;
            Ok(Scalar::Float { bits })
        },
    }
}

/// Reads `n` components in `format`, with a shift already checked.
fn read_scalars(reader: &mut RefCursor, n: usize, format: VertexFormat, shift: u32) -> (r: EditorResult<Vec<Scalar>>)
    requires
        format != VertexFormat::Invalid,
    ensures
        final(reader).bytes() == old(reader).bytes(),
        ({
            let s = old(reader).bytes();
            let p = old(reader).pos();
            let size = scalar_size(format);
            match r {
                Ok(v) => fits(s, p, n * size) && v@ == scalars_at(s, p, n as nat, format, shift)
                    && final(reader).pos() == p + n * size,
                Err(e) => !fits(s, p, n * size) && e is IoError,
            }
        }),
{
    let ghost s = reader.bytes();
    let ghost p = reader.pos();
    let ghost size = scalar_size(format);
    let mut out: Vec<Scalar> = Vec::new();
    let mut i: usize = 0;
    while i < n
        invariant
            reader.bytes() == s,
            s == old(reader).bytes(),
            p == old(reader).pos(),
            size == scalar_size(format),
            format != VertexFormat::Invalid,
            i <= n,
            i == 0 || can_read(s, p, i * size),
            reader.pos() == p + i * size,
            out@ == scalars_at(s, p, i as nat, format, shift),
        decreases n - i,
    {
        proof {
            lemma_step(p, i as int, size);
            lemma_prefix(i as int, n as int, size);
        }
        let v = match read_scalar(reader, format, shift) {
            Ok(v) => v,
            Err(e) => {
                assert(!fits(s, p, n * size)) by {
                    assert(size > 0);
                    assert(i * size >= 0) by (nonlinear_arith)
                        requires
                            i >= 0,
                            size > 0,
                    ;
                }
                return Err(e);
            },
        };
        out.push(v);
        i = i + 1;
        assert(out@ =~= scalars_at(s, p, i as nat, format, shift));
    }
    Ok(out)
}

/// Reads a single component of the given format.
pub fn deserialize_scalar(reader: &mut RefCursor, format: VertexFormat, divisor: VectorDivisor) -> (r: EditorResult<Scalar>)
    ensures
        final(reader).bytes() == old(reader).bytes(),
        ({
            let s = old(reader).bytes();
            let p = old(reader).pos();
            match r {
                Ok(v) => scalars_ok(s, p, 1, format, divisor) && v == scalar_at(
                    s,
                    p,
                    format,
                    divisor_shift(format, divisor)->0,
                ) && final(reader).pos() == p + scalar_size(format),
                Err(e) => !scalars_ok(s, p, 1, format, divisor) && scalars_error(format, divisor, e)
                    && ((divisor_shift(format, divisor) is None || format == VertexFormat::Invalid) ==> (final(reader).pos()
                        == p && format_refused(format, divisor, p, e))),
            }
        }),
{
    let shift = shift_of(format, divisor, reader)?;
    read_scalar(reader, format, shift)
}

/// Reads `count` components of the given format.
pub fn deserialize_scalar_data(
    reader: &mut RefCursor,
    count: usize,
    format: VertexFormat,
    divisor: VectorDivisor,
) -> (r: EditorResult<Vec<Scalar>>)
    ensures
        final(reader).bytes() == old(reader).bytes(),
        ({
            let s = old(reader).bytes();
            let p = old(reader).pos();
            match r {
                Ok(v) => scalars_ok(s, p, count as int, format, divisor) && v@ == scalars_at(
                    s,
                    p,
                    count as nat,
                    format,
                    divisor_shift(format, divisor)->0,
                ) && final(reader).pos() == p + count * scalar_size(format),
                Err(e) => !scalars_ok(s, p, count as int, format, divisor) && scalars_error(format, divisor, e)
                    && ((divisor_shift(format, divisor) is None || format == VertexFormat::Invalid) ==> (final(reader).pos()
                        == p && format_refused(format, divisor, p, e))),
            }
        }),
{
    let shift = shift_of(format, divisor, reader)?;
    read_scalars(reader, count, format, shift)
}

/// Reads a vector of `n` components of the given format.
pub fn deserialize_vector(
    reader: &mut RefCursor,
    n: usize,
    format: VertexFormat,
    divisor: VectorDivisor,
) -> (r: EditorResult<Vec<Scalar>>)
    ensures
        final(reader).bytes() == old(reader).bytes(),
        ({
            let s = old(reader).bytes();
            let p = old(reader).pos();
            match r {
                Ok(v) => scalars_ok(s, p, n as int, format, divisor) && v@ == scalars_at(
                    s,
                    p,
                    n as nat,
                    format,
                    divisor_shift(format, divisor)->0,
                ) && final(reader).pos() == p + n * scalar_size(format),
                Err(e) => !scalars_ok(s, p, n as int, format, divisor) && scalars_error(format, divisor, e)
                    && ((divisor_shift(format, divisor) is None || format == VertexFormat::Invalid) ==> (final(reader).pos()
                        == p && format_refused(format, divisor, p, e))),
            }
        }),
{
    let shift = shift_of(format, divisor, reader)?;
    read_scalars(reader, n, format, shift)
}

/// The `count` vectors of `n` components each stored one after another from `p` on.
pub open spec fn vectors_at(s: Seq<u8>, p: int, count: nat, n: nat, format: VertexFormat, shift: u32) -> Seq<Seq<Scalar>> {
    Seq::new(count, |k: int| scalars_at(s, p + k * (n * scalar_size(format)), n, format, shift))
}

/// Reads `count` vectors of `n` components each.
pub fn deserialize_vector_data(
    reader: &mut RefCursor,
    count: usize,
    n: usize,
    format: VertexFormat,
    divisor: VectorDivisor,
) -> (r: EditorResult<Vec<Vec<Scalar>>>)
    ensures
        final(reader).bytes() == old(reader).bytes(),
        ({
            let s = old(reader).bytes();
            let p = old(reader).pos();
            let stride = n * scalar_size(format);
            match r {
                Ok(v) => scalars_ok(s, p, count * n, format, divisor) && v@.len() == count && (forall|k: int|
                    0 <= k < count ==> (#[trigger] v@[k])@ == vectors_at(
                        s,
                        p,
                        count as nat,
                        n as nat,
                        format,
                        divisor_shift(format, divisor)->0,
                    )[k]) && final(reader).pos() == p + count * stride,
                Err(e) => !scalars_ok(s, p, count * n, format, divisor) && scalars_error(format, divisor, e)
                    && ((divisor_shift(format, divisor) is None || format == VertexFormat::Invalid) ==> (final(reader).pos()
                        == p && format_refused(format, divisor, p, e))),
            }
        }),
{
    let shift = shift_of(format, divisor, reader)?;
    let ghost s = reader.bytes();
    let ghost p = reader.pos();
    let ghost size = scalar_size(format);
    let ghost stride = n * size;
    assert(0 <= stride) by (nonlinear_arith)
        requires
            stride == n * size,
            0 <= size,
    ;
    let mut out: Vec<Vec<Scalar>> = Vec::new();
    let mut k: usize = 0;
    while k < count
        invariant
            reader.bytes() == s,
            s == old(reader).bytes(),
            p == old(reader).pos(),
            size == scalar_size(format),
            stride == n * size,
            0 <= stride,
            format != VertexFormat::Invalid,
            divisor_shift(format, divisor) == Some(shift),
            k <= count,
            fits(s, p, k * stride),
            reader.pos() == p + k * stride,
            out@.len() == k,
            forall|j: int|
                0 <= j < k ==> (#[trigger] out@[j])@ == vectors_at(s, p, count as nat, n as nat, format, shift)[j],
        decreases count - k,
    {
        proof {
            lemma_step(p, k as int, stride);
            lemma_prefix(k as int, count as int, stride);
            assert(count * stride == (count * n) * size) by (nonlinear_arith)
                requires
                    stride == n * size,
            ;
        }
        let v = match read_scalars(reader, n, format, shift) {
            Ok(v) => v,
            Err(e) => {
                assert(!fits(s, p, (count * n) * size));
                return Err(e);
            },
        };
        out.push(v);
        k = k + 1;
    }
    proof {
        assert(count * stride == (count * n) * size) by (nonlinear_arith)
            requires
                stride == n * size,
        ;
    }
    Ok(out)
}

/// Every normal format is the vertex format with the same code: the normal formats are
/// the signed vertex formats, and converting keeps the code.
pub proof fn lemma_normal_formats_are_vertex_formats(code: u32)
    requires
        code == 1 || code == 3 || code == 4,
    ensures
        vertex_format_of_normal(crate::format::mdl0::normals::normal_format_of(code)) == vertex_format_of(code),
        vertex_format_code(vertex_format_of(code)) == code,
{
}

/// Reading the code of a vertex format back gives the same format, and the code of the
/// format read from a code 0 to 4 is that code.
pub proof fn lemma_vertex_format_code_roundtrip(f: VertexFormat, code: u32)
    ensures
        vertex_format_of(vertex_format_code(f) as u32) == f,
        code <= 4 ==> vertex_format_code(vertex_format_of(code)) == code,
{
}

/// With the normalizing divisor, the smallest integer of each signed format stands for
/// -1: the full range of the format maps to [-1, 1].
pub proof fn lemma_normalize_spans_unit_range()
    ensures
        divisor_shift(VertexFormat::Int8, VectorDivisor::Normalize) == Some(7u32),
        divisor_shift(VertexFormat::Int16, VectorDivisor::Normalize) == Some(15u32),
        -(i8::MIN as int) == 128 && 128 == (1u32 << 7u32),
        -(i16::MIN as int) == 32768 && 32768 == (1u32 << 15u32),
{
    assert(128 == (1u32 << 7u32)) by (bit_vector);
    assert(32768 == (1u32 << 15u32)) by (bit_vector);
}

} // verus!
