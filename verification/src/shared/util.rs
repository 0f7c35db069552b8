//! A cheaply clonable cursor over a shared byte buffer, with big-endian reads.
use byteorder::{BigEndian, ByteOrder};
use std::sync::Arc;
use vstd::prelude::*;

use crate::error::{EditorError, EditorResult, EndOfInput};

verus! {

/// The big-endian `u16` that starts at index `p` of `s`.
pub open spec fn u16_be(s: Seq<u8>, p: int) -> u16 {
    (((s[p] as u16) << 8u16) | (s[p + 1] as u16)) as u16
}

/// The big-endian 24-bit unsigned integer that starts at index `p` of `s`.
pub open spec fn u24_be(s: Seq<u8>, p: int) -> u32 {
    (((s[p] as u32) << 16u32) | ((s[p + 1] as u32) << 8u32) | (s[p + 2] as u32)) as u32
}

/// The big-endian `u32` that starts at index `p` of `s`.
pub open spec fn u32_be(s: Seq<u8>, p: int) -> u32 {
    (((s[p] as u32) << 24u32) | ((s[p + 1] as u32) << 16u32) | ((s[p + 2] as u32) << 8u32) | (
    s[p + 3] as u32)) as u32
}

/// The big-endian two's complement `i16` that starts at index `p` of `s`.
pub open spec fn i16_be(s: Seq<u8>, p: int) -> i16 {
    u16_be(s, p) as i16
}

/// The big-endian two's complement `i32` that starts at index `p` of `s`.
pub open spec fn i32_be(s: Seq<u8>, p: int) -> i32 {
    u32_be(s, p) as i32
}

/// Whether `n` bytes can be read from position `p` of `s`.
pub open spec fn can_read(s: Seq<u8>, p: int, n: int) -> bool {
    0 <= p && p + n <= s.len()
}

/// What reading a record of `n` bytes from position `p` of `s` gives: the record
/// `v` (and the new position `p + n`) where the bytes are there, an end-of-input
/// error where they are not.
pub open spec fn fixed_read<T>(r: EditorResult<T>, s: Seq<u8>, p: int, n: int, v: T, new_pos: int) -> bool {
    match r {
        Ok(x) => can_read(s, p, n) && x == v && new_pos == p + n,
        Err(e) => !can_read(s, p, n) && e is IoError,
    }
}

/// The `n` big-endian `u32` values from position `p` of `s` on.
pub open spec fn u32s_at(s: Seq<u8>, p: int, n: nat) -> Seq<u32> {
    Seq::new(n, |i: int| u32_be(s, p + 4 * i))
}

/// The `n` big-endian `u16` values from position `p` of `s` on.
pub open spec fn u16s_at(s: Seq<u8>, p: int, n: nat) -> Seq<u16> {
    Seq::new(n, |i: int| u16_be(s, p + 2 * i))
}

/// `BigEndian::read_u16`: the first two bytes of `buf[at..]`, most significant first.
#[verifier::external_body]
fn be_read_u16(buf: &[u8], at: usize) -> (r: u16)
    requires
        at + 2 <= buf@.len(),
    ensures
        r == u16_be(buf@, at as int),
{
    <BigEndian as ByteOrder>::read_u16(&buf[at..])
}

/// `BigEndian::read_u24`: the first three bytes of `buf[at..]`, most significant first.
#[verifier::external_body]
fn be_read_u24(buf: &[u8], at: usize) -> (r: u32)
    requires
        at + 3 <= buf@.len(),
    ensures
        r == u24_be(buf@, at as int),
{
    <BigEndian as ByteOrder>::read_u24(&buf[at..])
}

/// `BigEndian::read_u32`: the first four bytes of `buf[at..]`, most significant first.
#[verifier::external_body]
fn be_read_u32(buf: &[u8], at: usize) -> (r: u32)
    requires
        at + 4 <= buf@.len(),
    ensures
        r == u32_be(buf@, at as int),
{
    <BigEndian as ByteOrder>::read_u32(&buf[at..])
}

/// `BigEndian::read_i16`: the first two bytes of `buf[at..]` as a two's complement number.
#[verifier::external_body]
fn be_read_i16(buf: &[u8], at: usize) -> (r: i16)
    requires
        at + 2 <= buf@.len(),
    ensures
        r == i16_be(buf@, at as int),
{
    <BigEndian as ByteOrder>::read_i16(&buf[at..])
}

/// `BigEndian::read_i32`: the first four bytes of `buf[at..]` as a two's complement number.
#[verifier::external_body]
fn be_read_i32(buf: &[u8], at: usize) -> (r: i32)
    requires
        at + 4 <= buf@.len(),
    ensures
        r == i32_be(buf@, at as int),
{
    <BigEndian as ByteOrder>::read_i32(&buf[at..])
}

/// `Arc::clone`: another pointer to the same buffer.
#[verifier::external_body]
fn share(data: &Arc<Vec<u8>>) -> (r: Arc<Vec<u8>>)
    ensures
        r == *data,
{
    Arc::clone(data)
}

/// A cursor over a shared, immutable byte buffer.
///
/// The cursor sees the bytes from `start` to the end of the buffer (its tail) and
/// has a position relative to `start`. Positions may lie past the end of the tail;
/// reads from there fail.
pub struct RefCursor {
    data: Arc<Vec<u8>>,
    start: usize,
    pos: u64,
}

impl RefCursor {
    #[verifier::type_invariant]
    spec fn wf(self) -> bool {
        self.start <= self.data@.len()
    }

    /// The bytes that this cursor reads from.
    pub closed spec fn bytes(&self) -> Seq<u8> {
        self.data@.subrange(self.start as int, self.data@.len() as int)
    }

    /// The current position, relative to the start of [`bytes`](Self::bytes).
    pub closed spec fn pos(&self) -> int {
        self.pos as int
    }

    /// Creates a cursor at position 0 over all of `data`.
    pub fn new(data: Vec<u8>) -> (r: Self)
        ensures
            r.bytes() == data@,
            r.pos() == 0,
    {
        let r = RefCursor { data: Arc::new(data), start: 0, pos: 0 };
        assert(r.bytes() =~= data@);
        r
    }

    /// Another cursor over the same bytes, at the same position.
    pub fn clone(&self) -> (r: Self)
        ensures
            r == *self,
            r.bytes() == self.bytes(),
            r.pos() == self.pos(),
    {
        proof {
            use_type_invariant(self);
        }
        RefCursor { data: share(&self.data), start: self.start, pos: self.pos }
    }

    /// The current position.
    pub fn position(&self) -> (r: u64)
        ensures
            r == self.pos(),
    {
        self.pos
    }

    /// Moves the cursor to `pos`.
    pub fn set_position(&mut self, pos: u64)
        ensures
            final(self).bytes() == old(self).bytes(),
            final(self).pos() == pos,
    {
        proof {
            use_type_invariant(&*self);
        }
        self.pos = pos;
    }

    /// Number of bytes this cursor reads from.
    pub fn len(&self) -> (r: usize)
        ensures
            r == self.bytes().len(),
    {
        proof {
            use_type_invariant(self);
        }
        self.data.len() - self.start
    }

    /// Number of bytes between the position and the end.
    pub fn remaining_len(&self) -> (r: usize)
        ensures
            r == (if self.pos() <= self.bytes().len() {
                self.bytes().len() - self.pos()
            } else {
                0
            }),
    {
        let len = self.len();
        if self.pos <= len as u64 {
            len - self.pos as usize
        } else {
            0
        }
    }

    /// Whether `n` bytes can be read from the current position.
    pub fn has(&self, n: u64) -> (r: bool)
        ensures
            r == can_read(self.bytes(), self.pos(), n as int),
            r ==> self.pos() + n <= usize::MAX,
    {
        proof {
            use_type_invariant(self);
        }
        let len = self.len() as u64;
        self.pos <= len && len - self.pos >= n
    }

    /// Makes the bytes from the current position on the new view of this cursor,
    /// and moves to position 0 of it. A position past the end gives an empty view.
    pub fn set_tail(&mut self)
        ensures
            final(self).pos() == 0,
            final(self).bytes() == if old(self).pos() <= old(self).bytes().len() {
                old(self).bytes().subrange(old(self).pos(), old(self).bytes().len() as int)
            } else {
                Seq::<u8>::empty()
            },
    {
        proof {
            use_type_invariant(&*self);
        }
        let len = self.len();
        let skip: usize = if self.pos <= len as u64 {
            assert(self.pos <= usize::MAX);
            self.pos as usize
        } else {
            len
        };
        let dlen = self.data.len();
        assert(self.bytes().len() == dlen - self.start);
        assert(skip <= len);
        self.start = self.start + skip;
        self.pos = 0;
        proof {
            let old_b = old(self).bytes();
            if old(self).pos() <= old_b.len() {
                assert(self.bytes() =~= old_b.subrange(old(self).pos(), old_b.len() as int));
            } else {
                assert(self.bytes() =~= Seq::<u8>::empty());
            }
        }
    }

    /// The byte at index `i` of the view (independent of the position).
    pub fn byte_at(&self, i: u64) -> (r: u8)
        requires
            i < self.bytes().len(),
        ensures
            r == self.bytes()[i as int],
    {
        proof {
            use_type_invariant(self);
        }
        let dlen = self.data.len();
        assert(i <= usize::MAX);
        self.data[self.start + i as usize]
    }

    fn eof(&self, n: u64) -> (e: EditorError)
        ensures
            e matches EditorError::IoError { source } && source.requested == n && source.location == self.pos(),
    {
        EditorError::IoError { source: EndOfInput { requested: n, location: self.pos } }
    }

    /// Index into `data` of the current position; only meaningful where `n` bytes can be read.
    fn abs(&self, n: u64) -> (r: usize)
        requires
            can_read(self.bytes(), self.pos(), n as int),
        ensures
            r == self.start + self.pos(),
            r + n <= self.data@.len(),
            r + n <= usize::MAX,
            forall|i: int|
                0 <= i < n ==> #[trigger] self.data@[r + i] == self.bytes()[self.pos() + i],
    {
        let dlen = self.data.len();
        proof {
            use_type_invariant(self);
            assert(self.bytes().len() == dlen - self.start);
            assert(self.pos <= usize::MAX);
        }
        self.start + self.pos as usize
    }

    /// Reads one byte.
    pub fn read_u8(&mut self) -> (r: EditorResult<u8>)
        ensures
            final(self).bytes() == old(self).bytes(),
            match r {
                Ok(v) => can_read(old(self).bytes(), old(self).pos(), 1) && v == old(self).bytes()[old(
                    self,
                ).pos()] && final(self).pos() == old(self).pos() + 1,
                Err(e) => !can_read(old(self).bytes(), old(self).pos(), 1) && e is IoError
                    && final(self).pos() == old(self).pos(),
            },
    {
        if !self.has(1) {
            return Err(self.eof(1));
        }
        let i = self.abs(1);
        let v = self.data[i];
        assert(self.data@[i + 0] == self.bytes()[self.pos() + 0]);
        self.pos = self.pos + 1;
        Ok(v)
    }

    /// Reads one byte as a two's complement number.
    pub fn read_i8(&mut self) -> (r: EditorResult<i8>)
        ensures
            final(self).bytes() == old(self).bytes(),
            match r {
                Ok(v) => can_read(old(self).bytes(), old(self).pos(), 1) && v == old(self).bytes()[old(
                    self,
                ).pos()] as i8 && final(self).pos() == old(self).pos() + 1,
                Err(e) => !can_read(old(self).bytes(), old(self).pos(), 1) && e is IoError
                    && final(self).pos() == old(self).pos(),
            },
    {
        let b = self.read_u8()?;
        Ok(b as i8)
    }

    /// Reads a big-endian `u16`.
    pub fn read_u16(&mut self) -> (r: EditorResult<u16>)
        ensures
            final(self).bytes() == old(self).bytes(),
            match r {
                Ok(v) => can_read(old(self).bytes(), old(self).pos(), 2) && v == u16_be(
                    old(self).bytes(),
                    old(self).pos(),
                ) && final(self).pos() == old(self).pos() + 2,
                Err(e) => !can_read(old(self).bytes(), old(self).pos(), 2) && e is IoError
                    && final(self).pos() == old(self).pos(),
            },
    {
        if !self.has(2) {
            return Err(self.eof(2));
        }
        let i = self.abs(2);
        let v = be_read_u16(self.data.as_slice(), i);
        proof {
            assert(self.data@[i + 0] == self.bytes()[self.pos() + 0]);
            assert(self.data@[i + 1] == self.bytes()[self.pos() + 1]);
        }
        self.pos = self.pos + 2;
        Ok(v)
    }

    /// Reads a big-endian `i16`.
    pub fn read_i16(&mut self) -> (r: EditorResult<i16>)
        ensures
            final(self).bytes() == old(self).bytes(),
            match r {
                Ok(v) => can_read(old(self).bytes(), old(self).pos(), 2) && v == i16_be(
                    old(self).bytes(),
                    old(self).pos(),
                ) && final(self).pos() == old(self).pos() + 2,
                Err(e) => !can_read(old(self).bytes(), old(self).pos(), 2) && e is IoError
                    && final(self).pos() == old(self).pos(),
            },
    {
        if !self.has(2) {
            return Err(self.eof(2));
        }
        let i = self.abs(2);
        let v = be_read_i16(self.data.as_slice(), i);
        proof {
            assert(self.data@[i + 0] == self.bytes()[self.pos() + 0]);
            assert(self.data@[i + 1] == self.bytes()[self.pos() + 1]);
        }
        self.pos = self.pos + 2;
        Ok(v)
    }

    /// Reads a big-endian 24-bit unsigned integer.
    pub fn read_u24(&mut self) -> (r: EditorResult<u32>)
        ensures
            final(self).bytes() == old(self).bytes(),
            match r {
                Ok(v) => can_read(old(self).bytes(), old(self).pos(), 3) && v == u24_be(
                    old(self).bytes(),
                    old(self).pos(),
                ) && final(self).pos() == old(self).pos() + 3,
                Err(e) => !can_read(old(self).bytes(), old(self).pos(), 3) && e is IoError
                    && final(self).pos() == old(self).pos(),
            },
    {
        if !self.has(3) {
            return Err(self.eof(3));
        }
        let i = self.abs(3);
        let v = be_read_u24(self.data.as_slice(), i);
        proof {
            assert(self.data@[i + 0] == self.bytes()[self.pos() + 0]);
            assert(self.data@[i + 1] == self.bytes()[self.pos() + 1]);
            assert(self.data@[i + 2] == self.bytes()[self.pos() + 2]);
        }
        self.pos = self.pos + 3;
        Ok(v)
    }

    /// Reads a big-endian `u32`.
    pub fn read_u32(&mut self) -> (r: EditorResult<u32>)
        ensures
            final(self).bytes() == old(self).bytes(),
            match r {
                Ok(v) => can_read(old(self).bytes(), old(self).pos(), 4) && v == u32_be(
                    old(self).bytes(),
                    old(self).pos(),
                ) && final(self).pos() == old(self).pos() + 4,
                Err(e) => !can_read(old(self).bytes(), old(self).pos(), 4) && e is IoError
                    && final(self).pos() == old(self).pos(),
            },
    {
        if !self.has(4) {
            return Err(self.eof(4));
        }
        let i = self.abs(4);
        let v = be_read_u32(self.data.as_slice(), i);
        proof {
            assert(self.data@[i + 0] == self.bytes()[self.pos() + 0]);
            assert(self.data@[i + 1] == self.bytes()[self.pos() + 1]);
            assert(self.data@[i + 2] == self.bytes()[self.pos() + 2]);
            assert(self.data@[i + 3] == self.bytes()[self.pos() + 3]);
        }
        self.pos = self.pos + 4;
        Ok(v)
    }

    /// Reads a big-endian `i32`.
    pub fn read_i32(&mut self) -> (r: EditorResult<i32>)
        ensures
            final(self).bytes() == old(self).bytes(),
            match r {
                Ok(v) => can_read(old(self).bytes(), old(self).pos(), 4) && v == i32_be(
                    old(self).bytes(),
                    old(self).pos(),
                ) && final(self).pos() == old(self).pos() + 4,
                Err(e) => !can_read(old(self).bytes(), old(self).pos(), 4) && e is IoError
                    && final(self).pos() == old(self).pos(),
            },
    {
        if !self.has(4) {
            return Err(self.eof(4));
        }
        let i = self.abs(4);
        let v = be_read_i32(self.data.as_slice(), i);
        proof {
            assert(self.data@[i + 0] == self.bytes()[self.pos() + 0]);
            assert(self.data@[i + 1] == self.bytes()[self.pos() + 1]);
            assert(self.data@[i + 2] == self.bytes()[self.pos() + 2]);
            assert(self.data@[i + 3] == self.bytes()[self.pos() + 3]);
        }
        self.pos = self.pos + 4;
        Ok(v)
    }

    /// Reads the next `n` bytes.
    pub fn read_bytes(&mut self, n: u64) -> (r: EditorResult<Vec<u8>>)
        ensures
            final(self).bytes() == old(self).bytes(),
            match r {
                Ok(v) => can_read(old(self).bytes(), old(self).pos(), n as int) && v@ == old(
                    self,
                ).bytes().subrange(old(self).pos(), old(self).pos() + n) && final(self).pos()
                    == old(self).pos() + n,
                Err(e) => !can_read(old(self).bytes(), old(self).pos(), n as int) && e is IoError
                    && final(self).pos() == old(self).pos(),
            },
    {
        if !self.has(n) {
            return Err(self.eof(n));
        }
        let i = self.abs(n);
        let mut out: Vec<u8> = Vec::new();
        let mut k: u64 = 0;
        while k < n
            invariant
                self.bytes() == old(self).bytes(),
                self.pos() == old(self).pos(),
                can_read(self.bytes(), self.pos(), n as int),
                i == self.start + self.pos(),
                i + n <= self.data@.len(),
                i + n <= usize::MAX,
                forall|j: int|
                    0 <= j < n ==> #[trigger] self.data@[i + j] == self.bytes()[self.pos() + j],
                k <= n,
                out@ == self.bytes().subrange(self.pos(), self.pos() + k),
            decreases n - k,
        {
            assert(self.data@[i + k as int] == self.bytes()[self.pos() + k]);
            let ghost old_out = out@;
            out.push(self.data[i + k as usize]);
            assert(out@ == old_out.push(self.bytes()[self.pos() + k]));
            k = k + 1;
            assert(out@ =~= self.bytes().subrange(self.pos(), self.pos() + k));
        }
        self.pos = self.pos + n;
        Ok(out)
    }

    /// Reads `n` consecutive big-endian `u32` values.
    pub fn read_u32_vec(&mut self, n: usize) -> (r: EditorResult<Vec<u32>>)
        ensures
            final(self).bytes() == old(self).bytes(),
            match r {
                Ok(v) => can_read(old(self).bytes(), old(self).pos(), 4 * n) && v@ == u32s_at(
                    old(self).bytes(),
                    old(self).pos(),
                    n as nat,
                ) && final(self).pos() == old(self).pos() + 4 * n,
                Err(e) => !can_read(old(self).bytes(), old(self).pos(), 4 * n) && e is IoError
                    && final(self).pos() == old(self).pos(),
            },
    {
        let len = self.len();
        if n > len / 4 || !self.has(4 * n as u64) {
            return Err(self.eof(4 * (n as u64 % 0x4000_0000_0000_0000)));
        }
        let ghost s = self.bytes();
        let ghost p = self.pos();
        let mut out: Vec<u32> = Vec::new();
        let mut k: usize = 0;
        while k < n
            invariant
                self.bytes() == s,
                s == old(self).bytes(),
                p == old(self).pos(),
                can_read(s, p, 4 * n),
                k <= n,
                self.pos() == p + 4 * k,
                out@ == u32s_at(s, p, k as nat),
            decreases n - k,
        {
            let w = self.read_u32()?;
            out.push(w);
            k = k + 1;
            assert(out@ =~= u32s_at(s, p, k as nat));
        }
        Ok(out)
    }

    /// Reads `n` consecutive big-endian `u16` values.
    pub fn read_u16_vec(&mut self, n: usize) -> (r: EditorResult<Vec<u16>>)
        ensures
            final(self).bytes() == old(self).bytes(),
            match r {
                Ok(v) => can_read(old(self).bytes(), old(self).pos(), 2 * n) && v@ == u16s_at(
                    old(self).bytes(),
                    old(self).pos(),
                    n as nat,
                ) && final(self).pos() == old(self).pos() + 2 * n,
                Err(e) => !can_read(old(self).bytes(), old(self).pos(), 2 * n) && e is IoError
                    && final(self).pos() == old(self).pos(),
            },
    {
        let len = self.len();
        if n > len / 2 || !self.has(2 * n as u64) {
            return Err(self.eof(2 * (n as u64 % 0x8000_0000_0000_0000)));
        }
        let ghost s = self.bytes();
        let ghost p = self.pos();
        let mut out: Vec<u16> = Vec::new();
        let mut k: usize = 0;
        while k < n
            invariant
                self.bytes() == s,
                s == old(self).bytes(),
                p == old(self).pos(),
                can_read(s, p, 2 * n),
                k <= n,
                self.pos() == p + 2 * k,
                out@ == u16s_at(s, p, k as nat),
            decreases n - k,
        {
            let w = self.read_u16()?;
            out.push(w);
            k = k + 1;
            assert(out@ =~= u16s_at(s, p, k as nat));
        }
        Ok(out)
    }

    /// Reads the next four bytes.
    pub fn read_u8_array4(&mut self) -> (r: EditorResult<[u8; 4]>)
        ensures
            final(self).bytes() == old(self).bytes(),
            match r {
                Ok(v) => can_read(old(self).bytes(), old(self).pos(), 4) && v@ == old(
                    self,
                ).bytes().subrange(old(self).pos(), old(self).pos() + 4) && final(self).pos()
                    == old(self).pos() + 4,
                Err(e) => !can_read(old(self).bytes(), old(self).pos(), 4) && e is IoError
                    && final(self).pos() == old(self).pos(),
            },
    {
        if !self.has(4) {
            return Err(self.eof(4));
        }
        let b0 = self.read_u8()?;
        let b1 = self.read_u8()?;
        let b2 = self.read_u8()?;
        let b3 = self.read_u8()?;
        let v = [b0, b1, b2, b3];
        assert(v@ =~= old(self).bytes().subrange(old(self).pos(), old(self).pos() + 4));
        Ok(v)
    }
}

} // verus!
