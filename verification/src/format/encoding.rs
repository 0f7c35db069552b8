//! Traits shared by the readers, and the reading of strings.
use vstd::prelude::*;
use vstd::utf8::{decode_utf8, valid_utf8};

use crate::error::{corrupted, EditorError, EditorResult, InvalidUtf8};
use crate::shared::util::{can_read, u32_be, RefCursor};

verus! {

/// `String::from_utf8`: the decoded string where `bytes` is valid UTF-8, otherwise nothing.
#[verifier::external_body]
fn string_from_utf8(bytes: Vec<u8>) -> (r: Option<String>)
    ensures
        r is Some <==> valid_utf8(bytes@),
        r matches Some(s) ==> s@ == decode_utf8(bytes@),
{
    String::from_utf8(bytes).ok()
}

/// Decodes `bytes` as UTF-8, failing with [`EditorError::InvalidString`] otherwise.
pub fn utf8_string(bytes: Vec<u8>) -> (r: EditorResult<String>)
    ensures
        match r {
            Ok(s) => valid_utf8(bytes@) && s@ == decode_utf8(bytes@),
            Err(e) => !valid_utf8(bytes@) && e is InvalidString,
        },
{
    let kept = bytes.clone();
    proof {
        assert(kept@ =~= bytes@);
    }
    match string_from_utf8(bytes) {
        Some(s) => Ok(s),
        None => Err(EditorError::InvalidString { source: InvalidUtf8 { bytes: kept } }),
    }
}

/// Whether two four-byte magics are equal.
pub fn magic_eq(a: [u8; 4], b: [u8; 4]) -> (r: bool)
    ensures
        r == (a@ == b@),
{
    let r = a[0] == b[0] && a[1] == b[1] && a[2] == b[2] && a[3] == b[3];
    proof {
        if r {
            assert(a@ =~= b@);
        } else if a@ == b@ {
            assert(a@[0] == b@[0] && a@[1] == b@[1] && a@[2] == b@[2] && a@[3] == b@[3]);
        }
    }
    r
}

/// The four bytes of a magic as a vector.
pub fn magic_to_vec(m: [u8; 4]) -> (r: Vec<u8>)
    ensures
        r@ == m@,
{
    let r = vec![m[0], m[1], m[2], m[3]];
    assert(r@ =~= m@);
    r
}

/// Index of the first zero byte of `s` at or after `p`, if any.
pub open spec fn first_zero_from(s: Seq<u8>, p: int) -> Option<int>
    decreases s.len() - p,
{
    if p < 0 || p >= s.len() {
        None
    } else if s[p] == 0 {
        Some(p)
    } else {
        first_zero_from(s, p + 1)
    }
}

pub proof fn lemma_first_zero_from(s: Seq<u8>, p: int)
    requires
        0 <= p,
    ensures
        first_zero_from(s, p) matches Some(j) ==> p <= j < s.len() && s[j] == 0 && forall|k: int|
            p <= k < j ==> s[k] != 0,
        first_zero_from(s, p) is None ==> forall|k: int| p <= k < s.len() ==> s[k] != 0,
    decreases s.len() - p,
{
    if p < s.len() && s[p] != 0 {
        lemma_first_zero_from(s, p + 1);
        assert forall|k: int| p <= k < s.len() && first_zero_from(s, p) is None implies s[k] != 0 by {
            if k > p {
            }
        }
    }
}

/// Reading of length-prefixed and null-terminated strings.
pub trait ReadStringExt {
    /// Reads a `String` with a big-endian `u32` length prefix.
    fn read_u32_string(&mut self) -> EditorResult<String>;

    /// Reads the `String` that ends before the next null byte; the null byte itself is not consumed.
    fn read_null_string(&mut self) -> EditorResult<String>;
}

impl ReadStringExt for RefCursor {
    fn read_u32_string(&mut self) -> (r: EditorResult<String>)
        ensures
            final(self).bytes() == old(self).bytes(),
            ({
                let s = old(self).bytes();
                let p = old(self).pos();
                let n = u32_be(s, p) as int;
                match r {
                    Ok(v) => can_read(s, p, 4) && can_read(s, p + 4, n) && valid_utf8(
                        s.subrange(p + 4, p + 4 + n),
                    ) && v@ == decode_utf8(s.subrange(p + 4, p + 4 + n)) && final(self).pos() == p
                        + 4 + n,
                    Err(e) => if !can_read(s, p, 4) || !can_read(s, p + 4, n) {
                        e is IoError
                    } else {
                        !valid_utf8(s.subrange(p + 4, p + 4 + n)) && e is InvalidString
                    },
                }
            }),
    {
        let str_len = self.read_u32()?;
        let buf = self.read_bytes(str_len as u64)?;
        utf8_string(buf)
    }

    fn read_null_string(&mut self) -> (r: EditorResult<String>)
        ensures
            final(self).bytes() == old(self).bytes(),
            ({
                let s = old(self).bytes();
                let p = old(self).pos();
                match first_zero_from(s, p) {
                    Some(j) => match r {
                        Ok(v) => valid_utf8(s.subrange(p, j)) && v@ == decode_utf8(s.subrange(p, j))
                            && final(self).pos() == j,
                        Err(e) => !valid_utf8(s.subrange(p, j)) && e is InvalidString,
                    },
                    None => r matches Err(e) && e is Corrupted && final(self).pos() == p,
                }
            }),
    {
        let ghost s = self.bytes();
        let ghost p = self.pos();
        let len = self.len() as u64;
        let start = self.position();
        proof {
            lemma_first_zero_from(s, p);
        }
        let mut j = start;
        while j < len
            invariant
                self.bytes() == s,
                self.pos() == p,
                s == old(self).bytes(),
                p == old(self).pos(),
                start == p,
                len == s.len(),
                start <= j,
                forall|k: int| p <= k < j ==> s[k] != 0,
            decreases len - j,
        {
            let b = self.byte_at(j);
            if b == 0 {
                proof {
                    assert(first_zero_from(s, p) == Some(j as int)) by {
                        lemma_first_zero_from(s, p);
                        match first_zero_from(s, p) {
                            Some(q) => {
                                if q < j {
                                    assert(s[q] != 0);
                                } else if q > j {
                                    assert(s[j as int] != 0);
                                }
                            },
                            None => {
                                assert(p <= j && j < s.len());
                                assert(s[j as int] == b);
                            },
                        }
                    }
                }
                let buf = self.read_bytes(j - start)?;
                return utf8_string(buf);
            }
            j = j + 1;
        }
        proof {
            if let Some(q) = first_zero_from(s, p) {
                assert(s[q] == 0);
            }
        }
        Err(corrupted("did not find string null terminator before EOF".to_owned(), None))
    }
}

/// A value that can be read from a [`RefCursor`].
pub trait Deserialize: Sized {
    fn deserialize(reader: &mut RefCursor) -> EditorResult<Self>;
}

/// A value that can be written as bytes.
pub trait Serialize {
    /// Whether this value can be written.
    spec fn serializable(&self) -> bool;

    /// The bytes that this value is written as.
    spec fn serialized(&self) -> Seq<u8>;

    /// Appends the bytes of this value to `writer`; fails exactly where the value
    /// cannot be written.
    fn serialize_into(&self, writer: &mut Vec<u8>) -> (r: EditorResult<()>)
        ensures
            r is Ok <==> self.serializable(),
            r is Ok ==> final(writer)@ == old(writer)@ + self.serialized(),
    ;

    /// The bytes of this value, in a buffer of their own; fails exactly where the value
    /// cannot be written.
    fn serialize(&self) -> (r: EditorResult<Vec<u8>>)
        ensures
            r is Ok <==> self.serializable(),
            r matches Ok(v) ==> v@ == self.serialized(),
    {
        let mut out: Vec<u8> = Vec::new();
        self.serialize_into(&mut out)?;
        assert(out@ =~= Seq::<u8>::empty() + self.serialized());
        Ok(out)
    }
}

} // verus!
