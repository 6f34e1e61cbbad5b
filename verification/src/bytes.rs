//! Big-endian reads over a byte buffer: the mathematical value of a byte
//! string, fixed-offset field readers, and a bounds-checked sequential
//! cursor used by the header and record decoders.

use vstd::prelude::*;
use crate::types::ParseError;

verus! {

/// The integer a byte string denotes when read big-endian (most significant
/// byte first).
pub open spec fn be_val(s: Seq<u8>) -> int
    decreases s.len(),
{
    if s.len() == 0 {
        0
    } else {
        be_val(s.drop_last()) * 256 + s.last()
    }
}

/// 256 to the power n: how many values an n-byte string can denote.
pub open spec fn pow256(n: nat) -> int
    decreases n,
{
    if n == 0 {
        1
    } else {
        256 * pow256((n - 1) as nat)
    }
}

pub proof fn lemma_pow256_small()
    ensures
        pow256(0) == 1,
        pow256(1) == 256,
        pow256(2) == 65536,
        pow256(3) == 16777216,
        pow256(4) == 4294967296,
{
    assert(pow256(0) == 1);
    assert(pow256(1) == 256);
    assert(pow256(2) == 65536);
    assert(pow256(3) == 16777216);
    assert(pow256(4) == 4294967296);
}

pub proof fn lemma_be_val_bound(s: Seq<u8>)
    ensures
        0 <= be_val(s) < pow256(s.len()),
    decreases s.len(),
{
    if s.len() > 0 {
        lemma_be_val_bound(s.drop_last());
    }
}

/// Reading a concatenation reads the left part shifted past the right part.
pub proof fn lemma_be_val_concat(a: Seq<u8>, b: Seq<u8>)
    ensures
        be_val(a + b) == be_val(a) * pow256(b.len()) + be_val(b),
    decreases b.len(),
{
    if b.len() == 0 {
        assert(a + b =~= a);
    } else {
        lemma_be_val_concat(a, b.drop_last());
        assert((a + b).drop_last() =~= a + b.drop_last());
        assert(be_val(a) * pow256((b.len() - 1) as nat) * 256 == be_val(a) * pow256(b.len()))
            by (nonlinear_arith)
            requires pow256(b.len()) == 256 * pow256((b.len() - 1) as nat);
    }
}

/// Reads the two bytes at `off` as one big-endian value.
pub fn field_u16(p: &Vec<u8>, off: usize) -> (r: u16)
    requires
        off + 2 <= p@.len(),
    ensures
        r == be_val(p@.subrange(off as int, off + 2)),
{
    let n = p.len();
    let b0 = p[off];
    let b1 = p[off + 1];
    proof {
        let s = p@.subrange(off as int, off as int + 2);
        let s1 = s.drop_last();
        assert(s1 =~= seq![p@[off as int]]);
        assert(s1.drop_last() =~= Seq::<u8>::empty());
        assert(be_val(s1.drop_last()) == 0);
        assert(be_val(s1) == p@[off as int]);
        assert(be_val(s) == be_val(s1) * 256 + p@[off as int + 1]);
    }
    (b0 as u16) * 256 + (b1 as u16)
}

/// Reads the four bytes at `off` as one big-endian value.
pub fn field_u32(p: &Vec<u8>, off: usize) -> (r: u32)
    requires
        off + 4 <= p@.len(),
    ensures
        r == be_val(p@.subrange(off as int, off + 4)),
{
    let n = p.len();
    let hi = field_u16(p, off);
    let lo = field_u16(p, off + 2);
    proof {
        let a = p@.subrange(off as int, off + 2);
        let b = p@.subrange(off + 2, off + 4);
        assert(p@.subrange(off as int, off + 4) =~= a + b);
        lemma_be_val_concat(a, b);
        lemma_be_val_bound(a);
        lemma_be_val_bound(b);
        assert(pow256(0) == 1);
        assert(pow256(1) == 256);
        assert(pow256(2) == 65536);
        assert((hi as int) * 65536 + (lo as int) <= 65535 * 65536 + 65535);
    }
    (hi as u32) * 65536 + (lo as u32)
}

/// Reads the eight bytes at `off` as one big-endian value.
pub fn field_u64(p: &Vec<u8>, off: usize) -> (r: u64)
    requires
        off + 8 <= p@.len(),
    ensures
        r == be_val(p@.subrange(off as int, off + 8)),
{
    let n = p.len();
    let hi = field_u32(p, off);
    let lo = field_u32(p, off + 4);
    proof {
        let a = p@.subrange(off as int, off + 4);
        let b = p@.subrange(off + 4, off + 8);
        assert(p@.subrange(off as int, off + 8) =~= a + b);
        lemma_be_val_concat(a, b);
        lemma_be_val_bound(a);
        lemma_be_val_bound(b);
        assert(pow256(0) == 1);
        assert(pow256(1) == 256);
        assert(pow256(2) == 65536);
        assert(pow256(3) == 16777216);
        assert(pow256(4) == 4294967296);
        assert((hi as int) * 4294967296 + (lo as int) <= 4294967295 * 4294967296 + 4294967295);
    }
    (hi as u64) * 4294967296 + (lo as u64)
}

/// A sequential reader over a byte buffer.  Reads either succeed whole, with
/// the position moved past the value, or fail leaving the reader untouched.
pub struct Cursor<'a> {
    data: &'a Vec<u8>,
    pos: usize,
}

impl<'a> Cursor<'a> {
    /// The whole underlying buffer.
    pub closed spec fn bytes(&self) -> Seq<u8> {
        self.data@
    }

    /// The current read position.
    pub closed spec fn at(&self) -> int {
        self.pos as int
    }

    pub open spec fn wf(&self) -> bool {
        0 <= self.at() <= self.bytes().len()
    }

    pub fn new(data: &'a Vec<u8>) -> (c: Self)
        ensures
            c.bytes() == data@,
            c.at() == 0,
            c.wf(),
    {
        Cursor { data, pos: 0 }
    }

    pub fn read_u16(&mut self) -> (r: Result<u16, ParseError>)
        requires
            old(self).wf(),
        ensures
            final(self).wf(),
            final(self).bytes() == old(self).bytes(),
            match r {
                Ok(v) => old(self).at() + 2 <= old(self).bytes().len()
                    && final(self).at() == old(self).at() + 2
                    && v == be_val(old(self).bytes().subrange(old(self).at(), old(self).at() + 2)),
                Err(e) => e == ParseError::Truncated
                    && old(self).bytes().len() < old(self).at() + 2
                    && *final(self) == *old(self),
            },
    {
        if self.data.len() - self.pos < 2 {
            return Err(ParseError::Truncated);
        }
        let v = field_u16(self.data, self.pos);
        self.pos = self.pos + 2;
        Ok(v)
    }

    pub fn read_u32(&mut self) -> (r: Result<u32, ParseError>)
        requires
            old(self).wf(),
        ensures
            final(self).wf(),
            final(self).bytes() == old(self).bytes(),
            match r {
                Ok(v) => old(self).at() + 4 <= old(self).bytes().len()
                    && final(self).at() == old(self).at() + 4
                    && v == be_val(old(self).bytes().subrange(old(self).at(), old(self).at() + 4)),
                Err(e) => e == ParseError::Truncated
                    && old(self).bytes().len() < old(self).at() + 4
                    && *final(self) == *old(self),
            },
    {
        if self.data.len() - self.pos < 4 {
            return Err(ParseError::Truncated);
        }
        let v = field_u32(self.data, self.pos);
        self.pos = self.pos + 4;
        Ok(v)
    }

    pub fn read_u64(&mut self) -> (r: Result<u64, ParseError>)
        requires
            old(self).wf(),
        ensures
            final(self).wf(),
            final(self).bytes() == old(self).bytes(),
            match r {
                Ok(v) => old(self).at() + 8 <= old(self).bytes().len()
                    && final(self).at() == old(self).at() + 8
                    && v == be_val(old(self).bytes().subrange(old(self).at(), old(self).at() + 8)),
                Err(e) => e == ParseError::Truncated
                    && old(self).bytes().len() < old(self).at() + 8
                    && *final(self) == *old(self),
            },
    {
        if self.data.len() - self.pos < 8 {
            return Err(ParseError::Truncated);
        }
        let v = field_u64(self.data, self.pos);
        self.pos = self.pos + 8;
        Ok(v)
    }

    /// Copies the next `n` bytes out of the stream.
    pub fn read_bytes(&mut self, n: usize) -> (r: Result<Vec<u8>, ParseError>)
        requires
            old(self).wf(),
        ensures
            final(self).wf(),
            final(self).bytes() == old(self).bytes(),
            match r {
                Ok(v) => old(self).at() + n <= old(self).bytes().len()
                    && final(self).at() == old(self).at() + n
                    && v@ == old(self).bytes().subrange(old(self).at(), old(self).at() + n),
                Err(e) => e == ParseError::Truncated
                    && old(self).bytes().len() < old(self).at() + n
                    && *final(self) == *old(self),
            },
    {
        if self.data.len() - self.pos < n {
            return Err(ParseError::Truncated);
        }
        let mut out: Vec<u8> = Vec::new();
        let mut i: usize = 0;
        while i < n
            invariant
                i <= n,
                self.pos + n <= self.data.len(),
                out@ == self.data@.subrange(self.pos as int, self.pos + i),
                *self == *old(self),
            decreases n - i,
        {
            out.push(self.data[self.pos + i]);
            proof {
                assert(out@ =~= self.data@.subrange(self.pos as int, self.pos + i + 1));
            }
            i = i + 1;
        }
        self.pos = self.pos + n;
        Ok(out)
    }

    /// Moves past the next `n` bytes without looking at them.
    pub fn skip(&mut self, n: usize) -> (r: Result<(), ParseError>)
        requires
            old(self).wf(),
        ensures
            final(self).wf(),
            final(self).bytes() == old(self).bytes(),
            match r {
                Ok(()) => old(self).at() + n <= old(self).bytes().len()
                    && final(self).at() == old(self).at() + n,
                Err(e) => e == ParseError::Truncated
                    && old(self).bytes().len() < old(self).at() + n
                    && *final(self) == *old(self),
            },
    {
        if self.data.len() - self.pos < n {
            return Err(ParseError::Truncated);
        }
        self.pos = self.pos + n;
        Ok(())
    }

    /// Consumes a four-byte framing marker, which must match the expected
    /// bytes exactly.
    pub fn expect4(&mut self, m0: u8, m1: u8, m2: u8, m3: u8) -> (r: Result<(), ParseError>)
        requires
            old(self).wf(),
        ensures
            final(self).wf(),
            final(self).bytes() == old(self).bytes(),
            match r {
                Ok(()) => old(self).at() + 4 <= old(self).bytes().len()
                    && final(self).at() == old(self).at() + 4
                    && old(self).bytes().subrange(old(self).at(), old(self).at() + 4)
                        == seq![m0, m1, m2, m3],
                Err(e) => *final(self) == *old(self)
                    && ((e == ParseError::Truncated
                            && old(self).bytes().len() < old(self).at() + 4)
                        || (e == ParseError::BadMagic
                            && old(self).at() + 4 <= old(self).bytes().len()
                            && old(self).bytes().subrange(old(self).at(), old(self).at() + 4)
                                != seq![m0, m1, m2, m3])),
            },
    {
        if self.data.len() - self.pos < 4 {
            return Err(ParseError::Truncated);
        }
        let ghost s = self.data@.subrange(self.pos as int, self.pos + 4);
        if self.data[self.pos] == m0 && self.data[self.pos + 1] == m1
            && self.data[self.pos + 2] == m2 && self.data[self.pos + 3] == m3 {
            proof {
                assert(s =~= seq![m0, m1, m2, m3]);
            }
            self.pos = self.pos + 4;
            Ok(())
        } else {
            proof {
                if s == seq![m0, m1, m2, m3] {
                    assert(s[0] == m0 && s[1] == m1 && s[2] == m2 && s[3] == m3);
                }
            }
            Err(ParseError::BadMagic)
        }
    }
}

} // verus!
