use crate::decode::decode_error::DecodeError;
use crate::wire::model::cont_prefix_len;
use crate::wire::model::le_value_32;
use crate::wire::model::le_value_64;
use crate::wire::model::lemma_byte_split;
use crate::wire::model::lemma_cont_prefix_char;
use crate::wire::model::lemma_or_accum32;
use crate::wire::model::lemma_or_accum64;
use crate::wire::model::lemma_pow128_values;
use crate::wire::model::lemma_varint_value_bound;
use crate::wire::model::lemma_varint_value_push;
use crate::wire::model::pow128;
use crate::wire::model::trunc32;
use crate::wire::model::trunc64;
use crate::wire::model::varint_value;
use vstd::prelude::*;

verus! {

/// What reading one varint of at most five bytes does to a byte stream:
/// the value read, or the error, and the bytes left over.
pub open spec fn spec_read_varint_u32(s: Seq<u8>) -> (Result<u32, DecodeError>, Seq<u8>) {
    let t = cont_prefix_len(s);
    if t < 5 && t < s.len() {
        (Ok(trunc32(varint_value(s.take(t + 1)))), s.skip(t + 1))
    } else if s.len() >= 5 {
        (Err(DecodeError::UnexpectedContinuationBit), s.skip(5))
    } else {
        (Err(DecodeError::Len), s.skip(s.len() as int))
    }
}

/// What reading one varint of at most ten bytes does to a byte stream.
pub open spec fn spec_read_varint_u64(s: Seq<u8>) -> (Result<u64, DecodeError>, Seq<u8>) {
    let t = cont_prefix_len(s);
    if t < 10 && t < s.len() {
        (Ok(trunc64(varint_value(s.take(t + 1)))), s.skip(t + 1))
    } else if s.len() >= 10 {
        (Err(DecodeError::UnexpectedContinuationBit), s.skip(10))
    } else {
        (Err(DecodeError::Len), s.skip(s.len() as int))
    }
}

/// One merge step of the 32-bit varint reading loop: a shifted `or` of the
/// next payload group extends the accumulated value by one byte.
proof fn lemma_accum_step32(s: Seq<u8>, i: int, r: u32, b: u8, merged: u32, sh: u32)
    requires
        0 <= i <= 4,
        i < s.len(),
        r as nat == varint_value(s.take(i)),
        b == s[i],
        sh == 7 * i,
        merged == r | (((b & 0x7f) as u32) << sh),
    ensures
        merged as nat == varint_value(s.take(i + 1)) % 0x1_0000_0000,
        i <= 3 ==> merged as nat == varint_value(s.take(i + 1)),
{
    lemma_byte_split(b);
    lemma_pow128_values();
    lemma_varint_value_bound(s.take(i));
    assert(s.take(i).len() == i);
    assert(s.take(i).push(b) =~= s.take(i + 1));
    lemma_varint_value_push(s.take(i), b);
    let m = (b & 0x7f) as u32;
    lemma_or_accum32(r, m);
    assert(varint_value(s.take(i + 1)) == varint_value(s.take(i)) + (b % 128) * pow128(i as nat));
    if i == 0 {
        assert(varint_value(s.take(0)) == 0) by {
            assert(s.take(0) =~= Seq::<u8>::empty());
        };
    } else if i == 1 {
    } else if i == 2 {
    } else if i == 3 {
    } else {
    }
}

/// One merge step of the 64-bit varint reading loop.
proof fn lemma_accum_step64(s: Seq<u8>, i: int, r: u64, b: u8, merged: u64, sh: u64)
    requires
        0 <= i <= 9,
        i < s.len(),
        r as nat == varint_value(s.take(i)),
        b == s[i],
        sh == 7 * i,
        merged == r | (((b & 0x7f) as u64) << sh),
    ensures
        merged as nat == varint_value(s.take(i + 1)) % 0x1_0000_0000_0000_0000,
        i <= 8 ==> merged as nat == varint_value(s.take(i + 1)),
{
    lemma_byte_split(b);
    lemma_pow128_values();
    lemma_varint_value_bound(s.take(i));
    assert(s.take(i).len() == i);
    assert(s.take(i).push(b) =~= s.take(i + 1));
    lemma_varint_value_push(s.take(i), b);
    let m = (b & 0x7f) as u64;
    lemma_or_accum64(r, m);
    assert(varint_value(s.take(i + 1)) == varint_value(s.take(i)) + (b % 128) * pow128(i as nat));
    if i == 0 {
        assert(varint_value(s.take(0)) == 0) by {
            assert(s.take(0) =~= Seq::<u8>::empty());
        };
    }
}

/// Zero-copy forward cursor over a byte slice with typed primitive reads.
#[derive(Debug, Clone, Eq, PartialEq, Hash, Ord, PartialOrd)]
pub struct WireDecoder<'a> {
    /// The bytes not yet consumed.
    pub data: &'a [u8],
}

impl<'a> WireDecoder<'a> {
    /// Creates a cursor over the given bytes.
    pub fn new(data: &[u8]) -> (r: WireDecoder<'_>)
        ensures
            r.data@ == data@,
    {
        WireDecoder { data }
    }

    /// Consumes and returns the next byte; fails without advancing when
    /// the input is exhausted.
    pub fn take_byte(&mut self) -> (r: Result<u8, DecodeError>)
        ensures
            old(self).data@.len() == 0 ==> r == Err::<u8, DecodeError>(DecodeError::Len)
                && final(self).data@ == old(self).data@,
            old(self).data@.len() > 0 ==> r == Ok::<u8, DecodeError>(old(self).data@[0])
                && final(self).data@ == old(self).data@.skip(1),
    {
        if self.data.len() == 0 {
            Err(DecodeError::Len)
        } else {
            let d: &'a [u8] = self.data;
            let b = d[0];
            self.data = &d[1..d.len()];
            Ok(b)
        }
    }

    /// Consumes and returns the next four bytes; fails without advancing
    /// when fewer remain.
    pub fn take_4bytes(&mut self) -> (r: Result<[u8; 4], DecodeError>)
        ensures
            old(self).data@.len() < 4 ==> r == Err::<[u8; 4], DecodeError>(DecodeError::Len)
                && final(self).data@ == old(self).data@,
            old(self).data@.len() >= 4 ==> (r matches Ok(a) && a@ == old(self).data@.take(4)
                && final(self).data@ == old(self).data@.skip(4)),
    {
        if self.data.len() < 4 {
            Err(DecodeError::Len)
        } else {
            let d: &'a [u8] = self.data;
            let result: [u8; 4] = [d[0], d[1], d[2], d[3]];
            self.data = &d[4..d.len()];
            proof {
                assert(result@ =~= d@.take(4));
            }
            Ok(result)
        }
    }

    /// Consumes and returns the next eight bytes; fails without advancing
    /// when fewer remain.
    pub fn take_8bytes(&mut self) -> (r: Result<[u8; 8], DecodeError>)
        ensures
            old(self).data@.len() < 8 ==> r == Err::<[u8; 8], DecodeError>(DecodeError::Len)
                && final(self).data@ == old(self).data@,
            old(self).data@.len() >= 8 ==> (r matches Ok(a) && a@ == old(self).data@.take(8)
                && final(self).data@ == old(self).data@.skip(8)),
    {
        if self.data.len() < 8 {
            Err(DecodeError::Len)
        } else {
            let d: &'a [u8] = self.data;
            let result: [u8; 8] = [d[0], d[1], d[2], d[3], d[4], d[5], d[6], d[7]];
            self.data = &d[8..d.len()];
            proof {
                assert(result@ =~= d@.take(8));
            }
            Ok(result)
        }
    }

    /// Consumes and returns the next `n` bytes as a borrowed subslice of
    /// the input; fails without advancing when fewer remain.
    pub fn take_nbyte(&mut self, n: usize) -> (r: Result<&'a [u8], DecodeError>)
        ensures
            old(self).data@.len() < n ==> r == Err::<&'a [u8], DecodeError>(DecodeError::Len)
                && final(self).data@ == old(self).data@,
            old(self).data@.len() >= n ==> (r matches Ok(sub) && sub@ == old(self).data@.take(
                n as int,
            ) && final(self).data@ == old(self).data@.skip(n as int)),
    {
        if self.data.len() < n {
            Err(DecodeError::Len)
        } else {
            let d: &'a [u8] = self.data;
            let sub = &d[0..n];
            self.data = &d[n..d.len()];
            Ok(sub)
        }
    }

    /// Reads a varint of at most five bytes, advancing past what was
    /// consumed.
    pub fn read_var_uint32(&mut self) -> (r: Result<u32, DecodeError>)
        ensures
            r == spec_read_varint_u32(old(self).data@).0,
            final(self).data@ == spec_read_varint_u32(old(self).data@).1,
    {
        let ghost s = self.data@;
        let mut result: u32 = 0;
        let mut i: usize = 0;
        while i < 5
            invariant
                0 <= i <= 5,
                i <= s.len(),
                s == old(self).data@,
                self.data@ == s.skip(i as int),
                forall|j: int| 0 <= j < i ==> s[j] >= 128,
                i <= 4 ==> result as nat == varint_value(s.take(i as int)),
            decreases 5 - i,
        {
            let b = match self.take_byte() {
                Ok(b) => b,
                Err(e) => {
                    proof {
                        lemma_cont_prefix_char(s);
                        assert(s.skip(s.len() as int) =~= s.skip(i as int));
                    }
                    return Err(e);
                },
            };
            let m: u32 = (b & 0x7f) as u32;
            let shift: usize = 7 * i;
            let merged: u32 = result | (m << shift);
            proof {
                assert(s.skip(i as int)[0] == s[i as int]);
                assert(s.skip(i as int).skip(1) =~= s.skip(i + 1));
                lemma_accum_step32(s, i as int, result, b, merged, shift as u32);
            }
            if b & 0x80 == 0 {
                proof {
                    lemma_byte_split(b);
                    lemma_cont_prefix_char(s);
                    assert(cont_prefix_len(s) == i);
                }
                return Ok(merged);
            }
            proof {
                lemma_byte_split(b);
            }
            result = merged;
            i = i + 1;
        }
        proof {
            lemma_cont_prefix_char(s);
            assert(cont_prefix_len(s) >= 5);
        }
        Err(DecodeError::UnexpectedContinuationBit)
    }

    /// Reads a varint of at most ten bytes, advancing past what was
    /// consumed.
    pub fn read_var_uint64(&mut self) -> (r: Result<u64, DecodeError>)
        ensures
            r == spec_read_varint_u64(old(self).data@).0,
            final(self).data@ == spec_read_varint_u64(old(self).data@).1,
    {
        let ghost s = self.data@;
        let mut result: u64 = 0;
        let mut i: usize = 0;
        while i < 10
            invariant
                0 <= i <= 10,
                i <= s.len(),
                s == old(self).data@,
                self.data@ == s.skip(i as int),
                forall|j: int| 0 <= j < i ==> s[j] >= 128,
                i <= 9 ==> result as nat == varint_value(s.take(i as int)),
            decreases 10 - i,
        {
            let b = match self.take_byte() {
                Ok(b) => b,
                Err(e) => {
                    proof {
                        lemma_cont_prefix_char(s);
                        assert(s.skip(s.len() as int) =~= s.skip(i as int));
                    }
                    return Err(e);
                },
            };
            let m: u64 = (b & 0x7f) as u64;
            let shift: usize = 7 * i;
            let merged: u64 = result | (m << shift);
            proof {
                assert(s.skip(i as int)[0] == s[i as int]);
                assert(s.skip(i as int).skip(1) =~= s.skip(i + 1));
                lemma_accum_step64(s, i as int, result, b, merged, shift as u64);
            }
            if b & 0x80 == 0 {
                proof {
                    lemma_byte_split(b);
                    lemma_cont_prefix_char(s);
                    assert(cont_prefix_len(s) == i);
                }
                return Ok(merged);
            }
            proof {
                lemma_byte_split(b);
            }
            result = merged;
            i = i + 1;
        }
        proof {
            lemma_cont_prefix_char(s);
            assert(cont_prefix_len(s) >= 10);
        }
        Err(DecodeError::UnexpectedContinuationBit)
    }

    /// Reads four little-endian bytes as a `u32`, advancing on success.
    pub fn read_fixed32(&mut self) -> (r: Result<u32, DecodeError>)
        ensures
            old(self).data@.len() < 4 ==> r == Err::<u32, DecodeError>(DecodeError::Len)
                && final(self).data@ == old(self).data@,
            old(self).data@.len() >= 4 ==> r == Ok::<u32, DecodeError>(le_value_32(
                old(self).data@.take(4),
            )) && final(self).data@ == old(self).data@.skip(4),
    {
        if self.data.len() < 4 {
            Err(DecodeError::Len)
        } else {
            let d: &'a [u8] = self.data;
            let value: u32 = (d[0] as u32) | ((d[1] as u32) << 8u32) | ((d[2] as u32) << 16u32)
                | ((d[3] as u32) << 24u32);
            self.data = &d[4..d.len()];
            proof {
                assert(le_value_32(d@.take(4)) == value);
            }
            Ok(value)
        }
    }

    /// Reads eight little-endian bytes as a `u64`, advancing on success.
    pub fn read_fixed64(&mut self) -> (r: Result<u64, DecodeError>)
        ensures
            old(self).data@.len() < 8 ==> r == Err::<u64, DecodeError>(DecodeError::Len)
                && final(self).data@ == old(self).data@,
            old(self).data@.len() >= 8 ==> r == Ok::<u64, DecodeError>(le_value_64(
                old(self).data@.take(8),
            )) && final(self).data@ == old(self).data@.skip(8),
    {
        if self.data.len() < 8 {
            Err(DecodeError::Len)
        } else {
            let d: &'a [u8] = self.data;
            let value: u64 = (d[0] as u64) | ((d[1] as u64) << 8u64) | ((d[2] as u64) << 16u64)
                | ((d[3] as u64) << 24u64) | ((d[4] as u64) << 32u64) | ((d[5] as u64) << 40u64)
                | ((d[6] as u64) << 48u64) | ((d[7] as u64) << 56u64);
            self.data = &d[8..d.len()];
            proof {
                assert(le_value_64(d@.take(8)) == value);
            }
            Ok(value)
        }
    }
}

} // verus!
