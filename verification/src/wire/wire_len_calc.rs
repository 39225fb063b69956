use crate::wire::model::varint_len;
use crate::wire::wire_var_int::WireVarInt;
use vstd::prelude::*;

verus! {

/// Running total of the bytes a set of wire values would take to encode.
#[derive(Debug, Clone, Eq, PartialEq, Hash, Ord, PartialOrd)]
pub struct WireLenCalc {
    /// Number of bytes needed to encode the values added so far.
    pub len: usize,
}

impl Default for WireLenCalc {
    /// Returns a calculator at zero.
    fn default() -> (r: WireLenCalc)
        ensures
            r.len == 0,
    {
        WireLenCalc { len: 0 }
    }
}

impl WireLenCalc {
    /// Creates a calculator at zero.
    pub fn new() -> (r: WireLenCalc)
        ensures
            r.len == 0,
    {
        WireLenCalc { len: 0 }
    }

    /// Adds the bytes a `uint32` varint would take.
    pub fn add_var_uint32(&mut self, value: u32)
        requires
            old(self).len + 5 <= usize::MAX,
        ensures
            final(self).len == old(self).len + varint_len(value as nat),
    {
        let n: i32 = WireVarInt::uint32_byte_len(value);
        self.len = self.len + (n as usize);
    }

    /// Adds the bytes a `uint64` varint would take.
    pub fn add_var_uint64(&mut self, value: u64)
        requires
            old(self).len + 10 <= usize::MAX,
        ensures
            final(self).len == old(self).len + varint_len(value as nat),
    {
        let n: i32 = WireVarInt::uint64_byte_len(value);
        self.len = self.len + (n as usize);
    }

    /// Adds the four bytes a `fixed32` takes.
    pub fn add_fixed32(&mut self)
        requires
            old(self).len + 4 <= usize::MAX,
        ensures
            final(self).len == old(self).len + 4,
    {
        self.len = self.len + 4;
    }

    /// Adds the eight bytes a `fixed64` takes.
    pub fn add_fixed64(&mut self)
        requires
            old(self).len + 8 <= usize::MAX,
        ensures
            final(self).len == old(self).len + 8,
    {
        self.len = self.len + 8;
    }

    /// Adds the four bytes a `float` takes.
    pub fn add_float(&mut self)
        requires
            old(self).len + 4 <= usize::MAX,
        ensures
            final(self).len == old(self).len + 4,
    {
        self.len = self.len + 4;
    }

    /// Adds the eight bytes a `double` takes.
    pub fn add_double(&mut self)
        requires
            old(self).len + 8 <= usize::MAX,
        ensures
            final(self).len == old(self).len + 8,
    {
        self.len = self.len + 8;
    }

    /// Adds the bytes of a raw span of the given length.
    pub fn add_bytes(&mut self, len: usize)
        requires
            old(self).len + len <= usize::MAX,
        ensures
            final(self).len == old(self).len + len,
    {
        self.len = self.len + len;
    }
}

} // verus!
