use crate::wire::model::lemma_u32_to_i32;
use crate::wire::model::twos_complement_32_inverse;
use vstd::prelude::*;

verus! {

/// Fixed 32-bit wire value, used to carry the Protobuf types `fixed32`,
/// `sfixed32` and `float`; the caller's interpretation distinguishes them.
#[derive(Debug, Copy, Clone, Eq, PartialEq, Hash, Ord, PartialOrd, Structural)]
pub struct WireI32(pub u32);

impl WireI32 {
    /// Interprets the word as a Protobuf `fixed32`.
    pub fn as_fixed32(&self) -> (r: u32)
        ensures
            r == self.0,
    {
        self.0
    }

    /// Interprets the word as a Protobuf `sfixed32`: the signed reading
    /// of the raw bits.
    pub fn as_sfixed32(&self) -> (r: i32)
        ensures
            r == twos_complement_32_inverse(self.0 as nat),
    {
        proof {
            lemma_u32_to_i32(self.0);
        }
        self.0 as i32
    }
}

} // verus!
