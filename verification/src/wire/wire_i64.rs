use crate::wire::model::lemma_u64_to_i64;
use crate::wire::model::twos_complement_64_inverse;
use vstd::prelude::*;

verus! {

/// Fixed 64-bit wire value, used to carry the Protobuf types `fixed64`,
/// `sfixed64` and `double`; the caller's interpretation distinguishes
/// them.
#[derive(Debug, Copy, Clone, Eq, PartialEq, Hash, Ord, PartialOrd, Structural)]
pub struct WireI64(pub u64);

impl WireI64 {
    /// Interprets the word as a Protobuf `fixed64`.
    pub fn as_fixed64(&self) -> (r: u64)
        ensures
            r == self.0,
    {
        self.0
    }

    /// Interprets the word as a Protobuf `sfixed64`: the signed reading
    /// of the raw bits.
    pub fn as_sfixed64(&self) -> (r: i64)
        ensures
            r == twos_complement_64_inverse(self.0 as nat),
    {
        proof {
            lemma_u64_to_i64(self.0);
        }
        self.0 as i64
    }
}

} // verus!
