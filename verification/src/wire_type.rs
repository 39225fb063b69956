use vstd::prelude::*;

verus! {

/// The six wire-type codes of the Protocol Buffers binary format.
///
/// `SGroup` and `EGroup` are legacy group delimiters: they are recognized
/// on decode but never emitted.
#[derive(Debug, Clone, Copy, Eq, PartialEq, Hash, Ord, PartialOrd, Structural)]
pub enum WireType {
    VarInt,
    I64,
    Len,
    SGroup,
    EGroup,
    I32,
}

impl WireType {
    /// The three-bit code that stands for this wire type in a tag.
    pub open spec fn code_spec(&self) -> u32 {
        match self {
            WireType::VarInt => 0,
            WireType::I64 => 1,
            WireType::Len => 2,
            WireType::SGroup => 3,
            WireType::EGroup => 4,
            WireType::I32 => 5,
        }
    }

    /// Returns the three-bit tag code of this wire type.
    pub fn code(&self) -> (r: u32)
        ensures
            r == self.code_spec(),
    {
        match self {
            WireType::VarInt => 0,
            WireType::I64 => 1,
            WireType::Len => 2,
            WireType::SGroup => 3,
            WireType::EGroup => 4,
            WireType::I32 => 5,
        }
    }
}

} // verus!
