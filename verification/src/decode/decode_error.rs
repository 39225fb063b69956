use vstd::prelude::*;

verus! {

/// Errors raised while decoding a wire-format byte stream.
#[derive(Debug, Clone, Eq, PartialEq, Structural)]
pub enum DecodeError {
    /// The input ended in the middle of a value.
    Len,
    /// A varint carried a continuation bit past its maximum width.
    UnexpectedContinuationBit,
    /// A tag's low three bits named the unknown wire-type code carried
    /// here.
    UnknownWireType(u32),
}

} // verus!
