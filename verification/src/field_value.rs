use crate::field_number::FieldNumber;
use crate::wire::wire_value_ref::WireValueRef;
use vstd::prelude::*;

verus! {

/// A field number paired with the wire value found under it.
#[derive(Debug, Clone, Eq, PartialEq, Hash, Ord, PartialOrd)]
pub struct FieldValue<'a> {
    /// The field number carried by the tag.
    pub field_number: FieldNumber,
    /// The wire value that followed.
    pub value: WireValueRef<'a>,
}

} // verus!
