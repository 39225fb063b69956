use crate::field_number::FieldNumber;
use crate::wire::wire_value_ref::WireValueModel;
use crate::wire::wire_value_ref::WireValueRef;
use vstd::prelude::*;

verus! {

/// Mathematical shape of a decoded record: a field number and the wire
/// value it carried.
pub struct RecordModel {
    pub field: u32,
    pub value: WireValueModel,
}

/// One decoded tag/value record.
#[derive(Debug, Clone, Eq, PartialEq, Hash, Ord, PartialOrd)]
pub struct MsgRecordRef<'a> {
    /// The field number carried by the record's tag.
    pub field_number: FieldNumber,
    /// The wire value that followed the tag.
    pub value: WireValueRef<'a>,
}

impl<'a> View for MsgRecordRef<'a> {
    type V = RecordModel;

    open spec fn view(&self) -> RecordModel {
        RecordModel { field: self.field_number@, value: self.value@ }
    }
}

} // verus!
