use vstd::prelude::*;

verus! {

/// A validated Protocol Buffers field number.
///
/// Valid field numbers lie in `[1, 0x1FFF_FFFF]`.  The range
/// `[19000, 19999]` is reserved by the format; it is not rejected, but
/// [`FieldNumber::get_next_unreserved`] skips it when enumerating.
#[derive(Debug, Copy, Clone, Eq, PartialEq, Hash, Ord, PartialOrd, Structural)]
pub struct FieldNumber(pub u32);

impl View for FieldNumber {
    type V = u32;

    open spec fn view(&self) -> u32 {
        self.0
    }
}

impl FieldNumber {
    /// Maximum allowed field number, as a 32-bit value.
    pub const MAX_ALLOWED_U32: u32 = 0x1FFF_FFFF;

    /// Whether this value is a field number the format allows.
    pub open spec fn valid(&self) -> bool {
        1 <= self@ <= 0x1FFF_FFFF
    }

    /// Converts a `u32` to a [`FieldNumber`] when it lies in
    /// `[1, 0x1FFF_FFFF]`; any other value is rejected.
    pub fn try_from_u32(value: u32) -> (r: Result<FieldNumber, FieldNumberIntoError>)
        ensures
            (1 <= value <= 0x1FFF_FFFF) <==> r is Ok,
            r matches Ok(f) ==> f@ == value && f.valid(),
            r matches Err(e) ==> e.invalid_value == value,
    {
        if value < 1 || value > 0x1FFF_FFFF {
            Err(FieldNumberIntoError { invalid_value: value })
        } else {
            Ok(FieldNumber(value))
        }
    }

    /// Converts a `u32` to a [`FieldNumber`] without a run-time check; the
    /// caller must have validated the value.
    pub fn from_u32_unchecked(value: u32) -> (r: FieldNumber)
        requires
            1 <= value <= 0x1FFF_FFFF,
        ensures
            r@ == value,
            r.valid(),
    {
        FieldNumber(value)
    }

    /// Returns the field number as a `u32`.
    pub fn value(&self) -> (r: u32)
        ensures
            r == self@,
    {
        self.0
    }

    /// Returns the next field number, skipping the range
    /// `[19000, 19999]` that the format reserves.
    pub fn get_next_unreserved(&self) -> (r: FieldNumber)
        requires
            self@ < 0x1FFF_FFFF,
        ensures
            r@ == if 18999 <= self@ < 19999 {
                20000u32
            } else {
                (self@ + 1) as u32
            },
            self.valid() ==> r.valid(),
    {
        if 19000 <= self.0 + 1 && self.0 < 19999 {
            FieldNumber(20000)
        } else {
            FieldNumber(self.0 + 1)
        }
    }
}

/// Error returned when a value outside `[1, 0x1FFF_FFFF]` is offered as a
/// field number.
#[derive(Debug, Clone, Eq, PartialEq, Hash, Ord, PartialOrd)]
pub struct FieldNumberIntoError {
    /// The rejected value.
    pub invalid_value: u32,
}

} // verus!
