use crate::wire::model::twos_complement_64_inverse;
use crate::wire::wire_i32::WireI32;
use crate::wire::wire_i64::WireI64;
use crate::wire::wire_len_ref::WireLenRef;
use crate::wire::wire_var_int::twos_complement_32_inverse_of;
use crate::wire::wire_var_int::WireVarInt;
use crate::wire_type::WireType;
use vstd::prelude::*;

verus! {

/// Mathematical shape of a wire value: the payload of each wire type as a
/// plain value.
pub enum WireValueModel {
    VarInt(u64),
    I64(u64),
    Len(Seq<u8>),
    SGroup,
    EGroup,
    I32(u32),
}

/// An on-the-wire value, to be further interpreted into a Protobuf type
/// by the caller's schema knowledge.
#[derive(Debug, Copy, Clone, Eq, PartialEq, Hash, Ord, PartialOrd)]
pub enum WireValueRef<'a> {
    /// Variable-sized integer: `int32`, `int64`, `uint32`, `uint64`,
    /// `sint32`, `sint64`, `bool` and `enum`.
    VarInt(WireVarInt),
    /// Fixed 64-bit value: `fixed64`, `sfixed64` and `double`.
    I64(WireI64),
    /// Length-delimited span: `string`, `bytes`, embedded messages and
    /// packed repeated fields.
    Len(WireLenRef<'a>),
    /// Legacy group start; decode-only, no payload.
    SGroup,
    /// Legacy group end; decode-only, no payload.
    EGroup,
    /// Fixed 32-bit value: `fixed32`, `sfixed32` and `float`.
    I32(WireI32),
}

impl<'a> View for WireValueRef<'a> {
    type V = WireValueModel;

    open spec fn view(&self) -> WireValueModel {
        match self {
            WireValueRef::VarInt(v) => WireValueModel::VarInt(v@),
            WireValueRef::I64(v) => WireValueModel::I64(v.0),
            WireValueRef::Len(v) => WireValueModel::Len(v.data@),
            WireValueRef::SGroup => WireValueModel::SGroup,
            WireValueRef::EGroup => WireValueModel::EGroup,
            WireValueRef::I32(v) => WireValueModel::I32(v.0),
        }
    }
}

impl<'a> WireValueRef<'a> {
    /// The wire type that this value arrived under.
    pub open spec fn wire_type_spec(&self) -> WireType {
        match self {
            WireValueRef::VarInt(_) => WireType::VarInt,
            WireValueRef::I64(_) => WireType::I64,
            WireValueRef::Len(_) => WireType::Len,
            WireValueRef::SGroup => WireType::SGroup,
            WireValueRef::EGroup => WireType::EGroup,
            WireValueRef::I32(_) => WireType::I32,
        }
    }

    /// Returns the wire type of this value.
    pub fn write_type(&self) -> (r: WireType)
        ensures
            r == self.wire_type_spec(),
    {
        match self {
            WireValueRef::VarInt(_) => WireType::VarInt,
            WireValueRef::I64(_) => WireType::I64,
            WireValueRef::Len(_) => WireType::Len,
            WireValueRef::SGroup => WireType::SGroup,
            WireValueRef::EGroup => WireType::EGroup,
            WireValueRef::I32(_) => WireType::I32,
        }
    }

    /// Interprets the value as a Protobuf `bool`: it must be a varint
    /// whose raw value is zero or one.
    pub fn try_as_bool(&self) -> (r: Result<bool, WireValueIntoError>)
        ensures
            self@ matches WireValueModel::VarInt(v) ==> (v <= 1 ==> r == Ok::<
                bool,
                WireValueIntoError,
            >(v == 1)) && (v > 1 ==> r == Err::<bool, WireValueIntoError>(
                WireValueIntoError::VarIntValueTooBigFor32Bit(v),
            )),
            !(self@ is VarInt) ==> r == Err::<bool, WireValueIntoError>(
                (WireValueIntoError::UnexpectedType {
                    expected: WireType::VarInt,
                    actual: self.wire_type_spec(),
                }),
            ),
    {
        if let WireValueRef::VarInt(v) = &self {
            match v.try_as_bool() {
                Some(b) => Ok(b),
                None => Err(WireValueIntoError::VarIntValueTooBigFor32Bit(v.raw())),
            }
        } else {
            Err(WireValueIntoError::UnexpectedType {
                expected: WireType::VarInt,
                actual: self.write_type(),
            })
        }
    }

    /// Interprets the value as a Protobuf `uint32`: it must be a varint
    /// whose raw value fits in 32 bits.
    pub fn try_as_uint32(&self) -> (r: Result<u32, WireValueIntoError>)
        ensures
            self@ matches WireValueModel::VarInt(v) ==> (v <= u32::MAX ==> r == Ok::<
                u32,
                WireValueIntoError,
            >(v as u32)) && (v > u32::MAX ==> r == Err::<u32, WireValueIntoError>(
                WireValueIntoError::VarIntValueTooBigFor32Bit(v),
            )),
            !(self@ is VarInt) ==> r == Err::<u32, WireValueIntoError>(
                (WireValueIntoError::UnexpectedType {
                    expected: WireType::VarInt,
                    actual: self.wire_type_spec(),
                }),
            ),
    {
        if let WireValueRef::VarInt(v) = &self {
            match v.try_as_uint32() {
                Some(x) => Ok(x),
                None => Err(WireValueIntoError::VarIntValueTooBigFor32Bit(v.raw())),
            }
        } else {
            Err(WireValueIntoError::UnexpectedType {
                expected: WireType::VarInt,
                actual: self.write_type(),
            })
        }
    }

    /// Interprets the value as a Protobuf `int32` (two's complement): it
    /// must be a varint carrying either a 32-bit raw value or the 64-bit
    /// sign-extension of a negative 32-bit value.
    pub fn try_as_int32(&self) -> (r: Result<i32, WireValueIntoError>)
        ensures
            self@ matches WireValueModel::VarInt(v) ==> ((v <= u32::MAX || v
                >= 0xFFFF_FFFF_8000_0000) ==> r == Ok::<i32, WireValueIntoError>(
                twos_complement_32_inverse_of(v) as i32,
            )) && (!(v <= u32::MAX || v >= 0xFFFF_FFFF_8000_0000) ==> r == Err::<
                i32,
                WireValueIntoError,
            >(WireValueIntoError::VarIntValueTooBigFor32Bit(v))),
            !(self@ is VarInt) ==> r == Err::<i32, WireValueIntoError>(
                (WireValueIntoError::UnexpectedType {
                    expected: WireType::VarInt,
                    actual: self.wire_type_spec(),
                }),
            ),
    {
        if let WireValueRef::VarInt(v) = &self {
            match v.try_as_int32() {
                Some(x) => Ok(x),
                None => Err(WireValueIntoError::VarIntValueTooBigFor32Bit(v.raw())),
            }
        } else {
            Err(WireValueIntoError::UnexpectedType {
                expected: WireType::VarInt,
                actual: self.write_type(),
            })
        }
    }

    /// Interprets the value as a Protobuf `sint32` (ZigZag): it must be a
    /// varint whose raw value fits in 32 bits.
    pub fn try_as_sint32(&self) -> (r: Result<i32, WireValueIntoError>)
        ensures
            self@ matches WireValueModel::VarInt(v) ==> (v <= u32::MAX ==> r == Ok::<
                i32,
                WireValueIntoError,
            >(crate::wire::model::zigzag_inverse(v as nat) as i32)) && (v > u32::MAX ==> r
                == Err::<i32, WireValueIntoError>(
                WireValueIntoError::VarIntValueTooBigFor32Bit(v),
            )),
            !(self@ is VarInt) ==> r == Err::<i32, WireValueIntoError>(
                (WireValueIntoError::UnexpectedType {
                    expected: WireType::VarInt,
                    actual: self.wire_type_spec(),
                }),
            ),
    {
        if let WireValueRef::VarInt(v) = &self {
            match v.try_as_sint32() {
                Some(x) => Ok(x),
                None => Err(WireValueIntoError::VarIntValueTooBigFor32Bit(v.raw())),
            }
        } else {
            Err(WireValueIntoError::UnexpectedType {
                expected: WireType::VarInt,
                actual: self.write_type(),
            })
        }
    }

    /// Interprets the value as a Protobuf `uint64`: any varint.
    pub fn try_as_uint64(&self) -> (r: Result<u64, WireValueIntoError>)
        ensures
            self@ matches WireValueModel::VarInt(v) ==> r == Ok::<u64, WireValueIntoError>(v),
            !(self@ is VarInt) ==> r == Err::<u64, WireValueIntoError>(
                (WireValueIntoError::UnexpectedType {
                    expected: WireType::VarInt,
                    actual: self.wire_type_spec(),
                }),
            ),
    {
        if let WireValueRef::VarInt(v) = &self {
            Ok(v.as_uint64())
        } else {
            Err(WireValueIntoError::UnexpectedType {
                expected: WireType::VarInt,
                actual: self.write_type(),
            })
        }
    }

    /// Interprets the value as a Protobuf `int64` (two's complement): any
    /// varint.
    pub fn try_as_int64(&self) -> (r: Result<i64, WireValueIntoError>)
        ensures
            self@ matches WireValueModel::VarInt(v) ==> r == Ok::<i64, WireValueIntoError>(
                twos_complement_64_inverse(v as nat) as i64,
            ),
            !(self@ is VarInt) ==> r == Err::<i64, WireValueIntoError>(
                (WireValueIntoError::UnexpectedType {
                    expected: WireType::VarInt,
                    actual: self.wire_type_spec(),
                }),
            ),
    {
        if let WireValueRef::VarInt(v) = &self {
            Ok(v.as_int64())
        } else {
            Err(WireValueIntoError::UnexpectedType {
                expected: WireType::VarInt,
                actual: self.write_type(),
            })
        }
    }

    /// Interprets the value as a Protobuf `sint64` (ZigZag): any varint.
    pub fn try_as_sint64(&self) -> (r: Result<i64, WireValueIntoError>)
        ensures
            self@ matches WireValueModel::VarInt(v) ==> r == Ok::<i64, WireValueIntoError>(
                crate::wire::model::zigzag_inverse(v as nat) as i64,
            ),
            !(self@ is VarInt) ==> r == Err::<i64, WireValueIntoError>(
                (WireValueIntoError::UnexpectedType {
                    expected: WireType::VarInt,
                    actual: self.wire_type_spec(),
                }),
            ),
    {
        if let WireValueRef::VarInt(v) = &self {
            Ok(v.as_sint64())
        } else {
            Err(WireValueIntoError::UnexpectedType {
                expected: WireType::VarInt,
                actual: self.write_type(),
            })
        }
    }

    /// Interprets the value as a Protobuf `fixed32`: it must be a fixed
    /// 32-bit value.
    pub fn as_fixed32(&self) -> (r: Result<u32, WireValueIntoError>)
        ensures
            self@ matches WireValueModel::I32(v) ==> r == Ok::<u32, WireValueIntoError>(v),
            !(self@ is I32) ==> r == Err::<u32, WireValueIntoError>(
                (WireValueIntoError::UnexpectedType {
                    expected: WireType::I32,
                    actual: self.wire_type_spec(),
                }),
            ),
    {
        if let WireValueRef::I32(v) = &self {
            Ok(v.as_fixed32())
        } else {
            Err(WireValueIntoError::UnexpectedType {
                expected: WireType::I32,
                actual: self.write_type(),
            })
        }
    }

    /// Interprets the value as a Protobuf `sfixed32`: it must be a fixed
    /// 32-bit value.
    pub fn as_sfixed32(&self) -> (r: Result<i32, WireValueIntoError>)
        ensures
            self@ matches WireValueModel::I32(v) ==> r == Ok::<i32, WireValueIntoError>(
                crate::wire::model::twos_complement_32_inverse(v as nat) as i32,
            ),
            !(self@ is I32) ==> r == Err::<i32, WireValueIntoError>(
                (WireValueIntoError::UnexpectedType {
                    expected: WireType::I32,
                    actual: self.wire_type_spec(),
                }),
            ),
    {
        if let WireValueRef::I32(v) = &self {
            Ok(v.as_sfixed32())
        } else {
            Err(WireValueIntoError::UnexpectedType {
                expected: WireType::I32,
                actual: self.write_type(),
            })
        }
    }

    /// Interprets the value as a Protobuf `fixed64`: it must be a fixed
    /// 64-bit value.
    pub fn as_fixed64(&self) -> (r: Result<u64, WireValueIntoError>)
        ensures
            self@ matches WireValueModel::I64(v) ==> r == Ok::<u64, WireValueIntoError>(v),
            !(self@ is I64) ==> r == Err::<u64, WireValueIntoError>(
                (WireValueIntoError::UnexpectedType {
                    expected: WireType::I64,
                    actual: self.wire_type_spec(),
                }),
            ),
    {
        if let WireValueRef::I64(v) = &self {
            Ok(v.as_fixed64())
        } else {
            Err(WireValueIntoError::UnexpectedType {
                expected: WireType::I64,
                actual: self.write_type(),
            })
        }
    }

    /// Interprets the value as a Protobuf `sfixed64`: it must be a fixed
    /// 64-bit value.
    pub fn as_sfixed64(&self) -> (r: Result<i64, WireValueIntoError>)
        ensures
            self@ matches WireValueModel::I64(v) ==> r == Ok::<i64, WireValueIntoError>(
                twos_complement_64_inverse(v as nat) as i64,
            ),
            !(self@ is I64) ==> r == Err::<i64, WireValueIntoError>(
                (WireValueIntoError::UnexpectedType {
                    expected: WireType::I64,
                    actual: self.wire_type_spec(),
                }),
            ),
    {
        if let WireValueRef::I64(v) = &self {
            Ok(v.as_sfixed64())
        } else {
            Err(WireValueIntoError::UnexpectedType {
                expected: WireType::I64,
                actual: self.write_type(),
            })
        }
    }
}

/// Error raised when a [`WireValueRef`] cannot be read as the requested
/// Protobuf type.
#[derive(Debug, Clone, Eq, PartialEq, Hash, Ord, PartialOrd, Structural)]
pub enum WireValueIntoError {
    /// The value arrived under a different wire type than the schema
    /// expected.
    UnexpectedType { expected: WireType, actual: WireType },
    /// The raw varint value does not fit the requested 32-bit type.
    VarIntValueTooBigFor32Bit(u64),
}

} // verus!
