use protobin::FieldNumber;
use protobin::WireI32;
use protobin::WireI64;

#[test]
fn try_from_u32_accepts_the_allowed_range() {
    assert_eq!(1, FieldNumber::try_from_u32(1).unwrap().value());
    assert_eq!(
        0x1FFF_FFFF,
        FieldNumber::try_from_u32(0x1FFF_FFFF).unwrap().value()
    );
    assert!(FieldNumber::try_from_u32(0).is_err());
    assert!(FieldNumber::try_from_u32(0x2000_0000).is_err());
    assert!(FieldNumber::try_from_u32(u32::MAX).is_err());
}

#[test]
fn from_u32_unchecked_keeps_the_value() {
    assert_eq!(7, FieldNumber::from_u32_unchecked(7).value());
}

#[test]
fn get_next_unreserved_skips_the_reserved_range() {
    let f = FieldNumber::try_from_u32(1).unwrap();
    assert_eq!(2, f.get_next_unreserved().value());
    let f = FieldNumber::try_from_u32(18998).unwrap();
    assert_eq!(18999, f.get_next_unreserved().value());
    // The range [19000, 19999] is reserved: stepping into it jumps past.
    let f = FieldNumber::try_from_u32(18999).unwrap();
    assert_eq!(20000, f.get_next_unreserved().value());
    let f = FieldNumber::try_from_u32(19500).unwrap();
    assert_eq!(20000, f.get_next_unreserved().value());
    let f = FieldNumber::try_from_u32(19999).unwrap();
    assert_eq!(20000, f.get_next_unreserved().value());
    let f = FieldNumber::try_from_u32(20000).unwrap();
    assert_eq!(20001, f.get_next_unreserved().value());
}

#[test]
fn fixed_words_reinterpret() {
    assert_eq!(5, WireI32(5).as_fixed32());
    assert_eq!(-1, WireI32(0xFFFF_FFFF).as_sfixed32());
    assert_eq!(i32::MIN, WireI32(0x8000_0000).as_sfixed32());
    assert_eq!(5, WireI64(5).as_fixed64());
    assert_eq!(-1, WireI64(u64::MAX).as_sfixed64());
    assert_eq!(i64::MIN, WireI64(0x8000_0000_0000_0000).as_sfixed64());
}
