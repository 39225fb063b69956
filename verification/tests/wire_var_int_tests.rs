use protobin::FieldNumber;
use protobin::WireVarInt;

#[test]
fn from_sint32() {
    let tests = [
        (0i32, 0u64),
        (-1, 1),
        (1, 2),
        (-2, 3),
        (0x7fffffff, 0xfffffffe),
        (-0x80000000, 0xffffffff),
    ];
    for test in tests {
        let v = WireVarInt::from_sint32(test.0);
        assert_eq!(test.1, v.raw());
    }
}

#[test]
fn from_sint64() {
    let tests = [
        (0i64, 0u64),
        (-1, 1),
        (1, 2),
        (-2, 3),
        (0x7fff_ffff, 0xffff_fffe),
        (-0x8000_0000, 0xffff_ffff),
        (0x7fff_ffff_ffff_ffff, 0xffff_ffff_ffff_fffe),
        (-0x8000_0000_0000_0000, 0xffff_ffff_ffff_ffff),
    ];
    for test in tests {
        let v = WireVarInt::from_sint64(test.0);
        assert_eq!(test.1, v.raw());
    }
}

#[test]
fn zigzag_small_magnitudes_map_near_zero() {
    let pairs = [(2i32, 4u64), (1, 2), (0, 0), (-1, 1), (-2, 3)];
    for (value, raw) in pairs {
        assert_eq!(raw, WireVarInt::from_sint32(value).raw());
        assert_eq!(raw, WireVarInt::from_sint64(value as i64).raw());
    }
}

#[test]
fn bool_round_trip_and_narrowing() {
    assert_eq!(Some(true), WireVarInt::from_bool(true).try_as_bool());
    assert_eq!(Some(false), WireVarInt::from_bool(false).try_as_bool());
    assert_eq!(Some(false), WireVarInt::from_raw(0).try_as_bool());
    assert_eq!(Some(true), WireVarInt::from_raw(1).try_as_bool());
    assert_eq!(None, WireVarInt::from_raw(2).try_as_bool());
    assert_eq!(None, WireVarInt::from_raw(u64::MAX).try_as_bool());
}

#[test]
fn uint32_round_trip_and_narrowing() {
    for value in [0u32, 1, 127, 128, 300, u32::MAX] {
        let v = WireVarInt::from_uint32(value);
        assert_eq!(Some(value), v.try_as_uint32());
    }
    assert_eq!(None, WireVarInt::from_raw(u32::MAX as u64 + 1).try_as_uint32());
    assert_eq!(None, WireVarInt::from_raw(u64::MAX).try_as_uint32());
    assert_eq!(
        Some(u32::MAX),
        WireVarInt::from_raw(u32::MAX as u64).try_as_uint32()
    );
}

#[test]
fn int32_round_trip() {
    for value in [0i32, 1, -1, 1234, -1234, i32::MAX, i32::MIN] {
        let v = WireVarInt::from_int32(value);
        assert_eq!(Some(value), v.try_as_int32());
    }
    // A negative int32 that arrived sign-extended to 64 bits also narrows.
    assert_eq!(
        Some(-1),
        WireVarInt::from_raw(0xffff_ffff_ffff_ffff).try_as_int32()
    );
    assert_eq!(
        Some(i32::MIN),
        WireVarInt::from_raw(0xffff_ffff_8000_0000).try_as_int32()
    );
    // Raw values that fit neither form are rejected.
    assert_eq!(None, WireVarInt::from_raw(0x1_0000_0000).try_as_int32());
    assert_eq!(None, WireVarInt::from_raw(0xffff_ffff_7fff_ffff).try_as_int32());
}

#[test]
fn sint32_round_trip() {
    for value in [0i32, 1, -1, 2, -2, i32::MAX, i32::MIN] {
        let v = WireVarInt::from_sint32(value);
        assert_eq!(Some(value), v.try_as_sint32());
    }
    assert_eq!(None, WireVarInt::from_raw(u32::MAX as u64 + 1).try_as_sint32());
}

#[test]
fn uint64_int64_sint64_round_trips() {
    for value in [0u64, 1, 127, 128, u64::MAX] {
        assert_eq!(value, WireVarInt::from_uint64(value).as_uint64());
    }
    for value in [0i64, 1, -1, i64::MAX, i64::MIN] {
        assert_eq!(value, WireVarInt::from_int64(value).as_int64());
        assert_eq!(value, WireVarInt::from_sint64(value).as_sint64());
    }
}

#[test]
fn tag_byte_len_break_points() {
    let cases = [
        (1u32, 1i32),
        (15, 1),
        (16, 2),
        (2047, 2),
        (2048, 3),
        (0x3_FFFF, 3),
        (0x4_0000, 4),
        (0x1FF_FFFF, 4),
        (0x200_0000, 5),
        (0x1FFF_FFFF, 5),
    ];
    for (f, expected) in cases {
        let field = FieldNumber::try_from_u32(f).unwrap();
        assert_eq!(expected, WireVarInt::tag_byte_len(field));
    }
}

#[test]
fn byte_len_of_varint_values() {
    assert_eq!(1, WireVarInt::uint32_byte_len(0));
    assert_eq!(1, WireVarInt::uint32_byte_len(127));
    assert_eq!(2, WireVarInt::uint32_byte_len(128));
    assert_eq!(5, WireVarInt::uint32_byte_len(u32::MAX));
    assert_eq!(1, WireVarInt::uint64_byte_len(0));
    assert_eq!(10, WireVarInt::uint64_byte_len(u64::MAX));
    // int32: negatives are sign-extended to 64 bits on the wire.
    assert_eq!(1, WireVarInt::int32_byte_len(1));
    assert_eq!(10, WireVarInt::int32_byte_len(-1));
    assert_eq!(10, WireVarInt::int64_byte_len(-1));
    assert_eq!(1, WireVarInt::sint32_byte_len(-1));
    assert_eq!(1, WireVarInt::sint64_byte_len(-64));
    assert_eq!(2, WireVarInt::sint64_byte_len(-65));
}
