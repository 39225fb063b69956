use protobin::DecodeError;
use protobin::MsgDecoder;
use protobin::WireValueIntoError;
use protobin::WireValueRef;
use protobin::WireType;

#[test]
fn decode_simple_message() {
    let data: Vec<u8> = vec![
        0x0A, 0x04, 0x47, 0x72, 0x65, 0x67, // field 1, LEN "Greg"
        0x10, 0xD2, 0x09, // field 2, varint 1234
        0x0D, 0x44, 0x33, 0x22, 0x11, // field 3... field 1 here: fixed32
    ];
    let mut dec = MsgDecoder::new(&data);

    let rec = dec.next().unwrap().unwrap();
    assert_eq!(1, rec.field_number.value());
    match rec.value {
        WireValueRef::Len(span) => {
            assert_eq!(b"Greg".as_slice(), span.as_bytes());
            assert_eq!(Some("Greg"), span.try_as_string());
        }
        _ => panic!("expected a LEN record"),
    }

    let rec = dec.next().unwrap().unwrap();
    assert_eq!(2, rec.field_number.value());
    assert_eq!(Ok(1234), rec.value.try_as_int32());
    assert_eq!(Ok(1234), rec.value.try_as_uint32());

    let rec = dec.next().unwrap().unwrap();
    assert_eq!(1, rec.field_number.value());
    assert_eq!(WireType::I32, rec.value.write_type());
    assert_eq!(Ok(0x11223344), rec.value.as_fixed32());

    assert!(dec.next().is_none());
}

#[test]
fn decode_poisoning() {
    // An overlong varint: the first call reports the error, every later
    // call yields nothing.
    let data = [0xFFu8; 11];
    let mut dec = MsgDecoder::new(&data);
    assert_eq!(
        Some(Err(DecodeError::UnexpectedContinuationBit)),
        dec.next().map(|r| r.map(|_| ()))
    );
    assert!(dec.next().is_none());
    assert!(dec.next().is_none());
}

#[test]
fn unknown_wire_type() {
    // Tag 0x0E: field 1, wire-type code 6.
    let data = [0x0Eu8];
    let mut dec = MsgDecoder::new(&data);
    assert_eq!(
        Some(Err(DecodeError::UnknownWireType(6))),
        dec.next().map(|r| r.map(|_| ()))
    );
    assert!(dec.next().is_none());
}

#[test]
fn truncated_len_payload() {
    // Field 1, LEN of 5, but only two payload bytes follow.
    let data = [0x0Au8, 0x05, 0x01, 0x02];
    let mut dec = MsgDecoder::new(&data);
    assert_eq!(
        Some(Err(DecodeError::Len)),
        dec.next().map(|r| r.map(|_| ()))
    );
    assert!(dec.next().is_none());
}

#[test]
fn groups_decode_as_markers() {
    // Field 1 SGROUP, field 1 EGROUP.
    let data = [0x0Bu8, 0x0C];
    let mut dec = MsgDecoder::new(&data);
    let rec = dec.next().unwrap().unwrap();
    assert_eq!(WireType::SGroup, rec.value.write_type());
    let rec = dec.next().unwrap().unwrap();
    assert_eq!(WireType::EGroup, rec.value.write_type());
    assert!(dec.next().is_none());
}

#[test]
fn decode_fixed64_and_varint64() {
    let data: Vec<u8> = vec![
        0x09, 0x88, 0x77, 0x66, 0x55, 0x44, 0x33, 0x22, 0x11, // field 1 fixed64
        0x10, 0xFF, 0xFF, 0xFF, 0xFF, 0xFF, 0xFF, 0xFF, 0xFF, 0xFF, 0x01, // field 2, varint
    ];
    let mut dec = MsgDecoder::new(&data);
    let rec = dec.next().unwrap().unwrap();
    assert_eq!(Ok(0x1122334455667788), rec.value.as_fixed64());
    let rec = dec.next().unwrap().unwrap();
    assert_eq!(Ok(u64::MAX), rec.value.try_as_uint64());
    assert_eq!(Ok(-1i64), rec.value.try_as_int64());
    assert_eq!(Ok(-1i32), rec.value.try_as_int32());
    assert!(dec.next().is_none());
}

#[test]
fn narrowing_rejects_wrong_wire_type() {
    // Field 1 fixed32.
    let data = [0x0Du8, 0x01, 0x00, 0x00, 0x00];
    let mut dec = MsgDecoder::new(&data);
    let rec = dec.next().unwrap().unwrap();
    assert_eq!(
        Err(WireValueIntoError::UnexpectedType {
            expected: WireType::VarInt,
            actual: WireType::I32,
        }),
        rec.value.try_as_bool()
    );
    assert!(rec.value.try_as_uint64().is_err());
    assert_eq!(
        Err(WireValueIntoError::UnexpectedType {
            expected: WireType::I64,
            actual: WireType::I32,
        }),
        rec.value.as_fixed64()
    );
    assert_eq!(Ok(1), rec.value.as_fixed32());
}

#[test]
fn narrowing_rejects_oversized_varints() {
    // Field 1, a varint too wide for any 32-bit reading.
    let data = [0x08u8, 0x80, 0x80, 0x80, 0x80, 0x10];
    let mut dec = MsgDecoder::new(&data);
    let rec = dec.next().unwrap().unwrap();
    let raw = 1u64 << 32;
    assert_eq!(Ok(raw), rec.value.try_as_uint64());
    assert_eq!(
        Err(WireValueIntoError::VarIntValueTooBigFor32Bit(raw)),
        rec.value.try_as_uint32()
    );
    assert_eq!(
        Err(WireValueIntoError::VarIntValueTooBigFor32Bit(raw)),
        rec.value.try_as_int32()
    );
    assert_eq!(
        Err(WireValueIntoError::VarIntValueTooBigFor32Bit(raw)),
        rec.value.try_as_sint32()
    );
    assert_eq!(
        Err(WireValueIntoError::VarIntValueTooBigFor32Bit(raw)),
        rec.value.try_as_bool()
    );
}

#[test]
fn invalid_utf8_is_rejected() {
    // Field 1, LEN of 2 holding an invalid UTF-8 sequence.
    let data = [0x0Au8, 0x02, 0xC0, 0x20];
    let mut dec = MsgDecoder::new(&data);
    let rec = dec.next().unwrap().unwrap();
    match rec.value {
        WireValueRef::Len(span) => {
            assert_eq!(None, span.try_as_string());
            assert_eq!(&[0xC0, 0x20], span.as_bytes());
        }
        _ => panic!("expected a LEN record"),
    }
}

#[test]
fn nested_message_decodes_with_a_nested_decoder() {
    let data: Vec<u8> = vec![0x0A, 0x02, 0x08, 0x2A];
    let mut dec = MsgDecoder::new(&data);
    let rec = dec.next().unwrap().unwrap();
    match rec.value {
        WireValueRef::Len(span) => {
            let mut inner = MsgDecoder::new(span.as_bytes());
            let inner_rec = inner.next().unwrap().unwrap();
            assert_eq!(1, inner_rec.field_number.value());
            assert_eq!(Ok(42), inner_rec.value.try_as_uint64());
            assert!(inner.next().is_none());
        }
        _ => panic!("expected a LEN record"),
    }
    assert!(dec.next().is_none());
}
