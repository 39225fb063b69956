use protobin::DecodeError;
use protobin::WireDecoder;
use protobin::WireEncoder;
use protobin::WireLenCalc;

#[test]
fn var_uint32_round_trip() {
    for value in [0u32, 1, 127, 128, 16383, 16384, 1234, u32::MAX] {
        let mut writer = WireEncoder::new();
        writer.add_var_uint32(value);
        let buf = writer.take_buf();
        let mut reader = WireDecoder::new(&buf);
        assert_eq!(Ok(value), reader.read_var_uint32());
        assert_eq!(0, reader.data.len());
    }
}

#[test]
fn var_uint64_round_trip() {
    for value in [0u64, 1, 127, 128, 1 << 35, u64::MAX] {
        let mut writer = WireEncoder::new();
        writer.add_var_uint64(value);
        let buf = writer.take_buf();
        let mut reader = WireDecoder::new(&buf);
        assert_eq!(Ok(value), reader.read_var_uint64());
        assert_eq!(0, reader.data.len());
    }
}

#[test]
fn fixed_round_trips() {
    let mut writer = WireEncoder::new();
    writer.add_fixed32(0x1122_3344);
    writer.add_fixed64(0x1122_3344_5566_7788);
    writer.add_sfixed32(-2);
    writer.add_sfixed64(-3);
    let buf = writer.take_buf();
    let mut reader = WireDecoder::new(&buf);
    assert_eq!(Ok(0x1122_3344), reader.read_fixed32());
    assert_eq!(Ok(0x1122_3344_5566_7788), reader.read_fixed64());
    assert_eq!(Ok(0xffff_fffe), reader.read_fixed32());
    assert_eq!(Ok(0xffff_ffff_ffff_fffd), reader.read_fixed64());
}

#[test]
fn fixed32_little_endian_bytes() {
    let mut writer = WireEncoder::new();
    writer.add_fixed32(0x1122_3344);
    assert_eq!(vec![0x44, 0x33, 0x22, 0x11], writer.take_buf());
}

#[test]
fn canonical_varint_widths() {
    // The emitted byte count equals the measured byte count.
    for value in [0u32, 1, 127, 128, 16383, 16384, u32::MAX] {
        let mut writer = WireEncoder::new();
        writer.add_var_uint32(value);
        let mut calc = WireLenCalc::new();
        calc.add_var_uint32(value);
        assert_eq!(calc.len, writer.take_buf().len());
    }
    for value in [0u64, 127, 128, 1 << 42, u64::MAX] {
        let mut writer = WireEncoder::new();
        writer.add_var_uint64(value);
        let mut calc = WireLenCalc::new();
        calc.add_var_uint64(value);
        assert_eq!(calc.len, writer.take_buf().len());
    }
}

#[test]
fn negative_int32_takes_ten_bytes() {
    let mut writer = WireEncoder::new();
    writer.add_var_int32(-1);
    assert_eq!(
        vec![0xff, 0xff, 0xff, 0xff, 0xff, 0xff, 0xff, 0xff, 0xff, 0x01],
        writer.take_buf()
    );
}

#[test]
fn zigzag_bytes_stay_small() {
    let mut writer = WireEncoder::new();
    writer.add_var_sint32(-1);
    assert_eq!(vec![0x01], writer.take_buf());
    let mut writer = WireEncoder::new();
    writer.add_var_sint64(-2);
    assert_eq!(vec![0x03], writer.take_buf());
}

#[test]
fn short_input_fails_with_len() {
    let mut reader = WireDecoder::new(&[0x80, 0x80]);
    assert_eq!(Err(DecodeError::Len), reader.read_var_uint32());
    let mut reader = WireDecoder::new(&[0x01, 0x02, 0x03]);
    assert_eq!(Err(DecodeError::Len), reader.read_fixed32());
    let mut reader = WireDecoder::new(&[0x01]);
    assert_eq!(Err(DecodeError::Len), reader.read_fixed64());
    let mut reader = WireDecoder::new(&[0x01, 0x02]);
    assert_eq!(Err(DecodeError::Len), reader.take_nbyte(3));
}

#[test]
fn overlong_varint_fails_with_continuation_bit() {
    let five = [0xffu8; 5];
    let mut reader = WireDecoder::new(&five);
    assert_eq!(
        Err(DecodeError::UnexpectedContinuationBit),
        reader.read_var_uint32()
    );
    let ten = [0xffu8; 10];
    let mut reader = WireDecoder::new(&ten);
    assert_eq!(
        Err(DecodeError::UnexpectedContinuationBit),
        reader.read_var_uint64()
    );
}

#[test]
fn take_nbyte_borrows_exactly() {
    let data = [1u8, 2, 3, 4, 5];
    let mut reader = WireDecoder::new(&data);
    assert_eq!(Ok(&data[0..2]), reader.take_nbyte(2));
    assert_eq!(Ok(&data[2..5]), reader.take_nbyte(3));
    assert_eq!(Err(DecodeError::Len), reader.take_byte());
}

#[test]
fn take_fixed_width_chunks() {
    let data = [1u8, 2, 3, 4, 5, 6, 7, 8, 9, 10, 11, 12, 13];
    let mut reader = WireDecoder::new(&data);
    assert_eq!(Ok([1, 2, 3, 4]), reader.take_4bytes());
    assert_eq!(Ok([5, 6, 7, 8, 9, 10, 11, 12]), reader.take_8bytes());
    assert_eq!(Err(DecodeError::Len), reader.take_4bytes());
    assert_eq!(Err(DecodeError::Len), reader.take_8bytes());
    assert_eq!(Ok(13), reader.take_byte());
}

#[test]
fn len_calc_counts_fixed_widths_and_spans() {
    let mut calc = WireLenCalc::new();
    calc.add_fixed32();
    calc.add_fixed64();
    calc.add_float();
    calc.add_double();
    calc.add_bytes(11);
    assert_eq!(4 + 8 + 4 + 8 + 11, calc.len);
}

#[test]
fn with_buf_appends() {
    let mut writer = WireEncoder::with_buf(vec![0xAA]);
    writer.add_bool(true);
    writer.add_bool(false);
    assert_eq!(vec![0xAA, 0x01, 0x00], writer.take_buf());
}
