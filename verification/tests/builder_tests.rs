use protobin::FieldNumber;
use protobin::MsgBuilder;

fn field(n: u32) -> FieldNumber {
    FieldNumber::try_from_u32(n).unwrap()
}

#[test]
fn simple_message() {
    // {1: "Greg", 2: 1234 (int32), 3: "greg@greg.net"}
    let builder = MsgBuilder::new();
    let mut pass1 = builder.start(Some(0));
    pass1.add_string_field(field(1), "Greg");
    pass1.add_int32_field(field(2), 1234);
    pass1.add_string_field(field(3), "greg@greg.net");
    let mut pass2 = pass1.end();
    pass2.add_string_field(field(1), "Greg");
    pass2.add_int32_field(field(2), 1234);
    pass2.add_string_field(field(3), "greg@greg.net");
    let done = pass2.end();
    let expected: Vec<u8> = vec![
        0x0A, 0x04, 0x47, 0x72, 0x65, 0x67, // field 1, LEN 4, "Greg"
        0x10, 0xD2, 0x09, // field 2, varint 1234
        0x1A, 0x0D, 0x67, 0x72, 0x65, 0x67, 0x40, 0x67, 0x72, 0x65, 0x67, 0x2E, 0x6E, 0x65,
        0x74, // field 3, LEN 13, "greg@greg.net"
    ];
    assert_eq!(expected, done.encoder.buf);
}

#[test]
fn negative_int32_message() {
    // Field 1 carrying int32 -1: a ten-byte sign-extended varint.
    let builder = MsgBuilder::new();
    let mut pass1 = builder.start(None);
    pass1.add_int32_field(field(1), -1);
    let mut pass2 = pass1.end();
    pass2.add_int32_field(field(1), -1);
    let done = pass2.end();
    let expected: Vec<u8> = vec![
        0x08, 0xFF, 0xFF, 0xFF, 0xFF, 0xFF, 0xFF, 0xFF, 0xFF, 0xFF, 0x01,
    ];
    assert_eq!(expected, done.encoder.buf);
}

#[test]
fn nested_sub_message() {
    // Field 1 holding a sub-message whose field 1 is uint64 42.
    let builder = MsgBuilder::new();
    let mut pass1 = builder.start(Some(1));
    pass1.start_msg_field(field(1));
    pass1.add_uint64_field(field(1), 42);
    pass1.end_msg_field(field(1));
    let mut pass2 = pass1.end();
    pass2.start_msg_field(field(1));
    pass2.add_uint64_field(field(1), 42);
    let done = pass2.end();
    assert_eq!(vec![0x0A, 0x02, 0x08, 0x2A], done.encoder.buf);
}

#[test]
fn doubly_nested_sub_message() {
    // Field 5 { field 3 { field 2: bool true } field 4: "xy" }
    let builder = MsgBuilder::new();
    let mut pass1 = builder.start(None);
    pass1.start_msg_field(field(5));
    pass1.start_msg_field(field(3));
    pass1.add_bool_field(field(2));
    pass1.end_msg_field(field(3));
    pass1.add_string_field(field(4), "xy");
    pass1.end_msg_field(field(5));
    let mut pass2 = pass1.end();
    pass2.start_msg_field(field(5));
    pass2.start_msg_field(field(3));
    pass2.add_bool_field(field(2), true);
    pass2.add_string_field(field(4), "xy");
    let done = pass2.end();
    let expected: Vec<u8> = vec![
        0x2A, 0x08, // field 5, LEN 8
        0x1A, 0x02, // field 3, LEN 2
        0x10, 0x01, // field 2, bool true
        0x22, 0x02, 0x78, 0x79, // field 4, LEN 2, "xy"
    ];
    assert_eq!(expected, done.encoder.buf);
}

#[test]
fn empty_string_field() {
    let builder = MsgBuilder::new();
    let mut pass1 = builder.start(None);
    pass1.add_string_field(field(1), "");
    let mut pass2 = pass1.end();
    pass2.add_string_field(field(1), "");
    let done = pass2.end();
    assert_eq!(vec![0x0A, 0x00], done.encoder.buf);
}

#[test]
fn fixed32_field() {
    let builder = MsgBuilder::new();
    let mut pass1 = builder.start(None);
    pass1.add_fixed32_field(field(1));
    let mut pass2 = pass1.end();
    pass2.add_fixed32_field(field(1), 0x11223344);
    let done = pass2.end();
    assert_eq!(vec![0x0D, 0x44, 0x33, 0x22, 0x11], done.encoder.buf);
}

#[test]
fn packed_field() {
    // Field 4 packed [3, 270]: tag 0x22, length 3, then 03 8E 02.
    let builder = MsgBuilder::new();
    let pass1 = builder.start(Some(1));
    let mut packed1 = pass1.start_packed_field(field(4));
    packed1.add_uint32(3);
    packed1.add_uint32(270);
    let pass1 = packed1.end_packed_field(field(4));
    let pass2 = pass1.end();
    let mut packed2 = pass2.start_packed_field(field(4));
    packed2.add_uint32(3);
    packed2.add_uint32(270);
    let done = packed2.end_packed_field(field(4)).end();
    assert_eq!(vec![0x22, 0x03, 0x03, 0x8E, 0x02], done.encoder.buf);
}

#[test]
fn scalar_only_sum_matches_output() {
    // With no length-delimited region, the measurement accumulator
    // reports exactly the serialized byte count.
    let builder = MsgBuilder::new();
    let mut pass1 = builder.start(None);
    pass1.add_uint32_field(field(1), 300);
    pass1.add_bool_field(field(2));
    pass1.add_fixed64_field(field(3));
    pass1.add_sint32_field(field(4), -1);
    let measured = pass1.cur_len;
    let mut pass2 = pass1.end();
    pass2.add_uint32_field(field(1), 300);
    pass2.add_bool_field(field(2), false);
    pass2.add_fixed64_field(field(3), 7);
    pass2.add_sint32_field(field(4), -1);
    let done = pass2.end();
    assert_eq!(measured as usize, done.encoder.buf.len());
}

#[test]
fn lens_cursor_reaches_every_recorded_length() {
    let builder = MsgBuilder::new();
    let mut pass1 = builder.start(None);
    pass1.start_msg_field(field(1));
    pass1.add_uint32_field(field(2), 1);
    pass1.end_msg_field(field(1));
    pass1.start_msg_field(field(3));
    pass1.end_msg_field(field(3));
    let mut pass2 = pass1.end();
    pass2.start_msg_field(field(1));
    pass2.add_uint32_field(field(2), 1);
    pass2.start_msg_field(field(3));
    assert_eq!(2, pass2.next_len_index);
    assert_eq!(2, pass2.buf.lens.len());
    let done = pass2.end();
    // field 1 region holds two bytes, field 3 region is empty
    assert_eq!(vec![0x0A, 0x02, 0x10, 0x01, 0x1A, 0x00], done.encoder.buf);
}

#[test]
fn builder_is_reusable() {
    let builder = MsgBuilder::new();
    let mut pass1 = builder.start(None);
    pass1.add_uint32_field(field(1), 5);
    let mut pass2 = pass1.end();
    pass2.add_uint32_field(field(1), 5);
    let done = pass2.end();
    assert_eq!(vec![0x08, 0x05], done.encoder.buf);

    // A second encoding on the same builder starts from clean buffers.
    let mut pass1 = done.start(Some(0));
    pass1.add_string_field(field(1), "");
    let mut pass2 = pass1.end();
    pass2.add_string_field(field(1), "");
    let done = pass2.end();
    assert_eq!(vec![0x0A, 0x00], done.encoder.buf);
}
