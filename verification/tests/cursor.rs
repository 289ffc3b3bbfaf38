use esm_parser::{ESMParser2, Error, FieldHeader, GroupHeader, RecordHeader, TypeId};

#[test]
fn a_new_cursor_stands_at_the_start() {
    let parser = ESMParser2::cursor(vec![1, 2, 3]);
    assert_eq!(parser.position(), 0);
    assert_eq!(parser.depth(), 0);
    assert_eq!(parser.len(), 3);
    assert!(!parser.localised());
}

#[test]
fn integers_are_little_endian() {
    let mut parser = ESMParser2::cursor(vec![
        0x01, 0x02, 0x03, 0x04, 0x05, 0x06, 0x07, 0x08, 0x09, 0x0a, 0x0b, 0x0c, 0x0d, 0x0e, 0x0f,
    ]);
    assert_eq!(parser.read::<u8>(), Ok(0x01));
    assert_eq!(parser.read::<u16>(), Ok(0x0302));
    assert_eq!(parser.read::<u32>(), Ok(0x0706_0504));
    assert_eq!(parser.read::<u64>(), Ok(0x0f0e_0d0c_0b0a_0908));
    assert_eq!(parser.position(), 15);
}

#[test]
fn the_largest_integers_decode_without_overflow() {
    let mut parser = ESMParser2::cursor(vec![0xff; 15]);
    assert_eq!(parser.read::<u8>(), Ok(u8::MAX));
    assert_eq!(parser.read::<u16>(), Ok(u16::MAX));
    assert_eq!(parser.read::<u32>(), Ok(u32::MAX));
    assert_eq!(parser.read::<u64>(), Ok(u64::MAX));
}

#[test]
fn a_read_past_the_end_is_truncated_and_moves_nothing() {
    let mut parser = ESMParser2::cursor(vec![1, 2, 3]);
    assert_eq!(parser.read::<u32>(), Err(Error::Truncated));
    assert_eq!(parser.position(), 0);
    assert_eq!(parser.read_exact(4), Err(Error::Truncated));
    assert_eq!(parser.position(), 0);
    assert_eq!(parser.read_exact(3), Ok(vec![1, 2, 3]));
    assert_eq!(parser.position(), 3);
    assert_eq!(parser.read::<u8>(), Err(Error::Truncated));
    assert_eq!(parser.read_exact(0), Ok(vec![]));
}

#[test]
fn read_exact_hands_back_the_bytes_at_the_cursor() {
    let mut parser = ESMParser2::cursor(vec![10, 20, 30, 40, 50]);
    parser.seek(1);
    assert_eq!(parser.read_exact(3), Ok(vec![20, 30, 40]));
    assert_eq!(parser.position(), 4);
}

#[test]
fn peek_does_not_move() {
    let parser = ESMParser2::cursor(vec![0x34, 0x12, 0xff]);
    assert_eq!(parser.peek::<u16>(), Ok(0x1234));
    assert_eq!(parser.peek::<u16>(), Ok(0x1234));
    assert_eq!(parser.position(), 0);
    assert_eq!(parser.peek::<u32>(), Err(Error::Truncated));
}

#[test]
fn seek_and_skip_may_pass_the_end() {
    let mut parser = ESMParser2::cursor(vec![1, 2, 3]);
    parser.seek(100);
    assert_eq!(parser.position(), 100);
    assert_eq!(parser.skip(50), Ok(()));
    assert_eq!(parser.position(), 150);
    assert_eq!(parser.read::<u8>(), Err(Error::Truncated));
    assert_eq!(parser.position(), 150);
}

#[test]
fn skip_fails_only_past_the_last_position() {
    let mut parser = ESMParser2::cursor(vec![]);
    parser.seek(u64::MAX - 2);
    assert_eq!(parser.skip(3), Err(Error::Truncated));
    assert_eq!(parser.position(), u64::MAX - 2);
    assert_eq!(parser.skip(2), Ok(()));
    assert_eq!(parser.position(), u64::MAX);
}

#[test]
fn rewind_fails_before_the_start() {
    let mut parser = ESMParser2::cursor(vec![1, 2, 3, 4]);
    parser.seek(3);
    assert_eq!(parser.rewind(4), Err(Error::ParseError));
    assert_eq!(parser.position(), 3);
    assert_eq!(parser.rewind(2), Ok(()));
    assert_eq!(parser.position(), 1);
    assert_eq!(parser.rewind(1), Ok(()));
    assert_eq!(parser.position(), 0);
}

#[test]
fn push_and_pop_count_the_depth() {
    let mut parser = ESMParser2::cursor(vec![]);
    parser.push();
    parser.push();
    assert_eq!(parser.depth(), 2);
    parser.pop();
    assert_eq!(parser.depth(), 1);
    parser.pop();
    assert_eq!(parser.depth(), 0);
}

#[test]
fn a_nested_parser_takes_over_depth_and_flag() {
    let mut outer = ESMParser2::cursor(vec![1, 2, 3]);
    outer.push();
    outer.set_localised(true);
    outer.seek(2);
    let inner = outer.nested(vec![9, 9]);
    assert_eq!(inner.depth(), 1);
    assert!(inner.localised());
    assert_eq!(inner.position(), 0);
    assert_eq!(inner.len(), 2);
}

#[test]
fn strings_are_read_by_their_declared_length() {
    let mut parser = ESMParser2::cursor(b"abc\0rest".to_vec());
    assert_eq!(parser.read_zstring(4), Ok(b"abc\0".to_vec()));
    assert_eq!(parser.position(), 4);
    assert_eq!(parser.read_lstring(4), Ok(b"rest".to_vec()));
    assert_eq!(parser.read_zstring(1), Err(Error::Truncated));
}

#[test]
fn localised_strings_are_refused() {
    let mut parser = ESMParser2::cursor(vec![1, 0, 0, 0]);
    parser.set_localised(true);
    assert_eq!(parser.read_lstring(4), Err(Error::Unimplemented));
    assert_eq!(parser.position(), 0);
    assert_eq!(parser.read_zstring(4), Ok(vec![1, 0, 0, 0]));
}

#[test]
fn a_record_header_is_decoded_field_by_field() {
    let mut bytes = b"NPC_".to_vec();
    bytes.extend_from_slice(&0x0000_1234u32.to_le_bytes());
    bytes.extend_from_slice(&0x0004_0000u32.to_le_bytes());
    bytes.extend_from_slice(&0x0001_0203u32.to_le_bytes());
    bytes.extend_from_slice(&0x0a0b_0c0du32.to_le_bytes());
    bytes.extend_from_slice(&15u16.to_le_bytes());
    bytes.extend_from_slice(&0xbeefu16.to_le_bytes());
    let mut parser = ESMParser2::cursor(bytes);
    let header = parser.read::<RecordHeader>().unwrap();
    assert_eq!(
        header,
        RecordHeader {
            type_id: TypeId::from_bytes(*b"NPC_"),
            size: 0x1234,
            flags: 0x0004_0000,
            id: 0x0001_0203,
            revision: 0x0a0b_0c0d,
            version: 15,
            unknown: 0xbeef,
        }
    );
    assert_eq!(parser.position(), 24);
}

#[test]
fn a_group_header_is_decoded_field_by_field() {
    let mut bytes = b"GRUP".to_vec();
    bytes.extend_from_slice(&100u32.to_le_bytes());
    bytes.extend_from_slice(b"GLOB");
    bytes.extend_from_slice(&0u32.to_le_bytes());
    bytes.extend_from_slice(&0x0102_0304u32.to_le_bytes());
    bytes.extend_from_slice(&7u16.to_le_bytes());
    bytes.extend_from_slice(&9u16.to_le_bytes());
    let parser = ESMParser2::cursor(bytes);
    let header = parser.peek::<GroupHeader>().unwrap();
    assert_eq!(
        header,
        GroupHeader {
            type_id: TypeId::from_bytes(*b"GRUP"),
            size: 100,
            label: TypeId::from_bytes(*b"GLOB").code,
            group_type: 0,
            stamp: 0x0102_0304,
            version: 7,
            unknown: 9,
        }
    );
}

#[test]
fn a_field_header_is_six_bytes() {
    let mut parser = ESMParser2::cursor(vec![b'E', b'D', b'I', b'D', 0x05, 0x01, 0xaa]);
    let header = parser.read::<FieldHeader>().unwrap();
    assert_eq!(header, FieldHeader { type_id: TypeId::from_bytes(*b"EDID"), size: 0x0105 });
    assert_eq!(parser.position(), 6);
    assert_eq!(parser.read::<FieldHeader>(), Err(Error::Truncated));
}
