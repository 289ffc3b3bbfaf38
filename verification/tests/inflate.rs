use esm_parser::cursor::{ParserModel, Parsed};
use esm_parser::{
    ESMParser2, Error, FieldHandler, FieldHeader, FieldList, RecordFields, RecordList,
    SkipFields,
};
use std::io::Write;

/// Moves the cursor a fixed number of bytes forward on every field,
/// whatever size the field declares.
struct Advance {
    bytes: u64,
}

impl vstd::view::View for Advance {
    type V = ();

    fn view(&self) {
        unreachable!()
    }
}

impl FieldHandler for Advance {
    fn field_outcome(_h: (), _m: ParserModel, _header: FieldHeader) -> Parsed<()> {
        unreachable!()
    }

    fn handle_field(&mut self, parser: &mut ESMParser2, _header: &FieldHeader) -> Result<(), Error> {
        parser.skip(self.bytes)
    }
}

fn field(tag: &[u8; 4], content: &[u8]) -> Vec<u8> {
    let mut out = tag.to_vec();
    out.extend_from_slice(&(content.len() as u16).to_le_bytes());
    out.extend_from_slice(content);
    out
}

fn deflate(bytes: &[u8]) -> Vec<u8> {
    let mut encoder = flate2::write::ZlibEncoder::new(Vec::new(), flate2::Compression::default());
    encoder.write_all(bytes).unwrap();
    encoder.finish().unwrap()
}

/// The content of a compressed record: the length of the fields, then
/// their zlib stream.
fn compressed(fields: &[u8]) -> Vec<u8> {
    let mut out = (fields.len() as u32).to_le_bytes().to_vec();
    out.extend(deflate(fields));
    out
}

fn record(tag: &[u8; 4], flags: u32, content: &[u8]) -> Vec<u8> {
    let mut out = tag.to_vec();
    out.extend_from_slice(&(content.len() as u32).to_le_bytes());
    out.extend_from_slice(&flags.to_le_bytes());
    out.extend_from_slice(&[0; 12]);
    out.extend_from_slice(content);
    out
}

fn tags(list: &FieldList) -> Vec<[u8; 4]> {
    list.fields.iter().map(|f| f.header.type_id.to_bytes()).collect()
}

fn three_fields() -> Vec<u8> {
    let mut fields = field(b"EDID", b"a name that repeats, a name that repeats\0");
    fields.extend(field(b"OBND", &[0; 12]));
    fields.extend(field(b"MODL", b"meshes\\thing.nif\0"));
    fields
}

#[test]
fn the_fields_of_a_compressed_record_are_found() {
    let content = compressed(&three_fields());
    let size = content.len() as u32;
    let mut data = vec![0xab; 7];
    data.extend(&content);
    data.extend_from_slice(&[0xcd; 9]);
    let mut parser = ESMParser2::cursor(data);
    parser.seek(7);
    let mut list = FieldList { fields: Vec::new() };
    assert_eq!(parser.parse_compressed_fields(&mut list, size), Ok(()));
    assert_eq!(tags(&list), vec![*b"EDID", *b"OBND", *b"MODL"]);
    assert_eq!(list.fields[0].header.size, 41);
    assert_eq!(list.fields[1].header.size, 12);
    assert_eq!(list.fields[2].header.size, 17);
    assert_eq!(parser.position(), 7 + size as u64);
    assert_eq!(parser.depth(), 0);
}

#[test]
fn the_stated_length_is_not_trusted() {
    let fields = three_fields();
    for stated in [0u32, 1, 1_000_000, u32::MAX] {
        let mut content = stated.to_le_bytes().to_vec();
        content.extend(deflate(&fields));
        let size = content.len() as u32;
        let mut parser = ESMParser2::cursor(content);
        let mut list = FieldList { fields: Vec::new() };
        assert_eq!(parser.parse_compressed_fields(&mut list, size), Ok(()));
        assert_eq!(list.fields.len(), 3);
    }
}

#[test]
fn a_corrupt_stream_is_a_decompression_failure() {
    let mut content = compressed(&three_fields());
    let size = content.len() as u32;
    for byte in content[4..].iter_mut() {
        *byte = 0x55;
    }
    let mut parser = ESMParser2::cursor(content);
    let mut list = FieldList { fields: Vec::new() };
    assert_eq!(parser.parse_compressed_fields(&mut list, size), Err(Error::DecompressionFailure));
    assert!(list.fields.is_empty());
    assert_eq!(parser.depth(), 0);
}

#[test]
fn a_stream_that_ends_early_is_a_decompression_failure() {
    let content = compressed(&three_fields());
    for size in [4, 5, content.len() as u32 - 1] {
        let mut parser = ESMParser2::cursor(content.clone());
        assert_eq!(parser.parse_compressed_fields(&mut SkipFields, size), Err(Error::DecompressionFailure));
    }
}

#[test]
fn a_compressed_record_without_room_for_the_length_is_a_decompression_failure() {
    for size in [0, 1, 3] {
        let mut parser = ESMParser2::cursor(compressed(&three_fields()));
        assert_eq!(parser.parse_compressed_fields(&mut SkipFields, size), Err(Error::DecompressionFailure));
        assert_eq!(parser.position(), 0);
    }
}

#[test]
fn a_compressed_record_cut_short_is_truncated() {
    let content = compressed(&three_fields());
    let size = content.len() as u32;
    for keep in [0, 3, 4, content.len() - 1] {
        let mut parser = ESMParser2::cursor(content[..keep].to_vec());
        assert_eq!(parser.parse_compressed_fields(&mut SkipFields, size), Err(Error::Truncated));
    }
}

#[test]
fn an_empty_payload_has_no_fields() {
    let content = compressed(&[]);
    let size = content.len() as u32;
    let mut parser = ESMParser2::cursor(content);
    let mut list = FieldList { fields: Vec::new() };
    assert_eq!(parser.parse_compressed_fields(&mut list, size), Ok(()));
    assert!(list.fields.is_empty());
    assert_eq!(parser.position(), size as u64);
}

#[test]
fn the_payload_is_held_to_the_declared_sizes_too() {
    let content = compressed(&three_fields());
    let size = content.len() as u32;
    let mut parser = ESMParser2::cursor(content);
    assert_eq!(parser.parse_compressed_fields(&mut Advance { bytes: 12 }, size), Err(Error::ParseError));
    assert_eq!(parser.depth(), 0);
    // a payload that ends inside a field header
    let mut cut = three_fields();
    cut.extend_from_slice(b"DATA");
    let content = compressed(&cut);
    let size = content.len() as u32;
    let mut parser = ESMParser2::cursor(content);
    assert_eq!(parser.parse_compressed_fields(&mut SkipFields, size), Err(Error::Truncated));
}

#[test]
fn a_payload_is_parsed_by_a_parser_of_its_own() {
    let mut outer = ESMParser2::cursor(vec![1, 2, 3]);
    outer.seek(2);
    outer.push();
    let mut list = FieldList { fields: Vec::new() };
    assert_eq!(outer.parse_inflated_fields(&mut list, Some(three_fields())), Ok(()));
    assert_eq!(list.fields.len(), 3);
    assert_eq!(outer.position(), 2);
    assert_eq!(outer.depth(), 1);
    assert_eq!(outer.parse_inflated_fields(&mut list, None), Err(Error::DecompressionFailure));
    assert_eq!(list.fields.len(), 3);
    assert_eq!(outer.parse_inflated_fields(&mut list, Some(vec![])), Ok(()));
    assert_eq!(outer.parse_inflated_fields(&mut list, Some(vec![0; 5])), Err(Error::Truncated));
}

#[test]
fn records_hand_their_fields_on_compressed_or_not() {
    let plain = record(b"GLOB", 0, &field(b"EDID", b"plain\0"));
    let packed = record(b"NPC_", 0x0004_0000, &compressed(&three_fields()));
    let mut group = b"GRUP".to_vec();
    group.extend_from_slice(&(24u32 + 5).to_le_bytes());
    group.extend_from_slice(&[0; 16]);
    group.extend_from_slice(&[0xff; 5]);
    let last = record(b"GLOB", 0, &field(b"FNAM", b"s"));
    let data = [plain, packed, group, last].concat();
    let total = data.len() as u64;
    let mut parser = ESMParser2::cursor(data);
    let mut handler = RecordFields { fields: FieldList { fields: Vec::new() } };
    assert_eq!(parser.parse_records(&mut handler, total), Ok(()));
    assert_eq!(tags(&handler.fields), vec![*b"EDID", *b"EDID", *b"OBND", *b"MODL", *b"FNAM"]);
    assert_eq!(parser.position(), total);
    assert_eq!(parser.depth(), 0);
}

#[test]
fn the_depth_is_balanced_when_a_nested_parse_fails() {
    // the second record's fields do not add up to its declared size
    let good = record(b"GLOB", 0, &field(b"EDID", b"fine\0"));
    let mut bad_fields = field(b"EDID", b"fine\0");
    bad_fields.extend_from_slice(&[0; 3]);
    let bad = record(b"GLOB", 0, &bad_fields);
    let data = [good.clone(), bad.clone(), good.clone()].concat();
    let total = data.len() as u64;
    // the stray bytes are taken for a header, whose field ends nowhere
    // that the record allows
    let mut parser = ESMParser2::cursor(data.clone());
    parser.push();
    let mut handler = RecordFields { fields: FieldList { fields: Vec::new() } };
    assert_eq!(parser.parse_records(&mut handler, total), Err(Error::ParseError));
    assert_eq!(parser.depth(), 1);
    // at the end of the buffer they are no header at all
    let data_cut = [good, bad].concat();
    let mut parser = ESMParser2::cursor(data_cut.clone());
    parser.push();
    let mut handler = RecordFields { fields: FieldList { fields: Vec::new() } };
    assert_eq!(parser.parse_records(&mut handler, data_cut.len() as u64), Err(Error::Truncated));
    assert_eq!(parser.depth(), 1);
    // a field handler that misreads, two levels down
    let mut parser = ESMParser2::cursor(data.clone());
    let mut handler = RecordFields { fields: Advance { bytes: 4 } };
    assert_eq!(parser.parse_records(&mut handler, total), Err(Error::ParseError));
    assert_eq!(parser.depth(), 0);
    // a corrupt stream, three levels down
    let packed = record(b"NPC_", 0x0004_0000, &[9, 9, 9, 9, 1, 2, 3, 4, 5]);
    let mut parser = ESMParser2::cursor(packed);
    parser.push();
    parser.push();
    let mut handler = RecordFields { fields: SkipFields };
    assert_eq!(parser.parse_records(&mut handler, 33), Err(Error::DecompressionFailure));
    assert_eq!(parser.depth(), 2);
    // and on success
    let mut parser = ESMParser2::cursor(data[..35].to_vec());
    let mut list = RecordList { headers: Vec::new() };
    assert_eq!(parser.parse_records(&mut list, 35), Ok(()));
    assert_eq!(parser.depth(), 0);
}
