use esm_parser::{
    Dialogs, ESMParser2, Error, Groups, RecordFields, Trace, TraceEntry, TypeId, WorldEntries,
};
use std::io::Write;

fn field(tag: &[u8; 4], content: &[u8]) -> Vec<u8> {
    let mut out = tag.to_vec();
    out.extend_from_slice(&(content.len() as u16).to_le_bytes());
    out.extend_from_slice(content);
    out
}

fn record(tag: &[u8; 4], flags: u32, content: &[u8]) -> Vec<u8> {
    let mut out = tag.to_vec();
    out.extend_from_slice(&(content.len() as u32).to_le_bytes());
    out.extend_from_slice(&flags.to_le_bytes());
    out.extend_from_slice(&[0; 12]);
    out.extend_from_slice(content);
    out
}

fn group(label: &[u8; 4], group_type: u32, content: &[u8]) -> Vec<u8> {
    let mut out = b"GRUP".to_vec();
    out.extend_from_slice(&(content.len() as u32 + 24).to_le_bytes());
    out.extend_from_slice(label);
    out.extend_from_slice(&group_type.to_le_bytes());
    out.extend_from_slice(&[0; 8]);
    out.extend_from_slice(content);
    out
}

fn compressed(fields: &[u8]) -> Vec<u8> {
    let mut encoder = flate2::write::ZlibEncoder::new(Vec::new(), flate2::Compression::best());
    encoder.write_all(fields).unwrap();
    let mut out = (fields.len() as u32).to_le_bytes().to_vec();
    out.extend(encoder.finish().unwrap());
    out
}

fn entry(depth: u64, tag: &[u8; 4], size: u32) -> TraceEntry {
    TraceEntry { depth, type_id: TypeId::from_bytes(*tag), size }
}

#[test]
fn a_handler_sees_the_depth_one_higher() {
    let data = [record(b"GLOB", 0, &[0; 3]), group(b"GLOB", 0, &[0; 5])].concat();
    let total = data.len() as u64;
    let mut parser = ESMParser2::cursor(data);
    let mut trace = Trace { entries: Vec::new() };
    assert_eq!(parser.parse_records(&mut trace, total), Ok(()));
    assert_eq!(trace.entries, vec![entry(1, b"GLOB", 3), entry(1, b"GRUP", 5)]);
    assert_eq!(parser.depth(), 0);

    let data = [field(b"EDID", b"ab"), field(b"DATA", b"")].concat();
    let mut parser = ESMParser2::cursor(data);
    parser.push();
    parser.push();
    let mut trace = Trace { entries: Vec::new() };
    assert_eq!(parser.parse_fields(&mut trace, 14), Ok(()));
    assert_eq!(trace.entries, vec![entry(3, b"EDID", 2), entry(3, b"DATA", 0)]);
    assert_eq!(parser.depth(), 2);
}

#[test]
fn nested_loops_count_their_levels() {
    let plain = record(b"GLOB", 0, &[field(b"EDID", b"x\0"), field(b"FNAM", b"s")].concat());
    let packed = record(b"NPC_", 0x0004_0000, &compressed(&field(b"FULL", b"a name\0")));
    let data = [plain, packed].concat();
    let total = data.len() as u64;
    let mut parser = ESMParser2::cursor(data);
    let mut handler = RecordFields { fields: Trace { entries: Vec::new() } };
    assert_eq!(parser.parse_records(&mut handler, total), Ok(()));
    // the fields of a record lie two loops deep, those of a compressed
    // record three: its payload has a level of its own
    assert_eq!(
        handler.fields.entries,
        vec![entry(2, b"EDID", 2), entry(2, b"FNAM", 1), entry(3, b"FULL", 7)]
    );
    assert_eq!(parser.depth(), 0);
}

#[test]
fn the_depth_is_balanced_after_a_failure_at_every_level() {
    let mut bad = field(b"EDID", b"x\0");
    bad.extend_from_slice(b"DA");
    let data = [record(b"GLOB", 0, &field(b"EDID", b"x\0")), record(b"GLOB", 0, &bad)].concat();
    let total = data.len() as u64;
    let mut parser = ESMParser2::cursor(data);
    parser.push();
    let mut handler = RecordFields { fields: Trace { entries: Vec::new() } };
    assert_eq!(parser.parse_records(&mut handler, total), Err(Error::Truncated));
    // both fields were seen, at depth 3, before the failure
    assert_eq!(handler.fields.entries, vec![entry(3, b"EDID", 2), entry(3, b"EDID", 2)]);
    assert_eq!(parser.depth(), 1);
}

#[test]
fn the_producer_loops_count_a_level_too() {
    // a failure inside a group inside a group: the depth comes back
    let inner = group(b"\x01\0\0\0", 4, &group(b"\x02\0\0\0", 4, &record(b"CELL", 0, &[])));
    let mut parser = ESMParser2::cursor(inner.clone());
    assert_eq!(parser.parse_group().err(), Some(Error::UnexpectedChunkShape));
    assert_eq!(parser.depth(), 0);
    let mut parser = ESMParser2::cursor(inner);
    parser.push();
    assert_eq!(parser.parse_groups_until(1).err(), Some(Error::UnexpectedChunkShape));
    assert_eq!(parser.depth(), 1);
}

#[test]
fn the_loops_of_the_dispatcher_are_producer_loops() {
    let groups = [group(b"\x01\0\0\0", 2, &[0; 3]), group(b"\x02\0\0\0", 3, &[])].concat();
    let limit = groups.len() as u64;
    let by_loop = ESMParser2::cursor(groups.clone()).parse_groups_until(limit).unwrap();
    let by_producer = ESMParser2::cursor(groups).parse_until(limit, &Groups).unwrap();
    assert_eq!(by_loop, by_producer);
    assert_eq!(by_loop.len(), 2);

    let dialogs = [
        record(b"DIAL", 0, &[]),
        group(b"\x01\0\0\0", 7, &[0; 2]),
        record(b"DIAL", 0, &[]),
        record(b"STOP", 0, &[]),
    ]
    .concat();
    let limit = dialogs.len() as u64 - 24;
    let by_loop = ESMParser2::cursor(dialogs.clone()).parse_dialogs_until(limit).unwrap();
    let by_producer = ESMParser2::cursor(dialogs).parse_until(limit, &Dialogs).unwrap();
    assert_eq!(by_loop.len(), 2);
    assert_eq!(by_producer.len(), 2);
    assert_eq!(by_loop[0].children, by_producer[0].children);
    assert!(by_producer[0].children.is_some());
    assert!(by_producer[1].children.is_none());

    let world = [
        record(b"WRLD", 0, &[]),
        group(b"\x01\0\0\0", 1, &[record(b"CELL", 0, &[]), group(b"\0\0\0\0", 99, &[])].concat()),
    ]
    .concat();
    let limit = world.len() as u64;
    let by_loop = ESMParser2::cursor(world.clone()).parse_world_entries_until(limit).unwrap();
    let by_producer = ESMParser2::cursor(world).parse_until(limit, &WorldEntries).unwrap();
    assert_eq!(by_loop.len(), 1);
    assert_eq!(by_producer.len(), 1);
    assert_eq!(by_loop[0].world.header, by_producer[0].world.header);
}
