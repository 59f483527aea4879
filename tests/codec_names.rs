use ktmdl2pmx::codec::{uncompresse, CodecError};
use ktmdl2pmx::names::{parse_b2it, NameTableError};
use ktmdl2pmx::bytes::read_string_to_null;
use ktmdl2pmx::container::{entry_bytes, entry_name, parse_directory, ContainerError, Info};

fn put_u32(v: &mut Vec<u8>, x: u32) {
    v.extend_from_slice(&x.to_le_bytes());
}

#[test]
fn expands_literals_and_overlapping_back_reference() {
    // literal A, B, C; back-reference offset 3, length 6; literal D
    let stream: Vec<u8> = vec![0x17, b'A', b'B', b'C', 0x00, 0x33, b'D'];
    let out = uncompresse(&stream, 10).unwrap();
    assert_eq!(out, b"ABCABCABCD".to_vec());
}

#[test]
fn wrong_announced_length_fails() {
    let stream: Vec<u8> = vec![0x17, b'A', b'B', b'C', 0x00, 0x33, b'D'];
    assert_eq!(uncompresse(&stream, 9), Err(CodecError::LengthMismatch));
    assert_eq!(uncompresse(&stream, 11), Err(CodecError::LengthMismatch));
}

#[test]
fn back_reference_before_start_gives_zero_bytes() {
    // flag 0x0050: offset 5, length 3, with nothing produced yet
    let stream: Vec<u8> = vec![0x00, 0x00, 0x50];
    assert_eq!(uncompresse(&stream, 3).unwrap(), vec![0u8, 0, 0]);
}

#[test]
fn zero_flag_ends_the_stream() {
    let stream: Vec<u8> = vec![0x01, b'X', 0x00, 0x00, 0xAA, 0xBB];
    assert_eq!(uncompresse(&stream, 1).unwrap(), vec![b'X']);
}

#[test]
fn control_word_refills_after_eight_tokens() {
    // eight literals, then a new control byte with one more literal
    let stream: Vec<u8> = vec![0xFF, 1, 2, 3, 4, 5, 6, 7, 8, 0x01, 9];
    assert_eq!(uncompresse(&stream, 9).unwrap(), vec![1u8, 2, 3, 4, 5, 6, 7, 8, 9]);
}

#[test]
fn longest_back_reference_copies_eighteen_bytes() {
    // literal Z, then offset 1 with the largest length field
    let stream: Vec<u8> = vec![0x01, b'Z', 0x00, 0x1F];
    assert_eq!(uncompresse(&stream, 19).unwrap(), vec![b'Z'; 19]);
}

#[test]
fn all_literal_stream_reproduces_input() {
    let data: Vec<u8> = (0u8..20).collect();
    let mut stream = Vec::new();
    for chunk in data.chunks(8) {
        stream.push(0xFF);
        stream.extend_from_slice(chunk);
    }
    assert_eq!(uncompresse(&stream, 20).unwrap(), data);
    assert_eq!(uncompresse(&stream, 19), Err(CodecError::LengthMismatch));
}

#[test]
fn truncated_and_zero_offset_streams_fail() {
    assert_eq!(uncompresse(&vec![0x00, 0x12], 0), Err(CodecError::Truncated));
    assert_eq!(uncompresse(&vec![0x01], 0), Err(CodecError::Truncated));
    assert_eq!(uncompresse(&vec![0x00, 0x00, 0x05], 3), Err(CodecError::ZeroOffset));
    assert_eq!(uncompresse(&vec![], 0).unwrap(), Vec::<u8>::new());
}

fn name_table(names: &[&str], slots: &[u32]) -> Vec<u8> {
    let n = names.len() as u32;
    let mut v = vec![0u8; 0x20];
    v[0x10..0x14].copy_from_slice(&n.to_le_bytes());
    let slot_ptr = 0x20 + 4 * n;
    v[0x18..0x1C].copy_from_slice(&slot_ptr.to_le_bytes());
    let mut at = slot_ptr + 4 * n;
    for name in names {
        put_u32(&mut v, at);
        at += name.len() as u32 + 1;
    }
    for s in slots {
        put_u32(&mut v, *s);
    }
    for name in names {
        v.extend_from_slice(name.as_bytes());
        v.push(0);
    }
    v
}

#[test]
fn names_are_placed_by_permutation() {
    let blob = name_table(&["root", "child", "tip"], &[2, 0, 1]);
    let names = parse_b2it(&blob).unwrap();
    assert_eq!(names, vec!["child".to_string(), "tip".to_string(), "root".to_string()]);
}

#[test]
fn slot_out_of_range_fails() {
    let blob = name_table(&["a", "b"], &[0, 2]);
    assert_eq!(parse_b2it(&blob), Err(NameTableError::SlotOutOfRange));
}

#[test]
fn unterminated_name_and_short_blob_fail() {
    let mut blob = name_table(&["a"], &[0]);
    blob.pop();
    assert_eq!(parse_b2it(&blob), Err(NameTableError::BadText));
    assert_eq!(parse_b2it(&vec![0u8; 0x10]), Err(NameTableError::Truncated));
}

#[test]
fn repeated_slot_is_not_a_permutation() {
    let blob = name_table(&["x", "y"], &[1, 1]);
    assert_eq!(parse_b2it(&blob), Err(NameTableError::DuplicateSlot));
    let blob = name_table(&["x", "y", "z"], &[0, 0, 5]);
    assert_eq!(parse_b2it(&blob), Err(NameTableError::SlotOutOfRange));
    let blob = name_table(&["x", "y"], &[1, 0]);
    assert_eq!(parse_b2it(&blob).unwrap(), vec!["y".to_string(), "x".to_string()]);
}

#[test]
fn zero_terminated_text_is_read() {
    let data: Vec<u8> = vec![b'h', b'i', 0, b'x'];
    let mut pos: usize = 0;
    assert_eq!(read_string_to_null(&data, &mut pos), Some("hi".to_string()));
    assert_eq!(pos, 3);
    let mut pos: usize = 3;
    assert_eq!(read_string_to_null(&data, &mut pos), None);
    let bad: Vec<u8> = vec![0xFF, 0];
    let mut pos: usize = 0;
    assert_eq!(read_string_to_null(&bad, &mut pos), None);
}

#[test]
fn container_entries_are_copied_or_expanded() {
    let mut arc = Vec::new();
    put_u32(&mut arc, 0x4152_4300);
    put_u32(&mut arc, 1);
    put_u32(&mut arc, 2);
    put_u32(&mut arc, 0);
    // entry 0: stored as is; entry 1: compressed
    let name0 = 48u32;
    let name1 = name0 + 7;
    let data0 = name1 + 8;
    let data1 = data0 + 3;
    put_u32(&mut arc, name0);
    put_u32(&mut arc, data0);
    put_u32(&mut arc, 3);
    put_u32(&mut arc, 3);
    put_u32(&mut arc, name1);
    put_u32(&mut arc, data1);
    put_u32(&mut arc, 10);
    put_u32(&mut arc, 7);
    arc.extend_from_slice(b"a.b2it\0");
    assert_eq!(arc.len() as u32, name1);
    arc.extend_from_slice(b"m.model\0");
    arc.extend_from_slice(&[7, 8, 9]);
    arc.extend_from_slice(&[0x17, b'A', b'B', b'C', 0x00, 0x33, b'D']);
    let infos = parse_directory(&arc).unwrap();
    assert_eq!(infos.len(), 2);
    assert_eq!(infos[1], Info { name_offset: name1, offset: data1, size: 10, zsize: 7 });
    assert_eq!(entry_name(&arc, &infos[0]).unwrap(), "a.b2it".to_string());
    assert_eq!(entry_name(&arc, &infos[1]).unwrap(), "m.model".to_string());
    assert_eq!(entry_bytes(&arc, &infos[0]).unwrap(), vec![7u8, 8, 9]);
    assert_eq!(entry_bytes(&arc, &infos[1]).unwrap(), b"ABCABCABCD".to_vec());
    let past = Info { name_offset: 0, offset: arc.len() as u32, size: 1, zsize: 1 };
    assert_eq!(entry_bytes(&arc, &past), Err(ContainerError::Truncated));
    assert_eq!(parse_directory(&arc[..20]), Err(ContainerError::Truncated));
}
