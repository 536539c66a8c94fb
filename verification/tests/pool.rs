use cs_parser::pool::{check_pool, parse_constant_pool, parse_cp_entry, serialize_cp_entry};
use cs_parser::{CpEntry, Data, ErrKind};

fn entry(bytes: &[u8]) -> Result<CpEntry, cs_parser::ParseErr> {
    let v = bytes.to_vec();
    let mut data = Data::new(&v);
    parse_cp_entry(&mut data)
}

#[test]
fn cp_tag_dispatch() {
    assert_eq!(
        entry(&[0x01, 0x00, 0x02, 0x41, 0x42]).unwrap(),
        CpEntry::Utf8 { bytes: vec![0x41, 0x42] }
    );
    assert_eq!(
        entry(&[0x03, 0x00, 0x00, 0x00, 0x2A]).unwrap(),
        CpEntry::Integer { bytes: 42 }
    );
    assert_eq!(
        entry(&[0x04, 0x3F, 0x80, 0x00, 0x00]).unwrap(),
        CpEntry::Float { bytes: 0x3F800000 }
    );
    assert_eq!(
        entry(&[0x05, 0, 0, 0, 1, 0, 0, 0, 2]).unwrap(),
        CpEntry::Long { high_bytes: 1, low_bytes: 2 }
    );
    assert_eq!(
        entry(&[0x06, 0, 0, 0, 3, 0, 0, 0, 4]).unwrap(),
        CpEntry::Double { high_bytes: 3, low_bytes: 4 }
    );
    assert_eq!(entry(&[0x07, 0x00, 0x02]).unwrap(), CpEntry::Class { name_index: 2 });
    assert_eq!(entry(&[0x08, 0x00, 0x03]).unwrap(), CpEntry::String { string_index: 3 });
    assert_eq!(
        entry(&[0x09, 0x00, 0x01, 0x00, 0x02]).unwrap(),
        CpEntry::Fieldref { class_index: 1, name_and_type_index: 2 }
    );
    assert_eq!(
        entry(&[0x0A, 0x00, 0x01, 0x00, 0x02]).unwrap(),
        CpEntry::Methodref { class_index: 1, name_and_type_index: 2 }
    );
    assert_eq!(
        entry(&[0x0B, 0x00, 0x01, 0x00, 0x02]).unwrap(),
        CpEntry::InterfaceMethodref { class_index: 1, name_and_type_index: 2 }
    );
    assert_eq!(
        entry(&[0x0C, 0x00, 0x01, 0x00, 0x02]).unwrap(),
        CpEntry::NameAndType { name_index: 1, descriptor_index: 2 }
    );
    assert_eq!(
        entry(&[0x0F, 0x06, 0x00, 0x02]).unwrap(),
        CpEntry::MethodHandle { reference_kind: 6, reference_index: 2 }
    );
    assert_eq!(entry(&[0x10, 0x00, 0x05]).unwrap(), CpEntry::MethodType { descriptor_index: 5 });
    assert_eq!(
        entry(&[0x11, 0x00, 0x01, 0x00, 0x02]).unwrap(),
        CpEntry::Dynamic { bootstrap_method_attr_index: 1, name_and_type_index: 2 }
    );
    assert_eq!(
        entry(&[0x12, 0x00, 0x01, 0x00, 0x02]).unwrap(),
        CpEntry::InvokeDynamic { bootstrap_method_attr_index: 1, name_and_type_index: 2 }
    );
    assert_eq!(entry(&[0x13, 0x00, 0x04]).unwrap(), CpEntry::Module { name_index: 4 });
    assert_eq!(entry(&[0x14, 0x00, 0x04]).unwrap(), CpEntry::Package { name_index: 4 });
}

#[test]
fn cp_unknown_tag() {
    assert_eq!(entry(&[0x02]).unwrap_err().kind, ErrKind::UnknownCpTag);
    assert_eq!(entry(&[0x0D]).unwrap_err().kind, ErrKind::UnknownCpTag);
    assert_eq!(entry(&[0x15]).unwrap_err().kind, ErrKind::UnknownCpTag);
}

#[test]
fn cp_bad_utf8() {
    // 0xF5 can never appear in modified UTF-8
    assert_eq!(entry(&[0x01, 0x00, 0x01, 0xF5]).unwrap_err().kind, ErrKind::BadUtf8);
    // NUL must be written as the two-byte code C0 80
    assert_eq!(entry(&[0x01, 0x00, 0x01, 0x00]).unwrap_err().kind, ErrKind::BadUtf8);
    assert_eq!(
        entry(&[0x01, 0x00, 0x02, 0xC0, 0x80]).unwrap(),
        CpEntry::Utf8 { bytes: vec![0xC0, 0x80] }
    );
}

#[test]
fn cp_invalid_method_handle_kind() {
    assert_eq!(entry(&[0x0F, 0x00]).unwrap_err().kind, ErrKind::InvalidMethodHandleKind);
    assert_eq!(entry(&[0x0F, 0x0A]).unwrap_err().kind, ErrKind::InvalidMethodHandleKind);
}

#[test]
fn utf8_round_trip_pool() {
    // a pool of declared length 2: one Utf8 entry "Hello"
    let bytes: Vec<u8> = vec![0x00, 0x02, 0x01, 0x00, 0x05, 0x48, 0x65, 0x6C, 0x6C, 0x6F];
    let mut data = Data::new(&bytes);
    let pool = parse_constant_pool(&mut data).unwrap();
    assert_eq!(pool.len(), 1);
    assert_eq!(pool[0], CpEntry::Utf8 { bytes: b"Hello".to_vec() });
    assert_eq!(data.pos(), bytes.len());
}

#[test]
fn long_takes_two_slots() {
    // declared length 4: a Long (two slots) followed by one Utf8
    let bytes: Vec<u8> = vec![
        0x00, 0x04, 0x05, 0x12, 0x34, 0x56, 0x78, 0x9A, 0xBC, 0xDE, 0xF0, 0x01, 0x00, 0x01, 0x41,
    ];
    let mut data = Data::new(&bytes);
    let pool = parse_constant_pool(&mut data).unwrap();
    assert_eq!(pool.len(), 3);
    assert_eq!(pool[0], CpEntry::Long { high_bytes: 0x12345678, low_bytes: 0x9ABCDEF0 });
    assert_eq!(pool[1], CpEntry::Reserved);
    assert_eq!(pool[2], CpEntry::Utf8 { bytes: vec![0x41] });
}

#[test]
fn method_handle_dispatch() {
    // [0F 06 00 02] with pool index 2 a Methodref: kind 6 expects Methodref
    let pool = vec![
        CpEntry::MethodHandle { reference_kind: 6, reference_index: 2 },
        CpEntry::Methodref { class_index: 3, name_and_type_index: 4 },
        CpEntry::Class { name_index: 5 },
        CpEntry::NameAndType { name_index: 5, descriptor_index: 5 },
        CpEntry::Utf8 { bytes: vec![0x41] },
    ];
    assert!(check_pool(&pool).is_ok());

    // the same bytes with pool index 2 a Fieldref fail the kind check
    let pool = vec![
        CpEntry::MethodHandle { reference_kind: 6, reference_index: 2 },
        CpEntry::Fieldref { class_index: 3, name_and_type_index: 4 },
        CpEntry::Class { name_index: 5 },
        CpEntry::NameAndType { name_index: 5, descriptor_index: 5 },
        CpEntry::Utf8 { bytes: vec![0x41] },
    ];
    assert_eq!(check_pool(&pool).unwrap_err().kind, ErrKind::PoolKindMismatch);
}

#[test]
fn pool_completion_checks_refs() {
    // a Class entry whose name index points past the pool
    let pool = vec![CpEntry::Class { name_index: 9 }];
    assert_eq!(check_pool(&pool).unwrap_err().kind, ErrKind::PoolOob);
    // a Class entry whose name index points at a non-Utf8 entry
    let pool = vec![CpEntry::Class { name_index: 2 }, CpEntry::Integer { bytes: 1 }];
    assert_eq!(check_pool(&pool).unwrap_err().kind, ErrKind::PoolKindMismatch);
    // a reference into the reserved slot after a Long is a kind mismatch
    let pool = vec![
        CpEntry::Long { high_bytes: 0, low_bytes: 0 },
        CpEntry::Reserved,
        CpEntry::Class { name_index: 2 },
    ];
    assert_eq!(check_pool(&pool).unwrap_err().kind, ErrKind::PoolKindMismatch);
}

#[test]
fn cp_entry_round_trip() {
    // decoding an entry and writing it back reproduces the consumed bytes
    let samples: Vec<Vec<u8>> = vec![
        vec![0x01, 0x00, 0x05, 0x48, 0x65, 0x6C, 0x6C, 0x6F],
        vec![0x03, 0x00, 0x00, 0x00, 0x2A],
        vec![0x05, 0x12, 0x34, 0x56, 0x78, 0x9A, 0xBC, 0xDE, 0xF0],
        vec![0x07, 0x00, 0x02],
        vec![0x0C, 0x00, 0x01, 0x00, 0x02],
        vec![0x0F, 0x06, 0x00, 0x02],
    ];
    for bytes in samples {
        let mut data = Data::new(&bytes);
        let e = parse_cp_entry(&mut data).unwrap();
        assert_eq!(serialize_cp_entry(&e), bytes);
    }
}

#[test]
fn pool_round_trip() {
    // the serialized entries of a parsed pool are the bytes after the count
    let bytes: Vec<u8> = vec![
        0x00, 0x04, 0x05, 0x12, 0x34, 0x56, 0x78, 0x9A, 0xBC, 0xDE, 0xF0, 0x01, 0x00, 0x01, 0x41,
    ];
    let mut data = Data::new(&bytes);
    let pool = parse_constant_pool(&mut data).unwrap();
    let mut out: Vec<u8> = vec![];
    for e in &pool {
        out.extend_from_slice(&serialize_cp_entry(e));
    }
    assert_eq!(out, bytes[2..].to_vec());
}
