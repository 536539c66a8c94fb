use cs_parser::attrs::parse_frame;
use cs_parser::resolve::resolve_attribute;
use cs_parser::{
    parse_class_file, Annotation, AttrInfo, CpEntry, Data, ErrKind, RawAttribute, StackMapFrame,
    VerificationTypeInfo,
};

/// A minimal valid class file: pool entries Class("A"), "A", Class("A"),
/// empty interface, field, method, and attribute lists.
fn minimal_class() -> Vec<u8> {
    vec![
        0xCA, 0xFE, 0xBA, 0xBE, // magic
        0x00, 0x00, 0x00, 0x34, // minor, major
        0x00, 0x04, // constant pool length 4
        0x07, 0x00, 0x02, // 1: Class -> 2
        0x01, 0x00, 0x01, 0x41, // 2: Utf8 "A"
        0x07, 0x00, 0x02, // 3: Class -> 2
        0x00, 0x21, // access flags
        0x00, 0x01, // this_class -> 1
        0x00, 0x03, // super_class -> 3
        0x00, 0x00, // interfaces count
        0x00, 0x00, // fields count
        0x00, 0x00, // methods count
        0x00, 0x00, // attributes count
    ]
}

#[test]
fn magic_only_truncated() {
    // parses through magic and minor/major version, then runs out of input
    let bytes: Vec<u8> = vec![0xCA, 0xFE, 0xBA, 0xBE, 0x00, 0x00, 0x00, 0x37];
    assert_eq!(parse_class_file(&bytes).unwrap_err().kind, ErrKind::Truncated);
}

#[test]
fn bad_magic() {
    let bytes: Vec<u8> = vec![0xDE, 0xAD, 0xBE, 0xEF, 0x00, 0x00, 0x00, 0x34, 0x00, 0x01];
    assert_eq!(parse_class_file(&bytes).unwrap_err().kind, ErrKind::BadMagic);
}

#[test]
fn minimal_class_parses() {
    let bytes = minimal_class();
    let c = parse_class_file(&bytes).unwrap();
    assert_eq!(c.magic, 0xCAFEBABE);
    assert_eq!(c.minor_version, 0);
    assert_eq!(c.major_version, 0x34);
    assert_eq!(c.constant_pool.len(), 3);
    assert_eq!(c.constant_pool[0], CpEntry::Class { name_index: 2 });
    assert_eq!(c.this_class, 1);
    assert_eq!(c.super_class, 3);
    assert!(c.interfaces.is_empty());
    assert!(c.fields.is_empty());
    assert!(c.methods.is_empty());
    assert!(c.attributes.is_empty());
}

#[test]
fn parse_is_idempotent() {
    // parsing the same bytes twice yields structurally equal trees
    let bytes = minimal_class();
    let c1 = parse_class_file(&bytes).unwrap();
    let c2 = parse_class_file(&bytes).unwrap();
    assert_eq!(c1, c2);
}

#[test]
fn trailing_bytes_rejected() {
    let mut bytes = minimal_class();
    bytes.push(0x00);
    assert_eq!(parse_class_file(&bytes).unwrap_err().kind, ErrKind::TrailingBytes);
}

#[test]
fn this_class_kind_mismatch() {
    // this_class pointing at a Utf8 entry (index 2) is rejected
    let mut bytes = minimal_class();
    bytes[23] = 0x02;
    assert_eq!(parse_class_file(&bytes).unwrap_err().kind, ErrKind::PoolKindMismatch);
}

#[test]
fn this_class_out_of_bounds() {
    let mut bytes = minimal_class();
    bytes[23] = 0x09;
    assert_eq!(parse_class_file(&bytes).unwrap_err().kind, ErrKind::PoolOob);
}

fn frame_pool() -> Vec<CpEntry> {
    vec![CpEntry::Class { name_index: 2 }, CpEntry::Utf8 { bytes: vec![0x41] }]
}

fn frame(bytes: &[u8]) -> Result<StackMapFrame, cs_parser::ParseErr> {
    let v = bytes.to_vec();
    let mut data = Data::new(&v);
    parse_frame(&mut data, &frame_pool())
}

#[test]
fn frame_boundaries() {
    assert_eq!(frame(&[0]).unwrap(), StackMapFrame::SameFrame { frame_type: 0 });
    assert_eq!(frame(&[63]).unwrap(), StackMapFrame::SameFrame { frame_type: 63 });
    // frame_type 64 with an Object verification type
    assert_eq!(
        frame(&[64, 0x07, 0x00, 0x01]).unwrap(),
        StackMapFrame::SameLocals1StackItemFrame {
            frame_type: 64,
            stack: VerificationTypeInfo::Object { cpool_index: 1 },
        }
    );
    // the same with tag 3 parses as Double
    assert_eq!(
        frame(&[64, 0x03]).unwrap(),
        StackMapFrame::SameLocals1StackItemFrame {
            frame_type: 64,
            stack: VerificationTypeInfo::Double,
        }
    );
    assert_eq!(
        frame(&[127, 0x01]).unwrap(),
        StackMapFrame::SameLocals1StackItemFrame {
            frame_type: 127,
            stack: VerificationTypeInfo::Integer,
        }
    );
    // the reserved range fails
    assert_eq!(frame(&[128]).unwrap_err().kind, ErrKind::UnknownFrameType);
    assert_eq!(frame(&[200]).unwrap_err().kind, ErrKind::UnknownFrameType);
    assert_eq!(frame(&[246]).unwrap_err().kind, ErrKind::UnknownFrameType);
    assert_eq!(
        frame(&[247, 0x00, 0x05, 0x04]).unwrap(),
        StackMapFrame::SameLocals1StackItemFrameExtended {
            frame_type: 247,
            offset_delta: 5,
            stack: VerificationTypeInfo::Long,
        }
    );
    assert_eq!(
        frame(&[248, 0x00, 0x07]).unwrap(),
        StackMapFrame::ChopFrame { frame_type: 248, offset_delta: 7 }
    );
    assert_eq!(
        frame(&[250, 0x00, 0x07]).unwrap(),
        StackMapFrame::ChopFrame { frame_type: 250, offset_delta: 7 }
    );
    assert_eq!(
        frame(&[251, 0x00, 0x08]).unwrap(),
        StackMapFrame::SameFrameExtended { frame_type: 251, offset_delta: 8 }
    );
    assert_eq!(
        frame(&[252, 0x00, 0x09, 0x05]).unwrap(),
        StackMapFrame::AppendFrame {
            frame_type: 252,
            offset_delta: 9,
            locals: vec![VerificationTypeInfo::Null],
        }
    );
    assert_eq!(
        frame(&[254, 0x00, 0x09, 0x00, 0x01, 0x02]).unwrap(),
        StackMapFrame::AppendFrame {
            frame_type: 254,
            offset_delta: 9,
            locals: vec![
                VerificationTypeInfo::Top,
                VerificationTypeInfo::Integer,
                VerificationTypeInfo::Float,
            ],
        }
    );
    assert_eq!(
        frame(&[255, 0x00, 0x0A, 0x00, 0x01, 0x06, 0x00, 0x01, 0x08, 0x00, 0x10]).unwrap(),
        StackMapFrame::FullFrame {
            frame_type: 255,
            offset_delta: 10,
            locals: vec![VerificationTypeInfo::UninitializedThis],
            stack: vec![VerificationTypeInfo::Uninitialized { offset: 16 }],
        }
    );
}

#[test]
fn verification_tag_out_of_range() {
    assert_eq!(frame(&[64, 0x09]).unwrap_err().kind, ErrKind::UnknownVerificationTag);
}

fn attr_pool() -> Vec<CpEntry> {
    vec![
        CpEntry::Utf8 { bytes: b"SourceFile".to_vec() },  // 1
        CpEntry::Utf8 { bytes: b"A.java".to_vec() },  // 2
        CpEntry::Utf8 { bytes: b"Whatever".to_vec() },  // 3
        CpEntry::Utf8 { bytes: b"RuntimeVisibleAnnotations".to_vec() },  // 4
        CpEntry::Utf8 { bytes: b"LA;".to_vec() },  // 5
        CpEntry::Integer { bytes: 7 },  // 6
        CpEntry::Utf8 { bytes: b"value".to_vec() },  // 7
    ]
}

#[test]
fn source_file_attribute_resolves() {
    let raw = RawAttribute { name_index: 1, length: 2, payload: vec![0x00, 0x02] };
    let a = resolve_attribute(&attr_pool(), &raw).unwrap();
    assert_eq!(a.name_index, 1);
    assert_eq!(a.length, 2);
    assert_eq!(a.info, AttrInfo::SourceFile { sourcefile_index: 2 });
}

#[test]
fn unknown_attribute_rejected() {
    let raw = RawAttribute { name_index: 3, length: 0, payload: vec![] };
    assert_eq!(resolve_attribute(&attr_pool(), &raw).unwrap_err().kind, ErrKind::UnknownAttribute);
}

#[test]
fn attribute_length_mismatch() {
    // a SourceFile payload with one trailing byte beyond the reference
    let raw = RawAttribute { name_index: 1, length: 3, payload: vec![0x00, 0x02, 0x00] };
    assert_eq!(
        resolve_attribute(&attr_pool(), &raw).unwrap_err().kind,
        ErrKind::AttributeLengthMismatch
    );
}

#[test]
fn annotation_parses() {
    // type "LA;", one pair: name "value", tag 'I', constant index 6
    let bytes: Vec<u8> = vec![0x00, 0x05, 0x00, 0x01, 0x00, 0x07, 0x49, 0x00, 0x06];
    let mut data = Data::new(&bytes);
    let a = Annotation::parse(&mut data, &attr_pool()).unwrap();
    assert_eq!(a.type_index, 5);
    assert_eq!(a.element_value_pairs.len(), 1);
    assert_eq!(a.element_value_pairs[0].element_name_index, 7);
    assert_eq!(a.element_value_pairs[0].value.tag, b'I');
}

#[test]
fn annotation_value_tag_rejected() {
    // tag 'X' is not a recognized element value tag
    let bytes: Vec<u8> = vec![0x00, 0x05, 0x00, 0x01, 0x00, 0x07, 0x58, 0x00, 0x06];
    let mut data = Data::new(&bytes);
    assert_eq!(
        Annotation::parse(&mut data, &attr_pool()).unwrap_err().kind,
        ErrKind::UnknownAnnotationValueTag
    );
}

#[test]
fn runtime_annotations_attribute_resolves() {
    let raw = RawAttribute {
        name_index: 4,
        length: 11,
        payload: vec![0x00, 0x01, 0x00, 0x05, 0x00, 0x01, 0x00, 0x07, 0x49, 0x00, 0x06],
    };
    let a = resolve_attribute(&attr_pool(), &raw).unwrap();
    match a.info {
        AttrInfo::RuntimeVisibleAnnotations { annotations } => {
            assert_eq!(annotations.len(), 1);
            assert_eq!(annotations[0].type_index, 5);
        },
        other => panic!("unexpected attribute payload: {:?}", other),
    }
}

#[test]
fn error_messages_are_stable() {
    let e = parse_class_file(&[0xDE, 0xAD, 0xBE, 0xEF, 0, 0, 0, 0, 0, 0]).unwrap_err();
    assert_eq!(e.message(), "magic number is not 0xCAFEBABE");
}

#[test]
fn code_attribute_with_nested_attribute() {
    let pool = vec![
        CpEntry::Utf8 { bytes: b"Code".to_vec() },           // 1
        CpEntry::Utf8 { bytes: b"LineNumberTable".to_vec() }, // 2
    ];
    let payload: Vec<u8> = vec![
        0x00, 0x02, // max_stack
        0x00, 0x01, // max_locals
        0x00, 0x00, 0x00, 0x01, 0xB1, // code length, code
        0x00, 0x00, // exception table count
        0x00, 0x01, // nested attributes count
        0x00, 0x02, 0x00, 0x00, 0x00, 0x06, // nested framing: name, length
        0x00, 0x01, 0x00, 0x05, 0x00, 0x0A, // one line number entry
    ];
    let raw = RawAttribute { name_index: 1, length: payload.len() as u32, payload };
    let a = resolve_attribute(&pool, &raw).unwrap();
    match a.info {
        AttrInfo::Code { max_stack, max_locals, code, exception_table, attributes } => {
            assert_eq!(max_stack, 2);
            assert_eq!(max_locals, 1);
            assert_eq!(code, vec![0xB1]);
            assert!(exception_table.is_empty());
            assert_eq!(attributes.len(), 1);
            match &attributes[0].info {
                AttrInfo::LineNumberTable { line_number_table } => {
                    assert_eq!(line_number_table.len(), 1);
                    assert_eq!(line_number_table[0].start_pc, 5);
                    assert_eq!(line_number_table[0].line_number, 10);
                },
                other => panic!("unexpected nested attribute: {:?}", other),
            }
        },
        other => panic!("unexpected attribute payload: {:?}", other),
    }
}

#[test]
fn nested_annotation_values() {
    // one pair whose value is an array of a constant and a nested annotation
    let bytes: Vec<u8> = vec![
        0x00, 0x05, // type "LA;"
        0x00, 0x01, // one pair
        0x00, 0x07, // name "value"
        0x5B, // tag '['
        0x00, 0x02, // two array elements
        0x49, 0x00, 0x06, // tag 'I', constant index 6
        0x40, 0x00, 0x05, 0x00, 0x00, // tag '@', annotation with no pairs
    ];
    let mut data = Data::new(&bytes);
    let a = Annotation::parse(&mut data, &attr_pool()).unwrap();
    assert_eq!(a.element_value_pairs.len(), 1);
    match &a.element_value_pairs[0].value.value {
        cs_parser::AnnotationValue::ArrayValue { values } => {
            assert_eq!(values.len(), 2);
            assert_eq!(values[0].tag, b'I');
            assert_eq!(values[1].tag, b'@');
        },
        other => panic!("unexpected element value: {:?}", other),
    }
}
