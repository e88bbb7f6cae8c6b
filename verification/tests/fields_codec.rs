use pocket_relay_plugin::fields::{
    decode_fields, encode_fields, Field, FieldValue, FIELD_TYPE_BOOL, FIELD_TYPE_UINT,
};
use pocket_relay_plugin::packet::FramingError;

#[test]
fn uint_field_has_exact_bytes() {
    let fields = vec![Field { tag: 0x41424344, value: FieldValue::UInt(0x01020304) }];
    let bytes = encode_fields(&fields);
    assert_eq!(
        bytes,
        vec![0x41, 0x42, 0x43, 0x44, FIELD_TYPE_UINT, 0x01, 0x02, 0x03, 0x04]
    );
}

#[test]
fn all_field_kinds_round_trip() {
    let fields = vec![
        Field { tag: 0x54455354, value: FieldValue::UInt(42) },
        Field { tag: 0x464C4147, value: FieldValue::Boolean(true) },
        Field { tag: 0x464C4742, value: FieldValue::Boolean(false) },
        Field { tag: 0x47525550, value: FieldValue::Group(vec![1, 2, 3]) },
        Field { tag: 0x554E494F, value: FieldValue::Union(7, vec![9, 9]) },
    ];
    let bytes = encode_fields(&fields);
    let decoded = decode_fields(&bytes).expect("well-formed body");
    assert_eq!(decoded.len(), 5);
    assert_eq!(decoded[0].tag, 0x54455354);
    assert!(matches!(decoded[0].value, FieldValue::UInt(42)));
    assert!(matches!(decoded[1].value, FieldValue::Boolean(true)));
    assert!(matches!(decoded[2].value, FieldValue::Boolean(false)));
    match &decoded[3].value {
        FieldValue::Group(p) => assert_eq!(p, &vec![1, 2, 3]),
        _ => panic!("expected a group"),
    }
    match &decoded[4].value {
        FieldValue::Union(k, p) => {
            assert_eq!(*k, 7);
            assert_eq!(p, &vec![9, 9]);
        }
        _ => panic!("expected a union"),
    }
}

#[test]
fn unknown_tag_is_skipped_by_length_and_the_rest_decodes() {
    // A reader knows field types, never tags: a field with a tag it has
    // no use for still parses, and the fields after it are unharmed.
    let fields = vec![
        Field { tag: 0xDEADBEEF, value: FieldValue::Group(vec![0xFF; 64]) },
        Field { tag: 0x504F5254, value: FieldValue::UInt(42128) },
    ];
    let bytes = encode_fields(&fields);
    let decoded = decode_fields(&bytes).expect("unknown tags never fail the body");
    assert_eq!(decoded.len(), 2);
    assert_eq!(decoded[1].tag, 0x504F5254);
    assert!(matches!(decoded[1].value, FieldValue::UInt(42128)));
}

#[test]
fn truncated_field_is_malformed() {
    let fields = vec![Field { tag: 1, value: FieldValue::UInt(5) }];
    let mut bytes = encode_fields(&fields);
    bytes.pop();
    assert!(matches!(decode_fields(&bytes), Err(FramingError::MalformedBody)));
}

#[test]
fn unknown_type_byte_is_malformed() {
    let bytes = vec![0x41, 0x42, 0x43, 0x44, 0x7E, 0x00];
    assert!(matches!(decode_fields(&bytes), Err(FramingError::MalformedBody)));
}

#[test]
fn bool_payload_is_one_byte() {
    let fields = vec![Field { tag: 2, value: FieldValue::Boolean(true) }];
    let bytes = encode_fields(&fields);
    assert_eq!(bytes, vec![0x00, 0x00, 0x00, 0x02, FIELD_TYPE_BOOL, 0x01]);
}

#[test]
fn empty_body_decodes_to_no_fields() {
    let decoded = decode_fields(&Vec::new()).expect("empty body is fine");
    assert!(decoded.is_empty());
}
