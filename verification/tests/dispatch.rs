use ebml_schema::compile::{compile_schema, TagDeclaration};
use ebml_schema::kind::TagDataType;
use ebml_schema::schema::Schema;
use ebml_schema::value::{Master, TagValue};

fn tag_decl(name: &str, id: &str, data_type: &str) -> TagDeclaration {
    TagDeclaration {
        name: name.to_string(),
        id: id.to_string(),
        data_type: Some(data_type.to_string()),
    }
}

fn webm_like_schema() -> Schema {
    let decls: Vec<TagDeclaration> = vec![
        tag_decl("Segment", "0x18538067", "Master"),
        tag_decl("Duration", "0x4489", "Float"),
        tag_decl("TrackNumber", "0xD7", "UnsignedInt"),
        tag_decl("ReferenceBlock", "0xFB", "Integer"),
        tag_decl("CodecID", "0x86", "Utf8"),
        tag_decl("SimpleBlock", "0xA3", "Binary"),
    ];
    compile_schema(&decls).expect("schema must compile")
}

#[test]
fn scenario_lookup_and_dispatch() {
    let decls: Vec<TagDeclaration> = vec![
        tag_decl("Segment", "0x18538067", "Master"),
        tag_decl("Duration", "0x4489", "Float"),
    ];
    let schema = compile_schema(&decls).expect("schema must compile");
    assert_eq!(schema.get_tag_data_type(0x18538067), TagDataType::Master);
    assert_eq!(schema.get_tag_data_type(0x4489), TagDataType::Float);
    assert_eq!(schema.get_tag_data_type(0x9999), TagDataType::Binary);

    let v = schema
        .get_float_tag(0x4489, (12.5f64).to_bits())
        .expect("declared Float id must construct");
    assert_eq!(f64::from_bits(*v.as_float().unwrap()), 12.5);

    assert!(schema.get_unsigned_int_tag(0x4489, 7).is_none());

    let raw = schema.get_raw_tag(0x9999, &[0x01, 0x02]);
    assert_eq!(raw.get_id(), 0x9999);
    assert_eq!(raw.as_binary().unwrap(), &[0x01, 0x02]);
}

#[test]
fn round_trip_unsigned_int() {
    let schema = webm_like_schema();
    let v = schema.get_unsigned_int_tag(0xD7, 3).unwrap();
    assert_eq!(v.get_id(), 0xD7);
    assert_eq!(v.as_unsigned_int(), Some(&3));
    assert!(v.as_signed_int().is_none());
    assert!(v.as_utf8().is_none());
    assert!(v.as_binary().is_none());
    assert!(v.as_float().is_none());
    assert!(v.as_master().is_none());
}

#[test]
fn round_trip_signed_int() {
    let schema = webm_like_schema();
    let v = schema.get_signed_int_tag(0xFB, -42).unwrap();
    assert_eq!(v.get_id(), 0xFB);
    assert_eq!(v.as_signed_int(), Some(&-42));
    assert!(v.as_unsigned_int().is_none());
}

#[test]
fn round_trip_utf8() {
    let schema = webm_like_schema();
    let v = schema.get_utf8_tag(0x86, "V_VP9".to_string()).unwrap();
    assert_eq!(v.get_id(), 0x86);
    assert_eq!(v.as_utf8(), Some("V_VP9"));
    assert!(v.as_binary().is_none());
}

#[test]
fn round_trip_binary() {
    let schema = webm_like_schema();
    let v = schema.get_binary_tag(0xA3, &[9, 8, 7]).unwrap();
    assert_eq!(v.get_id(), 0xA3);
    assert_eq!(v.as_binary().unwrap(), &[9, 8, 7]);
    assert!(v.as_utf8().is_none());
    assert!(v.as_unsigned_int().is_none());
}

#[test]
fn round_trip_master_all_states() {
    let schema = webm_like_schema();

    let start = schema.get_master_tag(0x18538067, Master::Start).unwrap();
    assert_eq!(start.get_id(), 0x18538067);
    assert_eq!(start.as_master(), Some(&Master::Start));

    let end = schema.get_master_tag(0x18538067, Master::End).unwrap();
    assert_eq!(end.as_master(), Some(&Master::End));

    let child_a = schema.get_unsigned_int_tag(0xD7, 1).unwrap();
    let child_b = schema.get_utf8_tag(0x86, "A_OPUS".to_string()).unwrap();
    let full = schema
        .get_master_tag(0x18538067, Master::Full(vec![child_a, child_b]))
        .unwrap();
    assert_eq!(full.get_id(), 0x18538067);
    match full.as_master().unwrap() {
        Master::Full(children) => {
            assert_eq!(children.len(), 2);
            assert_eq!(children[0].get_id(), 0xD7);
            assert_eq!(children[0].as_unsigned_int(), Some(&1));
            assert_eq!(children[1].get_id(), 0x86);
            assert_eq!(children[1].as_utf8(), Some("A_OPUS"));
        }
        other => panic!("expected Full, got {:?}", other),
    }
}

#[test]
fn kind_mismatch_constructors_return_none() {
    let schema = webm_like_schema();
    assert!(schema.get_signed_int_tag(0xD7, 3).is_none());
    assert!(schema.get_utf8_tag(0xD7, "x".to_string()).is_none());
    assert!(schema.get_binary_tag(0xD7, &[1]).is_none());
    assert!(schema.get_float_tag(0xD7, 0).is_none());
    assert!(schema.get_master_tag(0xD7, Master::Start).is_none());
    assert!(schema.get_unsigned_int_tag(0x4489, 1).is_none());
}

#[test]
fn unknown_id_degrades_to_binary_and_raw() {
    let schema = webm_like_schema();
    let id: u64 = 0xDEADBEEF;
    assert_eq!(schema.get_tag_data_type(id), TagDataType::Binary);
    assert!(schema.get_unsigned_int_tag(id, 1).is_none());
    assert!(schema.get_signed_int_tag(id, 1).is_none());
    assert!(schema.get_utf8_tag(id, "x".to_string()).is_none());
    assert!(schema.get_binary_tag(id, &[1]).is_none());
    assert!(schema.get_float_tag(id, 1).is_none());
    assert!(schema.get_master_tag(id, Master::Start).is_none());
    let raw = schema.get_raw_tag(id, &[0xFF]);
    assert_eq!(raw.get_id(), id);
    assert_eq!(raw.as_binary().unwrap(), &[0xFF]);
}

#[test]
fn raw_tag_accessors() {
    let schema = webm_like_schema();
    let raw = schema.get_raw_tag(0x1234, &[0xAB, 0xCD]);
    assert!(matches!(raw, TagValue::RawTag(0x1234, _)));
    assert_eq!(raw.get_id(), 0x1234);
    assert_eq!(raw.as_binary().unwrap(), &[0xAB, 0xCD]);
    assert!(raw.as_unsigned_int().is_none());
    assert!(raw.as_signed_int().is_none());
    assert!(raw.as_utf8().is_none());
    assert!(raw.as_float().is_none());
    assert!(raw.as_master().is_none());
}

#[test]
fn raw_constructor_works_even_for_declared_ids() {
    let schema = webm_like_schema();
    let raw = schema.get_raw_tag(0xD7, &[1, 2, 3]);
    assert_eq!(raw.get_id(), 0xD7);
    assert_eq!(raw.as_binary().unwrap(), &[1, 2, 3]);
    assert!(raw.as_unsigned_int().is_none());
}

#[test]
fn definitions_preserve_declaration_order() {
    let schema = webm_like_schema();
    let defs = schema.definitions();
    assert_eq!(defs.len(), 6);
    assert_eq!(defs[0].name, "Segment");
    assert_eq!(defs[0].id, 0x18538067);
    assert_eq!(defs[0].data_kind, TagDataType::Master);
    assert_eq!(defs[5].name, "SimpleBlock");
    assert_eq!(defs[5].id, 0xA3);
    assert_eq!(defs[5].data_kind, TagDataType::Binary);
}

#[test]
fn empty_schema_has_only_the_fallback() {
    let decls: Vec<TagDeclaration> = Vec::new();
    let schema = compile_schema(&decls).expect("empty schema must compile");
    assert_eq!(schema.definitions().len(), 0);
    assert_eq!(schema.get_tag_data_type(1), TagDataType::Binary);
    assert!(schema.get_unsigned_int_tag(1, 1).is_none());
    let raw = schema.get_raw_tag(1, &[]);
    assert_eq!(raw.get_id(), 1);
    assert_eq!(raw.as_binary().unwrap(), &[] as &[u8]);
}
