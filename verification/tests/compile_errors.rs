use ebml_schema::compile::{compile_schema, AttributeKind, CompileError, TagDeclaration};
use ebml_schema::kind::TagDataType;

fn raw_decl(name: &str, id: &str, data_type: Option<&str>) -> TagDeclaration {
    TagDeclaration {
        name: name.to_string(),
        id: id.to_string(),
        data_type: data_type.map(|t| t.to_string()),
    }
}

#[test]
fn duplicate_id_names_both_sites() {
    let decls: Vec<TagDeclaration> = vec![
        raw_decl("A", "100", Some("UnsignedInt")),
        raw_decl("B", "0x64", Some("Utf8")),
    ];
    let err = compile_schema(&decls).unwrap_err();
    assert_eq!(
        err,
        CompileError::DuplicateId { first: 0, second: 1, id: 100 }
    );
}

#[test]
fn duplicate_id_reports_earliest_pair() {
    let decls: Vec<TagDeclaration> = vec![
        raw_decl("A", "1", Some("Binary")),
        raw_decl("B", "2", Some("Binary")),
        raw_decl("C", "2", Some("Binary")),
        raw_decl("D", "1", Some("Binary")),
    ];
    let err = compile_schema(&decls).unwrap_err();
    assert_eq!(
        err,
        CompileError::DuplicateId { first: 1, second: 2, id: 2 }
    );
}

#[test]
fn missing_data_type_is_reported() {
    let decls: Vec<TagDeclaration> = vec![
        raw_decl("A", "1", Some("Master")),
        raw_decl("B", "2", None),
    ];
    let err = compile_schema(&decls).unwrap_err();
    assert_eq!(err, CompileError::MissingDataType { decl: 1 });
}

#[test]
fn unknown_data_type_is_reported_with_its_name() {
    let decls: Vec<TagDeclaration> = vec![raw_decl("A", "1", Some("Date"))];
    let err = compile_schema(&decls).unwrap_err();
    assert_eq!(
        err,
        CompileError::UnknownDataType { decl: 0, name: "Date".to_string() }
    );
}

#[test]
fn unknown_data_type_through_a_path() {
    let decls: Vec<TagDeclaration> = vec![raw_decl("A", "1", Some("some::path::Timestamp"))];
    let err = compile_schema(&decls).unwrap_err();
    assert_eq!(
        err,
        CompileError::UnknownDataType { decl: 0, name: "Timestamp".to_string() }
    );
}

#[test]
fn malformed_id_literal_is_reported() {
    let decls: Vec<TagDeclaration> = vec![raw_decl("A", "12ab", Some("Master"))];
    let err = compile_schema(&decls).unwrap_err();
    assert_eq!(
        err,
        CompileError::MalformedAttribute { decl: 0, attribute: AttributeKind::Id }
    );
}

#[test]
fn overflowing_id_literal_is_malformed() {
    let decls: Vec<TagDeclaration> = vec![
        raw_decl("A", "18446744073709551616", Some("Master")),
        raw_decl("B", "0x10000000000000000", Some("Master")),
    ];
    let err = compile_schema(&decls).unwrap_err();
    assert_eq!(
        err,
        CompileError::MalformedAttribute { decl: 0, attribute: AttributeKind::Id }
    );
}

#[test]
fn empty_hex_id_literal_is_malformed() {
    let decls: Vec<TagDeclaration> = vec![raw_decl("A", "0x", Some("Master"))];
    let err = compile_schema(&decls).unwrap_err();
    assert_eq!(
        err,
        CompileError::MalformedAttribute { decl: 0, attribute: AttributeKind::Id }
    );
}

#[test]
fn malformed_data_type_path_is_reported() {
    let decls: Vec<TagDeclaration> = vec![raw_decl("A", "1", Some("Master::"))];
    let err = compile_schema(&decls).unwrap_err();
    assert_eq!(
        err,
        CompileError::MalformedAttribute { decl: 0, attribute: AttributeKind::DataType }
    );
}

#[test]
fn empty_data_type_reference_is_malformed() {
    let decls: Vec<TagDeclaration> = vec![raw_decl("A", "1", Some(""))];
    let err = compile_schema(&decls).unwrap_err();
    assert_eq!(
        err,
        CompileError::MalformedAttribute { decl: 0, attribute: AttributeKind::DataType }
    );
}

#[test]
fn data_type_path_resolves_by_last_segment() {
    let decls: Vec<TagDeclaration> = vec![
        raw_decl("A", "1", Some("ebml_iterable::TagDataType::Master")),
        raw_decl("B", "2", Some("TagDataType::Float")),
    ];
    let schema = compile_schema(&decls).expect("paths must resolve");
    assert_eq!(schema.get_tag_data_type(1), TagDataType::Master);
    assert_eq!(schema.get_tag_data_type(2), TagDataType::Float);
}

#[test]
fn earlier_declaration_error_wins_over_later_duplicate() {
    let decls: Vec<TagDeclaration> = vec![
        raw_decl("A", "1", Some("Binary")),
        raw_decl("B", "oops", Some("Binary")),
        raw_decl("C", "1", Some("Binary")),
    ];
    let err = compile_schema(&decls).unwrap_err();
    assert_eq!(
        err,
        CompileError::MalformedAttribute { decl: 1, attribute: AttributeKind::Id }
    );
}

#[test]
fn id_attribute_is_checked_before_data_type() {
    let decls: Vec<TagDeclaration> = vec![raw_decl("A", "oops", None)];
    let err = compile_schema(&decls).unwrap_err();
    assert_eq!(
        err,
        CompileError::MalformedAttribute { decl: 0, attribute: AttributeKind::Id }
    );
}

#[test]
fn all_six_kind_names_are_recognized() {
    let decls: Vec<TagDeclaration> = vec![
        raw_decl("A", "1", Some("Master")),
        raw_decl("B", "2", Some("UnsignedInt")),
        raw_decl("C", "3", Some("Integer")),
        raw_decl("D", "4", Some("Utf8")),
        raw_decl("E", "5", Some("Binary")),
        raw_decl("F", "6", Some("Float")),
    ];
    let schema = compile_schema(&decls).expect("all six kinds must compile");
    assert_eq!(schema.get_tag_data_type(1), TagDataType::Master);
    assert_eq!(schema.get_tag_data_type(2), TagDataType::UnsignedInt);
    assert_eq!(schema.get_tag_data_type(3), TagDataType::Integer);
    assert_eq!(schema.get_tag_data_type(4), TagDataType::Utf8);
    assert_eq!(schema.get_tag_data_type(5), TagDataType::Binary);
    assert_eq!(schema.get_tag_data_type(6), TagDataType::Float);
}

#[test]
fn kind_names_are_case_sensitive() {
    let decls: Vec<TagDeclaration> = vec![raw_decl("A", "1", Some("master"))];
    let err = compile_schema(&decls).unwrap_err();
    assert_eq!(
        err,
        CompileError::UnknownDataType { decl: 0, name: "master".to_string() }
    );
}
