use prost_arrow::{
    plan_builder, struct_datatype, ArrowField, ArrowType, DeriveError, FieldType, ItemShape, NamedField, ProstField, SegmentArgs,
};

fn path(last_ident: &str, first: Option<&str>, text: &str) -> FieldType {
    FieldType::Path {
        last_ident: last_ident.to_string(),
        last_segment: text.to_string(),
        args: match first {
            Some(f) => SegmentArgs::AngleBracketed { first: f.to_string() },
            None => SegmentArgs::Plain,
        },
        path: text.to_string(),
    }
}

#[test]
fn plain_field() {
    let f = ProstField::new("latitude".to_string(), path("i32", None, "i32"));
    assert_eq!(f.name, "latitude");
    assert_eq!(f.inner_type, "i32");
    assert!(!f.nullable);
    assert!(!f.array);
}

#[test]
fn optional_field_is_nullable() {
    let f = ProstField::new("lo".to_string(), path("Option", Some("Point"), "Option < Point >"));
    assert_eq!(f.inner_type, "Point");
    assert!(f.nullable);
    assert!(!f.array);
}

#[test]
fn repeated_field_is_a_list() {
    let f = ProstField::new("messages".to_string(), path("Vec", Some("String"), "Vec < String >"));
    assert_eq!(f.inner_type, "String");
    assert!(!f.nullable);
    assert!(f.array);
}

#[test]
fn bytes_field_is_binary() {
    let f = ProstField::new("binary".to_string(), path("Vec", Some("u8"), "Vec < u8 >"));
    assert_eq!(f.inner_type, "Vec < u8 >");
    assert!(!f.array);
    assert!(!f.nullable);
}

#[test]
fn repeated_bytes_field_is_a_list_of_binary() {
    let f = ProstField::new(
        "repeated_binary".to_string(),
        path("Vec", Some("Vec < u8 >"), "Vec < Vec < u8 > >"),
    );
    assert_eq!(f.inner_type, "Vec < u8 >");
    assert!(f.array);
}

#[test]
fn optional_list_is_nullable_not_list() {
    let f = ProstField::new("maybe".to_string(), path("Option", Some("Vec < i32 >"), "Option < Vec < i32 > >"));
    assert!(f.nullable);
    assert!(!f.array);
    assert_eq!(f.inner_type, "Vec < i32 >");
}

#[test]
fn non_path_field_keeps_its_text() {
    let f = ProstField::new("pair".to_string(), FieldType::Other { text: "(i32 , i32)".to_string() });
    assert_eq!(f.inner_type, "(i32 , i32)");
    assert!(!f.nullable && !f.array);
}

#[test]
fn bare_vec_path_is_a_list_of_itself() {
    let f = ProstField::new("v".to_string(), path("Vec", None, "Vec"));
    assert_eq!(f.inner_type, "Vec");
    assert!(f.array);
}

#[test]
fn arrow_datatype_of_list_and_scalar() {
    let list = ProstField::new("pts".to_string(), path("Vec", Some("i32"), "Vec < i32 >"));
    assert_eq!(list.arrow_datatype(ArrowType::Int32), ArrowType::List(Box::new(ArrowType::Int32)));
    let scalar = ProstField::new("lo".to_string(), path("Option", Some("String"), "Option < String >"));
    assert_eq!(scalar.arrow_datatype(ArrowType::Utf8), ArrowType::Utf8);
}

#[test]
fn plan_for_named_struct() {
    let fields = vec![
        NamedField { name: "lo".to_string(), ty: path("Option", Some("Point"), "Option < Point >") },
        NamedField { name: "messages".to_string(), ty: path("Vec", Some("String"), "Vec < String >") },
        NamedField { name: "binary".to_string(), ty: path("Vec", Some("u8"), "Vec < u8 >") },
    ];
    let plan = plan_builder("Rectangle".to_string(), ItemShape::NamedStruct(fields)).unwrap();
    assert_eq!(plan.builder_name, "RectangleBuilder");
    assert_eq!(plan.fields.len(), 3);
    assert_eq!(plan.fields[0].name, "lo");
    assert!(plan.fields[0].nullable);
    assert_eq!(plan.fields[1].name, "messages");
    assert!(plan.fields[1].array);
    assert_eq!(plan.fields[2].name, "binary");
    assert!(!plan.fields[2].array);
}

#[test]
fn plan_for_empty_struct() {
    let plan = plan_builder("Empty".to_string(), ItemShape::NamedStruct(vec![])).unwrap();
    assert_eq!(plan.builder_name, "EmptyBuilder");
    assert!(plan.fields.is_empty());
}

#[test]
fn plan_refuses_enums_and_unions() {
    assert_eq!(plan_builder("E".to_string(), ItemShape::Enum).unwrap_err(), DeriveError::ExpectedStruct);
    assert_eq!(plan_builder("U".to_string(), ItemShape::Union).unwrap_err(), DeriveError::ExpectedStruct);
}

#[test]
fn plan_refuses_tuple_structs() {
    assert_eq!(
        plan_builder("T".to_string(), ItemShape::OtherStruct).unwrap_err(),
        DeriveError::ExpectedNamedFields
    );
}

#[test]
fn derive_error_messages() {
    assert_eq!(DeriveError::ExpectedStruct.message(), "Expected a `struct`");
    assert_eq!(DeriveError::ExpectedNamedFields.message(), "Expected a `struct` with named fields");
}

#[test]
fn arrow_field_of_a_repeated_field() {
    let f = ProstField::new("extra_points".to_string(), path("Vec", Some("Point"), "Vec < Point >"));
    let field = f.arrow_field(ArrowType::Int32);
    assert_eq!(
        field,
        ArrowField {
            name: "extra_points".to_string(),
            data_type: ArrowType::List(Box::new(ArrowType::Int32)),
            nullable: false,
        }
    );
}

#[test]
fn struct_datatype_of_a_message() {
    let lo = ProstField::new("lo".to_string(), path("Option", Some("i64"), "Option < i64 >"));
    let msgs = ProstField::new("messages".to_string(), path("Vec", Some("String"), "Vec < String >"));
    let bin = ProstField::new("binary".to_string(), path("Vec", Some("u8"), "Vec < u8 >"));
    let t = struct_datatype(vec![
        (lo, ArrowType::Int64),
        (msgs, ArrowType::Utf8),
        (bin, ArrowType::Binary),
    ]);
    assert_eq!(
        t,
        ArrowType::Struct(vec![
            ArrowField { name: "lo".to_string(), data_type: ArrowType::Int64, nullable: true },
            ArrowField {
                name: "messages".to_string(),
                data_type: ArrowType::List(Box::new(ArrowType::Utf8)),
                nullable: false,
            },
            ArrowField { name: "binary".to_string(), data_type: ArrowType::Binary, nullable: false },
        ])
    );
    assert_eq!(struct_datatype(vec![]), ArrowType::Struct(vec![]));
}
