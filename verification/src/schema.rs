//! How the `ToArrow` derive reads a prost message: which fields become list
//! columns, which are nullable, and the Arrow type each field gets.
//!
//! The derive itself turns Rust syntax into these plain descriptions and the
//! plan back into code; the decisions are made here.
use vstd::prelude::*;

use crate::traits::{ArrowField, ArrowType};

verus! {

/// The generic arguments of the last segment of a type path.
pub enum SegmentArgs {
    /// Angle-bracketed arguments; `first` is the text of the first one.
    AngleBracketed { first: String },
    /// No arguments, or parenthesized ones.
    Plain,
}

/// What the derive reads of a field's declared type.
pub enum FieldType {
    /// A path type such as `Option<Point>`: the identifier, the text and the
    /// arguments of its last segment, and the text of the whole path.
    Path { last_ident: String, last_segment: String, args: SegmentArgs, path: String },
    /// Any other type, by its text.
    Other { text: String },
}

/// A named field of a message.
pub struct NamedField {
    pub name: String,
    pub ty: FieldType,
}

/// The shape of the item the derive is applied to.
pub enum ItemShape {
    /// A struct with named fields.
    NamedStruct(Vec<NamedField>),
    /// A tuple or unit struct.
    OtherStruct,
    Enum,
    Union,
}

/// Why the derive refuses an item.
#[derive(Debug, PartialEq, Eq)]
pub enum DeriveError {
    /// The item is an enum or a union.
    ExpectedStruct,
    /// The item is a struct without named fields.
    ExpectedNamedFields,
}

impl DeriveError {
    /// The message the derive reports the error with.
    pub fn message(&self) -> (m: String)
        ensures
            m@ == match self {
                DeriveError::ExpectedStruct => "Expected a `struct`"@,
                DeriveError::ExpectedNamedFields => "Expected a `struct` with named fields"@,
            },
    {
        match self {
            DeriveError::ExpectedStruct => text("Expected a `struct`"),
            DeriveError::ExpectedNamedFields => text("Expected a `struct` with named fields"),
        }
    }
}

/// How a message field becomes a column.
#[derive(Debug)]
pub struct ProstField {
    /// The field's name.
    pub name: String,
    /// The text of the type whose `ToArrow` impl builds the column (or its items).
    pub inner_type: String,
    /// The field is an `Option`: absent values become nulls.
    pub nullable: bool,
    /// The field is repeated (`Vec<T>`, but not `Vec<u8>`): a list column.
    pub array: bool,
}

/// What the derive generates for a message: the builder's name and one column per field.
#[derive(Debug)]
pub struct BuilderPlan {
    pub builder_name: String,
    pub fields: Vec<ProstField>,
}

/// The text of the type that the last segment's first argument, or else the
/// whole path, names.
pub open spec fn path_inner(args: SegmentArgs, path: Seq<char>) -> Seq<char> {
    match args {
        SegmentArgs::AngleBracketed { first } => first@,
        SegmentArgs::Plain => path,
    }
}

/// `Vec<u8>`: a byte string, which is a binary column rather than a list.
pub open spec fn is_binary(last_ident: Seq<char>, inner: Seq<char>) -> bool {
    last_ident == "Vec"@ && inner == "u8"@
}

/// The inner type of a field of type `ty`.
pub open spec fn field_inner(ty: FieldType) -> Seq<char> {
    match ty {
        FieldType::Path { last_ident, last_segment, args, path } => {
            let inner = path_inner(args, path@);
            if is_binary(last_ident@, inner) {
                last_segment@
            } else {
                inner
            }
        },
        FieldType::Other { text } => text@,
    }
}

/// A field of type `ty` is nullable: its type is an `Option`.
pub open spec fn field_nullable(ty: FieldType) -> bool {
    match ty {
        FieldType::Path { last_ident, .. } => last_ident@ == "Option"@,
        FieldType::Other { .. } => false,
    }
}

/// A field of type `ty` is a list: its type is a `Vec` of anything but `u8`.
pub open spec fn field_array(ty: FieldType) -> bool {
    match ty {
        FieldType::Path { last_ident, last_segment, args, path } => {
            last_ident@ == "Vec"@ && !is_binary(last_ident@, path_inner(args, path@))
        },
        FieldType::Other { .. } => false,
    }
}

/// The Arrow type of a field's column: a list of the inner type for a
/// repeated field, else the inner type.
pub open spec fn field_datatype(array: bool, inner: ArrowType) -> ArrowType {
    if array {
        ArrowType::List(Box::new(inner))
    } else {
        inner
    }
}

/// `f` is how the derive treats a field named `name` of type `ty`.
pub open spec fn describes(f: ProstField, name: Seq<char>, ty: FieldType) -> bool {
    &&& f.name@ == name
    &&& f.inner_type@ == field_inner(ty)
    &&& f.nullable == field_nullable(ty)
    &&& f.array == field_array(ty)
}

fn text(s: &str) -> (r: String)
    ensures
        r@ == s@,
{
    String::from_str(s)
}

impl ProstField {
    /// Classifies a field by its declared type.
    pub fn new(name: String, ty: FieldType) -> (f: ProstField)
        ensures
            describes(f, name@, ty),
    {
        match ty {
            FieldType::Path { last_ident, last_segment, args, path } => {
                let ghost args_copy = args;
                let inner = match args {
                    SegmentArgs::AngleBracketed { first } => first,
                    SegmentArgs::Plain => path,
                };
                assert(inner@ == path_inner(args_copy, path@));
                let is_vec = last_ident == text("Vec");
                let is_binary = is_vec && inner == text("u8");
                let nullable = last_ident == text("Option");
                if is_binary {
                    ProstField { name, inner_type: last_segment, nullable, array: false }
                } else {
                    ProstField { name, inner_type: inner, nullable, array: is_vec }
                }
            },
            FieldType::Other { text } => ProstField {
                name,
                inner_type: text,
                nullable: false,
                array: false,
            },
        }
    }

    /// The Arrow type of the field's column, given the Arrow type of its inner type.
    pub fn arrow_datatype(&self, inner: ArrowType) -> (t: ArrowType)
        ensures
            t == field_datatype(self.array, inner),
    {
        if self.array {
            ArrowType::List(Box::new(inner))
        } else {
            inner
        }
    }

    /// The field of the message's struct type, given the Arrow type of its
    /// inner type: the field's name, column type and nullability.
    pub fn arrow_field(&self, inner: ArrowType) -> (f: ArrowField)
        ensures
            f.name@ == self.name@,
            f.data_type == field_datatype(self.array, inner),
            f.nullable == self.nullable,
    {
        ArrowField {
            name: self.name.clone(),
            data_type: self.arrow_datatype(inner),
            nullable: self.nullable,
        }
    }
}

/// `f` is the struct field that `field` gives when its inner type is `inner`.
pub open spec fn is_arrow_field(f: ArrowField, field: ProstField, inner: ArrowType) -> bool {
    &&& f.name@ == field.name@
    &&& f.data_type == field_datatype(field.array, inner)
    &&& f.nullable == field.nullable
}

/// The Arrow type of a message: the struct of its fields' columns, in order,
/// each field given with the Arrow type of its inner type.
pub fn struct_datatype(fields: Vec<(ProstField, ArrowType)>) -> (t: ArrowType)
    ensures
        t matches ArrowType::Struct(v) && v@.len() == fields@.len() && forall|i: int|
            0 <= i < fields@.len() ==> is_arrow_field(
                #[trigger] v@[i],
                fields@[i].0,
                fields@[i].1,
            ),
{
    let ghost input = fields@;
    let mut out: Vec<ArrowField> = Vec::new();
    for pair in it: fields.into_iter()
        invariant
            input == it.seq(),
            out@.len() == it.index(),
            forall|i: int|
                0 <= i < out@.len() ==> is_arrow_field(#[trigger] out@[i], input[i].0, input[i].1),
    {
        let (field, inner) = pair;
        out.push(field.arrow_field(inner));
    }
    ArrowType::Struct(out)
}

/// Law: no field is both nullable and a list (`Option<Vec<T>>` is a nullable
/// column of `Vec<T>`, not a list).
pub proof fn law_nullable_is_not_list(ty: FieldType)
    ensures
        !(field_nullable(ty) && field_array(ty)),
{
    reveal_strlit("Option");
    reveal_strlit("Vec");
    assert("Option"@.len() != "Vec"@.len());
}

/// Law: a field whose type's last segment is `Vec<u8>` (written `Vec<u8>` or
/// with any leading path, such as `::prost::alloc::vec::Vec<u8>`) becomes a
/// binary column of that segment: not a list, not nullable.
pub proof fn law_bytes_field_is_binary(
    f: ProstField,
    name: Seq<char>,
    last_ident: String,
    last_segment: String,
    first: String,
    path: String,
)
    requires
        last_ident@ == "Vec"@,
        first@ == "u8"@,
        describes(
            f,
            name,
            FieldType::Path {
                last_ident,
                last_segment,
                args: SegmentArgs::AngleBracketed { first },
                path,
            },
        ),
    ensures
        !f.array,
        !f.nullable,
        f.inner_type@ == last_segment@,
        f.name@ == name,
{
    reveal_strlit("Option");
    reveal_strlit("Vec");
    assert("Option"@.len() != "Vec"@.len());
}

/// Law: a field whose type's last segment is `Vec<T>` for `T` other than `u8`
/// (with any leading path) becomes a list column of `T`, not nullable.
pub proof fn law_repeated_field_is_list(
    f: ProstField,
    name: Seq<char>,
    last_ident: String,
    last_segment: String,
    first: String,
    path: String,
)
    requires
        last_ident@ == "Vec"@,
        first@ != "u8"@,
        describes(
            f,
            name,
            FieldType::Path {
                last_ident,
                last_segment,
                args: SegmentArgs::AngleBracketed { first },
                path,
            },
        ),
    ensures
        f.array,
        !f.nullable,
        f.inner_type@ == first@,
        f.name@ == name,
{
    reveal_strlit("Option");
    reveal_strlit("Vec");
    assert("Option"@.len() != "Vec"@.len());
}

/// Law: a field whose type's last segment is `Option<T>` (with any leading
/// path, such as `::core::option::Option<T>`) becomes a nullable column of
/// `T`, not a list; and a field is nullable only when its type's last
/// identifier is `Option`.
pub proof fn law_optional_field_is_nullable(f: ProstField, name: Seq<char>, ty: FieldType)
    requires
        describes(f, name, ty),
    ensures
        f.nullable <==> (ty matches FieldType::Path { last_ident, .. } && last_ident@ == "Option"@),
        ty matches FieldType::Path { last_ident, args: SegmentArgs::AngleBracketed { first }, .. }
            ==> (last_ident@ == "Option"@ ==> !f.array && f.inner_type@ == first@),
{
    reveal_strlit("Option");
    reveal_strlit("Vec");
    assert("Option"@.len() != "Vec"@.len());
}

/// Law: a field whose type is neither `Vec<..>` nor `Option<..>` in its last
/// segment is a plain column, neither a list nor nullable, of the type that its
/// last segment's first argument names, or else of the whole type.
pub proof fn law_plain_field_is_scalar(f: ProstField, name: Seq<char>, ty: FieldType)
    requires
        describes(f, name, ty),
        ty matches FieldType::Path { last_ident, .. } ==> last_ident@ != "Vec"@ && last_ident@
            != "Option"@,
    ensures
        !f.array,
        !f.nullable,
        f.name@ == name,
        match ty {
            FieldType::Path { args: SegmentArgs::AngleBracketed { first }, .. } => f.inner_type@
                == first@,
            FieldType::Path { path, .. } => f.inner_type@ == path@,
            FieldType::Other { text } => f.inner_type@ == text@,
        },
{
}

/// Law: a path type is classified by its last segment alone: two field types
/// that differ only in their leading path segments give the same column.
pub proof fn law_leading_segments_ignored(
    f: ProstField,
    g: ProstField,
    name: Seq<char>,
    last_ident: String,
    last_segment: String,
    first: String,
    path_f: String,
    path_g: String,
)
    requires
        describes(
            f,
            name,
            FieldType::Path {
                last_ident,
                last_segment,
                args: SegmentArgs::AngleBracketed { first },
                path: path_f,
            },
        ),
        describes(
            g,
            name,
            FieldType::Path {
                last_ident,
                last_segment,
                args: SegmentArgs::AngleBracketed { first },
                path: path_g,
            },
        ),
    ensures
        f.inner_type@ == g.inner_type@,
        f.nullable == g.nullable,
        f.array == g.array,
{
}

/// Decides what the derive generates for the item `name` of the given shape:
/// a builder named `name` + `Builder` with one column per named field, in order.
pub fn plan_builder(name: String, shape: ItemShape) -> (r: Result<BuilderPlan, DeriveError>)
    ensures
        match shape {
            ItemShape::NamedStruct(fields) => r matches Ok(plan) && {
                &&& plan.builder_name@ == name@ + "Builder"@
                &&& plan.fields@.len() == fields@.len()
                &&& forall|i: int|
                    0 <= i < fields@.len() ==> describes(
                        #[trigger] plan.fields@[i],
                        fields@[i].name@,
                        fields@[i].ty,
                    )
            },
            ItemShape::OtherStruct => r == Err::<BuilderPlan, DeriveError>(
                DeriveError::ExpectedNamedFields,
            ),
            ItemShape::Enum | ItemShape::Union => r == Err::<BuilderPlan, DeriveError>(
                DeriveError::ExpectedStruct,
            ),
        },
{
    match shape {
        ItemShape::NamedStruct(fields) => {
            let ghost input = fields@;
            let mut fields = fields;
            let mut planned: Vec<ProstField> = Vec::new();
            let mut rest: Vec<NamedField> = Vec::new();
            // Take the fields from the back, then classify them front to back.
            while fields.len() > 0
                invariant
                    rest@.len() + fields@.len() == input.len(),
                    fields@ == input.take(fields@.len() as int),
                    forall|i: int|
                        0 <= i < rest@.len() ==> #[trigger] rest@[i] == input[input.len() - 1 - i],
                decreases fields@.len(),
            {
                let f = fields.pop().unwrap();
                rest.push(f);
                assert(fields@ =~= input.take(fields@.len() as int));
            }
            while rest.len() > 0
                invariant
                    planned@.len() + rest@.len() == input.len(),
                    forall|i: int|
                        0 <= i < rest@.len() ==> #[trigger] rest@[i] == input[input.len() - 1 - i],
                    forall|i: int|
                        0 <= i < planned@.len() ==> describes(
                            #[trigger] planned@[i],
                            input[i].name@,
                            input[i].ty,
                        ),
                decreases rest@.len(),
            {
                let f = rest.pop().unwrap();
                let k = planned.len();
                assert(f == input[k as int]);
                planned.push(ProstField::new(f.name, f.ty));
            }
            let builder_name = name.concat("Builder");
            Ok(BuilderPlan { builder_name, fields: planned })
        },
        ItemShape::OtherStruct => Err(DeriveError::ExpectedNamedFields),
        ItemShape::Enum | ItemShape::Union => Err(DeriveError::ExpectedStruct),
    }
}

} // verus!
