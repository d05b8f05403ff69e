//! What this library relies on from the Arrow crates: the Arrow types it holds,
//! names for what they contain, and one wrapper per Arrow function it calls.
//! Nothing here is proved; each contract states what the Arrow source does.
//!
//! Arrow's builders are generic over types bound by Arrow traits, which Verus
//! cannot declare; each builder used here is therefore held in a struct of this
//! module whose contents Verus does not see.
use vstd::prelude::*;

use arrow_array::builder::{
    ArrayBuilder, BinaryBuilder, BooleanBuilder, PrimitiveBuilder, StringBuilder,
};
use arrow_array::types::{Int32Type, Int64Type, UInt32Type, UInt64Type};
use arrow_array::{make_array, Array, ListArray};
use arrow_buffer::{NullBuffer, NullBufferBuilder, OffsetBuffer, ScalarBuffer};
use arrow_schema::Field;
use std::sync::Arc;
use arrow_data::ArrayData;
use vstd::utf8::encode_utf8;

use crate::traits::ArrowType;

verus! {

#[verifier::external_type_specification]
#[verifier::external_body]
pub struct ExArrayData(ArrayData);

/// The number of slots of an array (`ArrayData::len`).
pub uninterp spec fn array_len(data: ArrayData) -> nat;

/// The Arrow data type of an array, for arrays of the types that `ArrowType` describes.
pub uninterp spec fn array_type(data: ArrayData) -> ArrowType;

/// Whether `arrow_array::make_array` accepts `data` (it panics on a few data
/// types, none of which the builders here produce).
pub uninterp spec fn makes_array(data: ArrayData) -> bool;

#[verifier::external_type_specification]
#[verifier::external_body]
pub struct ExBooleanBuilder(BooleanBuilder);

/// The slots of an array of Arrow type `Boolean`: `None` where the array is null.
pub uninterp spec fn bool_array(data: ArrayData) -> Seq<Option<bool>>;

/// The slots appended to a `BooleanBuilder` since it was made or last finished.
pub uninterp spec fn bool_column(b: BooleanBuilder) -> Seq<Option<bool>>;

/// `BooleanBuilder::with_capacity`: an empty builder; it reserves
/// `capacity` bits (`capacity / 8` bytes, rounded up), which never passes `isize::MAX` bytes.
#[verifier::external_body]
pub(crate) fn bool_builder_with_capacity(capacity: usize) -> (b: BooleanBuilder)
    ensures
        bool_column(b) == Seq::<Option<bool>>::empty(),
{
    BooleanBuilder::with_capacity(capacity)
}

/// `BooleanBuilder::append_value`: appends the value.
#[verifier::external_body]
pub(crate) fn bool_builder_append_value(b: &mut BooleanBuilder, v: bool)
    ensures
        bool_column(*final(b)) == bool_column(*old(b)).push(Some(v)),
{
    b.append_value(v)
}

/// `BooleanBuilder::append_option`: appends the value, or a null for `None`.
#[verifier::external_body]
pub(crate) fn bool_builder_append_option(b: &mut BooleanBuilder, v: Option<bool>)
    ensures
        bool_column(*final(b)) == bool_column(*old(b)).push(v),
{
    b.append_option(v)
}

/// `ArrayBuilder::len` of a `BooleanBuilder`: the number of slots.
#[verifier::external_body]
pub(crate) fn bool_builder_len(b: &BooleanBuilder) -> (n: usize)
    ensures
        n == bool_column(*b).len(),
{
    ArrayBuilder::len(b)
}

/// `BooleanBuilder::finish`: the array of the slots appended, as `ArrayData`;
/// the builder is left empty.
#[verifier::external_body]
pub(crate) fn bool_builder_finish(b: &mut BooleanBuilder) -> (data: ArrayData)
    ensures
        bool_column(*final(b)) == Seq::<Option<bool>>::empty(),
        bool_array(data) == bool_column(*old(b)),
        array_len(data) == bool_column(*old(b)).len(),
        array_type(data) == ArrowType::Boolean,
        makes_array(data),
{
    b.finish().into_data()
}

/// `BooleanBuilder::finish_cloned`: the array of the slots appended, as
/// `ArrayData`; the builder is unchanged.
#[verifier::external_body]
pub(crate) fn bool_builder_finish_cloned(b: &BooleanBuilder) -> (data: ArrayData)
    ensures
        bool_array(data) == bool_column(*b),
        array_len(data) == bool_column(*b).len(),
        array_type(data) == ArrowType::Boolean,
        makes_array(data),
{
    b.finish_cloned().into_data()
}

/// An Arrow `PrimitiveBuilder<Int32Type>`, held opaquely.
#[verifier::external_body]
pub struct Int32Column {
    inner: PrimitiveBuilder<Int32Type>,
}

/// The slots of an array of Arrow type `Int32`: `None` where the array is null.
pub uninterp spec fn int32_array(data: ArrayData) -> Seq<Option<i32>>;

/// The slots appended to the builder since it was made or last finished.
pub uninterp spec fn int32_column(b: Int32Column) -> Seq<Option<i32>>;

/// `PrimitiveBuilder::<Int32Type>::with_capacity`: an empty builder; it reserves
/// a `Vec<i32>` of `capacity` items, which panics beyond `isize::MAX` bytes.
#[verifier::external_body]
pub(crate) fn int32_builder_with_capacity(capacity: usize) -> (b: Int32Column)
    requires
        capacity * 4 <= isize::MAX,
    ensures
        int32_column(b) == Seq::<Option<i32>>::empty(),
{
    Int32Column { inner: PrimitiveBuilder::<Int32Type>::with_capacity(capacity) }
}

/// `PrimitiveBuilder::<Int32Type>::append_value`: appends the value.
#[verifier::external_body]
pub(crate) fn int32_builder_append_value(b: &mut Int32Column, v: i32)
    ensures
        int32_column(*final(b)) == int32_column(*old(b)).push(Some(v)),
{
    b.inner.append_value(v)
}

/// `PrimitiveBuilder::<Int32Type>::append_option`: appends the value, or a null for `None`.
#[verifier::external_body]
pub(crate) fn int32_builder_append_option(b: &mut Int32Column, v: Option<i32>)
    ensures
        int32_column(*final(b)) == int32_column(*old(b)).push(v),
{
    b.inner.append_option(v)
}

/// `ArrayBuilder::len` of a `PrimitiveBuilder<Int32Type>`: the number of slots.
#[verifier::external_body]
pub(crate) fn int32_builder_len(b: &Int32Column) -> (n: usize)
    ensures
        n == int32_column(*b).len(),
{
    ArrayBuilder::len(&b.inner)
}

/// `PrimitiveBuilder::<Int32Type>::finish`: the array of the slots appended,
/// as `ArrayData`; the builder is left empty.
#[verifier::external_body]
pub(crate) fn int32_builder_finish(b: &mut Int32Column) -> (data: ArrayData)
    ensures
        int32_column(*final(b)) == Seq::<Option<i32>>::empty(),
        int32_array(data) == int32_column(*old(b)),
        array_len(data) == int32_column(*old(b)).len(),
        array_type(data) == ArrowType::Int32,
        makes_array(data),
{
    b.inner.finish().into_data()
}

/// `PrimitiveBuilder::<Int32Type>::finish_cloned`: the array of the slots appended,
/// as `ArrayData`; the builder is unchanged.
#[verifier::external_body]
pub(crate) fn int32_builder_finish_cloned(b: &Int32Column) -> (data: ArrayData)
    ensures
        int32_array(data) == int32_column(*b),
        array_len(data) == int32_column(*b).len(),
        array_type(data) == ArrowType::Int32,
        makes_array(data),
{
    b.inner.finish_cloned().into_data()
}

/// An Arrow `PrimitiveBuilder<Int64Type>`, held opaquely (see `Int32Column`).
#[verifier::external_body]
pub struct Int64Column {
    inner: PrimitiveBuilder<Int64Type>,
}

/// The slots of an array of Arrow type `Int64`: `None` where the array is null.
pub uninterp spec fn int64_array(data: ArrayData) -> Seq<Option<i64>>;

/// The slots appended to the builder since it was made or last finished.
pub uninterp spec fn int64_column(b: Int64Column) -> Seq<Option<i64>>;

/// `PrimitiveBuilder::<Int64Type>::with_capacity`: an empty builder; it reserves
/// a `Vec<i64>` of `capacity` items, which panics beyond `isize::MAX` bytes.
#[verifier::external_body]
pub(crate) fn int64_builder_with_capacity(capacity: usize) -> (b: Int64Column)
    requires
        capacity * 8 <= isize::MAX,
    ensures
        int64_column(b) == Seq::<Option<i64>>::empty(),
{
    Int64Column { inner: PrimitiveBuilder::<Int64Type>::with_capacity(capacity) }
}

/// `PrimitiveBuilder::<Int64Type>::append_value`: appends the value.
#[verifier::external_body]
pub(crate) fn int64_builder_append_value(b: &mut Int64Column, v: i64)
    ensures
        int64_column(*final(b)) == int64_column(*old(b)).push(Some(v)),
{
    b.inner.append_value(v)
}

/// `PrimitiveBuilder::<Int64Type>::append_option`: appends the value, or a null for `None`.
#[verifier::external_body]
pub(crate) fn int64_builder_append_option(b: &mut Int64Column, v: Option<i64>)
    ensures
        int64_column(*final(b)) == int64_column(*old(b)).push(v),
{
    b.inner.append_option(v)
}

/// `ArrayBuilder::len` of a `PrimitiveBuilder<Int64Type>`: the number of slots.
#[verifier::external_body]
pub(crate) fn int64_builder_len(b: &Int64Column) -> (n: usize)
    ensures
        n == int64_column(*b).len(),
{
    ArrayBuilder::len(&b.inner)
}

/// `PrimitiveBuilder::<Int64Type>::finish`: the array of the slots appended,
/// as `ArrayData`; the builder is left empty.
#[verifier::external_body]
pub(crate) fn int64_builder_finish(b: &mut Int64Column) -> (data: ArrayData)
    ensures
        int64_column(*final(b)) == Seq::<Option<i64>>::empty(),
        int64_array(data) == int64_column(*old(b)),
        array_len(data) == int64_column(*old(b)).len(),
        array_type(data) == ArrowType::Int64,
        makes_array(data),
{
    b.inner.finish().into_data()
}

/// `PrimitiveBuilder::<Int64Type>::finish_cloned`: the array of the slots appended,
/// as `ArrayData`; the builder is unchanged.
#[verifier::external_body]
pub(crate) fn int64_builder_finish_cloned(b: &Int64Column) -> (data: ArrayData)
    ensures
        int64_array(data) == int64_column(*b),
        array_len(data) == int64_column(*b).len(),
        array_type(data) == ArrowType::Int64,
        makes_array(data),
{
    b.inner.finish_cloned().into_data()
}

/// An Arrow `PrimitiveBuilder<UInt32Type>`, held opaquely (see `Int32Column`).
#[verifier::external_body]
pub struct UInt32Column {
    inner: PrimitiveBuilder<UInt32Type>,
}

/// The slots of an array of Arrow type `UInt32`: `None` where the array is null.
pub uninterp spec fn uint32_array(data: ArrayData) -> Seq<Option<u32>>;

/// The slots appended to the builder since it was made or last finished.
pub uninterp spec fn uint32_column(b: UInt32Column) -> Seq<Option<u32>>;

/// `PrimitiveBuilder::<UInt32Type>::with_capacity`: an empty builder; it reserves
/// a `Vec<u32>` of `capacity` items, which panics beyond `isize::MAX` bytes.
#[verifier::external_body]
pub(crate) fn uint32_builder_with_capacity(capacity: usize) -> (b: UInt32Column)
    requires
        capacity * 4 <= isize::MAX,
    ensures
        uint32_column(b) == Seq::<Option<u32>>::empty(),
{
    UInt32Column { inner: PrimitiveBuilder::<UInt32Type>::with_capacity(capacity) }
}

/// `PrimitiveBuilder::<UInt32Type>::append_value`: appends the value.
#[verifier::external_body]
pub(crate) fn uint32_builder_append_value(b: &mut UInt32Column, v: u32)
    ensures
        uint32_column(*final(b)) == uint32_column(*old(b)).push(Some(v)),
{
    b.inner.append_value(v)
}

/// `PrimitiveBuilder::<UInt32Type>::append_option`: appends the value, or a null for `None`.
#[verifier::external_body]
pub(crate) fn uint32_builder_append_option(b: &mut UInt32Column, v: Option<u32>)
    ensures
        uint32_column(*final(b)) == uint32_column(*old(b)).push(v),
{
    b.inner.append_option(v)
}

/// `ArrayBuilder::len` of a `PrimitiveBuilder<UInt32Type>`: the number of slots.
#[verifier::external_body]
pub(crate) fn uint32_builder_len(b: &UInt32Column) -> (n: usize)
    ensures
        n == uint32_column(*b).len(),
{
    ArrayBuilder::len(&b.inner)
}

/// `PrimitiveBuilder::<UInt32Type>::finish`: the array of the slots appended,
/// as `ArrayData`; the builder is left empty.
#[verifier::external_body]
pub(crate) fn uint32_builder_finish(b: &mut UInt32Column) -> (data: ArrayData)
    ensures
        uint32_column(*final(b)) == Seq::<Option<u32>>::empty(),
        uint32_array(data) == uint32_column(*old(b)),
        array_len(data) == uint32_column(*old(b)).len(),
        array_type(data) == ArrowType::UInt32,
        makes_array(data),
{
    b.inner.finish().into_data()
}

/// `PrimitiveBuilder::<UInt32Type>::finish_cloned`: the array of the slots appended,
/// as `ArrayData`; the builder is unchanged.
#[verifier::external_body]
pub(crate) fn uint32_builder_finish_cloned(b: &UInt32Column) -> (data: ArrayData)
    ensures
        uint32_array(data) == uint32_column(*b),
        array_len(data) == uint32_column(*b).len(),
        array_type(data) == ArrowType::UInt32,
        makes_array(data),
{
    b.inner.finish_cloned().into_data()
}

/// An Arrow `PrimitiveBuilder<UInt64Type>`, held opaquely (see `Int32Column`).
#[verifier::external_body]
pub struct UInt64Column {
    inner: PrimitiveBuilder<UInt64Type>,
}

/// The slots of an array of Arrow type `UInt64`: `None` where the array is null.
pub uninterp spec fn uint64_array(data: ArrayData) -> Seq<Option<u64>>;

/// The slots appended to the builder since it was made or last finished.
pub uninterp spec fn uint64_column(b: UInt64Column) -> Seq<Option<u64>>;

/// `PrimitiveBuilder::<UInt64Type>::with_capacity`: an empty builder; it reserves
/// a `Vec<u64>` of `capacity` items, which panics beyond `isize::MAX` bytes.
#[verifier::external_body]
pub(crate) fn uint64_builder_with_capacity(capacity: usize) -> (b: UInt64Column)
    requires
        capacity * 8 <= isize::MAX,
    ensures
        uint64_column(b) == Seq::<Option<u64>>::empty(),
{
    UInt64Column { inner: PrimitiveBuilder::<UInt64Type>::with_capacity(capacity) }
}

/// `PrimitiveBuilder::<UInt64Type>::append_value`: appends the value.
#[verifier::external_body]
pub(crate) fn uint64_builder_append_value(b: &mut UInt64Column, v: u64)
    ensures
        uint64_column(*final(b)) == uint64_column(*old(b)).push(Some(v)),
{
    b.inner.append_value(v)
}

/// `PrimitiveBuilder::<UInt64Type>::append_option`: appends the value, or a null for `None`.
#[verifier::external_body]
pub(crate) fn uint64_builder_append_option(b: &mut UInt64Column, v: Option<u64>)
    ensures
        uint64_column(*final(b)) == uint64_column(*old(b)).push(v),
{
    b.inner.append_option(v)
}

/// `ArrayBuilder::len` of a `PrimitiveBuilder<UInt64Type>`: the number of slots.
#[verifier::external_body]
pub(crate) fn uint64_builder_len(b: &UInt64Column) -> (n: usize)
    ensures
        n == uint64_column(*b).len(),
{
    ArrayBuilder::len(&b.inner)
}

/// `PrimitiveBuilder::<UInt64Type>::finish`: the array of the slots appended,
/// as `ArrayData`; the builder is left empty.
#[verifier::external_body]
pub(crate) fn uint64_builder_finish(b: &mut UInt64Column) -> (data: ArrayData)
    ensures
        uint64_column(*final(b)) == Seq::<Option<u64>>::empty(),
        uint64_array(data) == uint64_column(*old(b)),
        array_len(data) == uint64_column(*old(b)).len(),
        array_type(data) == ArrowType::UInt64,
        makes_array(data),
{
    b.inner.finish().into_data()
}

/// `PrimitiveBuilder::<UInt64Type>::finish_cloned`: the array of the slots appended,
/// as `ArrayData`; the builder is unchanged.
#[verifier::external_body]
pub(crate) fn uint64_builder_finish_cloned(b: &UInt64Column) -> (data: ArrayData)
    ensures
        uint64_array(data) == uint64_column(*b),
        array_len(data) == uint64_column(*b).len(),
        array_type(data) == ArrowType::UInt64,
        makes_array(data),
{
    b.inner.finish_cloned().into_data()
}

/// An Arrow `StringBuilder`, held opaquely.
#[verifier::external_body]
pub struct Utf8Column {
    inner: StringBuilder,
}

/// The slots of an array of Arrow type `Utf8`: `None` where the array is null.
pub uninterp spec fn utf8_array(data: ArrayData) -> Seq<Option<Seq<char>>>;

/// The slots appended to the builder since it was made or last finished.
pub uninterp spec fn utf8_column(b: Utf8Column) -> Seq<Option<Seq<char>>>;

/// A slot of a UTF-8 string column, by its contents.
pub open spec fn string_slot(v: Option<String>) -> Option<Seq<char>> {
    match v {
        Some(s) => Some(s@),
        None => None,
    }
}

/// The number of data bytes that Arrow stores for the slots (nulls take none).
pub open spec fn utf8_bytes(slots: Seq<Option<Seq<char>>>) -> nat
    decreases slots.len(),
{
    if slots.len() == 0 {
        0
    } else {
        utf8_bytes(slots.drop_last()) + match slots.last() {
            Some(v) => encode_utf8(v).len(),
            None => 0,
        }
    }
}

/// `StringBuilder::with_capacity`: an empty builder; it reserves `item_capacity + 1`
/// offsets of 4 bytes and `data_capacity` data bytes, which panics beyond `isize::MAX` bytes.
#[verifier::external_body]
pub(crate) fn utf8_builder_with_capacity(item_capacity: usize, data_capacity: usize) -> (b: Utf8Column)
    requires
        (item_capacity + 1) * 4 <= isize::MAX,
        data_capacity <= isize::MAX,
    ensures
        utf8_column(b) == Seq::<Option<Seq<char>>>::empty(),
{
    Utf8Column { inner: StringBuilder::with_capacity(item_capacity, data_capacity) }
}

/// `StringBuilder::append_value`: appends the value; it panics when the data bytes
/// would pass `i32::MAX`.
#[verifier::external_body]
pub(crate) fn utf8_builder_append_value(b: &mut Utf8Column, v: String)
    requires
        utf8_bytes(utf8_column(*old(b)).push(string_slot(Some(v)))) <= i32::MAX,
    ensures
        utf8_column(*final(b)) == utf8_column(*old(b)).push(string_slot(Some(v))),
{
    b.inner.append_value(v)
}

/// `StringBuilder::append_option`: appends the value, or a null for `None`; it panics
/// when the data bytes would pass `i32::MAX`.
#[verifier::external_body]
pub(crate) fn utf8_builder_append_option(b: &mut Utf8Column, v: Option<String>)
    requires
        utf8_bytes(utf8_column(*old(b)).push(string_slot(v))) <= i32::MAX,
    ensures
        utf8_column(*final(b)) == utf8_column(*old(b)).push(string_slot(v)),
{
    b.inner.append_option(v)
}

/// `ArrayBuilder::len` of a `StringBuilder`: the number of slots.
#[verifier::external_body]
pub(crate) fn utf8_builder_len(b: &Utf8Column) -> (n: usize)
    ensures
        n == utf8_column(*b).len(),
{
    ArrayBuilder::len(&b.inner)
}

/// `StringBuilder::finish`: the array of the slots appended, as `ArrayData`; the
/// builder is left empty.
#[verifier::external_body]
pub(crate) fn utf8_builder_finish(b: &mut Utf8Column) -> (data: ArrayData)
    ensures
        utf8_column(*final(b)) == Seq::<Option<Seq<char>>>::empty(),
        utf8_array(data) == utf8_column(*old(b)),
        array_len(data) == utf8_column(*old(b)).len(),
        array_type(data) == ArrowType::Utf8,
        makes_array(data),
{
    b.inner.finish().into_data()
}

/// `StringBuilder::finish_cloned`: the array of the slots appended, as `ArrayData`;
/// the builder is unchanged.
#[verifier::external_body]
pub(crate) fn utf8_builder_finish_cloned(b: &Utf8Column) -> (data: ArrayData)
    ensures
        utf8_array(data) == utf8_column(*b),
        array_len(data) == utf8_column(*b).len(),
        array_type(data) == ArrowType::Utf8,
        makes_array(data),
{
    b.inner.finish_cloned().into_data()
}

/// An Arrow `BinaryBuilder`, held opaquely.
#[verifier::external_body]
pub struct BinaryColumn {
    inner: BinaryBuilder,
}

/// The slots of an array of Arrow type `Binary`: `None` where the array is null.
pub uninterp spec fn binary_array(data: ArrayData) -> Seq<Option<Seq<u8>>>;

/// The slots appended to the builder since it was made or last finished.
pub uninterp spec fn binary_column(b: BinaryColumn) -> Seq<Option<Seq<u8>>>;

/// A slot of a byte string column, by its contents.
pub open spec fn bytes_slot(v: Option<Vec<u8>>) -> Option<Seq<u8>> {
    match v {
        Some(s) => Some(s@),
        None => None,
    }
}

/// The number of data bytes that Arrow stores for the slots (nulls take none).
pub open spec fn binary_bytes(slots: Seq<Option<Seq<u8>>>) -> nat
    decreases slots.len(),
{
    if slots.len() == 0 {
        0
    } else {
        binary_bytes(slots.drop_last()) + match slots.last() {
            Some(v) => v.len(),
            None => 0,
        }
    }
}

/// `BinaryBuilder::with_capacity`: an empty builder; it reserves `item_capacity + 1`
/// offsets of 4 bytes and `data_capacity` data bytes, which panics beyond `isize::MAX` bytes.
#[verifier::external_body]
pub(crate) fn binary_builder_with_capacity(item_capacity: usize, data_capacity: usize) -> (b: BinaryColumn)
    requires
        (item_capacity + 1) * 4 <= isize::MAX,
        data_capacity <= isize::MAX,
    ensures
        binary_column(b) == Seq::<Option<Seq<u8>>>::empty(),
{
    BinaryColumn { inner: BinaryBuilder::with_capacity(item_capacity, data_capacity) }
}

/// `BinaryBuilder::append_value`: appends the value; it panics when the data bytes
/// would pass `i32::MAX`.
#[verifier::external_body]
pub(crate) fn binary_builder_append_value(b: &mut BinaryColumn, v: Vec<u8>)
    requires
        binary_bytes(binary_column(*old(b)).push(bytes_slot(Some(v)))) <= i32::MAX,
    ensures
        binary_column(*final(b)) == binary_column(*old(b)).push(bytes_slot(Some(v))),
{
    b.inner.append_value(v)
}

/// `BinaryBuilder::append_option`: appends the value, or a null for `None`; it panics
/// when the data bytes would pass `i32::MAX`.
#[verifier::external_body]
pub(crate) fn binary_builder_append_option(b: &mut BinaryColumn, v: Option<Vec<u8>>)
    requires
        binary_bytes(binary_column(*old(b)).push(bytes_slot(v))) <= i32::MAX,
    ensures
        binary_column(*final(b)) == binary_column(*old(b)).push(bytes_slot(v)),
{
    b.inner.append_option(v)
}

/// `ArrayBuilder::len` of a `BinaryBuilder`: the number of slots.
#[verifier::external_body]
pub(crate) fn binary_builder_len(b: &BinaryColumn) -> (n: usize)
    ensures
        n == binary_column(*b).len(),
{
    ArrayBuilder::len(&b.inner)
}

/// `BinaryBuilder::finish`: the array of the slots appended, as `ArrayData`; the
/// builder is left empty.
#[verifier::external_body]
pub(crate) fn binary_builder_finish(b: &mut BinaryColumn) -> (data: ArrayData)
    ensures
        binary_column(*final(b)) == Seq::<Option<Seq<u8>>>::empty(),
        binary_array(data) == binary_column(*old(b)),
        array_len(data) == binary_column(*old(b)).len(),
        array_type(data) == ArrowType::Binary,
        makes_array(data),
{
    b.inner.finish().into_data()
}

/// `BinaryBuilder::finish_cloned`: the array of the slots appended, as `ArrayData`;
/// the builder is unchanged.
#[verifier::external_body]
pub(crate) fn binary_builder_finish_cloned(b: &BinaryColumn) -> (data: ArrayData)
    ensures
        binary_array(data) == binary_column(*b),
        array_len(data) == binary_column(*b).len(),
        array_type(data) == ArrowType::Binary,
        makes_array(data),
{
    b.inner.finish_cloned().into_data()
}

#[verifier::external_type_specification]
#[verifier::external_body]
pub struct ExNullBufferBuilder(NullBufferBuilder);

#[verifier::external_type_specification]
#[verifier::external_body]
pub struct ExNullBuffer(NullBuffer);

/// The validity bits appended to a `NullBufferBuilder` since it was made or
/// last finished: `true` for a valid slot, `false` for a null.
pub uninterp spec fn null_bits(b: NullBufferBuilder) -> Seq<bool>;

/// The validity bits of a `NullBuffer`.
pub uninterp spec fn null_buffer_bits(n: NullBuffer) -> Seq<bool>;

/// The offsets of a `List` array: slot `i` spans the child values
/// `offsets[i]` up to `offsets[i + 1]`.
pub uninterp spec fn list_offsets(data: ArrayData) -> Seq<i32>;

/// The validity bits of a `List` array.
pub uninterp spec fn list_validity(data: ArrayData) -> Seq<bool>;

/// The child (values) array of a `List` array.
pub uninterp spec fn list_values(data: ArrayData) -> ArrayData;

/// `NullBufferBuilder::new`: an empty builder (it allocates nothing).
#[verifier::external_body]
pub(crate) fn null_builder_new(capacity: usize) -> (b: NullBufferBuilder)
    ensures
        null_bits(b) == Seq::<bool>::empty(),
{
    NullBufferBuilder::new(capacity)
}

/// `NullBufferBuilder::append`: appends a validity bit.
#[verifier::external_body]
pub(crate) fn null_builder_append(b: &mut NullBufferBuilder, valid: bool)
    ensures
        null_bits(*final(b)) == null_bits(*old(b)).push(valid),
{
    b.append(valid)
}

/// `NullBufferBuilder::len`: the number of bits appended.
#[verifier::external_body]
pub(crate) fn null_builder_len(b: &NullBufferBuilder) -> (n: usize)
    ensures
        n == null_bits(*b).len(),
{
    b.len()
}

/// `NullBufferBuilder::finish`: the bits appended, or `None` when the builder
/// never stored a null (then every bit appended is `true`); the builder is left empty.
#[verifier::external_body]
pub(crate) fn null_builder_finish(b: &mut NullBufferBuilder) -> (nulls: Option<NullBuffer>)
    ensures
        null_bits(*final(b)) == Seq::<bool>::empty(),
        match nulls {
            Some(n) => null_buffer_bits(n) == null_bits(*old(b)),
            None => forall|i: int| 0 <= i < null_bits(*old(b)).len() ==> null_bits(*old(b))[i],
        },
{
    b.finish()
}

/// `NullBufferBuilder::finish_cloned`: as `finish`, but the builder is unchanged.
#[verifier::external_body]
pub(crate) fn null_builder_finish_cloned(b: &NullBufferBuilder) -> (nulls: Option<NullBuffer>)
    ensures
        match nulls {
            Some(n) => null_buffer_bits(n) == null_bits(*b),
            None => forall|i: int| 0 <= i < null_bits(*b).len() ==> null_bits(*b)[i],
        },
{
    b.finish_cloned()
}

/// Whether `offsets` is a valid offset buffer: non-empty, starting at or above
/// zero and never decreasing (what `OffsetBuffer::new` asserts).
pub open spec fn valid_offsets(offsets: Seq<i32>) -> bool {
    &&& offsets.len() > 0
    &&& offsets[0] >= 0
    &&& forall|i: int, j: int| 0 <= i <= j < offsets.len() ==> offsets[i] <= offsets[j]
}

/// The validity bits of a slot count `len` given as an optional `NullBuffer`:
/// its bits, or all `true` when there is none.
pub open spec fn nulls_validity(nulls: Option<NullBuffer>, len: nat) -> Seq<bool> {
    match nulls {
        Some(n) => null_buffer_bits(n),
        None => Seq::new(len, |i: int| true),
    }
}

/// `ListArray::new`, with the offsets wrapped by `OffsetBuffer::new` and the
/// child given as `ArrayData` (through `make_array`), with the nullable item
/// field `Field::new_list_field(values.data_type(), true)`, as `ListBuilder`
/// makes it. The result is the list array as `ArrayData`. `ListArray::new`
/// panics when the last offset passes the child's length or the validity bits
/// are not one per slot; `OffsetBuffer::new` panics on invalid offsets.
#[verifier::external_body]
pub(crate) fn list_array_data(values: ArrayData, offsets: Vec<i32>, nulls: Option<NullBuffer>) -> (data: ArrayData)
    requires
        valid_offsets(offsets@),
        offsets@.last() <= array_len(values),
        makes_array(values),
        nulls matches Some(n) ==> null_buffer_bits(n).len() + 1 == offsets@.len(),
    ensures
        array_len(data) + 1 == offsets@.len(),
        list_offsets(data) == offsets@,
        list_values(data) == values,
        array_type(data) == ArrowType::List(Box::new(array_type(values))),
        list_validity(data) == nulls_validity(nulls, (offsets@.len() - 1) as nat),
        makes_array(data),
{
    let values = make_array(values);
    let field = Arc::new(Field::new_list_field(values.data_type().clone(), true));
    ListArray::new(field, OffsetBuffer::new(ScalarBuffer::from(offsets)), values, nulls).into_data()
}

} // verus!
