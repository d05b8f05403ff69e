//! The traits that tie a Rust type to its Arrow column builder.
use vstd::prelude::*;

use arrow_data::ArrayData;

use crate::arrow_specs::{array_len, array_type, makes_array};

verus! {

/// The Arrow data type of a column, as plain values.
#[derive(Debug, PartialEq, Eq)]
pub enum ArrowType {
    Boolean,
    Int32,
    Int64,
    UInt32,
    UInt64,
    Float32,
    Float64,
    Utf8,
    Binary,
    /// A list whose items are nullable and of the given type (item field name `item`).
    List(Box<ArrowType>),
    /// A struct with the given fields, in order.
    Struct(Vec<ArrowField>),
}

/// A named, possibly nullable, field of a struct type.
#[derive(Debug, PartialEq, Eq)]
pub struct ArrowField {
    pub name: String,
    pub data_type: ArrowType,
    pub nullable: bool,
}

/// A builder of an Arrow column whose values are of type `T`.
///
/// A builder is described by `slots`: one entry per appended slot, `Some(v)`
/// for a value and `None` for a null, in the order they were appended since
/// the builder was created or last finished.
///
/// Every builder of this crate defines the specification functions below. They
/// have defaults only so that a builder written outside Verus (such as the
/// code that the `ToArrow` derive generates for a message) can implement the
/// trait. Such a builder has no invariant and admits no capacity and no slots
/// (`inv`, `capacity_ok` and `fits` are `false`), so no verified code can make
/// one or call it, and nothing proved here rests on its contracts; its slots,
/// column type and arrays are unspecified. A list builder over its values
/// inherits the same: lists of such values carry no guarantee.
pub trait ArrowBuilder<T>: Sized {
    /// The slots appended so far.
    open spec fn slots(&self) -> Seq<Option<T>> {
        arbitrary()
    }

    /// The builder's internal invariant.
    open spec fn inv(&self) -> bool {
        false
    }

    /// Whether a column holding `slots` is within what Arrow can store
    /// (for instance 32-bit offsets into variable-length data).
    open spec fn fits(slots: Seq<Option<T>>) -> bool {
        false
    }

    /// Whether the buffers reserved for `capacity` slots can be allocated.
    open spec fn capacity_ok(capacity: usize) -> bool {
        false
    }

    /// The Arrow type of the arrays that the builder finishes.
    open spec fn column_type() -> ArrowType {
        arbitrary()
    }

    /// Whether `data` is an Arrow array holding exactly `slots`.
    open spec fn holds(data: ArrayData, slots: Seq<Option<T>>) -> bool {
        arbitrary()
    }

    /// Creates an empty builder with room reserved for `capacity` slots.
    fn new_with_capacity(capacity: usize) -> (builder: Self)
        requires
            Self::capacity_ok(capacity),
        ensures
            builder.inv(),
            builder.slots() == Seq::<Option<T>>::empty(),
            Self::fits(builder.slots()),
    ;

    /// Appends a value.
    fn append_value(&mut self, value: T)
        requires
            old(self).inv(),
            Self::fits(old(self).slots().push(Some(value))),
        ensures
            final(self).inv(),
            final(self).slots() == old(self).slots().push(Some(value)),
    ;

    /// Appends a value, or a null for `None`.
    fn append_option(&mut self, value: Option<T>)
        requires
            old(self).inv(),
            Self::fits(old(self).slots().push(value)),
        ensures
            final(self).inv(),
            final(self).slots() == old(self).slots().push(value),
    ;

    /// Appends a value, or a null for `None` (the same as `append_option`).
    fn append(&mut self, value: Option<T>)
        requires
            old(self).inv(),
            Self::fits(old(self).slots().push(value)),
        ensures
            final(self).inv(),
            final(self).slots() == old(self).slots().push(value),
    {
        self.append_option(value)
    }

    /// The number of slots appended.
    fn len(&self) -> (n: usize)
        requires
            self.inv(),
        ensures
            n == self.slots().len(),
    ;

    /// Builds the array of the slots appended and empties the builder.
    fn finish(&mut self) -> (data: ArrayData)
        requires
            old(self).inv(),
        ensures
            final(self).inv(),
            final(self).slots() == Seq::<Option<T>>::empty(),
            Self::fits(final(self).slots()),
            Self::holds(data, old(self).slots()),
            array_len(data) == old(self).slots().len(),
            array_type(data) == Self::column_type(),
            makes_array(data),
    ;

    /// Builds the array of the slots appended, leaving the builder as it is.
    fn finish_cloned(&self) -> (data: ArrayData)
        requires
            self.inv(),
        ensures
            Self::holds(data, self.slots()),
            array_len(data) == self.slots().len(),
            array_type(data) == Self::column_type(),
            makes_array(data),
    ;
}

/// A Rust type with an Arrow column type and a column builder.
pub trait ToArrow: Sized {
    type Item;

    type Builder: ArrowBuilder<Self::Item>;

    /// Returns the Arrow type of the column: that of the arrays its builder finishes.
    fn to_datatype() -> (t: ArrowType)
        ensures
            t == <Self::Builder as ArrowBuilder<Self::Item>>::column_type(),
    ;
}

} // verus!
