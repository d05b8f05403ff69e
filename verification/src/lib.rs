//! Arrow array builders for prost-generated message types.
//!
//! Every builder appends slots (a value or a null) to an Arrow column and, on
//! `finish`, hands the column over as Arrow `ArrayData`. The contracts describe
//! each builder by the sequence of slots it holds.
use vstd::prelude::*;

pub mod arrow_specs;
pub mod binary;
pub mod laws;
pub mod lists;
pub mod traits;
pub mod primitives;
pub mod schema;

pub use binary::{ArrowBinaryBuilder, ArrowStringBuilder};
pub use lists::ArrowListBuilder;
pub use primitives::PrimitiveArrowBuilder;
pub use schema::{
    plan_builder, struct_datatype, BuilderPlan, DeriveError, FieldType, ItemShape, NamedField, ProstField, SegmentArgs,
};
pub use traits::{ArrowBuilder, ArrowField, ArrowType, ToArrow};

verus! {

/// Returns an empty builder for columns of `T`.
pub fn new_builder<T: ToArrow>() -> (builder: T::Builder)
    requires
        <T::Builder as ArrowBuilder<T::Item>>::capacity_ok(0),
    ensures
        builder.inv(),
        builder.slots() == Seq::<Option<T::Item>>::empty(),
{
    T::Builder::new_with_capacity(0)
}

/// Returns an empty builder for columns of `T`, with room reserved for `capacity` slots.
pub fn new_builder_with_capacity<T: ToArrow>(capacity: usize) -> (builder: T::Builder)
    requires
        <T::Builder as ArrowBuilder<T::Item>>::capacity_ok(capacity),
    ensures
        builder.inv(),
        builder.slots() == Seq::<Option<T::Item>>::empty(),
{
    T::Builder::new_with_capacity(capacity)
}

} // verus!
