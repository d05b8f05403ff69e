//! Builders for columns of booleans and of fixed-width integers.
use vstd::prelude::*;

use arrow_array::builder::BooleanBuilder;
use arrow_data::ArrayData;

use crate::arrow_specs::{
    bool_array, bool_builder_append_option, bool_builder_append_value, bool_builder_finish,
    bool_builder_finish_cloned, bool_builder_len, bool_builder_with_capacity, bool_column,
    Int32Column, Int64Column, UInt32Column, UInt64Column, int32_array, int32_builder_append_option,
    int32_builder_append_value, int32_builder_finish, int32_builder_finish_cloned,
    int32_builder_len, int32_builder_with_capacity, int32_column, int64_array,
    int64_builder_append_option, int64_builder_append_value, int64_builder_finish,
    int64_builder_finish_cloned, int64_builder_len, int64_builder_with_capacity, int64_column,
    uint32_array, uint32_builder_append_option, uint32_builder_append_value, uint32_builder_finish,
    uint32_builder_finish_cloned, uint32_builder_len, uint32_builder_with_capacity, uint32_column,
    uint64_array, uint64_builder_append_option, uint64_builder_append_value, uint64_builder_finish,
    uint64_builder_finish_cloned, uint64_builder_len, uint64_builder_with_capacity, uint64_column,
};
use crate::traits::{ArrowBuilder, ArrowType, ToArrow};

verus! {

/// A column builder for booleans or a fixed-width integer type; `C` holds the Arrow builder.
#[verifier::reject_recursive_types(C)]
pub struct PrimitiveArrowBuilder<C> {
    builder: C,
}

impl ToArrow for bool {
    type Item = bool;

    type Builder = PrimitiveArrowBuilder<BooleanBuilder>;

    fn to_datatype() -> (t: ArrowType) {
        ArrowType::Boolean
    }
}

impl ArrowBuilder<bool> for PrimitiveArrowBuilder<BooleanBuilder> {
    closed spec fn slots(&self) -> Seq<Option<bool>> {
        bool_column(self.builder)
    }

    closed spec fn inv(&self) -> bool {
        true
    }

    open spec fn fits(slots: Seq<Option<bool>>) -> bool {
        true
    }

    open spec fn capacity_ok(capacity: usize) -> bool {
        true
    }

    open spec fn column_type() -> ArrowType {
        ArrowType::Boolean
    }

    open spec fn holds(data: ArrayData, slots: Seq<Option<bool>>) -> bool {
        bool_array(data) == slots
    }

    fn new_with_capacity(capacity: usize) -> (builder: Self) {
        PrimitiveArrowBuilder { builder: bool_builder_with_capacity(capacity) }
    }

    fn append_value(&mut self, value: bool) {
        bool_builder_append_value(&mut self.builder, value)
    }

    fn append_option(&mut self, value: Option<bool>) {
        bool_builder_append_option(&mut self.builder, value)
    }

    fn len(&self) -> (n: usize) {
        bool_builder_len(&self.builder)
    }

    fn finish(&mut self) -> (data: ArrayData) {
        bool_builder_finish(&mut self.builder)
    }

    fn finish_cloned(&self) -> (data: ArrayData) {
        bool_builder_finish_cloned(&self.builder)
    }
}

impl ToArrow for i32 {
    type Item = i32;

    type Builder = PrimitiveArrowBuilder<Int32Column>;

    fn to_datatype() -> (t: ArrowType) {
        ArrowType::Int32
    }
}

impl ArrowBuilder<i32> for PrimitiveArrowBuilder<Int32Column> {
    closed spec fn slots(&self) -> Seq<Option<i32>> {
        int32_column(self.builder)
    }

    closed spec fn inv(&self) -> bool {
        true
    }

    open spec fn fits(slots: Seq<Option<i32>>) -> bool {
        true
    }

    open spec fn capacity_ok(capacity: usize) -> bool {
        capacity * 4 <= isize::MAX
    }

    open spec fn column_type() -> ArrowType {
        ArrowType::Int32
    }

    open spec fn holds(data: ArrayData, slots: Seq<Option<i32>>) -> bool {
        int32_array(data) == slots
    }


    fn new_with_capacity(capacity: usize) -> (builder: Self) {
        PrimitiveArrowBuilder { builder: int32_builder_with_capacity(capacity) }
    }

    fn append_value(&mut self, value: i32) {
        int32_builder_append_value(&mut self.builder, value)
    }

    fn append_option(&mut self, value: Option<i32>) {
        int32_builder_append_option(&mut self.builder, value)
    }

    fn len(&self) -> (n: usize) {
        int32_builder_len(&self.builder)
    }

    fn finish(&mut self) -> (data: ArrayData) {
        int32_builder_finish(&mut self.builder)
    }

    fn finish_cloned(&self) -> (data: ArrayData) {
        int32_builder_finish_cloned(&self.builder)
    }
}

impl ToArrow for i64 {
    type Item = i64;

    type Builder = PrimitiveArrowBuilder<Int64Column>;

    fn to_datatype() -> (t: ArrowType) {
        ArrowType::Int64
    }
}

impl ArrowBuilder<i64> for PrimitiveArrowBuilder<Int64Column> {
    closed spec fn slots(&self) -> Seq<Option<i64>> {
        int64_column(self.builder)
    }

    closed spec fn inv(&self) -> bool {
        true
    }

    open spec fn fits(slots: Seq<Option<i64>>) -> bool {
        true
    }

    open spec fn capacity_ok(capacity: usize) -> bool {
        capacity * 8 <= isize::MAX
    }

    open spec fn column_type() -> ArrowType {
        ArrowType::Int64
    }

    open spec fn holds(data: ArrayData, slots: Seq<Option<i64>>) -> bool {
        int64_array(data) == slots
    }


    fn new_with_capacity(capacity: usize) -> (builder: Self) {
        PrimitiveArrowBuilder { builder: int64_builder_with_capacity(capacity) }
    }

    fn append_value(&mut self, value: i64) {
        int64_builder_append_value(&mut self.builder, value)
    }

    fn append_option(&mut self, value: Option<i64>) {
        int64_builder_append_option(&mut self.builder, value)
    }

    fn len(&self) -> (n: usize) {
        int64_builder_len(&self.builder)
    }

    fn finish(&mut self) -> (data: ArrayData) {
        int64_builder_finish(&mut self.builder)
    }

    fn finish_cloned(&self) -> (data: ArrayData) {
        int64_builder_finish_cloned(&self.builder)
    }
}

impl ToArrow for u32 {
    type Item = u32;

    type Builder = PrimitiveArrowBuilder<UInt32Column>;

    fn to_datatype() -> (t: ArrowType) {
        ArrowType::UInt32
    }
}

impl ArrowBuilder<u32> for PrimitiveArrowBuilder<UInt32Column> {
    closed spec fn slots(&self) -> Seq<Option<u32>> {
        uint32_column(self.builder)
    }

    closed spec fn inv(&self) -> bool {
        true
    }

    open spec fn fits(slots: Seq<Option<u32>>) -> bool {
        true
    }

    open spec fn capacity_ok(capacity: usize) -> bool {
        capacity * 4 <= isize::MAX
    }

    open spec fn column_type() -> ArrowType {
        ArrowType::UInt32
    }

    open spec fn holds(data: ArrayData, slots: Seq<Option<u32>>) -> bool {
        uint32_array(data) == slots
    }


    fn new_with_capacity(capacity: usize) -> (builder: Self) {
        PrimitiveArrowBuilder { builder: uint32_builder_with_capacity(capacity) }
    }

    fn append_value(&mut self, value: u32) {
        uint32_builder_append_value(&mut self.builder, value)
    }

    fn append_option(&mut self, value: Option<u32>) {
        uint32_builder_append_option(&mut self.builder, value)
    }

    fn len(&self) -> (n: usize) {
        uint32_builder_len(&self.builder)
    }

    fn finish(&mut self) -> (data: ArrayData) {
        uint32_builder_finish(&mut self.builder)
    }

    fn finish_cloned(&self) -> (data: ArrayData) {
        uint32_builder_finish_cloned(&self.builder)
    }
}

impl ToArrow for u64 {
    type Item = u64;

    type Builder = PrimitiveArrowBuilder<UInt64Column>;

    fn to_datatype() -> (t: ArrowType) {
        ArrowType::UInt64
    }
}

impl ArrowBuilder<u64> for PrimitiveArrowBuilder<UInt64Column> {
    closed spec fn slots(&self) -> Seq<Option<u64>> {
        uint64_column(self.builder)
    }

    closed spec fn inv(&self) -> bool {
        true
    }

    open spec fn fits(slots: Seq<Option<u64>>) -> bool {
        true
    }

    open spec fn capacity_ok(capacity: usize) -> bool {
        capacity * 8 <= isize::MAX
    }

    open spec fn column_type() -> ArrowType {
        ArrowType::UInt64
    }

    open spec fn holds(data: ArrayData, slots: Seq<Option<u64>>) -> bool {
        uint64_array(data) == slots
    }


    fn new_with_capacity(capacity: usize) -> (builder: Self) {
        PrimitiveArrowBuilder { builder: uint64_builder_with_capacity(capacity) }
    }

    fn append_value(&mut self, value: u64) {
        uint64_builder_append_value(&mut self.builder, value)
    }

    fn append_option(&mut self, value: Option<u64>) {
        uint64_builder_append_option(&mut self.builder, value)
    }

    fn len(&self) -> (n: usize) {
        uint64_builder_len(&self.builder)
    }

    fn finish(&mut self) -> (data: ArrayData) {
        uint64_builder_finish(&mut self.builder)
    }

    fn finish_cloned(&self) -> (data: ArrayData) {
        uint64_builder_finish_cloned(&self.builder)
    }
}

} // verus!
