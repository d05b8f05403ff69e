//! Builders for columns of strings and of byte strings.
use vstd::prelude::*;

use arrow_data::ArrayData;

use crate::arrow_specs::{
    BinaryColumn, Utf8Column, binary_array, binary_builder_append_option,
    binary_builder_append_value, binary_builder_finish, binary_builder_finish_cloned,
    binary_builder_len, binary_builder_with_capacity, binary_bytes, binary_column, bytes_slot,
    string_slot, utf8_array, utf8_builder_append_option, utf8_builder_append_value,
    utf8_builder_finish, utf8_builder_finish_cloned, utf8_builder_len, utf8_builder_with_capacity,
    utf8_bytes, utf8_column,
};
use crate::traits::{ArrowBuilder, ArrowType, ToArrow};

verus! {

/// The contents of each slot of a column of strings.
pub open spec fn string_slots(slots: Seq<Option<String>>) -> Seq<Option<Seq<char>>> {
    slots.map_values(|v: Option<String>| string_slot(v))
}

/// A column builder for strings.
pub struct ArrowStringBuilder {
    builder: Utf8Column,
    slots: Ghost<Seq<Option<String>>>,
}

impl ToArrow for String {
    type Item = String;

    type Builder = ArrowStringBuilder;

    fn to_datatype() -> (t: ArrowType) {
        ArrowType::Utf8
    }
}

impl ArrowBuilder<String> for ArrowStringBuilder {
    closed spec fn slots(&self) -> Seq<Option<String>> {
        self.slots@
    }

    closed spec fn inv(&self) -> bool {
        &&& utf8_column(self.builder) == string_slots(self.slots@)
        &&& Self::fits(self.slots@)
    }

    open spec fn fits(slots: Seq<Option<String>>) -> bool {
        utf8_bytes(string_slots(slots)) <= i32::MAX
    }

    open spec fn capacity_ok(capacity: usize) -> bool {
        capacity * 1024 <= isize::MAX
    }

    open spec fn column_type() -> ArrowType {
        ArrowType::Utf8
    }

    open spec fn holds(data: ArrayData, slots: Seq<Option<String>>) -> bool {
        utf8_array(data) == string_slots(slots)
    }


    fn new_with_capacity(capacity: usize) -> (builder: Self) {
        assert((capacity + 1) * 4 <= isize::MAX) by (nonlinear_arith)
            requires
                capacity * 1024 <= isize::MAX,
        ;
        let builder = utf8_builder_with_capacity(capacity, capacity * 1024);
        assert(string_slots(Seq::<Option<String>>::empty()) =~= Seq::<Option<Seq<char>>>::empty());
        ArrowStringBuilder { builder, slots: Ghost(Seq::empty()) }
    }

    fn append_value(&mut self, value: String) {
        let ghost v = value;
        proof {
            assert(string_slots(self.slots@.push(Some(v))) =~= string_slots(self.slots@).push(
                string_slot(Some(v)),
            ));
        }
        utf8_builder_append_value(&mut self.builder, value);
        self.slots = Ghost(self.slots@.push(Some(v)));
    }

    fn append_option(&mut self, value: Option<String>) {
        let ghost v = value;
        proof {
            assert(string_slots(self.slots@.push(v)) =~= string_slots(self.slots@).push(string_slot(v)));
        }
        utf8_builder_append_option(&mut self.builder, value);
        self.slots = Ghost(self.slots@.push(v));
    }

    fn len(&self) -> (n: usize) {
        utf8_builder_len(&self.builder)
    }

    fn finish(&mut self) -> (data: ArrayData) {
        let data = utf8_builder_finish(&mut self.builder);
        self.slots = Ghost(Seq::empty());
        assert(string_slots(Seq::<Option<String>>::empty()) =~= Seq::<Option<Seq<char>>>::empty());
        data
    }

    fn finish_cloned(&self) -> (data: ArrayData) {
        utf8_builder_finish_cloned(&self.builder)
    }
}

/// The contents of each slot of a column of byte strings.
pub open spec fn bytes_slots(slots: Seq<Option<Vec<u8>>>) -> Seq<Option<Seq<u8>>> {
    slots.map_values(|v: Option<Vec<u8>>| bytes_slot(v))
}

/// A column builder for byte strings.
pub struct ArrowBinaryBuilder {
    builder: BinaryColumn,
    slots: Ghost<Seq<Option<Vec<u8>>>>,
}

impl ToArrow for Vec<u8> {
    type Item = Vec<u8>;

    type Builder = ArrowBinaryBuilder;

    fn to_datatype() -> (t: ArrowType) {
        ArrowType::Binary
    }
}

impl ArrowBuilder<Vec<u8>> for ArrowBinaryBuilder {
    closed spec fn slots(&self) -> Seq<Option<Vec<u8>>> {
        self.slots@
    }

    closed spec fn inv(&self) -> bool {
        &&& binary_column(self.builder) == bytes_slots(self.slots@)
        &&& Self::fits(self.slots@)
    }

    open spec fn fits(slots: Seq<Option<Vec<u8>>>) -> bool {
        binary_bytes(bytes_slots(slots)) <= i32::MAX
    }

    open spec fn capacity_ok(capacity: usize) -> bool {
        capacity * 1024 <= isize::MAX
    }

    open spec fn column_type() -> ArrowType {
        ArrowType::Binary
    }

    open spec fn holds(data: ArrayData, slots: Seq<Option<Vec<u8>>>) -> bool {
        binary_array(data) == bytes_slots(slots)
    }


    fn new_with_capacity(capacity: usize) -> (builder: Self) {
        assert((capacity + 1) * 4 <= isize::MAX) by (nonlinear_arith)
            requires
                capacity * 1024 <= isize::MAX,
        ;
        let builder = binary_builder_with_capacity(capacity, capacity * 1024);
        assert(bytes_slots(Seq::<Option<Vec<u8>>>::empty()) =~= Seq::<Option<Seq<u8>>>::empty());
        ArrowBinaryBuilder { builder, slots: Ghost(Seq::empty()) }
    }

    fn append_value(&mut self, value: Vec<u8>) {
        let ghost v = value;
        proof {
            assert(bytes_slots(self.slots@.push(Some(v))) =~= bytes_slots(self.slots@).push(
                bytes_slot(Some(v)),
            ));
        }
        binary_builder_append_value(&mut self.builder, value);
        self.slots = Ghost(self.slots@.push(Some(v)));
    }

    fn append_option(&mut self, value: Option<Vec<u8>>) {
        let ghost v = value;
        proof {
            assert(bytes_slots(self.slots@.push(v)) =~= bytes_slots(self.slots@).push(bytes_slot(v)));
        }
        binary_builder_append_option(&mut self.builder, value);
        self.slots = Ghost(self.slots@.push(v));
    }

    fn len(&self) -> (n: usize) {
        binary_builder_len(&self.builder)
    }

    fn finish(&mut self) -> (data: ArrayData) {
        let data = binary_builder_finish(&mut self.builder);
        self.slots = Ghost(Seq::empty());
        assert(bytes_slots(Seq::<Option<Vec<u8>>>::empty()) =~= Seq::<Option<Seq<u8>>>::empty());
        data
    }

    fn finish_cloned(&self) -> (data: ArrayData) {
        binary_builder_finish_cloned(&self.builder)
    }
}

} // verus!
