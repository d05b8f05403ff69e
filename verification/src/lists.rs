//! Builders for list columns (repeated fields).
use vstd::prelude::*;

use arrow_buffer::NullBufferBuilder;
use arrow_data::ArrayData;

use crate::arrow_specs::{
    array_len, list_array_data, list_offsets, list_validity, list_values,
    makes_array, null_bits, null_buffer_bits, null_builder_append, null_builder_finish,
    null_builder_finish_cloned, null_builder_len, null_builder_new, nulls_validity,
    valid_offsets,
};
use crate::schema::field_datatype;
use crate::traits::{ArrowBuilder, ArrowType, ToArrow};

verus! {

/// The child slots of one list slot: its items, each a value; none for a null list.
pub open spec fn item_slots<T>(slot: Option<Vec<T>>) -> Seq<Option<T>> {
    match slot {
        Some(v) => v@.map_values(|x: T| Some(x)),
        None => Seq::empty(),
    }
}

/// The child column of a list column: the items of every list slot, in order.
pub open spec fn flatten<T>(slots: Seq<Option<Vec<T>>>) -> Seq<Option<T>>
    decreases slots.len(),
{
    if slots.len() == 0 {
        Seq::empty()
    } else {
        flatten(slots.drop_last()) + item_slots(slots.last())
    }
}

/// The validity of each slot of a column: `true` where it holds a value.
pub open spec fn validity_of<T>(slots: Seq<Option<T>>) -> Seq<bool> {
    slots.map_values(|s: Option<T>| s is Some)
}

/// `offsets` are the offsets of the list column `slots`: entry `i` is the
/// number of child slots before list slot `i`, and the last is their total.
pub open spec fn offsets_of<T>(offsets: Seq<i32>, slots: Seq<Option<Vec<T>>>) -> bool {
    &&& offsets.len() == slots.len() + 1
    &&& forall|i: int| 0 <= i <= slots.len() ==> offsets[i] == #[trigger] flatten(slots.take(i)).len()
}

/// The child column of a list column starts with the child column of any prefix.
pub proof fn lemma_flatten_prefix<T>(slots: Seq<Option<Vec<T>>>, n: int)
    requires
        0 <= n <= slots.len(),
    ensures
        flatten(slots.take(n)).len() <= flatten(slots).len(),
        flatten(slots).take(flatten(slots.take(n)).len() as int) == flatten(slots.take(n)),
    decreases slots.len(),
{
    if n == slots.len() {
        assert(slots.take(n) =~= slots);
        assert(flatten(slots).take(flatten(slots).len() as int) =~= flatten(slots));
    } else {
        let rest = slots.drop_last();
        assert(rest.take(n) =~= slots.take(n));
        lemma_flatten_prefix(rest, n);
        let k = flatten(slots.take(n)).len() as int;
        assert(flatten(slots).take(k) =~= flatten(rest).take(k));
    }
}

/// Appending a list slot appends its items to the child column.
pub proof fn lemma_flatten_push<T>(slots: Seq<Option<Vec<T>>>, slot: Option<Vec<T>>)
    ensures
        flatten(slots.push(slot)) == flatten(slots) + item_slots(slot),
{
    assert(slots.push(slot).drop_last() =~= slots);
}

/// The offsets of a list column never decrease.
pub proof fn lemma_offsets_valid<T>(offsets: Seq<i32>, slots: Seq<Option<Vec<T>>>)
    requires
        offsets_of(offsets, slots),
    ensures
        valid_offsets(offsets),
        offsets.last() == flatten(slots).len(),
{
    assert(slots.take(0) =~= Seq::<Option<Vec<T>>>::empty());
    assert(offsets[0] == flatten(slots.take(0)).len());
    assert(slots.take(slots.len() as int) =~= slots);
    assert(offsets[slots.len() as int] == flatten(slots.take(slots.len() as int)).len());
    assert forall|i: int, j: int| 0 <= i <= j < offsets.len() implies offsets[i] <= offsets[j] by {
        assert(slots.take(j).take(i) =~= slots.take(i));
        lemma_flatten_prefix(slots.take(j), i);
        assert(offsets[i] == flatten(slots.take(i)).len());
        assert(offsets[j] == flatten(slots.take(j)).len());
    }
}

/// Law: list slot `i` of a list column spans, in the child column, exactly the
/// items appended with it; a null list slot spans none.
pub proof fn law_list_slot_items<T>(offsets: Seq<i32>, slots: Seq<Option<Vec<T>>>, i: int)
    requires
        offsets_of(offsets, slots),
        0 <= i < slots.len(),
    ensures
        0 <= offsets[i] <= offsets[i + 1] <= flatten(slots).len(),
        flatten(slots).subrange(offsets[i] as int, offsets[i + 1] as int) == item_slots(slots[i]),
        slots[i] is None ==> offsets[i] == offsets[i + 1],
{
    let before = slots.take(i);
    let upto = slots.take(i + 1);
    assert(upto.drop_last() =~= before);
    assert(upto.last() == slots[i]);
    assert(offsets[i] == flatten(before).len());
    assert(offsets[i + 1] == flatten(upto).len());
    lemma_flatten_prefix(slots, i + 1);
    let a = offsets[i] as int;
    let b = offsets[i + 1] as int;
    assert(flatten(slots).subrange(a, b) =~= flatten(upto).subrange(a, b));
    assert(flatten(upto).subrange(a, b) =~= item_slots(slots[i]));
}

/// Law: the Arrow type that the derive gives a field whose inner type is `T`
/// is the type of the arrays its column builder finishes: the builder of `T`
/// for a scalar field, the list builder of `T` for a repeated one.
pub proof fn law_field_type_matches_builder<T: ToArrow<Item = T>>(array: bool)
    ensures
        array ==> field_datatype(array, <T::Builder as ArrowBuilder<T>>::column_type())
            == <ArrowListBuilder<T> as ArrowBuilder<Vec<T>>>::column_type(),
        !array ==> field_datatype(array, <T::Builder as ArrowBuilder<T>>::column_type())
            == <T::Builder as ArrowBuilder<T>>::column_type(),
{
}

/// Law: in a list array that holds `slots` (as `finish` returns it), slot `i` is
/// valid exactly when a list was appended there, and its offsets delimit, in
/// the child array, exactly the items of that list.
pub proof fn law_finished_list_slot<T: ToArrow<Item = T>>(
    data: ArrayData,
    slots: Seq<Option<Vec<T>>>,
    i: int,
)
    requires
        <ArrowListBuilder<T> as ArrowBuilder<Vec<T>>>::holds(data, slots),
        0 <= i < slots.len(),
    ensures
        list_validity(data)[i] == slots[i] is Some,
        <T::Builder as ArrowBuilder<T>>::holds(list_values(data), flatten(slots)),
        0 <= list_offsets(data)[i] <= list_offsets(data)[i + 1] <= array_len(list_values(data)),
        flatten(slots).subrange(list_offsets(data)[i] as int, list_offsets(data)[i + 1] as int)
            == item_slots(slots[i]),
{
    law_list_slot_items(list_offsets(data), slots, i);
}

/// A column builder for lists of `T`, whose items go to `T`'s own builder.
#[verifier::reject_recursive_types(T)]
pub struct ArrowListBuilder<T: ToArrow<Item = T>> {
    values: T::Builder,
    offsets: Vec<i32>,
    validity: NullBufferBuilder,
    slots: Ghost<Seq<Option<Vec<T>>>>,
}

impl<T: ToArrow<Item = T>> ArrowBuilder<Vec<T>> for ArrowListBuilder<T> {
    closed spec fn slots(&self) -> Seq<Option<Vec<T>>> {
        self.slots@
    }

    closed spec fn inv(&self) -> bool {
        &&& offsets_of(self.offsets@, self.slots@)
        &&& self.values.inv()
        &&& self.values.slots() == flatten(self.slots@)
        &&& null_bits(self.validity) == validity_of(self.slots@)
        &&& Self::fits(self.slots@)
    }

    // The child column must stay within 32-bit offsets, and each of its
    // prefixes must fit the item builder, as the items go in one at a time.
    open spec fn fits(slots: Seq<Option<Vec<T>>>) -> bool {
        &&& flatten(slots).len() <= i32::MAX
        &&& forall|k: int|
            0 <= k <= flatten(slots).len() ==> <T::Builder as ArrowBuilder<T>>::fits(
                #[trigger] flatten(slots).take(k),
            )
    }

    open spec fn capacity_ok(capacity: usize) -> bool {
        &&& (capacity + 1) * 4 <= isize::MAX
        &&& <T::Builder as ArrowBuilder<T>>::capacity_ok(capacity)
    }

    open spec fn column_type() -> ArrowType {
        ArrowType::List(Box::new(<T::Builder as ArrowBuilder<T>>::column_type()))
    }

    open spec fn holds(data: ArrayData, slots: Seq<Option<Vec<T>>>) -> bool {
        &&& offsets_of(list_offsets(data), slots)
        &&& list_validity(data) == validity_of(slots)
        &&& <T::Builder as ArrowBuilder<T>>::holds(list_values(data), flatten(slots))
        &&& array_len(list_values(data)) == flatten(slots).len()
    }

    fn new_with_capacity(capacity: usize) -> (builder: Self) {
        let values = T::Builder::new_with_capacity(capacity);
        let mut offsets: Vec<i32> = Vec::with_capacity(capacity + 1);
        offsets.push(0);
        let validity = null_builder_new(capacity);
        let ghost empty = Seq::<Option<Vec<T>>>::empty();
        proof {
            assert(empty.take(0) =~= empty);
            assert(flatten(empty) =~= Seq::<Option<T>>::empty());
            assert(flatten(empty).take(0) =~= Seq::<Option<T>>::empty());
            assert(validity_of(empty) =~= Seq::<bool>::empty());
        }
        ArrowListBuilder { values, offsets, validity, slots: Ghost(empty) }
    }

    fn append_value(&mut self, value: Vec<T>) {
        let ghost old_slots = self.slots@;
        let ghost items = value@;
        let ghost new_slots = old_slots.push(Some(value));
        let ghost base = flatten(old_slots);
        let ghost target = flatten(new_slots);
        let ghost old_offsets = self.offsets@;
        let ghost old_bits = null_bits(self.validity);
        proof {
            lemma_flatten_push(old_slots, Some(value));
        }
        for x in it: value.into_iter()
            invariant
                self.values.inv(),
                items == it.seq(),
                target == base + items.map_values(|y: T| Some(y)),
                self.values.slots() == base + it.seq().take(it.index()).map_values(|y: T| Some(y)),
                forall|j: int|
                    0 <= j <= target.len() ==> <T::Builder as ArrowBuilder<T>>::fits(
                        #[trigger] target.take(j),
                    ),
                self.offsets@ == old_offsets,
                null_bits(self.validity) == old_bits,
                self.slots@ == old_slots,
            ensures
                self.values.inv(),
                self.values.slots() == target,
                self.offsets@ == old_offsets,
                null_bits(self.validity) == old_bits,
                self.slots@ == old_slots,
        {
            let ghost k = it.index();
            proof {
                assert(target.take(base.len() + k + 1) =~= self.values.slots().push(Some(x)));
            }
            self.values.append_value(x);
            assert(base + it.seq().take(k + 1).map_values(|y: T| Some(y))
                =~= self.values.slots());
        }
        let n = self.values.len();
        self.offsets.push(n as i32);
        null_builder_append(&mut self.validity, true);
        self.slots = Ghost(new_slots);
        proof {
            assert(validity_of(new_slots) =~= validity_of(old_slots).push(true));
            assert forall|i: int| 0 <= i <= new_slots.len() implies self.offsets@[i]
                == #[trigger] flatten(new_slots.take(i)).len() by {
                if i < new_slots.len() {
                    assert(new_slots.take(i) =~= old_slots.take(i));
                } else {
                    assert(new_slots.take(i) =~= new_slots);
                }
            }
        }
    }

    fn append_option(&mut self, value: Option<Vec<T>>) {
        match value {
            Some(vs) => self.append_value(vs),
            None => {
                let ghost old_slots = self.slots@;
                let ghost new_slots = old_slots.push(None);
                proof {
                    lemma_flatten_push(old_slots, None);
                    assert(flatten(new_slots) =~= flatten(old_slots));
                }
                let n = self.values.len();
                self.offsets.push(n as i32);
                null_builder_append(&mut self.validity, false);
                self.slots = Ghost(new_slots);
                proof {
                    assert(validity_of(new_slots) =~= validity_of(old_slots).push(false));
                    assert forall|i: int| 0 <= i <= new_slots.len() implies self.offsets@[i]
                        == #[trigger] flatten(new_slots.take(i)).len() by {
                        if i < new_slots.len() {
                            assert(new_slots.take(i) =~= old_slots.take(i));
                        } else {
                            assert(new_slots.take(i) =~= new_slots);
                        }
                    }
                }
            },
        }
    }

    fn len(&self) -> (n: usize) {
        null_builder_len(&self.validity)
    }

    fn finish(&mut self) -> (data: ArrayData) {
        let ghost old_slots = self.slots@;
        proof {
            lemma_offsets_valid(self.offsets@, old_slots);
        }
        let values = self.values.finish();
        let nulls = null_builder_finish(&mut self.validity);
        let mut offsets: Vec<i32> = Vec::new();
        offsets.push(0);
        std::mem::swap(&mut offsets, &mut self.offsets);
        let ghost empty = Seq::<Option<Vec<T>>>::empty();
        self.slots = Ghost(empty);
        proof {
            assert(flatten(empty) =~= Seq::<Option<T>>::empty());
            assert(flatten(empty).take(0) =~= Seq::<Option<T>>::empty());
            assert(empty.take(0) =~= empty);
            assert(validity_of(empty) =~= Seq::<bool>::empty());
            if nulls is None {
                assert(Seq::new(old_slots.len(), |i: int| true) =~= validity_of(old_slots));
            }
            assert(nulls_validity(nulls, old_slots.len()) == validity_of(old_slots));
        }
        list_array_data(values, offsets, nulls)
    }

    fn finish_cloned(&self) -> (data: ArrayData) {
        proof {
            lemma_offsets_valid(self.offsets@, self.slots@);
        }
        let values = self.values.finish_cloned();
        let nulls = null_builder_finish_cloned(&self.validity);
        let offsets = self.offsets.clone();
        assert(offsets@ =~= self.offsets@);
        proof {
            if nulls is None {
                assert(Seq::new(self.slots@.len(), |i: int| true) =~= validity_of(self.slots@));
            }
            assert(nulls_validity(nulls, self.slots@.len()) == validity_of(self.slots@));
        }
        list_array_data(values, offsets, nulls)
    }
}

} // verus!
