use arrow_array::cast::AsArray;
use arrow_array::types::{Int32Type, Int64Type, UInt32Type, UInt64Type};
use arrow_array::{make_array, Array};
use arrow_schema::{DataType, Field};
use std::sync::Arc;
use prost_arrow::{
    new_builder, new_builder_with_capacity, ArrowBinaryBuilder, ArrowBuilder, ArrowListBuilder,
    ArrowStringBuilder, ArrowType, ToArrow,
};

#[test]
fn int32_builder_appends_values_and_nulls() {
    let mut b = new_builder::<i32>();
    assert_eq!(b.len(), 0);
    b.append_value(7);
    b.append_option(None);
    b.append_option(Some(-3));
    assert_eq!(b.len(), 3);
    let arr = make_array(b.finish());
    let arr = arr.as_primitive::<Int32Type>();
    assert_eq!(arr.len(), 3);
    assert_eq!(arr.value(0), 7);
    assert!(arr.is_null(1));
    assert_eq!(arr.value(2), -3);
    assert_eq!(b.len(), 0);
}

#[test]
fn finish_empties_the_builder() {
    let mut b = new_builder_with_capacity::<i64>(16);
    b.append_value(1);
    b.append_value(2);
    let first = make_array(b.finish());
    assert_eq!(first.len(), 2);
    assert_eq!(b.len(), 0);
    b.append_value(3);
    let second = make_array(b.finish());
    let second = second.as_primitive::<Int64Type>();
    assert_eq!(second.len(), 1);
    assert_eq!(second.value(0), 3);
}

#[test]
fn finish_cloned_keeps_the_builder() {
    let mut b = new_builder::<u32>();
    b.append_value(10);
    b.append_option(None);
    let cloned = make_array(b.finish_cloned());
    assert_eq!(b.len(), 2);
    let finished = make_array(b.finish());
    assert_eq!(cloned.to_data(), finished.to_data());
    let c = cloned.as_primitive::<UInt32Type>();
    assert_eq!(c.value(0), 10);
    assert!(c.is_null(1));
}

#[test]
fn append_is_append_option() {
    let mut a = new_builder::<u64>();
    let mut b = new_builder::<u64>();
    a.append(Some(5));
    a.append(None);
    b.append_option(Some(5));
    b.append_option(None);
    let a = make_array(a.finish());
    let b = make_array(b.finish());
    assert_eq!(a.to_data(), b.to_data());
    assert_eq!(a.as_primitive::<UInt64Type>().value(0), 5);
}

#[test]
fn string_builder_round_trip() {
    let mut b = ArrowStringBuilder::new_with_capacity(4);
    b.append_value("one".to_string());
    b.append_option(None);
    b.append(Some("zwei".to_string()));
    assert_eq!(b.len(), 3);
    let arr = make_array(b.finish());
    let arr = arr.as_string::<i32>();
    assert_eq!(arr.value(0), "one");
    assert!(arr.is_null(1));
    assert_eq!(arr.value(2), "zwei");
    assert_eq!(b.len(), 0);
}

#[test]
fn binary_builder_round_trip() {
    let mut b = new_builder::<Vec<u8>>();
    b.append_value(vec![0, 1, 2, 3]);
    b.append_option(None);
    b.append_value(vec![]);
    let cloned = make_array(b.finish_cloned());
    let arr = make_array(b.finish());
    assert_eq!(cloned.to_data(), arr.to_data());
    let arr = arr.as_binary::<i32>();
    assert_eq!(arr.value(0), &[0u8, 1, 2, 3]);
    assert!(arr.is_null(1));
    assert_eq!(arr.value(2), &[] as &[u8]);
    let _: ArrowBinaryBuilder = b;
}

#[test]
fn list_builder_offsets_and_nulls() {
    let mut b = ArrowListBuilder::<i32>::new_with_capacity(2);
    b.append_value(vec![1, 2]);
    b.append_option(None);
    b.append_value(vec![]);
    b.append_option(Some(vec![3]));
    assert_eq!(b.len(), 4);
    let arr = make_array(b.finish());
    let list = arr.as_list::<i32>();
    assert_eq!(list.len(), 4);
    assert_eq!(list.value_offsets(), &[0, 2, 2, 2, 3]);
    assert!(list.is_valid(0));
    assert!(list.is_null(1));
    assert!(list.is_valid(2));
    assert!(list.is_valid(3));
    let values = list.values().as_primitive::<Int32Type>();
    assert_eq!(values.values().to_vec(), vec![1, 2, 3]);
    assert_eq!(b.len(), 0);
}

#[test]
fn list_builder_without_nulls() {
    let mut b = ArrowListBuilder::<String>::new_with_capacity(0);
    b.append_value(vec!["one".to_string(), "two".to_string()]);
    b.append_value(vec!["three".to_string()]);
    let cloned = make_array(b.finish_cloned());
    assert_eq!(b.len(), 2);
    let arr = make_array(b.finish());
    assert_eq!(cloned.to_data(), arr.to_data());
    let list = arr.as_list::<i32>();
    assert_eq!(list.null_count(), 0);
    assert_eq!(list.value_offsets(), &[0, 2, 3]);
    let values = list.values().as_string::<i32>();
    assert_eq!(values.value(0), "one");
    assert_eq!(values.value(1), "two");
    assert_eq!(values.value(2), "three");
}

#[test]
fn list_builder_reused_after_finish() {
    let mut b = ArrowListBuilder::<i64>::new_with_capacity(1);
    b.append_value(vec![1]);
    let _ = b.finish();
    b.append_option(None);
    b.append_value(vec![4, 5]);
    let arr = make_array(b.finish());
    let list = arr.as_list::<i32>();
    assert_eq!(list.value_offsets(), &[0, 0, 2]);
    assert!(list.is_null(0));
}

#[test]
fn to_datatype_of_each_type() {
    assert_eq!(i32::to_datatype(), ArrowType::Int32);
    assert_eq!(i64::to_datatype(), ArrowType::Int64);
    assert_eq!(u32::to_datatype(), ArrowType::UInt32);
    assert_eq!(u64::to_datatype(), ArrowType::UInt64);
    assert_eq!(String::to_datatype(), ArrowType::Utf8);
    assert_eq!(<Vec<u8>>::to_datatype(), ArrowType::Binary);
}

#[test]
fn finished_arrays_have_the_reported_types() {
    let mut a = new_builder::<i32>();
    assert_eq!(make_array(a.finish()).data_type(), &DataType::Int32);
    let mut b = new_builder::<i64>();
    assert_eq!(make_array(b.finish_cloned()).data_type(), &DataType::Int64);
    let mut c = new_builder::<u32>();
    assert_eq!(make_array(c.finish()).data_type(), &DataType::UInt32);
    let mut d = new_builder::<u64>();
    assert_eq!(make_array(d.finish()).data_type(), &DataType::UInt64);
    let mut e = new_builder::<String>();
    assert_eq!(make_array(e.finish()).data_type(), &DataType::Utf8);
    let mut f = new_builder::<Vec<u8>>();
    assert_eq!(make_array(f.finish()).data_type(), &DataType::Binary);
}

#[test]
fn list_array_type_is_list_of_item_type() {
    let mut b = ArrowListBuilder::<u64>::new_with_capacity(0);
    b.append_value(vec![1]);
    let arr = make_array(b.finish());
    assert_eq!(
        arr.data_type(),
        &DataType::List(Arc::new(Field::new_list_field(DataType::UInt64, true)))
    );
}

#[test]
fn list_slot_spans_its_items() {
    // Each list slot reads back as the items appended with it.
    let mut b = ArrowListBuilder::<String>::new_with_capacity(0);
    b.append_value(vec!["a".to_string()]);
    b.append_option(None);
    b.append_value(vec!["b".to_string(), "c".to_string()]);
    let arr = make_array(b.finish());
    let list = arr.as_list::<i32>();
    let third = list.value(2);
    let third = third.as_string::<i32>();
    assert_eq!(third.len(), 2);
    assert_eq!(third.value(0), "b");
    assert_eq!(third.value(1), "c");
    assert_eq!(list.value_length(1), 0);
    assert_eq!(list.value(0).as_string::<i32>().value(0), "a");
}

#[test]
fn list_of_byte_strings() {
    let mut b = ArrowListBuilder::<Vec<u8>>::new_with_capacity(1);
    b.append_value(vec![vec![10, 100]]);
    b.append_value(vec![vec![5], vec![]]);
    let arr = make_array(b.finish());
    let list = arr.as_list::<i32>();
    assert_eq!(list.value_offsets(), &[0, 1, 3]);
    let values = list.values().as_binary::<i32>();
    assert_eq!(values.value(0), &[10u8, 100]);
    assert_eq!(values.value(1), &[5u8]);
    assert_eq!(values.value(2), &[] as &[u8]);
}

#[test]
fn len_counts_appends_since_finish() {
    let mut b = ArrowListBuilder::<u32>::new_with_capacity(8);
    b.append_value(vec![1]);
    b.append_option(None);
    let _ = b.finish_cloned();
    assert_eq!(b.len(), 2);
    let _ = b.finish();
    b.append_value(vec![]);
    let _ = b.len();
    assert_eq!(b.len(), 1);
}

#[test]
fn capacity_only_reserves() {
    let mut small = new_builder::<String>();
    let mut large = new_builder_with_capacity::<String>(1000);
    for b in [&mut small, &mut large] {
        b.append_value("x".to_string());
        b.append_option(None);
    }
    assert_eq!(small.len(), large.len());
    assert_eq!(small.finish(), large.finish());
    let mut a = new_builder::<i32>();
    let mut c = <i32 as ToArrow>::Builder::new_with_capacity(0);
    a.append_value(4);
    c.append_value(4);
    assert_eq!(a.finish_cloned(), c.finish());
}

#[test]
fn bool_builder_round_trip() {
    let mut b = new_builder::<bool>();
    b.append_value(true);
    b.append_option(None);
    b.append(Some(false));
    assert_eq!(b.len(), 3);
    let cloned = make_array(b.finish_cloned());
    let arr = make_array(b.finish());
    assert_eq!(cloned.to_data(), arr.to_data());
    assert_eq!(arr.data_type(), &DataType::Boolean);
    let arr = arr.as_boolean();
    assert!(arr.value(0));
    assert!(arr.is_null(1));
    assert!(!arr.value(2));
    assert_eq!(b.len(), 0);
    assert_eq!(bool::to_datatype(), ArrowType::Boolean);
}
