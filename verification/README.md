# prost-arrow (verified)

Arrow array builders for prost-generated message types, with their
contracts checked by Verus.

- `src/traits.rs`: `ArrowBuilder` (a column builder, described by the slots
  appended to it) and `ToArrow` (a Rust type with an Arrow column type and a
  builder), and `ArrowType`, the Arrow data types as plain values.
- `src/primitives.rs`, `src/binary.rs`, `src/lists.rs`: the builders for
  booleans, integers, strings, byte strings and lists.
- `src/laws.rs`: laws over runs of calls on any builder: `len` counts the
  appends since the last `finish`, the capacity changes only what is
  reserved, and `finish_cloned` returns what `finish` would.
- `src/schema.rs`: the decisions of the `ToArrow` derive: how each field of a
  message becomes a column (nullable, list or binary), when the derive
  refuses an item, and the struct type of a message.
- `src/arrow_specs.rs`: the Arrow functions that the builders call, each
  behind a wrapper whose contract states what the Arrow source does.
- `app/lib.rs`: the derive's reading of Rust syntax and writing of code, the
  conversion to Arrow's `DataType`, and an `ArrayBuilder` adapter.

Differences from an Arrow-only implementation:

- `finish` returns Arrow `ArrayData` (turn it into an `ArrayRef` with
  `arrow_array::make_array`): Verus cannot carry `Arc<dyn Array>` values.
- The list builder does not hold an Arrow `ListBuilder`. That builder is
  generic over a child bound by Arrow's `ArrayBuilder` trait, which Verus can
  neither declare nor let the library's builders implement (its methods hand
  out `dyn` values). The list builder therefore keeps the offsets, the
  validity bits (in an Arrow `NullBufferBuilder`) and the child builder itself,
  and builds the array with `ListArray::new`, proving on the way that the
  offsets are valid and match the child.
- There is no `ToArrow` for `f32` and `f64`: Verus code holds no floats, so
  messages with float fields cannot derive `ToArrow`. `app/` has
  `Float32ArrowBuilder` and `Float64ArrowBuilder` for standalone float columns.
- The builders the derive generates for messages are plain Rust: nothing
  checks them, and the trait's contracts give no guarantee for them or for
  lists of messages.
