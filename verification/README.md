# Row value buffers

A library that gathers values of any type, one row at a time, into typed columns, and
finishes them into series. It is written in Verus: every function of `src/` carries a
contract, and Verus proves the code against it; integers are written as decimal text by
verified code too (`src/cast.rs`).

- `src/dtype.rs`: column types (`DataType`) and their physical types.
- `src/value.rs`: single values (`AnyValue`), how a column reads a stored value as its type,
  and owned copies of values.
- `src/cast.rs`: reading values as numbers, time-unit conversion, decimal text, and the
  floating-point casts (`FloatCasts`) that callers work out for a value.
- `src/builder.rs`, `src/series.rs`: typed column builders and finished columns.
- `src/buffer.rs`: `AnyValueBuffer`, which converts what it is given to its column's type.
- `src/trusted.rs`: `AnyValueBufferTrusted`, for values known to have the column's physical
  type, including struct rows split into field columns.
- `src/laws.rs`: properties that hold across calls.
- `app/lib.rs`: the floating-point casts, and calls that test the library's preconditions.

Floating-point numbers are held as their bit patterns; all arithmetic on them happens in
`app/`.
