# rayforce

A Verus-verified library modelling the value layer of the RayforceDB engine and
the rules the Rust bindings keep around it.

- `src/` is the verified library. `value.rs` defines `Value` (one boxed object)
  and its view `Datum`, over which every contract is stated; `scalars.rs`,
  `vector.rs`, `list.rs`, `dict.rs` and `table.rs` build and read atoms,
  vectors, lists, dictionaries and tables; `convert.rs` and `temporal.rs`
  convert Rust and chrono values; `runtime.rs` holds the single-runtime
  lifecycle, the held values that keep the heap mapped, and the global
  environment; `lambda.rs` and `env.rs` bind lambdas
  and native handlers; `q.rs` checks Q wire frames and tracks selector claims.
- `tests/` exercises the library on concrete values.
- `app/` adds floating-point conveniences and the conversions of chrono's
  `DateTime<Utc>`, whose chrono half stays outside the verified code; the
  library's `timestamp_from_span` builds the timestamp atom.
