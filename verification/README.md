# unsafe_analysis

The bookkeeping and decision logic of a study of how Rust code uses
`unsafe`, as a Verus-verified library.

`src/` (verified):

- `results`: the records written per analysed crate (block and function
  counts, unsafety sources, unsafe traits, calls) and the names of the
  files that hold them; choosing the files of an analysis and the most
  recent version directory.
- `mir_analysis`: block counts, the unsafe operations of a place, statement
  or call, the unsafe context of a site, and the reasons of unsafe
  functions, over a plain-value model of the compiler's data.
- `hidden`: call-graph nodes, the propagation of "has unsafe code" along
  local calls (a least fixed point, unique, idempotent and monotone), the
  lookup and matching of dependency results, the calls left without a
  result, and unsafe parameter types.
- `lints`, `call_names`, `call_info`: the two external-calls lints (by
  definition path, and by call name) and the call-graph nodes that record
  the safety of called functions.
- `collect`: the tallies, sums, rows and dependency classes of the result
  tables.
- `select`: the most downloaded crates, read one at a time.
- `text`, `build_flags`, `misc`: string helpers, build flags, a small
  equality example.

`app/` reads and writes the files (serde copies of the records, the result
tables, the crate selection and the build command). `tests/` runs the
library on concrete values.
