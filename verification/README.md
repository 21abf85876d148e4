# re_dataframe_schema

Column descriptors, column selectors and schemas of a chunk store's dataframe API,
written in Verus with their contracts proved.

- `src/` is the verified library. A chunk store is held as the plain values the
  schema logic reads: the datatype registered for each component, which
  (entity, component) pairs have static data, and the entity, timeline, component and
  start time of each temporal chunk. `ChunkStore::schema`, `schema_for_query` and the
  `resolve_*` functions are specified over that model; `src/laws.rs` holds the
  properties that relate them (round trip of selectors, query schema as a filtered
  schema, read after write, most specific filter rule wins).
- Arrow datatypes and fields are plain values (`src/arrow.rs`) that mirror `arrow2`'s;
  `app/lib.rs` converts them to and from `arrow2`, and holds the `LeafTransformMat3x3`
  component, whose `f32` coefficients stay outside the verified library.
- `tests/` exercises the library on concrete stores and queries.
