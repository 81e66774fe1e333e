# sqlitegis

Spatial functions for SQLite over EWKB blobs, with the blob handling, the
SRID rules, the spatial-index procedure and the code-surface generator
proved correct by Verus.

Layout:

- `src/spatial/ewkb.rs`, `src/spatial/wkb_walk.rs`: the EWKB header reader,
  SRID patching, payload validation and the bounding-box walk, each against
  a byte-level model of the format.
- `src/spatial/decode_guard.rs`: a walk that reads EWKB headers the way
  geozero's reader does. A blob reaches that reader only when the walk
  shows that it returns (a geometry or its own error) without meeting a
  count larger than the blob, a curve type or a collection nested past the
  limit; otherwise the reader could recurse without bound or size vectors
  from counts no bytes back, and abort the process.
- `src/spatial/functions/`: text/binary/GeoJSON input and output,
  `ST_Collect`, the decisions of the polygon set operations around `geo`'s
  overlay, tile grid checks and geographic SRID rules.
- `src/spatial/codec.rs`: the calls into `geo`, `geozero`, `serde_json`
  and std whose contracts are trusted, each called only on inputs its
  `requires` admits; everything else in `src/` is proved.
- `src/spatial/laws.rs`: laws over several functions (what a write reads
  back as, which SRID a result carries, ordering of bounding boxes).
- `src/spatial_index.rs`: `CreateSpatialIndex` / `DropSpatialIndex` as a
  state machine from step and reply to next SQL request.
- `src/surfaces.rs`, `src/tasks.rs`: the generator of the Diesel and SQLite
  function surfaces and the task-line parser of the developer tool.
- `app/`: floating-point geometry (measurement, linear referencing,
  buffers, intersection), `geo`'s polygon overlay behind a panic guard
  (`geo` and `i_overlay` assert on some degenerate polygons), the SQLite host loop for the index procedure and
  the developer tool's file handling.
- `tests/`: the test suite, run against the compiled library.
