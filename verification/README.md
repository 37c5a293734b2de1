# masonry-testing

A headless environment to test widgets in, verified with Verus.

- `src/` is the library: what a test harness decides. `TestHarness` turns what a
  user does into work for the widget tree and records what the tree reports back.
  `RenderTarget` lays out the buffer that a frame is read from. `SnapshotFiles` and
  `SnapshotReport` decide what becomes of the files of a snapshot test.
  `paths.rs` holds what the library expects of `std::path`, which says where those
  files are. `state.rs` gives the harness as a mathematical value, and `laws.rs` what holds
  of it as a whole.
- `app/` connects the library with a widget tree, a GPU and the file system.
- `tests/` runs the library on chosen values.

Coordinates are kept as the bits of their IEEE 754 encoding. The library passes
them on and converts none but the size of the window.
