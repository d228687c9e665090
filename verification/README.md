# offscreen_runtime

A runtime for windowless browser views. The browser paints into surfaces that
the application composes with its own content, and the input events of a window
are routed to the views in it.

- `src/` is the logic, with its contracts and proofs in Verus: surfaces and
  their frames (`offscreen`, `history`), the render callbacks (`render`), the routing of
  input (`offscreen_input`, with `event_flags`, `keys`, `coordinate` and
  `utf16`), the course of handling an event and keeping the input method
  informed (`handling`, `ime_request`, `caret`), the window's background and
  its taskbar entry.
- `app/` connects it to the window system and the browser. It holds the lock
  around a shared surface and all arithmetic in floating point.
- `tests/` runs the library on concrete values.

Doubles (positions, scale factors) enter `src/` as their bit patterns. A value
that was scaled enters it rounded, as an `i64`.

`cef` is taken with its `dox` feature, which leaves out the browser's binaries.
On Windows `app/` also takes the types of `tauri-runtime`, which the host's build
supplies.
