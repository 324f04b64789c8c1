# step_recorder

A workflow step recorder: while recording, every global click and key press
becomes a numbered step with three screenshots (full screen, a 400x300 crop
around the pointer, and the active window), and stopping writes the session to
`recordings/<session_id>/recording.json` with the screenshots under `shots/`.

- `src/` is the library, verified with Verus: the recorder's start/stop state
  machine (`recorder`), input events to raw steps (`listener`), the numbered
  step log and the processor's decisions (`processor`), the session directory
  layout (`storage`), the crop geometry, crops and file names of a step's
  screenshots (`screenshots`, `raster`), identifiers and timestamps (`stamps`)
  and the error type (`error`).
- `app/` is the Tauri shell: the two commands, the threads and channel, the
  global input listener (rdev), screen capture (xcap), the active-window query
  (active-win-pos-rs), file writes and JSON serialization.
- `tests/` exercises the library on concrete values.
