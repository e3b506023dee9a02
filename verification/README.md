# nam_audio_pipe

Verified core of a stand-alone PipeWire host for a neural amp modeler.

- `src/` decides: command line, negotiation of the audio format, the capture and
  playback callbacks up to and after the DSP, structural swaps and their
  disposal, rebuild requests, the backend's state and its bounded reconnection.
  Every item is verified with Verus. `src/laws.rs` states what holds across
  callbacks.
- `app/` does: PipeWire streams, host memory, atomics, and the objects of the DSP
  engine, which the core knows as numbered handles.
- `tests/` runs the core on concrete values.

Floating-point numbers appear in the core as bit patterns (`single::Single`);
arithmetic on them stays with the caller. Outside crates that the core calls are
`rtrb` (`src/rings.rs`) and `lexopt` (`src/lexer.rs`).
