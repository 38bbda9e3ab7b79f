# handy

The decisions behind a push-to-talk transcription desktop application, written
in Rust and proved with Verus.

- `src/` is the library. It holds what the application decides and computes:
  what happens when a shortcut is pressed, released or cancelled (`actions`,
  `utils`), how recordings, realtime sessions, live translations and merged
  streams behave (`managers`), and how the system audio is captured
  (`audio_toolkit`). Every function states what it does, and the `law_` proof
  functions state what holds of several of them together.
- `app/` carries out what the library decides: audio devices, the network, the
  desktop. It alternates with the library: a turn lists effects to carry out in
  order and ends with one question, whose answer leads to the next turn.
- `tests/` runs the library on concrete values.

Samples are of any type in the library, except where they are encoded for the
realtime service as 16-bit numbers; floating-point arithmetic stays in `app/`.
