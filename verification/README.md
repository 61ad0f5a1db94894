# Amanuensis

A push-to-talk dictation app for Windows. F9 starts and stops a recording; an engine on
the PC turns the audio into text, a small model may tidy it, and the text is pasted where
the cursor is.

- `src/` is the library: every decision the app takes, written in Verus. Each function is
  proved against its contract, and the promises that span several functions stand as
  public proof functions next to them.
- `tests/` runs the library on concrete values.
- `app/` is the program around it: windows, audio, files, the network and floating point.

The state machines (the speech worker, a dictation, downloads, the benchmark of the
engines, the pill, the panel, the installer) take one input at a time and return what is to be done; `app/` does it and
hands back what came of it. Times are nanoseconds on a clock that never goes back, speeds
of engines are ten-thousandths of real time, and paths are Windows paths.

Regular expressions, JSON objects, the memory of the machine and a few conversions of
`std` are called through small functions marked `external_body`; the comment above each
says what is taken on trust.
