# picosakura

An MML (Music Macro Language) player and renderer built on the Sakura MML
compiler and a SoundFont synthesizer.

- `src/` is the verified library: compiling MML to MIDI and judging the
  compiler's log (`compile`), the outcome type (`result`), the stages of
  rendering to WAV around synthesis (`wav`), stereo buffer layout
  (`samples`), loading MIDI files (`midi`), the command line (`cli`) and
  text helpers (`text`).
- `app/` is the program: it reads and writes files, plays through the audio
  device, and runs the floating-point synthesis and encoding.
- `tests/` exercises the library.

The program answers to two names: `picosakura` plays an MML file (or writes
WAV with `-w`), `mml2wav` always writes WAV.

Notes on the command line:

- `-d`/`--debug <DEBUG>` takes the debug level, as the option list gives
  it (0: none, 1: info): `0` leaves debugging off, any other value turns it
  on. At the end of the command line, with no value after it, `-d` turns
  debugging on. Every option moves the scan forward, so `-d` never stalls it.
- The compiler itself may not return on some sources (a user function that
  calls itself recurses without bound). The library's compile functions are
  stated for the sources on which it returns; `try_compile_to_midi` and
  `try_prepare_wav` compile only where that is known in advance (simple MML:
  notes, rests, lengths, octaves and white space).
