# voclip

Voice to clipboard: a command-line tool that records the microphone, streams
the audio to a speech-to-text service, and copies the final transcript to the
clipboard (or types it). Trained voice patterns (a wake word, command words)
can trigger transcriptions and key presses hands-free.

The crate is a Verus library with the tool around it:

- `src/` — the verified library: the command line's modes, the settings
  rules and the saved voice patterns (`config`), speech models, error
  messages, text utilities, 16-bit PCM and WAV encoding (`wav`),
  down-mixing, device matching, detector frames and network batches
  (`audio`), the streaming session and its transcript (`transcription`),
  helper-program choices and key names (`platform`), voice patterns and
  training sessions (`wakeword`), the detector loops and reference
  building, with what a built reference holds (`detector`), the decisions
  of listen mode (`listen`), beeps, release targets and the
  single-instance lock.
  Contracts are stated over `Seq`/views; laws are public proof functions.
- `app/` — the program: command line, files, environment, audio devices,
  network, playback, clipboard and keyboard I/O, and the floating-point
  signal processing (resampling, tone synthesis, detector thresholds).
- `tests/` — tests of the library on concrete values.

Dependencies: `half` is named only to hold it at 2.4: `rustpotter` 3.0.2
pulls in `candle-core` 0.2, which does not compile against later `half`
releases. Nothing in the crate calls it.
