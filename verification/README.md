# keystream

Plays pitched tones while you type. Each key press starts notes on a
32-voice synthesiser; the scale mode (pentatonic or lydian) decides which
notes the letters, numbers and punctuation play.

- `src/` is the verified library: the key map (`mapping`), key events
  (`keyboard`), the voice pool and its allocation rule (`voice`), the
  command line (`cli`), the daemon's files, status report and run stages
  (`daemon`), and the text routines they share (`text`).
- `app/` is the program around it: audio output, keyboard capture, the
  floating-point oscillators and envelopes, files, signals and the process
  table.
- `tests/` exercises the library on concrete values.
