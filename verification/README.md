# awase

A remapper for thumb-shift (NICOLA) keyboards. A character key pressed together with a thumb key
sends the kana of the thumb's face; the romaji or the kana strokes go to the IME, which converts
them as usual.

`src/` is the verified library. It calls no OS function: it takes events and what the platform sees
of its environment, and returns decisions.

- `engine/`: the simultaneous-stroke state machine, the engine with its special keys and its
  activation, and the pairing of key-downs and key-ups. `engine/laws.rs` states what holds across
  calls.
- `config`, `yab`, `diagnostics`: configuration and its validation, layouts, and what logs may show.
- `kana_table`, `ngram`: how kana are spelled, and which of them is likely to come next.
- `macos/`: key codes, output strokes, the IME switch, the program's decisions, bundled files.
  `macos/laws.rs` states what holds of the program across calls.
- `windows/`: the mechanisms that switch the IME, and what window events tell of it.
- `text`, `timing`: strings, and what is taken from `timed_fsm` and `std::time`.

`app/` is the program around it: the configuration file, the event tap, the run loop and the menu
bar. `tests/` runs the library on concrete values.
