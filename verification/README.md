# web_tml24c

The front end of a browser REPL for Tiny Macro Lisp running on an emulated
COR24 CPU, as a verified state machine.

- `src/repl.rs` — the REPL state (`Repl`), the messages it takes (`Msg`), the
  commands it answers with (`Command`), loading an interpreter image, feeding
  typed input to the UART, and taking in what a batch of instructions did.
  Each operation is specified by a model function (`after_update`,
  `after_load`, `after_tick`).
- `src/view.rs` — the view model: selector options, demo groups, labels,
  LED/switch classes and memory gauges.
- `src/config.rs` — prelude tiers and stack sizes.
- `src/text.rs`, `src/number.rs` — line splitting, blank lines, trimming,
  UTF-8 encoding, decimal/hex rendering and index parsing.
- `src/laws.rs` — properties that span operations.
- `app/` — the Yew component that owns the emulator, carries out the
  commands, and draws the view model.
