# engineer

The verified core of a terminal client for a study-tracking app: the screens, the
keymap, the `:` command line and the quick-capture overlay, as reducers whose
contracts say exactly what each message changes and what it asks for.

- `src/` is the library. `app.rs` is the shell's state, `event.rs` the keymap,
  `command.rs` the command grammar, `capture.rs` the overlay, and `screens/` one
  module per screen. A step hands back a notice and a list of effects; it makes no
  call itself. `model.rs` holds the records, `line.rs` the styled text that the
  panels are made of, `clock.rs` the timer's face, and `dates.rs`, `edit.rs` and
  `json.rs` the contracts of the outside crates that the logic calls.
- Each reducer has a relation `handled` between the state before, the message, the
  state after and the outcome; `intercepted` does the same for keys. The laws at the
  end of each file are proved from these relations.
- `tests/` runs the library on concrete values.
- `app/` is the terminal around it: the event loop, the drawing, the calls, and the
  arithmetic on hours, which is floating point. A program embeds it by giving its
  `Services` and `Boards`: the timer and the week board keep their state there, and
  show the library which keys they take (`screens/board.rs`).

Keys follow neovim: `j`/`k`, `gg`/`G`, `/`, `n`/`N`, `:cmd`, `<Space>` as leader,
`i`/`Esc` for insert and normal in forms.
