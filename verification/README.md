# tuiji

The screens of a keyboard-driven Jira terminal client, as a verified library.

- `src/` holds the screens' state machines and display decisions: what each key
  does, what a form submits, how profiles are validated, which rows and texts a
  screen shows. Every public function states its result in `ensures` over spec
  functions, and the laws that relate several calls are proof functions.
- `app/` is the terminal side: converting crossterm keys, parsing stored JSON
  snapshots, loading issues, formatting story points, and drawing with ratatui
  from what the library decides.
- `tests/` runs the library on concrete values.
