# porecatu_ui

The decision logic of the porecatu terminal's window chrome, written in
Verus: every function in `src/` carries a contract that Verus proves.

- `src/` — the verified library: the git status segment (parsing of
  `.git/HEAD`, `rev-list` output and `.git/config`, the query scheduler
  with its backoff, the classification of failures), the hyperlink scheme
  policy, keybinding grammar and layered resolution, the popovers, menus,
  dialog and group editor with their keyboard and mouse handling, tab
  selection, the search bar state, the animation clock, config reload
  debounce and classification, terminal colour resolution, block and
  box-drawing glyph geometry, and the routing of key and mouse events.
  Time is a count of nanoseconds handed in by the caller.
- `tests/` — executable tests of the library.
- `app/` — ordinary Rust around the library: running `git`, reading the
  file system, the clipboard, opening links and watching the config file.
