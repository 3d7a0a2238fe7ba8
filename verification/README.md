# workspace

The decision core of an editor workspace: its panes, items, modal view, sidebars, worktrees and
title bar.

- `src/` is a library verified with Verus. Views and models are named by ids. What has to happen
  outside is handed back as data (`Effect`, `Creation`, the actions of `OpenPath` and
  `SaveState`), and what came of it is handed in as arguments. `state.rs` holds the workspace
  itself, `laws.rs` what holds of it as a whole.
- `tests/` runs the library.
- `app/` performs the effects on a `Host`, which stands for the user interface, the project and
  the client, and awaits what takes time.

The calls whose contracts are believed rather than proved are those of `std::path`, in
`paths.rs`, and of `postage::watch`, in `loading.rs`.
