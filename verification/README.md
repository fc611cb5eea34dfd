# niri-zones

FancyZones-style window zones for the Niri compositor: choose a zone in an
overlay (or by name on the command line) and the focused window snaps into it;
`restore` puts it back as it was before its first snap.

## Layout

- `src/` is the verified library, checked by Verus:
  - `rules`, `pattern`, `config` — validation of a configuration document and the
    compiled window rules (priority, then specificity, then file order);
  - `state`, `engine` — snap bookkeeping and the snap and restore transactions as
    state machines that commit only after the window was seen at its target;
  - `runtime` — the per-session record of snapped windows and the plans for
    `move` and `restore`;
  - `adapter`, `settle` — the decisions of the Niri IPC adapter while it applies a
    zone, restores a window, or waits for the compositor to settle;
  - `chooser`, `draw` — the overlay's keyboard chooser and its pixel drawing;
  - `layout`, `geometry`, `backend`, `niri`, `text` — shared vocabulary.
- `app/` is the program around it: the CLI, TOML and state files, the Niri socket,
  the Wayland overlay, and the floating-point geometry of layouts.
- `tests/` exercises the library on concrete values.
