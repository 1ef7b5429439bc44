# bab

A terminal core that renders complex scripts correctly: a grid whose cells hold
whole grapheme clusters, sized by `wcwidth` as the application on the other end of
the pty computed them, driven by a VT escape-sequence state machine.

The library under `src/` is written in Verus. Each operation states what it does
over a mathematical model of the terminal, and Verus proves the code against it.

- `vt/`: cells, lines, the grid with its scrollback and viewport, modes, `SGR`,
  selection, and the terminal that applies parsed escape sequences.
- `input/`: the bytes a key press or a mouse event sends.
- `config`, `render`, `session`, `text`, `host`: colors and palettes, atlas keys and
  the 256-color table, paste and reply handling, font fallback and shaping, and the
  decisions behind the C interface.
- `laws`: properties that relate several operations, proved.

Calls into `vte`, `unicode-width`, `unicode-segmentation`, `unicode-properties`,
`harfrust` and `skrifa` go through small wrappers whose contracts say what those
crates document.

`app/` holds what touches the outside world or computes in floating point:
configuration files, the pseudoterminal and its reader thread, pixel geometry and
the GPU glyph atlas.
