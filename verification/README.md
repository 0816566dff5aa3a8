# rustty_core

The logic of Rustty, a native terminal, as a library that is verified with Verus: what a frame of
a terminal holds, how its glyphs are kept in atlas pages, where keys, pointer events, pastes and
clipboard requests go, how windows, tabs and panes open, close and come back, and when anything is
drawn again.

## Layout

- `src/` is the verified library. Its contracts speak of plain values: rows and cells, IDs,
  instants in nanoseconds, the bits of coordinates. Each module says at its top what it is about.
  - Drawing: `screen`, `prepare`, `runs`, `scene`, `shaping`, `atlas`, `frame`, `drawing`,
    `presentation`, `labels`, `search`, `geometry`.
  - Input: `keys`, `keyboard`, `input`, `mouse`, `clipboard`, `actions`, `application`, `host`.
  - Windows and sessions: `workspace`, `history`, `lifecycle`, `viewport`, `pane`, `panes`,
    `schedule`, `time`.
  - Text and files: `text`, `formats`, `capture`.
  - The native check: `smoke`.
- `tests/` runs the library from outside.
- `app/` is the program around it: native windows, sessions, the GPU and everything that is
  computed in floating point. It is built with the other crates of the Rustty workspace: the
  terminal engine and its sessions (`rustty`), fonts (`rustty_font`), pictures and composed text
  (`rustty_render`), the GPU backend (`rustty_render_wgpu`), and layouts, accessibility and macOS
  services (`rustty_app`).

Public proof functions named `law_…` state what holds of several functions together.

## Trust

Contracts that Verus believes without proof stand on calls into the standard library
(`String::push`, `str::to_lowercase`, `char::is_whitespace`, `String::from_utf8_lossy`,
`String::from_utf8`), `winit` (the names of cursor shapes) and `png` (the encoder). Each says in
its doc comment what it claims.
