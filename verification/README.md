# lilygo_display

A menu for the 135x240 ST7789 display of the LilyGO T-Display board, with a
verified core.

`src/` (verified with Verus):

- `color` — RGB565 colours (through `embedded-graphics`) and the colour theme.
- `drawing` — plain descriptions of what a frame draws: rectangles, labels,
  window lines, the selection query.
- `state` — the abstract state of a menu and the transition of each operation.
- `menu` — `Menu<W, H>`: menus and entries, the selection cursor, a scrolling
  text window of `H` lines of `W` characters, two buttons; `draw` turns the
  state into the next `Frame`; its well-formedness is a type invariant.
- `text` — fixed-width lines and UTF-8 byte lengths.
- `image` — the start-up bitmap, parsed with `tinybmp`, with a check that
  the header sizes fit in `usize`.
- `controls` — what the two buttons do: press and move the cursor, and the
  screen effect of the selected entry.
- `laws` — properties across operations: cycling through a menu, the window
  scrolling like a terminal, a button press shown for one frame, and others.

`app/` is the firmware around it: board and display set-up (`esp-idf-hal`,
`mipidsi`), the button loop, and drawing each `Frame` with `embedded-graphics`.
It needs the ESP-IDF toolchain and the image file `ferris.bmp` next to
`Cargo.toml`.
