# pcmanx-rs

A telnet BBS client. The library under `src/` holds the parts that decide
what the terminal shows and sends, each with a contract that Verus proves:

- `terminal::screen` — the character grid (`ScreenBuffer`), its abstract
  model (`ScreenModel`) and every editing operation on it: printing with
  wrap-around, line feed and scrolling inside the scroll region, tabs,
  erasing, inserting and deleting characters and lines, cursor save and
  restore, resizing, and reading the text back.
- `terminal::vt100` — what a parsed VT100 control function does to the
  screen (cursor moves, erasing, SGR renditions, margins, cursor visibility).
- `terminal::render` — which palette entries and glyphs a cell is painted with.
- `terminal::laws` — properties of the model that hold for every screen.
- `connection::telnet` — separating data from telnet commands in received
  bytes, and the window-size frames; `connection::session` — splitting a site
  address into host and port.
- `keys` — the bytes a key press sends.
- `charset` — Big5/UAO and UTF-8 decoding and encoding (through `encoding_rs`).
- `config` — the settings and their defaults; `notifier`, `script`.

`app/` is the GTK program around the library: the windows and dialogs, the
async socket, the settings file, desktop notifications, and the adapter that
feeds the `vte` parser's callbacks to `terminal::vt100`.
