# hecto

A small terminal text editor. The library in `src/` holds the editor's logic,
verified with Verus; `app/` binds it to the terminal through crossterm.

- `editor` — the editor state and the handling of key and resize events.
- `editor::view` — the text view: cursor movement, scrolling, and the rows
  drawn on the screen, each stated over a plain model (`ViewState`).
- `editor::view::line`, `editor::view::buffer` — lines of text and the buffer
  of lines, with byte ranges, grapheme ranges and character insertion.
- `editor::text` — splitting a file's text into lines, as `str::lines` does.
- `editor::terminal`, `editor::event`, `editor::editorcommand` — positions,
  sizes, terminal events and editor commands as plain values.

A line is split into extended grapheme clusters with `unicode-segmentation`;
each cluster takes one column on the screen, or two when `unicode-width`
gives it a width of two or more. A cluster cut by the edge of the screen
shows as `⋯`.
