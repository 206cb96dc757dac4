# mor_blogger_ui_logic

The editing logic of the MorBlogger theme editor's desktop interface, as a
library whose behaviour is stated in `requires` / `ensures` contracts and
proved with Verus.

- `src/` — the verified library. Each module states what its functions do
  over `Seq<char>` views and spec functions, and proves the laws that tie
  its operations together (a cursor value reads back the URL it was composed
  from, a static page injected into the preview is always carried by it, an
  editor's text is never overwritten by the echo of the user's own typing,
  a template slot reads back the module chosen for it, and so on).
  - `text`, `number`: string and decimal primitives everything else builds on.
  - `cursor`, `theme`, `palette`, `css_tokens`, `typography`: CSS values the
    editor generates.
  - `dock`, `editor`, `editor_files`, `code_editor`: the docks, the CSS/JS
    editors, their file tabs and the syntax-highlighted code view (through
    `syntect`).
  - `template_pack`, `widgets`, `plugins`, `shortcuts`, `static_pages`,
    `context_menu`: the panels and dialogs.
- `tests/` — tests of the library on concrete values.
- `app/` — the I/O around the library: theme files in TOML, the community
  hub's feed over HTTP, the local plugin folder and daemon registry, and the
  event loop of a floating editor window.
