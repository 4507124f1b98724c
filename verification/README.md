# novus_writer

The core of the Novus Writer notes application, written in Verus: each
function of the library carries a contract that Verus proves.

- `src/` is the verified library: the document entity and its tags, text
  formatting flags and colours, the Lexical editor tree and its text and
  word counts, find and replace, export rendering (PDF, DOCX, ODT, HTML,
  Markdown, plain text, RTF), templates and their `{{variables}}`, mail
  merge, citations and bibliographies, collaboration colours, gzip and
  base64 storage of content, file-name helpers, and the decisions of the
  autosave loop. Calls into `regex`, `flate2`, `base64`, `uuid` and `chrono`
  stand behind small trusted wrappers whose contracts say what the library
  relies on.
- `tests/` runs the library on concrete values.
- `app/` is the desktop program around it: the Tauri command handlers,
  SQLite storage through `sqlx`, the asynchronous services, file I/O, the
  serde forms of the records, and the float-valued paragraph formats.
