# twilight

A verified core of a Discord API model, written in Verus.

- `src/` — the library. Every function has a contract; all are proved by
  Verus except two trusted wrappers in `command_validation` (`is_alphanumeric`,
  `lowercase_first`), whose contracts name the results of std's Unicode
  character functions:
  - `embed`, `embed_validation`: rich embeds and the check of their limits;
    error messages rendered through `decimal`.
  - `callback`, `response_fields`: interaction responses, building them from a
    response type and its `data` object, and reading/writing them field by field.
  - `component`, `input_text_fields`: message components and the field-by-field
    reading/writing of input texts.
  - `modal`, `user`, `id`, `datetime`: modal submissions and their author.
  - `channel`, `channel_validation`, `command`, `command_validation`, `http`:
    request builders whose settings are checked as they are set.
- `app/` — serde impls and `Display`/`Error` for copies of the library's types,
  driven by the library's field-by-field reading and writing, and the JSON
  bodies of the request builders, written from the library's body entries.
- `tests/` — tests of the library.
