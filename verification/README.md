# blockcell

The verified core of BlockCell's NapCatQQ (OneBot 11) channel and of a few
neighbouring pieces, written in Verus.

- `src/` — the library. Its functions carry contracts that Verus proves, except
  a few trusted wrappers (marked `#[verifier::external_body]`) around calls
  into `std`, `base64` and `serde_json`, whose contracts Verus believes; each
  says in its doc comment what it claims of the call. The library covers
  URL classification and download planning (`detector`, `downloader`,
  `base64_data`, `local_file`, `napcat_stream`, `direct_http`), automatic
  media download (`media`), OneBot messages, requests and events (`message`,
  `types`, `event`, `outbound`, `channel`), assembly of streamed downloads
  (`stream_assembly`), structured skill dispatch (`skill_dispatch`), slash
  commands (`slash_commands`) and the bookkeeping of the RaBitQ vector index
  (`vector_index`). JSON values are held as `json::JsonValue`, with a
  mathematical model `json::Json`.
- `tests/` — tests on concrete values.
- `app/` — the runtime around the library: JSON wire formats (serde), the
  WebSocket queues, HTTP/file I/O for downloads, running slash commands, and
  the SQLite/RaBitQ store. It performs the I/O; the library decides.
