# bugbite

A client library for bug trackers (Bugzilla above all, with GitHub and Redmine pieces),
written in Verus: the library's logic is verified against contracts, and the parts that
talk to the outside world are ordinary Rust.

- `src/` — the verified library: argument and value parsing (`args`, `objects`,
  `numbers`, `time`), query parameters (`query`), search-query encoding
  (`service/bugzilla/search`), the preparation of requests for bugs, comments, history,
  attachments and users (`service/bugzilla/*`), connection configs (`config`), and the
  text layout of bugs and issues for a terminal (`output`, `objects/*`). Calls into the
  `url`, `textwrap`, `unicode-segmentation`, `chrono`, `humansize`, `indexmap`,
  `ordered-multimap`, `regex`, `base64`, `infer` and `camino` crates stand behind small
  trusted wrappers whose contracts say what the library relies on.
- `tests/` — tests of the library on concrete values.
- `app/` — HTTP requests and JSON replies (`http`, `json`, `update`), configuration files
  and the environment (`settings`), the files and tools attachments are prepared with
  (`files`), and terminal output (`terminal`).
