# lyrics_plus

The decision-making core of a desktop lyrics application, written in Verus:
configuration drafts and their validation, the player and lyrics runtime
rules, the overlay window geometry, and the "laboratory" that shares
playback between machines over HTTP, WebSocket and mDNS. Every public
function in `src/` carries a contract (some private helpers carry none and
are checked only as part of their callers); Verus proves them all except
those of the few
`#[verifier::external_body]` wrappers around base64, serde_json and std
(string building, lowercasing, lossy UTF-8, paths, the clock), whose
contracts are believed. The protocol's connection bookkeeping
(`advance_state_cursor`) and the client's retry decisions
(`client_after_attempt`) are verified step functions; the socket loops
that would drive them need the desktop framework and are not here.

## Layout

- `src/` — the verified library.
  - `text`, `sha1`, `jsonc`, `json`, `draft`, `draft_text`, `merge`: text
    helpers, SHA-1, JSONC comment stripping, the JSON model, the checks of a
    configuration draft (from its text) and the merging of JSON documents.
  - `config`, `config_core`, `normalize`, `shortcuts`: settings, their
    defaults, style inheritance and normalization (without the floating-point
    sizes); the checks of the global shortcuts.
  - `player`, `lyrics`, `surfaces`, `settings`: player selection and
    routing, lyrics runtime decisions, which lyrics surfaces show.
  - `overlay`, `placement`, `pointer`, `window_layout`: overlay style and
    toolbar placement, display topology, pointer tracking, window positions.
  - `laboratory`, `protocol`, `web`, `records`, `credentials`, `runtime`,
    `addresses`, `themes`: the laboratory's records, message protocol, HTTP
    and WebSocket framing, stored servers and clients, credentials, runtime
    state, network addresses and web themes.
- `tests/` — tests of the library on concrete values.
- `app/` — the input and output around the library: files, sockets,
  processes, the environment, JSON text through serde, and the checks that
  compare floating-point numbers.
