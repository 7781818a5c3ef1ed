# scribe-client

A client library for the Scribe document conversion API, written in Verus.

`src/` is the verified library. It makes the client's decisions: which
request to send, what a response or frame means, when to refresh a token:

- `model`: output formats and conversion stages, with their wire names.
- `pkce`: PKCE (RFC 7636) verifier and S256 challenge generation.
- `token`: token sets, when one is due for a refresh, and how a token
  endpoint response (or error) becomes one.
- `session`: the life of one authenticated request, as a state machine
  (proactive refresh, one forced refresh and one retry after a `401`).
- `requests`: the method, path, query and body of every request, and the
  absolute URLs built from them.
- `api`: what a failed REST response means.
- `download`: the file name in a `Content-Disposition` header, the size of a
  download, and its progress.
- `channel`: the Phoenix channel protocol of the real-time document channel:
  frames, events, replies and errors, and the channel's bookkeeping.
- `error`, `ffi`, `python`: the error type, and the shapes and errors the
  mobile and Python bindings hand across.
- `json`, `text`: JSON values as the library reads them, and text helpers.

`app/` is ordinary Rust around it: the asynchronous HTTP and WebSocket
clients (`reqwest`, `tokio-tungstenite`) that send what the library builds
and hand back what arrived, the `serde` readers of the REST response bodies
(records with floating-point fields among them), and the UniFFI and PyO3
bindings.

`tests/` runs the library on concrete values.
