# codex-wasm-bridge

The host bridge of a Codex build that runs inside a WebAssembly host, with its
decision logic written in Verus and proved against its contracts.

- `src/` is the verified library:
  - `json`, `fields`, `schema`: a JSON value tree, the field rules of the bridge's
    records, and the records themselves with their encodings and decodings;
  - `extension`, `routing`: the host capabilities and how a submitted request becomes
    a host call;
  - `kernel`, `bridge`: the session state machine (init, submit, callback, cancel,
    shutdown) and the exported entry points that drive it;
  - `laws`: properties that span several operations, stated and proved;
  - `hooks`, `terminal`, `spawn`, `text`: the decisions of hook command runs, of the
    interactive terminal broker and of process spawn requests.
- `tests/` runs the library on concrete values.
- `app/` holds what the library leaves to plain Rust: JSON text, the process-wide
  session, the WebAssembly imports, and the asynchronous runners of hooks and
  terminals.
