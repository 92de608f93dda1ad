# wallet_adapter

The logic of a Rust Solana wallet adapter and of its front-end templates, written in
Verus and proved against its contracts.

- `src/` — the verified library:
  - `chains` — the Solana clusters, their names, endpoints and chain identifiers;
  - `cluster_store` — named cluster endpoints, the store of them and its actions,
    explorer query strings;
  - `notification`, `app_state` — notifications, the shared application state and the
    cluster reachability state, as state machines;
  - `errors`, `provider` — wallet error codes, JavaScript error values, provider checks
    and signatures;
  - `formatting` — display text and explorer links;
  - `assets`, `qr` — base64 data URIs and QR-code SVG images;
  - `rpc` — JSON-RPC response types and the account information state;
  - `idl` — the partial Anchor IDL reader.
- `tests/` — tests run against the compiled library.
- `app/` — browser and JSON plumbing: Phantom wallet calls through `web-sys`/`js-sys`,
  JavaScript error conversion, and serde parsing of IDLs and RPC responses.
