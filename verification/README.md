# jito-block-engine-proxy-server

A small HTTP proxy that signs JSON-RPC bundle requests before passing them
on to a block engine. For each `POST /api/v1/bundles` it reads the body,
signs it with the proxy's Ed25519 keypair, puts the base58 signature and the
signer's public key into the `authorization` and `x-sender-pubkey` headers,
and forwards the untouched body upstream; the upstream reply streams back.

- `src/` is the verified library (Verus): status codes and their text, the
  header edits, the keypair handling and signing, the request-body and
  upstream-reply decisions, and the laws proved about signed headers.
- `app/` is the server binary around it: arguments, the axum server, the
  reqwest client, reading the keypair file and the shutdown signal.
- `tests/` runs the library against the real `http` and `solana-sdk` crates.
