//! Signing proxy for a JSON-RPC bundle endpoint.
//!
//! Every request body that reaches the proxy is signed with the proxy's
//! Ed25519 keypair; the base58 signature and the signer's public key travel
//! upstream in two request headers, next to the untouched body.
pub mod json_rpc;
