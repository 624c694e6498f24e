use vstd::prelude::*;

verus! {

/// Names shared by the proxy's request handling.
pub struct JsonRpcConsts;

impl JsonRpcConsts {
    /// Header that carries the base58 signature of the request body.
    pub const AUTHORIZATION_HEADER: &'static str = "authorization";

    /// Header that carries the base58 public key of the signer.
    pub const SENDER_PUBKEY_HEADER: &'static str = "x-sender-pubkey";

    /// Address the proxy listens on: localhost.
    pub const BIND_ADDRESS: [u8; 4] = [127, 0, 0, 1];

    /// Route under which the proxy accepts bundle requests.
    pub const BUNDLES_ROUTE: &'static str = "/api/v1/bundles";
}

} // verus!
