pub mod status;
pub mod headers;
pub mod keys;
pub mod consts;
pub mod request_parser;
pub mod signer;
pub mod server;
pub mod laws;
