use std::sync::Arc;

use vstd::prelude::*;

use crate::json_rpc::consts::JsonRpcConsts;
use crate::json_rpc::headers::{
    header_entries, header_map_room, insert_header, is_header_value, is_header_value_byte,
    is_static_header_name, HeaderInsert,
};
use crate::json_rpc::keys::{
    base58_text, ed25519_signature, is_base58_char, is_base58_text, keypair_accepted,
    keypair_file_bytes, keypair_pubkey_text, lemma_base58_text_chars, lemma_base58_text_len_64, read_keypair_bytes,
    sign_message, signature_text,
};
use crate::json_rpc::request_parser::{read_failure_text, JsonrpcRequestParser};
use crate::json_rpc::status::{is_success_code, status_line, HttpStatus};

verus! {

/// The header values of a request signed by `keypair` over `body`: the
/// request's own headers, with the signature text as the only authorization
/// value and the signer's public key text as the only sender value.
pub open spec fn signed_entries(
    entries: Map<Seq<char>, Seq<Seq<u8>>>,
    keypair: Seq<u8>,
    body: Seq<u8>,
) -> Map<Seq<char>, Seq<Seq<u8>>> {
    entries.insert(
        JsonRpcConsts::AUTHORIZATION_HEADER@,
        seq![vstd::utf8::encode_utf8(base58_text(ed25519_signature(keypair, body)))],
    ).insert(
        JsonRpcConsts::SENDER_PUBKEY_HEADER@,
        seq![vstd::utf8::encode_utf8(base58_text(keypair.subrange(32, 64)))],
    )
}

/// Base58 text is plain ASCII, so its bytes can stand in a header value.
proof fn lemma_base58_header_value(text: Seq<char>)
    requires
        is_base58_text(text),
    ensures
        is_header_value(vstd::utf8::encode_utf8(text)),
{
    assert(vstd::utf8::is_ascii_chars(text)) by {
        assert forall|i: int| 0 <= i < text.len() implies '\0' <= #[trigger] text[i] <= '\u{7f}' by {
            assert(is_base58_char(text[i]));
        }
    }
    vstd::utf8::is_ascii_chars_encode_utf8(text);
    let bytes = vstd::utf8::encode_utf8(text);
    assert forall|i: int| 0 <= i < bytes.len() implies is_header_value_byte(#[trigger] bytes[i]) by {
        assert(is_base58_char(text[i]));
        assert(text[i] as u8 == bytes[i]);
    }
}

/// What signing a request leaves, given the signer's keypair, the request's
/// headers and the outcome of reading its body: a read failure is answered
/// `400 Bad Request`; a body that was read goes on unchanged, with the
/// signed headers.
pub open spec fn signing_outcome(
    keypair: Seq<u8>,
    entries: Map<Seq<char>, Seq<Seq<u8>>>,
    body: Result<Vec<u8>, String>,
    res: Result<(http::HeaderMap, Vec<u8>), (HttpStatus, String)>,
) -> bool {
    match body {
        Err(err) => res matches Err(reply) && reply.0@ == 400 && reply.1@ == read_failure_text(err@),
        Ok(bytes) => res matches Ok(forward) && forward.1@ == bytes@ && header_entries(forward.0)
            == signed_entries(entries, keypair, bytes@),
    }
}

/// `Arc::clone` on the shared keypair bytes.
///
/// Trusted: the clone is another pointer to the same allocation, so it holds
/// the same bytes.
#[verifier::external_body]
fn share_keypair(keypair: &Arc<Vec<u8>>) -> (copy: Arc<Vec<u8>>)
    ensures
        copy@ == keypair@,
{
    Arc::clone(keypair)
}

/// The keypair that signs the requests, shared by all copies of the context.
pub struct SignerContext {
    signer_keypair: Arc<Vec<u8>>,
}

impl View for SignerContext {
    type V = Seq<u8>;

    /// The keypair's 64 bytes.
    closed spec fn view(&self) -> Seq<u8> {
        self.signer_keypair@
    }
}

impl Clone for SignerContext {
    /// The same keypair, shared rather than copied.
    fn clone(&self) -> (copy: SignerContext)
        ensures
            copy@ == self@,
    {
        proof {
            use_type_invariant(self);
        }
        SignerContext { signer_keypair: share_keypair(&self.signer_keypair) }
    }
}

impl SignerContext {
    #[verifier::type_invariant]
    spec fn inv(self) -> bool {
        keypair_accepted(self.signer_keypair@)
    }

    /// The context for the keypair stored in a keypair file, given the file's
    /// contents, which must hold a keypair.
    pub fn new(keypair_file: &[u8]) -> (context: SignerContext)
        requires
            keypair_file_bytes(keypair_file@) is Some,
        ensures
            keypair_file_bytes(keypair_file@) == Some(context@),
    {
        let bytes = read_keypair_bytes(keypair_file).unwrap();
        SignerContext { signer_keypair: Arc::new(bytes) }
    }

    /// The context for the keypair stored in a keypair file, or `None` where
    /// the contents hold no keypair.
    pub fn try_new(keypair_file: &[u8]) -> (context: Option<SignerContext>)
        ensures
            context is Some <==> keypair_file_bytes(keypair_file@) is Some,
            context matches Some(c) ==> keypair_file_bytes(keypair_file@) == Some(c@),
    {
        match read_keypair_bytes(keypair_file) {
            Ok(_) => Some(SignerContext::new(keypair_file)),
            Err(_) => None,
        }
    }

    /// The base58 text of the keypair's signature over `payload`.
    pub fn sign(&self, payload: &[u8]) -> (res: Result<String, (HttpStatus, String)>)
        ensures
            res matches Ok(text) && text@ == base58_text(ed25519_signature(self@, payload@))
                && is_base58_text(text@) && text@.len() <= 88,
    {
        proof {
            use_type_invariant(self);
        }
        match sign_message(self.signer_keypair.as_slice(), payload) {
            Ok(signature) => {
                let text = signature_text(signature.as_slice());
                proof {
                    lemma_base58_text_chars(signature@);
                    lemma_base58_text_len_64(signature@);
                }
                Ok(text)
            },
            Err(err) => Err((HttpStatus::precondition_failed(), err)),
        }
    }

    /// The base58 text of the keypair's public key, its last 32 bytes.
    pub fn pubkey_text(&self) -> (text: String)
        ensures
            text@ == base58_text(self@.subrange(32, 64)),
            is_base58_text(text@),
    {
        proof {
            use_type_invariant(self);
            lemma_base58_text_chars(self@.subrange(32, 64));
        }
        keypair_pubkey_text(self.signer_keypair.as_slice())
    }
}

/// Signs each request before it travels upstream.
#[derive(Clone, Copy)]
pub struct SignerMiddleware;

impl SignerMiddleware {
    /// Puts the signature of `req` and the signer's public key into the
    /// headers, each replacing whatever the request held under its name.
    /// `None` where the header table is full, which `HeaderMap::insert`
    /// answers with a panic; that needs at least `header_map_room()` names.
    pub fn sign_request(
        headers: http::HeaderMap,
        req: &[u8],
        signer_context: &SignerContext,
    ) -> (res: Option<Result<http::HeaderMap, (HttpStatus, String)>>)
        ensures
            res is None ==> header_entries(headers).dom().len() >= header_map_room(),
            res matches Some(outcome) ==> outcome matches Ok(signed) && header_entries(signed)
                == signed_entries(header_entries(headers), signer_context@, req@) && header_entries(
                signed,
            ).dom().len() <= header_entries(headers).dom().len() + 2,
            res matches Some(outcome) ==> (outcome matches Ok(signed) && header_entries(
                signed,
            ).dom().contains(JsonRpcConsts::AUTHORIZATION_HEADER@) && header_entries(
                signed,
            )[JsonRpcConsts::AUTHORIZATION_HEADER@] == seq![
                vstd::utf8::encode_utf8(base58_text(ed25519_signature(signer_context@, req@))),
            ] && header_entries(signed).dom().contains(JsonRpcConsts::SENDER_PUBKEY_HEADER@)
                && header_entries(signed)[JsonRpcConsts::SENDER_PUBKEY_HEADER@] == seq![
                vstd::utf8::encode_utf8(base58_text(signer_context@.subrange(32, 64))),
            ]),
            res matches Some(outcome) ==> (outcome matches Ok(signed) && (forall|name: Seq<char>|
                name != JsonRpcConsts::AUTHORIZATION_HEADER@ && name
                    != JsonRpcConsts::SENDER_PUBKEY_HEADER@ ==> (#[trigger] header_entries(
                    signed,
                ).dom().contains(name) <==> header_entries(headers).dom().contains(name)) && (
                header_entries(headers).dom().contains(name) ==> header_entries(signed)[name]
                    == header_entries(headers)[name]))),
    {
        let mut headers = headers;
        let signed_payload = match signer_context.sign(req) {
            Ok(text) => text,
            Err(reply) => return Some(Err(reply)),
        };
        proof {
            reveal_strlit("authorization");
            reveal_strlit("x-sender-pubkey");
            lemma_base58_header_value(signed_payload@);
        }
        assert(is_static_header_name(JsonRpcConsts::AUTHORIZATION_HEADER@));
        match insert_header(&mut headers, JsonRpcConsts::AUTHORIZATION_HEADER, signed_payload.as_str()) {
            HeaderInsert::Inserted => {},
            HeaderInsert::ValueRefused => {
                assert(false);
            },
            HeaderInsert::TableFull => return None,
        }
        let pubkey = signer_context.pubkey_text();
        proof {
            lemma_base58_header_value(pubkey@);
        }
        match insert_header(&mut headers, JsonRpcConsts::SENDER_PUBKEY_HEADER, pubkey.as_str()) {
            HeaderInsert::Inserted => {},
            HeaderInsert::ValueRefused => {
                assert(false);
            },
            HeaderInsert::TableFull => return None,
        }
        Some(Ok(headers))
    }

    /// The signing context of a request, looked up before anything else:
    /// without one the request is answered `500 Internal Server Error`.
    pub fn signing_context(state: Option<&SignerContext>) -> (res: Result<
        &SignerContext,
        (HttpStatus, String),
    >)
        ensures
            (match state {
                None => res matches Err(reply) && reply.0@ == 500 && reply.1@ == status_line(500),
                Some(context) => res matches Ok(found) && found == context,
            }),
    {
        match state {
            Some(context) => Ok(context),
            None => {
                let status = HttpStatus::internal_server_error();
                let text = status.to_string();
                Err((status, text))
            },
        }
    }

    /// What the proxy does with a request once it has its signing context and
    /// has tried to read the body: `400` when reading failed, and otherwise
    /// the body unchanged with the signed headers. `None` where the header
    /// table is full, which `HeaderMap::insert` answers with a panic.
    pub fn sign(
        signer_context: &SignerContext,
        headers: http::HeaderMap,
        body: Result<Vec<u8>, String>,
    ) -> (res: Option<Result<(http::HeaderMap, Vec<u8>), (HttpStatus, String)>>)
        ensures
            res is None ==> body is Ok && header_entries(headers).dom().len() >= header_map_room(),
            res matches Some(outcome) ==> signing_outcome(
                signer_context@,
                header_entries(headers),
                body,
                outcome,
            ),
            res matches Some(Err(reply)) ==> !is_success_code(reply.0@),
            res matches Some(Err(reply)) ==> (body is Err && reply.0@ == 400),
            body matches Ok(bytes) ==> (res matches Some(outcome) ==> (outcome matches Ok(forward)
                && forward.1@ == bytes@ && header_entries(forward.0).dom().contains(
                JsonRpcConsts::AUTHORIZATION_HEADER@,
            ) && header_entries(forward.0)[JsonRpcConsts::AUTHORIZATION_HEADER@] == seq![
                vstd::utf8::encode_utf8(base58_text(ed25519_signature(signer_context@, bytes@))),
            ])),
    {
        let bytes = match JsonrpcRequestParser::get_req_body(body) {
            Ok(bytes) => bytes,
            Err(reply) => return Some(Err(reply)),
        };
        match Self::sign_request(headers, bytes.as_slice(), signer_context) {
            Some(Ok(signed)) => Some(Ok((signed, bytes))),
            Some(Err(reply)) => Some(Err(reply)),
            None => None,
        }
    }
}

} // verus!
