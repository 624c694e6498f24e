use vstd::prelude::*;

use crate::json_rpc::consts::JsonRpcConsts;
use crate::json_rpc::headers::header_entries;
use crate::json_rpc::keys::{base58_text, ed25519_signature};
use crate::json_rpc::signer::{signed_entries, signing_outcome};
use crate::json_rpc::status::{is_status_code, is_success_code, status_line};

verus! {

/// Signing a request that was already signed with the same keypair over the
/// same body changes nothing: the proxy's two headers replace, never
/// accumulate. `sign_request` gives these entries whenever its header table
/// has room, which it always has below `header_map_room()` names.
pub proof fn lemma_resigning_is_idempotent(
    entries: Map<Seq<char>, Seq<Seq<u8>>>,
    keypair: Seq<u8>,
    body: Seq<u8>,
)
    ensures
        signed_entries(signed_entries(entries, keypair, body), keypair, body) == signed_entries(
            entries,
            keypair,
            body,
        ),
{
    assert(signed_entries(signed_entries(entries, keypair, body), keypair, body) =~= signed_entries(
        entries,
        keypair,
        body,
    ));
}

/// A client cannot choose what the proxy sends under its own two header
/// names: two requests whose headers differ only there leave the proxy with
/// the same headers.
pub proof fn lemma_client_cannot_forge_signature_headers(
    entries1: Map<Seq<char>, Seq<Seq<u8>>>,
    entries2: Map<Seq<char>, Seq<Seq<u8>>>,
    keypair: Seq<u8>,
    body: Seq<u8>,
)
    requires
        entries1.remove(JsonRpcConsts::AUTHORIZATION_HEADER@).remove(
            JsonRpcConsts::SENDER_PUBKEY_HEADER@,
        ) == entries2.remove(JsonRpcConsts::AUTHORIZATION_HEADER@).remove(
            JsonRpcConsts::SENDER_PUBKEY_HEADER@,
        ),
    ensures
        signed_entries(entries1, keypair, body) == signed_entries(entries2, keypair, body),
{
    let auth = JsonRpcConsts::AUTHORIZATION_HEADER@;
    let sender = JsonRpcConsts::SENDER_PUBKEY_HEADER@;
    let rest1 = entries1.remove(auth).remove(sender);
    let rest2 = entries2.remove(auth).remove(sender);
    let signed1 = signed_entries(entries1, keypair, body);
    let signed2 = signed_entries(entries2, keypair, body);
    assert forall|name: Seq<char>| #[trigger] signed1.dom().contains(name) <==> signed2.dom().contains(
        name,
    ) by {
        if name != auth && name != sender {
            assert(rest1.dom().contains(name) == entries1.dom().contains(name));
            assert(rest2.dom().contains(name) == entries2.dom().contains(name));
        }
    }
    assert forall|name: Seq<char>| #[trigger] signed1.dom().contains(name) implies signed1[name]
        == signed2[name] by {
        if name != auth && name != sender {
            assert(rest1.dom().contains(name) == entries1.dom().contains(name));
            assert(rest1[name] == entries1[name]);
            assert(rest2[name] == entries2[name]);
        }
    }
    assert(signed1 =~= signed2);
}

/// Every header other than the proxy's two reaches upstream exactly as the
/// client sent it.
pub proof fn lemma_other_headers_kept(
    entries: Map<Seq<char>, Seq<Seq<u8>>>,
    keypair: Seq<u8>,
    body: Seq<u8>,
    name: Seq<char>,
)
    requires
        name != JsonRpcConsts::AUTHORIZATION_HEADER@,
        name != JsonRpcConsts::SENDER_PUBKEY_HEADER@,
    ensures
        signed_entries(entries, keypair, body).dom().contains(name) <==> entries.dom().contains(
            name,
        ),
        entries.dom().contains(name) ==> signed_entries(entries, keypair, body)[name]
            == entries[name],
{
}

/// The signed headers carry, under `authorization`, exactly the base58 text
/// of the keypair's Ed25519 signature over the whole body, and under
/// `x-sender-pubkey` the base58 text of the keypair's public half (its last
/// 32 bytes), each as the only value; every other header is the client's.
pub proof fn lemma_signed_headers_cover_whole_body(
    entries: Map<Seq<char>, Seq<Seq<u8>>>,
    keypair: Seq<u8>,
    body: Seq<u8>,
)
    ensures
        signed_entries(entries, keypair, body).dom().contains(JsonRpcConsts::AUTHORIZATION_HEADER@),
        signed_entries(entries, keypair, body)[JsonRpcConsts::AUTHORIZATION_HEADER@] == seq![
            vstd::utf8::encode_utf8(base58_text(ed25519_signature(keypair, body))),
        ],
        signed_entries(entries, keypair, body).dom().contains(JsonRpcConsts::SENDER_PUBKEY_HEADER@),
        signed_entries(entries, keypair, body)[JsonRpcConsts::SENDER_PUBKEY_HEADER@] == seq![
            vstd::utf8::encode_utf8(base58_text(keypair.subrange(32, 64))),
        ],
        forall|name: Seq<char>|
            name != JsonRpcConsts::AUTHORIZATION_HEADER@ && name
                != JsonRpcConsts::SENDER_PUBKEY_HEADER@ ==> (#[trigger] signed_entries(
                entries,
                keypair,
                body,
            ).dom().contains(name) <==> entries.dom().contains(name)) && (entries.dom().contains(
                name,
            ) ==> signed_entries(entries, keypair, body)[name] == entries[name]),
{
    reveal_strlit("authorization");
    reveal_strlit("x-sender-pubkey");
    assert(JsonRpcConsts::AUTHORIZATION_HEADER@ != JsonRpcConsts::SENDER_PUBKEY_HEADER@) by {
        assert(JsonRpcConsts::AUTHORIZATION_HEADER@.len() != JsonRpcConsts::SENDER_PUBKEY_HEADER@.len());
    }
}

/// A body that was read, of any length, is always forwarded: byte for byte,
/// with the signature of all of it and the signer's key as the only values
/// of the proxy's two headers, and every other header as the client sent it.
pub proof fn lemma_read_body_is_forwarded_signed(
    keypair: Seq<u8>,
    entries: Map<Seq<char>, Seq<Seq<u8>>>,
    bytes: Vec<u8>,
    res: Result<(http::HeaderMap, Vec<u8>), (crate::json_rpc::status::HttpStatus, String)>,
)
    requires
        signing_outcome(keypair, entries, Ok(bytes), res),
    ensures
        res matches Ok(forward) && forward.1@ == bytes@ && header_entries(forward.0).dom().contains(
            JsonRpcConsts::AUTHORIZATION_HEADER@,
        ) && header_entries(forward.0)[JsonRpcConsts::AUTHORIZATION_HEADER@] == seq![
            vstd::utf8::encode_utf8(base58_text(ed25519_signature(keypair, bytes@))),
        ] && header_entries(forward.0).dom().contains(JsonRpcConsts::SENDER_PUBKEY_HEADER@)
            && header_entries(forward.0)[JsonRpcConsts::SENDER_PUBKEY_HEADER@] == seq![
            vstd::utf8::encode_utf8(base58_text(keypair.subrange(32, 64))),
        ],
{
    lemma_signed_headers_cover_whole_body(entries, keypair, bytes@);
}

/// The only refusal of a request whose context is present is for a body that
/// could not be read: `400` with `failed to read request body: ` and the
/// failure's text.
pub proof fn lemma_read_failure_answer(
    keypair: Seq<u8>,
    entries: Map<Seq<char>, Seq<Seq<u8>>>,
    err: String,
    res: Result<(http::HeaderMap, Vec<u8>), (crate::json_rpc::status::HttpStatus, String)>,
)
    requires
        signing_outcome(keypair, entries, Err(err), res),
    ensures
        res matches Err(reply) && reply.0@ == 400 && reply.1@ == "failed to read request body: "@
            + err@,
{
}

/// A status counts as success exactly when its code lies in `200..=299`.
pub proof fn lemma_success_is_2xx(code: u16)
    ensures
        is_success_code(code) <==> (200 <= code && code <= 299),
{
}

/// Every code from 100 to 999 is a status code, and no other number is.
pub proof fn lemma_status_codes_are_100_to_999(code: u16)
    ensures
        is_status_code(code) <==> (100 <= code && code <= 999),
{
}

/// A status line starts with the code's three decimal digits and a space.
pub proof fn lemma_status_line_starts_with_code(code: u16)
    requires
        100 <= code && code <= 999,
    ensures
        status_line(code).len() >= 4,
        status_line(code)[0] as int == 48 + code / 100,
        status_line(code)[1] as int == 48 + (code / 10) % 10,
        status_line(code)[2] as int == 48 + code % 10,
        status_line(code)[3] == ' ',
{
}

} // verus!
