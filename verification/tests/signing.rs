use http::{HeaderMap, HeaderValue};
use jito_block_engine_proxy_server::json_rpc::consts::JsonRpcConsts;
use jito_block_engine_proxy_server::json_rpc::signer::{SignerContext, SignerMiddleware};
use solana_sdk::signature::{keypair_from_seed, write_keypair, Keypair, Signer};

fn test_keypair(seed: u8) -> Keypair {
    keypair_from_seed(&[seed; 32]).unwrap()
}

fn keypair_file(keypair: &Keypair) -> Vec<u8> {
    let mut out = Vec::new();
    write_keypair(keypair, &mut out).unwrap();
    out
}

fn context(keypair: &Keypair) -> SignerContext {
    SignerContext::try_new(&keypair_file(keypair)).expect("a keypair file")
}

fn header(headers: &HeaderMap, name: &str) -> Vec<String> {
    headers
        .get_all(name)
        .iter()
        .map(|v| v.to_str().unwrap().to_string())
        .collect()
}

const PAYLOAD: &[u8] = b"{\"jsonrpc\": \"2.0\", \"method\": \"getTipAccounts\", \"params\": [], \"id\": 1}";

#[test]
fn keypair_file_is_read() {
    assert!(SignerContext::try_new(&keypair_file(&test_keypair(1))).is_some());
    let keypair = test_keypair(1);
    let ctx = SignerContext::new(&keypair_file(&keypair));
    assert_eq!(ctx.pubkey_text(), keypair.pubkey().to_string());
}

#[test]
fn bad_keypair_files_are_refused() {
    assert!(SignerContext::try_new(b"").is_none());
    assert!(SignerContext::try_new(b"not json").is_none());
    assert!(SignerContext::try_new(b"[1, 2, 3]").is_none());
    // a full-length array whose public half does not belong to its secret half
    let mut bytes = test_keypair(2).to_bytes().to_vec();
    bytes[40] ^= 1;
    let text = format!("{:?}", bytes);
    assert!(SignerContext::try_new(text.as_bytes()).is_none());
}

#[test]
fn signature_is_the_keypairs_signature_of_the_payload() {
    let keypair = test_keypair(3);
    let text = context(&keypair).sign(PAYLOAD).unwrap();
    assert_eq!(text, keypair.sign_message(PAYLOAD).to_string());
    let parsed: solana_sdk::signature::Signature = text.parse().unwrap();
    assert!(parsed.verify(keypair.pubkey().as_ref(), PAYLOAD));
    assert!(!parsed.verify(keypair.pubkey().as_ref(), b"another payload"));
}

#[test]
fn signing_is_deterministic() {
    let keypair = test_keypair(4);
    let ctx = context(&keypair);
    assert_eq!(ctx.sign(PAYLOAD).unwrap(), ctx.sign(PAYLOAD).unwrap());
    assert_ne!(ctx.sign(PAYLOAD).unwrap(), ctx.sign(b"").unwrap());
}

#[test]
fn pubkey_text_is_the_signers_pubkey() {
    let keypair = test_keypair(5);
    assert_eq!(context(&keypair).pubkey_text(), keypair.pubkey().to_string());
}

#[test]
fn sign_request_adds_signature_and_sender() {
    let keypair = test_keypair(6);
    let ctx = context(&keypair);
    let mut headers = HeaderMap::new();
    headers.insert("content-type", HeaderValue::from_static("application/json"));
    let signed = SignerMiddleware::sign_request(headers, PAYLOAD, &ctx).unwrap().unwrap();
    assert_eq!(
        header(&signed, JsonRpcConsts::AUTHORIZATION_HEADER),
        vec![keypair.sign_message(PAYLOAD).to_string()]
    );
    assert_eq!(
        header(&signed, JsonRpcConsts::SENDER_PUBKEY_HEADER),
        vec![keypair.pubkey().to_string()]
    );
    assert_eq!(header(&signed, "content-type"), vec!["application/json".to_string()]);
    assert_eq!(signed.keys_len(), 3);
}

#[test]
fn client_signature_headers_are_replaced() {
    let keypair = test_keypair(7);
    let ctx = context(&keypair);
    let mut headers = HeaderMap::new();
    headers.append("authorization", HeaderValue::from_static("forged-1"));
    headers.append("authorization", HeaderValue::from_static("forged-2"));
    headers.insert("x-sender-pubkey", HeaderValue::from_static("someone-else"));
    let signed = SignerMiddleware::sign_request(headers, PAYLOAD, &ctx).unwrap().unwrap();
    assert_eq!(
        header(&signed, "authorization"),
        vec![keypair.sign_message(PAYLOAD).to_string()]
    );
    assert_eq!(header(&signed, "x-sender-pubkey"), vec![keypair.pubkey().to_string()]);
    assert_eq!(signed.keys_len(), 2);
}

#[test]
fn resigning_changes_nothing() {
    let keypair = test_keypair(8);
    let ctx = context(&keypair);
    let mut headers = HeaderMap::new();
    headers.insert("accept", HeaderValue::from_static("*/*"));
    let once = SignerMiddleware::sign_request(headers, PAYLOAD, &ctx).unwrap().unwrap();
    let twice = SignerMiddleware::sign_request(once.clone(), PAYLOAD, &ctx).unwrap().unwrap();
    assert_eq!(once, twice);
}

#[test]
fn middleware_without_context_is_internal_error() {
    let (code, text) = match SignerMiddleware::signing_context(None) {
        Ok(_) => panic!("a missing context must be refused"),
        Err(reply) => reply,
    };
    assert_eq!(code.as_u16(), 500);
    assert_eq!(text, "500 Internal Server Error");
}

#[test]
fn middleware_read_failure_is_bad_request() {
    let ctx = context(&test_keypair(9));
    let (code, text) =
        SignerMiddleware::sign(&ctx, HeaderMap::new(), Err("stream closed".to_string())).unwrap().unwrap_err();
    assert_eq!(code.as_u16(), 400);
    assert_eq!(text, "failed to read request body: stream closed");
}

#[test]
fn middleware_forwards_body_unchanged_and_signed() {
    let keypair = test_keypair(10);
    let ctx = context(&keypair);
    let mut headers = HeaderMap::new();
    headers.insert("content-type", HeaderValue::from_static("application/json"));
    let (signed, body) = SignerMiddleware::sign(&ctx, headers, Ok(PAYLOAD.to_vec())).unwrap().unwrap();
    assert_eq!(body, PAYLOAD.to_vec());
    assert_eq!(
        header(&signed, "authorization"),
        vec![keypair.sign_message(PAYLOAD).to_string()]
    );
    assert_eq!(header(&signed, "x-sender-pubkey"), vec![keypair.pubkey().to_string()]);
    assert_eq!(header(&signed, "content-type"), vec!["application/json".to_string()]);
}

#[test]
fn middleware_signs_an_empty_body() {
    let keypair = test_keypair(11);
    let ctx = context(&keypair);
    let (signed, body) = SignerMiddleware::sign(&ctx, HeaderMap::new(), Ok(Vec::new())).unwrap().unwrap();
    assert!(body.is_empty());
    assert_eq!(header(&signed, "authorization"), vec![keypair.sign_message(b"").to_string()]);
}

#[test]
fn signing_context_is_found() {
    let keypair = test_keypair(12);
    let ctx = context(&keypair);
    let found = match SignerMiddleware::signing_context(Some(&ctx)) {
        Ok(found) => found,
        Err(_) => panic!("a present context must be found"),
    };
    assert_eq!(found.pubkey_text(), keypair.pubkey().to_string());
}

#[test]
fn cloned_context_signs_alike() {
    let keypair = test_keypair(13);
    let ctx = context(&keypair);
    let copy = ctx.clone();
    assert_eq!(copy.sign(PAYLOAD).unwrap(), ctx.sign(PAYLOAD).unwrap());
    assert_eq!(copy.pubkey_text(), ctx.pubkey_text());
}

#[test]
fn signature_text_is_short_base58() {
    let ctx = context(&test_keypair(14));
    for payload in [&b""[..], PAYLOAD, &[0u8; 1000][..]] {
        let text = ctx.sign(payload).unwrap();
        assert!(text.len() <= 88);
        assert!(text
            .chars()
            .all(|c| c.is_ascii_alphanumeric() && !matches!(c, '0' | 'O' | 'I' | 'l')));
    }
}

fn many_names(count: usize) -> HeaderMap {
    let mut headers = HeaderMap::new();
    for i in 0..count {
        let name = http::header::HeaderName::from_bytes(format!("x-h{}", i).as_bytes()).unwrap();
        headers.insert(name, HeaderValue::from_static("v"));
    }
    headers
}

#[test]
fn large_header_maps_are_signed() {
    let ctx = context(&test_keypair(15));
    let (signed, body) = SignerMiddleware::sign(&ctx, many_names(6552), Ok(PAYLOAD.to_vec()))
        .unwrap()
        .unwrap();
    assert_eq!(body, PAYLOAD.to_vec());
    assert_eq!(signed.keys_len(), 6554);
    let (signed, _) = SignerMiddleware::sign(&ctx, many_names(7000), Ok(PAYLOAD.to_vec()))
        .unwrap()
        .unwrap();
    assert_eq!(signed.keys_len(), 7002);
}

#[test]
fn read_failure_ignores_name_count() {
    let ctx = context(&test_keypair(16));
    let (code, text) = SignerMiddleware::sign(&ctx, many_names(7000), Err("gone".to_string()))
        .unwrap()
        .unwrap_err();
    assert_eq!(code.as_u16(), 400);
    assert_eq!(text, "failed to read request body: gone");
}
