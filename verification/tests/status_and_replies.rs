use jito_block_engine_proxy_server::json_rpc::request_parser::JsonrpcRequestParser;
use jito_block_engine_proxy_server::json_rpc::server::upstream_reply;
use jito_block_engine_proxy_server::json_rpc::status::HttpStatus;

fn status(code: u16) -> HttpStatus {
    HttpStatus::from_u16(code).expect("a status code")
}

#[test]
fn status_codes_outside_range_are_refused() {
    assert!(HttpStatus::from_u16(0).is_none());
    assert!(HttpStatus::from_u16(99).is_none());
    assert!(HttpStatus::from_u16(1000).is_none());
    assert_eq!(HttpStatus::from_u16(100).unwrap().as_u16(), 100);
    assert_eq!(HttpStatus::from_u16(999).unwrap().as_u16(), 999);
}

#[test]
fn success_is_the_2xx_range() {
    assert!(!status(199).is_success());
    assert!(status(200).is_success());
    assert!(status(299).is_success());
    assert!(!status(300).is_success());
    assert!(!status(502).is_success());
}

#[test]
fn status_text_matches_http_display() {
    assert_eq!(HttpStatus::ok().to_string(), "200 OK");
    assert_eq!(HttpStatus::bad_request().to_string(), "400 Bad Request");
    assert_eq!(HttpStatus::precondition_failed().to_string(), "412 Precondition Failed");
    assert_eq!(HttpStatus::internal_server_error().to_string(), "500 Internal Server Error");
    assert_eq!(HttpStatus::bad_gateway().to_string(), "502 Bad Gateway");
    assert_eq!(status(404).to_string(), "404 Not Found");
    assert_eq!(status(999).to_string(), "999 <unknown status code>");
    for code in [100u16, 200, 404, 503, 777] {
        assert_eq!(
            status(code).to_string(),
            http::StatusCode::from_u16(code).unwrap().to_string()
        );
    }
}

#[test]
fn read_body_passes_bytes_through() {
    let body = b"{\"jsonrpc\": \"2.0\", \"method\": \"getTipAccounts\", \"params\": [], \"id\": 1}".to_vec();
    let out = JsonrpcRequestParser::get_req_body(Ok(body.clone())).unwrap();
    assert_eq!(out, body);
    assert_eq!(JsonrpcRequestParser::get_req_body(Ok(Vec::new())).unwrap(), Vec::<u8>::new());
}

#[test]
fn read_failure_is_bad_request() {
    let (code, text) = JsonrpcRequestParser::get_req_body(Err("connection reset".to_string())).unwrap_err();
    assert_eq!(code.as_u16(), 400);
    assert_eq!(text, "failed to read request body: connection reset");
    let (code, text) = JsonrpcRequestParser::get_req_body(Err(String::new())).unwrap_err();
    assert_eq!(code.as_u16(), 400);
    assert_eq!(text, "failed to read request body: ");
}

#[test]
fn upstream_success_streams_back() {
    assert_eq!(upstream_reply(Ok(status(200))).unwrap().as_u16(), 200);
    assert_eq!(upstream_reply(Ok(status(204))).unwrap().as_u16(), 200);
    assert_eq!(upstream_reply(Ok(status(299))).unwrap().as_u16(), 200);
}

#[test]
fn upstream_failure_status_is_passed_on() {
    let (code, text) = upstream_reply(Ok(status(404))).unwrap_err();
    assert_eq!(code.as_u16(), 404);
    assert_eq!(text, "404 Not Found");
    let (code, text) = upstream_reply(Ok(status(301))).unwrap_err();
    assert_eq!(code.as_u16(), 301);
    assert_eq!(text, "301 Moved Permanently");
    let (code, text) = upstream_reply(Ok(status(429))).unwrap_err();
    assert_eq!(code.as_u16(), 429);
    assert_eq!(text, "429 Too Many Requests");
}

#[test]
fn unreachable_upstream_is_bad_gateway() {
    let (code, text) = upstream_reply(Err("error sending request".to_string())).unwrap_err();
    assert_eq!(code.as_u16(), 502);
    assert_eq!(text, "error sending request");
}
