use vstd::prelude::*;

use crate::json_rpc::status::{is_success_code, HttpStatus};

verus! {

/// The reply text for a request body that could not be read.
pub open spec fn read_failure_text(err: Seq<char>) -> Seq<char> {
    "failed to read request body: "@ + err
}

/// Turns the outcome of reading a request body into the bytes to work on or
/// the error reply.
#[derive(Clone, Copy)]
pub struct JsonrpcRequestParser;

impl JsonrpcRequestParser {
    /// A body that was read passes through untouched; a read failure becomes
    /// `400 Bad Request` with the failure's text.
    pub fn get_req_body(body: Result<Vec<u8>, String>) -> (res: Result<Vec<u8>, (HttpStatus, String)>)
        ensures
            (match body {
                Ok(bytes) => res matches Ok(out) && out@ == bytes@,
                Err(err) => res matches Err(reply) && reply.0@ == 400 && reply.1@
                    == read_failure_text(err@),
            }),
            res matches Err(reply) ==> !is_success_code(reply.0@),
            body matches Ok(bytes) ==> (res matches Ok(out) && out@ == bytes@),
            body matches Err(err) ==> (res matches Err(reply) && reply.0@ == 400 && reply.1@
                == "failed to read request body: "@ + err@),
    {
        match body {
            Ok(bytes) => Ok(bytes),
            Err(err) => {
                let mut text = "failed to read request body: ".to_string();
                text.append(err.as_str());
                Err((HttpStatus::bad_request(), text))
            },
        }
    }
}

} // verus!
