use vstd::prelude::*;

use crate::json_rpc::status::{is_success_code, status_line, HttpStatus};

verus! {

/// What the proxy answers once it has forwarded a request upstream, given
/// the upstream status or the text of the transport failure: after any
/// success status the upstream body streams back under `200 OK` (`Ok`); any
/// other status is answered with that status and its text; a failure to
/// reach upstream is answered `502 Bad Gateway` with the failure's text.
pub fn upstream_reply(sent: Result<HttpStatus, String>) -> (reply: Result<HttpStatus, (HttpStatus, String)>)
    ensures
        (match sent {
            Err(err) => reply matches Err(r) && r.0@ == 502 && r.1@ == err@,
            Ok(status) => if is_success_code(status@) {
                reply matches Ok(s) && s@ == 200
            } else {
                reply matches Err(r) && r.0@ == status@ && r.1@ == status_line(status@)
            },
        }),
        reply matches Err(r) ==> !is_success_code(r.0@),
        sent matches Ok(s) ==> ((200 <= s@ && s@ <= 299) ==> (reply matches Ok(x) && x@ == 200)),
        sent matches Ok(s) ==> ((s@ < 200 || s@ > 299) ==> (reply matches Err(r) && r.0@ == s@)),
        sent matches Err(e) ==> (reply matches Err(r) && r.0@ == 502 && r.1@ == e@),
        reply matches Err(r) ==> r.0@ < 200 || r.0@ > 299,
{
    match sent {
        Err(err) => Err((HttpStatus::bad_gateway(), err)),
        Ok(status) => {
            if status.is_success() {
                Ok(HttpStatus::ok())
            } else {
                let text = status.to_string();
                Err((status, text))
            }
        },
    }
}

} // verus!
