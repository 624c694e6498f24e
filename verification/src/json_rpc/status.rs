use vstd::prelude::*;

verus! {

/// Whether `code` lies in the range that an HTTP status code may take.
pub open spec fn is_status_code(code: u16) -> bool {
    100 <= code <= 999
}

/// Whether `code` is a success status (`2xx`).
pub open spec fn is_success_code(code: u16) -> bool {
    200 <= code < 300
}

/// The decimal digit `d` (`0 <= d < 10`) as a character.
pub open spec fn digit_char(d: int) -> char {
    (48 + d) as char
}

/// The three decimal digits of a status code.
pub open spec fn status_digits(code: u16) -> Seq<char> {
    seq![
        digit_char(code as int / 100),
        digit_char((code as int / 10) % 10),
        digit_char(code as int % 10),
    ]
}

/// The canonical reason phrase that the `http` crate knows for `code`, if any
/// (`http::StatusCode::canonical_reason`).
pub uninterp spec fn canonical_reason(code: u16) -> Option<Seq<char>>;

/// The reason part of a status line: the canonical phrase, or a fixed
/// placeholder for codes without one.
pub open spec fn reason_or_unknown(code: u16) -> Seq<char> {
    match canonical_reason(code) {
        Some(reason) => reason,
        None => "<unknown status code>"@,
    }
}

/// The text of a status code: its digits, a space and its reason phrase,
/// e.g. `400 Bad Request`.
pub open spec fn status_line(code: u16) -> Seq<char> {
    status_digits(code) + seq![' '] + reason_or_unknown(code)
}

/// Renders a status code as `http::StatusCode` displays it.
///
/// Trusted: `http::StatusCode::from_u16` accepts every code in `100..=999`,
/// and `Display` for `StatusCode` writes the decimal number, a space and
/// `canonical_reason()` or `"<unknown status code>"`.
#[verifier::external_body]
fn http_status_line(code: u16) -> (line: String)
    requires
        is_status_code(code),
    ensures
        line@ == status_digits(code) + seq![' '] + (match canonical_reason(code) {
            Some(reason) => reason,
            None => "<unknown status code>"@,
        }),
{
    match http::StatusCode::from_u16(code) {
        Ok(status) => status.to_string(),
        Err(_) => String::new(),
    }
}

/// An HTTP status code.
#[derive(Debug)]
pub struct HttpStatus {
    code: u16,
}

impl View for HttpStatus {
    type V = u16;

    closed spec fn view(&self) -> u16 {
        self.code
    }
}

impl HttpStatus {
    #[verifier::type_invariant]
    spec fn inv(self) -> bool {
        is_status_code(self.code)
    }

    /// The status with the given code, if the code is one.
    pub fn from_u16(code: u16) -> (status: Option<HttpStatus>)
        ensures
            status is Some <==> is_status_code(code),
            status matches Some(s) ==> s@ == code,
            (100 <= code && code <= 999) ==> (status matches Some(s) && s@ == code),
            (code < 100 || code > 999) ==> status is None,
    {
        if 100 <= code && code <= 999 {
            Some(HttpStatus { code })
        } else {
            None
        }
    }

    /// The numeric code.
    pub fn as_u16(&self) -> (code: u16)
        ensures
            code == self@,
            is_status_code(code),
            100 <= code && code <= 999,
    {
        proof {
            use_type_invariant(self);
        }
        self.code
    }

    /// `200 <= code < 300`.
    pub fn is_success(&self) -> (b: bool)
        ensures
            b == is_success_code(self@),
            b == (200 <= self@ && self@ <= 299),
    {
        200 <= self.code && self.code < 300
    }

    /// The status line text, e.g. `502 Bad Gateway`.
    pub fn to_string(&self) -> (text: String)
        ensures
            text@ == status_line(self@),
    {
        proof {
            use_type_invariant(self);
        }
        http_status_line(self.code)
    }

    /// `200 OK`.
    pub fn ok() -> (status: HttpStatus)
        ensures
            status@ == 200,
    {
        HttpStatus { code: 200 }
    }

    /// `400 Bad Request`.
    pub fn bad_request() -> (status: HttpStatus)
        ensures
            status@ == 400,
    {
        HttpStatus { code: 400 }
    }

    /// `412 Precondition Failed`.
    pub fn precondition_failed() -> (status: HttpStatus)
        ensures
            status@ == 412,
    {
        HttpStatus { code: 412 }
    }

    /// `500 Internal Server Error`.
    pub fn internal_server_error() -> (status: HttpStatus)
        ensures
            status@ == 500,
    {
        HttpStatus { code: 500 }
    }

    /// `502 Bad Gateway`.
    pub fn bad_gateway() -> (status: HttpStatus)
        ensures
            status@ == 502,
    {
        HttpStatus { code: 502 }
    }
}

} // verus!
