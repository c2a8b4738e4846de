//! The decisions of the metrics endpoint: whether a request is authorized,
//! and which response it gets. Listening and answering happen elsewhere.

use vstd::prelude::*;
use vstd::string::StringSliceAdditionalSpecFns;
use vstd::utf8::encode_utf8;
use crate::server_options::Authorization;
use crate::text::str_equals;

verus! {

#[verifier::external_type_specification]
#[verifier::external_body]
pub struct ExDecodeError(base64::DecodeError);

/// What standard base64 decoding makes of a text, if it is valid base64.
pub uninterp spec fn base64_decoded(s: Seq<char>) -> Option<Seq<u8>>;

/// Relies on `base64::decode` (standard alphabet, padded): the bytes the
/// text encodes, or an error when it is not valid base64. The result depends
/// on the text alone.
#[verifier::external_body]
fn decode_base64(s: &str) -> (r: Result<Vec<u8>, base64::DecodeError>)
    ensures
        match r {
            Ok(v) => base64_decoded(s@) == Some(v@),
            Err(_) => base64_decoded(s@) is None,
        },
{
    base64::decode(s)
}

/// The credentials of an `Authorization` header value: the text after
/// `Basic ` when the value is exactly two words, separated by one space,
/// of which the first is `Basic`.
pub open spec fn basic_token(header: Seq<char>) -> Option<Seq<char>> {
    if header.len() >= 6 && header.take(6) == "Basic "@ && !header.skip(6).contains(' ') {
        Some(header.skip(6))
    } else {
        None
    }
}

/// The bytes that decoded Basic credentials must equal: an empty user name,
/// a colon, and the password.
pub open spec fn expected_credentials(password: Seq<char>) -> Seq<u8> {
    seq![58u8] + encode_utf8(password)
}

/// Whether a request with the given `Authorization` header value (`None`
/// when the request has none, or its value is not visible ASCII) passes the
/// check.
pub open spec fn authorized(auth: Authorization, header: Option<Seq<char>>) -> bool {
    match auth {
        Authorization::Disabled => true,
        Authorization::Basic(password) => match header {
            None => false,
            Some(h) => match basic_token(h) {
                None => false,
                Some(t) => match base64_decoded(t) {
                    None => false,
                    Some(d) => d == expected_credentials(password@),
                },
            },
        },
    }
}

/// The text after `Basic ` in an `Authorization` header value made of
/// exactly the two words `Basic` and the credentials.
pub fn basic_credentials(header: &str) -> (r: Option<&str>)
    ensures
        match r {
            Some(t) => basic_token(header@) == Some(t@),
            None => basic_token(header@) is None,
        },
{
    let n = header.unicode_len();
    if n < 6 {
        return None;
    }
    let scheme = header.substring_char(0, 6);
    if !str_equals(scheme, "Basic ") {
        return None;
    }
    let rest = header.substring_char(6, n);
    let mut i: usize = 0;
    while i < n - 6
        invariant
            rest@ == header@.skip(6),
            rest@.len() == n - 6,
            i <= n - 6,
            forall|j: int| 0 <= j < i ==> rest@[j] != ' ',
        decreases n - 6 - i,
    {
        if rest.get_char(i) == ' ' {
            assert(header@.skip(6).contains(' '));
            return None;
        }
        i = i + 1;
    }
    assert(header@.take(6) =~= scheme@);
    Some(rest)
}

/// Whether decoded Basic credentials are an empty user name and `password`.
pub fn credentials_match(decoded: &[u8], password: &str) -> (r: bool)
    ensures
        r == (decoded@ == expected_credentials(password@)),
{
    let expected = password.as_bytes();
    let n = expected.len();
    if decoded.len() == 0 || decoded.len() - 1 != n || decoded[0] != 58u8 {
        return false;
    }
    let mut i: usize = 0;
    while i < n
        invariant
            n == expected@.len(),
            expected@ == password.spec_bytes(),
            decoded@.len() == n + 1,
            decoded@[0] == 58u8,
            i <= n,
            forall|j: int| 0 <= j < i ==> decoded@[j + 1] == expected@[j],
        decreases n - i,
    {
        if decoded[i + 1] != expected[i] {
            assert(expected_credentials(password@)[i + 1] == expected@[i as int]);
            return false;
        }
        i = i + 1;
    }
    assert(decoded@ =~= expected_credentials(password@));
    true
}

/// Whether a request with the given `Authorization` header value passes
/// the check: always with `Authorization::Disabled`; with a password, only when
/// the value is `Basic ` followed by the base64 of a colon and the password.
pub fn is_authorized(auth: &Authorization, header: Option<&str>) -> (r: bool)
    ensures
        r == authorized(
            *auth,
            match header {
                Some(h) => Some(h@),
                None => None,
            },
        ),
{
    match auth {
        Authorization::Disabled => true,
        Authorization::Basic(password) => match header {
            None => false,
            Some(h) => match basic_credentials(h) {
                None => false,
                Some(t) => match decode_base64(t) {
                    Err(_) => false,
                    Ok(decoded) => credentials_match(decoded.as_slice(), password.as_str()),
                },
            },
        },
    }
}

/// The response a request gets before any metric is rendered.
#[derive(Debug, Clone, Copy, PartialEq, Eq, Structural)]
pub enum Decision {
    /// The credential check failed: 401.
    Unauthorized,
    /// The path is not `/metrics`: 404.
    NotFound,
    /// The method is neither `GET` nor `POST`: 405.
    MethodNotAllowed,
    /// Render the metrics and answer 200 with them, or 500 when that fails.
    Render,
}

/// The decision for a request, checked in this order: credentials, path,
/// method.
pub open spec fn decision_for(authorized: bool, path: Seq<char>, method: Seq<char>) -> Decision {
    if !authorized {
        Decision::Unauthorized
    } else if path != "/metrics"@ {
        Decision::NotFound
    } else if method != "GET"@ && method != "POST"@ {
        Decision::MethodNotAllowed
    } else {
        Decision::Render
    }
}

/// Decides how to answer a request, from the credential check's outcome,
/// the request's path and its method.
pub fn decide(authorized: bool, path: &str, method: &str) -> (r: Decision)
    ensures
        r == decision_for(authorized, path@, method@),
{
    if !authorized {
        Decision::Unauthorized
    } else if !str_equals(path, "/metrics") {
        Decision::NotFound
    } else if !str_equals(method, "GET") && !str_equals(method, "POST") {
        Decision::MethodNotAllowed
    } else {
        Decision::Render
    }
}

impl Decision {
    /// The HTTP status code of the decision; `Render` answers 200 when the
    /// metrics were rendered.
    pub fn status(&self) -> (r: u16)
        ensures
            r == match self {
                Decision::Unauthorized => 401u16,
                Decision::NotFound => 404u16,
                Decision::MethodNotAllowed => 405u16,
                Decision::Render => 200u16,
            },
    {
        match self {
            Decision::Unauthorized => 401,
            Decision::NotFound => 404,
            Decision::MethodNotAllowed => 405,
            Decision::Render => 200,
        }
    }
}

} // verus!
