//! The detector's decision: does a response offer a redirect target?

use vstd::prelude::*;

use crate::outcome::Outcome;
use crate::response::Header;
use crate::response::HttpResponse;
use crate::response::spec_is_redirection;
use crate::response::is_redirection;
use crate::text::spec_is_text;
use crate::text::spec_decode_text;
use crate::text::is_text;
use crate::text::decode_ascii;

verus! {

/// ASCII case folding of a single byte: letters `A`-`Z` map to `a`-`z`,
/// every other byte is unchanged.
pub open spec fn spec_ascii_lower(b: u8) -> u8 {
    if 65 <= b <= 90 {
        (b + 32) as u8
    } else {
        b
    }
}

/// Two byte strings are equal up to ASCII case.
pub open spec fn spec_eq_ignore_ascii_case(a: Seq<u8>, b: Seq<u8>) -> bool {
    a.len() == b.len() && forall|i: int|
        0 <= i < a.len() ==> spec_ascii_lower(a[i]) == spec_ascii_lower(b[i])
}

/// The name of the header that carries a redirect target.
pub open spec fn spec_location_name() -> Seq<u8> {
    seq![108u8, 111u8, 99u8, 97u8, 116u8, 105u8, 111u8, 110u8]
}

/// Whether `name` is the `Location` header name, compared without regard
/// to ASCII case, as HTTP header semantics demand.
pub open spec fn spec_is_location_name(name: Seq<u8>) -> bool {
    spec_eq_ignore_ascii_case(name, spec_location_name())
}

/// The value of the first `Location` header in `headers`, if any.
pub open spec fn spec_location_value(headers: Seq<Header>) -> Option<Seq<u8>>
    decreases headers.len(),
{
    if headers.len() == 0 {
        None
    } else if spec_is_location_name(headers[0].name@) {
        Some(headers[0].value@)
    } else {
        spec_location_value(headers.skip(1))
    }
}

/// ASCII case folding of a single byte.
pub fn ascii_lower(b: u8) -> (r: u8)
    ensures
        r == spec_ascii_lower(b),
{
    if 65 <= b && b <= 90 {
        b + 32
    } else {
        b
    }
}

/// Whether two byte strings are equal up to ASCII case.
pub fn eq_ignore_ascii_case(a: &[u8], b: &[u8]) -> (r: bool)
    ensures
        r == spec_eq_ignore_ascii_case(a@, b@),
{
    if a.len() != b.len() {
        return false;
    }
    let mut i: usize = 0;
    while i < a.len()
        invariant
            0 <= i <= a@.len(),
            a@.len() == b@.len(),
            forall|j: int| 0 <= j < i ==> spec_ascii_lower(a@[j]) == spec_ascii_lower(b@[j]),
        decreases a@.len() - i,
    {
        if ascii_lower(a[i]) != ascii_lower(b[i]) {
            return false;
        }
        i = i + 1;
    }
    true
}

/// Whether `name` is the `Location` header name, in any ASCII casing.
pub fn is_location_name(name: &[u8]) -> (r: bool)
    ensures
        r == spec_is_location_name(name@),
{
    let target: Vec<u8> = vec![108u8, 111u8, 99u8, 97u8, 116u8, 105u8, 111u8, 110u8];
    proof {
        assert(target@ =~= spec_location_name());
    }
    eq_ignore_ascii_case(name, target.as_slice())
}

/// The value of the first `Location` header, looked up case-insensitively.
pub fn find_location<'a>(headers: &'a Vec<Header>) -> (r: Option<&'a Vec<u8>>)
    ensures
        match r {
            Some(v) => spec_location_value(headers@) == Some(v@),
            None => spec_location_value(headers@) is None,
        },
{
    let mut i: usize = 0;
    proof {
        assert(headers@.skip(0) =~= headers@);
    }
    while i < headers.len()
        invariant
            0 <= i <= headers@.len(),
            spec_location_value(headers@) == spec_location_value(headers@.skip(i as int)),
        decreases headers@.len() - i,
    {
        if is_location_name(headers[i].name.as_slice()) {
            assert(headers@.skip(i as int)[0] == headers@[i as int]);
            return Some(&headers[i].value);
        }
        proof {
            assert(headers@.skip(i as int).skip(1) =~= headers@.skip(i as int + 1));
        }
        i = i + 1;
    }
    None
}

/// The redirect target a response offers, if any: the response must lie in
/// the redirection status class, carry a `Location` header, and that
/// header's value must decode as text.
pub open spec fn spec_redirect_target(resp: HttpResponse) -> Option<Seq<char>> {
    if spec_is_redirection(resp.status) {
        match spec_location_value(resp.headers@) {
            Some(v) => if spec_is_text(v) {
                Some(spec_decode_text(v))
            } else {
                None
            },
            None => None,
        }
    } else {
        None
    }
}

/// Inspects one response: returns `Redirect` with the decoded `Location`
/// value exactly when the response offers a redirect target, and
/// `NoRedirect` otherwise — also for a redirection status whose `Location`
/// header is absent or not decodable as text.
pub fn check_response(resp: &HttpResponse) -> (r: Outcome)
    ensures
        match spec_redirect_target(*resp) {
            Some(target) => r.is_redirect_to(target),
            None => r == Outcome::NoRedirect,
        },
{
    if is_redirection(resp.status) {
        if let Some(value) = find_location(&resp.headers) {
            if is_text(value.as_slice()) {
                return Outcome::Redirect(decode_ascii(value));
            }
        }
    }
    Outcome::NoRedirect
}

/// Folds the result of one request attempt into an outcome: a response is
/// inspected as `check_response` does; a transport error becomes
/// `RequestFailed` carrying the error's description unchanged.
pub fn outcome_of_attempt(result: Result<HttpResponse, String>) -> (r: Outcome)
    ensures
        match result {
            Ok(resp) => match spec_redirect_target(resp) {
                Some(target) => r.is_redirect_to(target),
                None => r == Outcome::NoRedirect,
            },
            Err(m) => r.is_failure_with(m@),
        },
{
    match result {
        Ok(resp) => check_response(&resp),
        Err(message) => Outcome::RequestFailed(message),
    }
}

} // verus!
