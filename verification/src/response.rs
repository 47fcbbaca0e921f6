//! The parts of an HTTP response that the detector inspects, as plain values.

use vstd::prelude::*;

verus! {

/// One response header: a name and a raw value, both byte strings.
///
/// Header values are not guaranteed to be text, so the value is kept as
/// bytes; whether it decodes as visible ASCII is decided where it is read.
pub struct Header {
    pub name: Vec<u8>,
    pub value: Vec<u8>,
}

/// The status code and headers of one HTTP response, in the order the
/// server sent them.
pub struct HttpResponse {
    pub status: u16,
    pub headers: Vec<Header>,
}

/// The redirection status class: any code in the 300-399 range.
pub open spec fn spec_is_redirection(status: u16) -> bool {
    300 <= status <= 399
}

/// Whether `status` lies in the redirection class.
pub fn is_redirection(status: u16) -> (r: bool)
    ensures
        r == spec_is_redirection(status),
{
    300 <= status && status <= 399
}

} // verus!
