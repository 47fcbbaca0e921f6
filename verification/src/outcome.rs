//! The result of one probe: a redirect target, no redirect, or a failure.

use vstd::prelude::*;

verus! {

/// What one invocation of the detector reports.
///
/// Exactly one of these is produced per probe:
/// - `Redirect` carries the redirect target the server offered, decoded
///   from the `Location` header;
/// - `NoRedirect` means the response was not a redirect, or was a redirect
///   that offered no readable target;
/// - `RequestFailed` carries the description of a transport error (DNS,
///   connection, timeout, malformed URL), when no response arrived at all.
#[derive(Debug)]
pub enum Outcome {
    Redirect(String),
    NoRedirect,
    RequestFailed(String),
}

impl Outcome {
    /// Whether this outcome reports a redirect, with this target.
    pub open spec fn is_redirect_to(self, target: Seq<char>) -> bool {
        match self {
            Outcome::Redirect(t) => t@ == target,
            _ => false,
        }
    }

    /// Whether this outcome reports a failed request, with this message.
    pub open spec fn is_failure_with(self, message: Seq<char>) -> bool {
        match self {
            Outcome::RequestFailed(m) => m@ == message,
            _ => false,
        }
    }
}

impl PartialEq for Outcome {
    /// Two outcomes are equal when they are the same variant and carry
    /// the same text.
    fn eq(&self, other: &Outcome) -> (r: bool) {
        match (self, other) {
            (Outcome::Redirect(a), Outcome::Redirect(b)) => a.eq(b),
            (Outcome::NoRedirect, Outcome::NoRedirect) => true,
            (Outcome::RequestFailed(a), Outcome::RequestFailed(b)) => a.eq(b),
            _ => false,
        }
    }
}

impl Eq for Outcome {

}

impl vstd::std_specs::cmp::PartialEqSpecImpl for Outcome {
    open spec fn obeys_eq_spec() -> bool {
        true
    }

    open spec fn eq_spec(&self, other: &Outcome) -> bool {
        match (self, other) {
            (Outcome::Redirect(a), Outcome::Redirect(b)) => a@ == b@,
            (Outcome::NoRedirect, Outcome::NoRedirect) => true,
            (Outcome::RequestFailed(a), Outcome::RequestFailed(b)) => a@ == b@,
            _ => false,
        }
    }
}

} // verus!
