//! General properties of the detector, stated and proved once for all
//! responses.

use vstd::prelude::*;

use crate::checker::spec_eq_ignore_ascii_case;
use crate::checker::spec_is_location_name;
use crate::checker::spec_location_value;
use crate::checker::spec_redirect_target;
use crate::response::Header;
use crate::response::HttpResponse;
use crate::response::spec_is_redirection;
use crate::text::spec_decode_text;
use crate::text::spec_is_text;

verus! {

/// A response in the redirection status class whose `Location` header is
/// present and readable as text offers exactly that text as the redirect
/// target.
pub proof fn lemma_redirect_offered(resp: HttpResponse, v: Seq<u8>)
    requires
        spec_is_redirection(resp.status),
        spec_location_value(resp.headers@) == Some(v),
        spec_is_text(v),
    ensures
        spec_redirect_target(resp) == Some(spec_decode_text(v)),
{
}

/// A response outside the redirection status class offers no redirect
/// target, whatever headers it carries.
pub proof fn lemma_no_redirect_outside_class(resp: HttpResponse)
    requires
        !spec_is_redirection(resp.status),
    ensures
        spec_redirect_target(resp) is None,
{
}

/// A response without a `Location` header offers no redirect target, even
/// inside the redirection status class.
pub proof fn lemma_no_redirect_without_location(resp: HttpResponse)
    requires
        spec_location_value(resp.headers@) is None,
    ensures
        spec_redirect_target(resp) is None,
{
}

/// Byte strings that agree up to ASCII case match the same third strings
/// up to ASCII case.
pub proof fn lemma_eq_ignore_case_substitutes(a: Seq<u8>, b: Seq<u8>, t: Seq<u8>)
    requires
        spec_eq_ignore_ascii_case(a, b),
    ensures
        spec_eq_ignore_ascii_case(a, t) == spec_eq_ignore_ascii_case(b, t),
{
}

/// The `Location` lookup does not depend on the casing of header names:
/// two header lists of the same shape, whose names agree up to ASCII case
/// and whose values are equal, yield the same lookup result.
pub proof fn lemma_lookup_case_insensitive(h1: Seq<Header>, h2: Seq<Header>)
    requires
        h1.len() == h2.len(),
        forall|i: int|
            0 <= i < h1.len() ==> spec_eq_ignore_ascii_case(h1[i].name@, h2[i].name@)
                && h1[i].value@ == h2[i].value@,
    ensures
        spec_location_value(h1) == spec_location_value(h2),
    decreases h1.len(),
{
    if h1.len() > 0 {
        lemma_eq_ignore_case_substitutes(
            h1[0].name@,
            h2[0].name@,
            crate::checker::spec_location_name(),
        );
        if !spec_is_location_name(h1[0].name@) {
            assert forall|i: int| 0 <= i < h1.skip(1).len() implies spec_eq_ignore_ascii_case(
                h1.skip(1)[i].name@,
                h2.skip(1)[i].name@,
            ) && h1.skip(1)[i].value@ == h2.skip(1)[i].value@ by {
                assert(h1.skip(1)[i] == h1[i + 1]);
                assert(h2.skip(1)[i] == h2[i + 1]);
            }
            lemma_lookup_case_insensitive(h1.skip(1), h2.skip(1));
        }
    }
}

} // verus!
