use vstd::prelude::*;

verus! {

/// The JSON body that the loopback status endpoint answers with, as a
/// sequence of characters: an object with the single key `is_focusing`.
pub open spec fn spec_status_body(is_focusing: bool) -> Seq<char> {
    if is_focusing {
        "{\"is_focusing\":true}"@
    } else {
        "{\"is_focusing\":false}"@
    }
}

/// Renders the status endpoint's response body for the given focus flag.
///
/// The endpoint itself is plain I/O: the serving task reads the shared focus
/// flag, calls this, and writes the returned body back with a CORS header
/// that admits any origin.
pub fn status_body(is_focusing: bool) -> (r: String)
    ensures
        r@ == spec_status_body(is_focusing),
{
    if is_focusing {
        "{\"is_focusing\":true}".to_owned()
    } else {
        "{\"is_focusing\":false}".to_owned()
    }
}

/// Endpoint correctness: the body determines the flag. The two possible
/// bodies differ, so a response always reports exactly the boolean the focus
/// flag held when the request read it — setting the flag to `true` yields the
/// `true` body, setting it to `false` the `false` body, and never the other.
pub proof fn lemma_status_body_injective(a: bool, b: bool)
    ensures
        spec_status_body(a) == spec_status_body(b) <==> a == b,
{
    reveal_strlit("{\"is_focusing\":true}");
    reveal_strlit("{\"is_focusing\":false}");
    assert(spec_status_body(true).len() != spec_status_body(false).len());
}

} // verus!
