//! The address of the node's websocket endpoint.
use jsonrpsee::client_transport::ws::{InvalidUri, Uri};
use vstd::prelude::*;

verus! {

/// A URI, as the `http` crate holds it.
#[verifier::external_type_specification]
#[verifier::external_body]
pub struct ExUri(Uri);

/// The error of a URI parse, as the `http` crate holds it.
#[verifier::external_type_specification]
#[verifier::external_body]
pub struct ExInvalidUri(InvalidUri);

/// What `<Uri as FromStr>::from_str` of the `http` crate makes of the text:
/// the URI, or the parser's error.
pub uninterp spec fn parsed_uri(url: Seq<char>) -> Result<Uri, InvalidUri>;

/// `head` is a scheme without `:`, `/`, `?` or `#`, then `://`, then an
/// authority without `/`, `?` or `#`.
pub open spec fn is_scheme_and_authority(head: Seq<char>) -> bool {
    exists|i: int|
        #![trigger head.subrange(i, i + 3)]
        0 <= i && i + 3 <= head.len() && head.subrange(i, i + 3) == seq![':', '/', '/'] && (forall|j: int|
            0 <= j < i ==> !(head[j] == ':' || head[j] == '/' || head[j] == '?' || head[j] == '#'))
            && (forall|j: int|
            i + 3 <= j < head.len() ==> !(head[j] == '/' || head[j] == '?' || head[j] == '#'))
}

/// `s` and `t` name the same scheme and authority, their first `k`
/// characters, and go on with a path that begins with `/` and holds no `#`.
pub open spec fn same_endpoint_at(s: Seq<char>, t: Seq<char>, k: int) -> bool {
    &&& 0 < k < s.len()
    &&& k < t.len()
    &&& s.take(k) == t.take(k)
    &&& is_scheme_and_authority(s.take(k))
    &&& s[k] == '/'
    &&& t[k] == '/'
    &&& forall|j: int| k <= j < s.len() ==> s[j] != '#'
    &&& forall|j: int| k <= j < t.len() ==> t[j] != '#'
}

/// Calls `<Uri as FromStr>::from_str` on the text. Claimed: the parse is a
/// function of the text alone, named by `parsed_uri`, and the empty text is
/// refused (the parser refuses input of length 0 first of all). The path
/// and query are kept whole: the parser takes the scheme up to `://` and
/// the authority up to the first `/`, and keeps the rest up to any `#` as
/// the path and query; so two texts with the same scheme and authority and
/// different paths never parse to the same URI. What else the URI or the
/// error holds is not stated: both types are opaque here.
#[verifier::external_body]
fn uri_from_str(url: &str) -> (r: Result<Uri, InvalidUri>)
    ensures
        r == parsed_uri(url@),
        url@.len() == 0 ==> r is Err,
        r is Ok ==> forall|t: Seq<char>, k: int|
            #![trigger same_endpoint_at(url@, t, k)]
            same_endpoint_at(url@, t, k) && url@.skip(k) != t.skip(k) && parsed_uri(t) is Ok
                ==> parsed_uri(t) != r,
{
    url.parse::<Uri>()
}

/// Parses the address of the node's websocket endpoint.
pub fn parse_ws_url(url: &str) -> (r: Result<Uri, InvalidUri>)
    ensures
        r == parsed_uri(url@),
        url@.len() == 0 ==> r is Err,
        r is Ok ==> forall|t: Seq<char>, k: int|
            #![trigger same_endpoint_at(url@, t, k)]
            same_endpoint_at(url@, t, k) && url@.skip(k) != t.skip(k) && parsed_uri(t) is Ok
                ==> parsed_uri(t) != r,
{
    uri_from_str(url)
}

} // verus!
