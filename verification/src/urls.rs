//! URL parsing and building, done by the `url` crate. URLs travel through
//! the library as their serialization.

use vstd::prelude::*;

verus! {

/// The serialization of the URL that `url::Url::parse` makes of `s`, or none
/// when it refuses `s`.
pub uninterp spec fn url_parse_spec(s: Seq<char>) -> Option<Seq<char>>;

/// The serialization of the URL `url` after `query_pairs_mut().append_pair`
/// of `name` and `value`.
pub uninterp spec fn url_append_pair_spec(url: Seq<char>, name: Seq<char>, value: Seq<char>) -> Seq<char>;

/// The serialization of what `Url::join` makes of `input` against the URL
/// `base`, or none when it refuses `input`.
pub uninterp spec fn url_join_spec(base: Seq<char>, input: Seq<char>) -> Option<Seq<char>>;

/// `s` is the serialization of a URL: it parses to itself. `url` keeps this
/// as an invariant of every URL it makes; its own test suite asserts it
/// through `Url::check_invariants`, which is not run outside those tests.
pub open spec fn is_serialized_url(s: Seq<char>) -> bool {
    url_parse_spec(s) == Some(s)
}

/// Calls `url::Url::parse` and takes the URL's serialization. Claims that
/// the result is the one named by `url_parse_spec`, and that the
/// serialization parses to itself; the crate's error becomes its message.
#[verifier::external_body]
pub(crate) fn url_parse(s: &str) -> (r: Result<String, String>)
    ensures
        match url_parse_spec(s@) {
            Some(t) => r matches Ok(u) && u@ == t,
            None => r is Err,
        },
        r matches Ok(u) ==> is_serialized_url(u@),
{
    match url::Url::parse(s) {
        Ok(u) => Ok(String::from(u)),
        Err(e) => Err(e.to_string()),
    }
}

/// Calls `query_pairs_mut().append_pair` on the URL serialized as `url`,
/// which is percent-encoded form encoding, and takes the serialization.
/// Claims that the result is the one named by `url_append_pair_spec` and
/// that it is again a URL's serialization. The text is parsed back into a
/// `Url` first; by the `requires` that always succeeds, so the arm that
/// hands the text back unchanged is never taken.
#[verifier::external_body]
pub(crate) fn url_append_pair(url: &str, name: &str, value: &str) -> (r: String)
    requires
        is_serialized_url(url@),
    ensures
        r@ == url_append_pair_spec(url@, name@, value@),
        is_serialized_url(r@),
{
    match url::Url::parse(url) {
        Ok(mut u) => {
            u.query_pairs_mut().append_pair(name, value);
            String::from(u)
        },
        Err(_) => url.to_owned(),
    }
}

/// Calls `Url::join` of `input` on the URL serialized as `base`, and takes
/// the serialization. Claims that the result is the one named by
/// `url_join_spec`, and that it is again a URL's serialization; the crate's
/// error becomes its message.
#[verifier::external_body]
pub(crate) fn url_join(base: &str, input: &str) -> (r: Result<String, String>)
    requires
        is_serialized_url(base@),
    ensures
        match url_join_spec(base@, input@) {
            Some(t) => r matches Ok(u) && u@ == t,
            None => r is Err,
        },
        r matches Ok(u) ==> is_serialized_url(u@),
{
    match url::Url::parse(base) {
        Ok(b) => match b.join(input) {
            Ok(u) => Ok(String::from(u)),
            Err(e) => Err(e.to_string()),
        },
        Err(e) => Err(e.to_string()),
    }
}

} // verus!
