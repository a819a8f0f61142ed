//! Thin trusted surface over the url crate: parsing/normalising a URL
//! string, joining a path onto a base, and reading or rewriting the query
//! string as name/value pairs. Each result is a function of the plain string
//! arguments alone, so it is given a name that contracts elsewhere build on.

use vstd::prelude::*;

verus! {

/// What url::Url::parse followed by serialisation yields for this string:
/// the normalised URL on success, nothing when the string is no absolute URL.
pub uninterp spec fn normalized_url_of(s: Seq<char>) -> Option<Seq<char>>;

/// Relies on url::Url::parse and its Display impl: both are deterministic in
/// the input string, and Display returns the parser's serialisation.
#[verifier::external_body]
pub(crate) fn normalize_url(s: &str) -> (r: Option<String>)
    ensures
        r.deep_view() == normalized_url_of(s@),
{
    match url::Url::parse(s) {
        Ok(u) => Some(u.to_string()),
        Err(_) => None,
    }
}

/// What url::Url::join yields on a base URL string and a path: the
/// serialised joined URL, or nothing when base or join fails to parse.
pub uninterp spec fn url_join_of(base: Seq<char>, path: Seq<char>) -> Option<Seq<char>>;

/// Relies on url::Url::join: resolving `path` against the parsed `base`,
/// deterministic in the two strings.
#[verifier::external_body]
pub(crate) fn url_join(base: &str, path: &str) -> (r: Option<String>)
    ensures
        r.deep_view() == url_join_of(base@, path@),
{
    let b = match url::Url::parse(base) {
        Ok(u) => u,
        Err(_) => return None,
    };
    match b.join(path) {
        Ok(u) => Some(u.to_string()),
        Err(_) => None,
    }
}

/// What url::Url::query_pairs yields for this URL string: its
/// form-urlencoded query decoded to name/value pairs, in order; nothing when
/// the string fails to parse.
pub uninterp spec fn url_query_pairs_of(s: Seq<char>) -> Option<Seq<(Seq<char>, Seq<char>)>>;

/// Relies on url::Url::parse and url::Url::query_pairs: the decoded pairs of
/// the (possibly empty) query, deterministic in the input string.
#[verifier::external_body]
pub(crate) fn url_query_pairs(s: &str) -> (r: Option<Vec<(String, String)>>)
    ensures
        r.deep_view() == url_query_pairs_of(s@),
{
    let u = match url::Url::parse(s) {
        Ok(u) => u,
        Err(_) => return None,
    };
    Some(u.query_pairs().map(|(k, v)| (k.to_string(), v.to_string())).collect())
}

/// What serialising these pairs with url::form_urlencoded and installing
/// them as the query of this URL string yields; nothing when the string
/// fails to parse.
pub uninterp spec fn url_with_query_of(s: Seq<char>, pairs: Seq<(Seq<char>, Seq<char>)>) -> Option<
    Seq<char>,
>;

/// Relies on url::form_urlencoded::Serializer and url::Url::set_query: the
/// URL re-serialised with the pairs as its query, deterministic in the
/// arguments.
#[verifier::external_body]
pub(crate) fn url_with_query(s: &str, pairs: &Vec<(String, String)>) -> (r: Option<String>)
    ensures
        r.deep_view() == url_with_query_of(s@, pairs.deep_view()),
{
    let mut u = match url::Url::parse(s) {
        Ok(u) => u,
        Err(_) => return None,
    };
    let query = url::form_urlencoded::Serializer::new(String::new()).extend_pairs(
        pairs.iter().map(|p| (p.0.as_str(), p.1.as_str())),
    ).finish();
    u.set_query(Some(query.as_str()));
    Some(u.to_string())
}

} // verus!
