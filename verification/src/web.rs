//! URL handling, done by the `url` crate.
use vstd::prelude::*;

verus! {

/// Texts of key-value pairs.
pub open spec fn pair_views(v: Seq<(String, String)>) -> Seq<(Seq<char>, Seq<char>)> {
    v.map_values(|p: (String, String)| (p.0@, p.1@))
}

/// Outcome of parsing `s` as an absolute URL: its serialization, or the message of the
/// parse error.
pub uninterp spec fn url_parse_result(s: Seq<char>) -> Result<Seq<char>, Seq<char>>;

/// `url::Url::parse`, followed by `Url::as_str` on success and by the error's `Display`
/// on failure. Claimed: the outcome is the name `url_parse_result` of the input. Nothing
/// is claimed about how the crate normalizes a URL.
#[verifier::external_body]
pub(crate) fn parse_url(s: &str) -> (r: Result<String, String>)
    ensures
        match r {
            Ok(u) => url_parse_result(s@) == Ok::<Seq<char>, Seq<char>>(u@),
            Err(e) => url_parse_result(s@) == Err::<Seq<char>, Seq<char>>(e@),
        },
{
    match url::Url::parse(s) {
        Ok(u) => Ok(u.as_str().to_string()),
        Err(e) => Err(e.to_string()),
    }
}


/// Outcome of adjoining `path` to the absolute URL `base`: the serialization of the
/// result, or the message of the parse error.
pub uninterp spec fn url_join_result(base: Seq<char>, path: Seq<char>) -> Result<Seq<char>, Seq<char>>;

/// `url::Url::join` on `base` parsed by `url::Url::parse`, followed by `Url::as_str` on
/// success and by the error's `Display` on failure. Claimed: the outcome is the name
/// `url_join_result` of the two inputs.
#[verifier::external_body]
pub(crate) fn join_url(base: &str, path: &str) -> (r: Result<String, String>)
    ensures
        match r {
            Ok(u) => url_join_result(base@, path@) == Ok::<Seq<char>, Seq<char>>(u@),
            Err(e) => url_join_result(base@, path@) == Err::<Seq<char>, Seq<char>>(e@),
        },
{
    match url::Url::parse(base).and_then(|u| u.join(path)) {
        Ok(u) => Ok(u.as_str().to_string()),
        Err(e) => Err(e.to_string()),
    }
}

/// Outcome of appending `pairs`, form-urlencoded, to the query of the absolute URL `url`:
/// the serialization of the result, or the message of the error that parsing `url` gave.
pub uninterp spec fn url_query_result(url: Seq<char>, pairs: Seq<(Seq<char>, Seq<char>)>) -> Result<Seq<char>, Seq<char>>;

/// `url::Url::parse`, then `Url::query_pairs_mut` with `extend_pairs` over the pairs in
/// order, followed by `Url::as_str` on success and by the error's `Display` on failure.
/// Claimed: the outcome is the name `url_query_result` of the URL and of the pairs.
#[verifier::external_body]
pub(crate) fn with_query_pairs(url: &str, pairs: &Vec<(String, String)>) -> (r: Result<String, String>)
    ensures
        match r {
            Ok(u) => url_query_result(url@, pairs@.map_values(|p: (String, String)| (p.0@, p.1@)))
                == Ok::<Seq<char>, Seq<char>>(u@),
            Err(e) => url_query_result(url@, pairs@.map_values(|p: (String, String)| (p.0@, p.1@)))
                == Err::<Seq<char>, Seq<char>>(e@),
        },
{
    match url::Url::parse(url) {
        Ok(mut u) => {
            u.query_pairs_mut().extend_pairs(pairs.iter().map(|p| (p.0.as_str(), p.1.as_str())));
            Ok(u.as_str().to_string())
        },
        Err(e) => Err(e.to_string()),
    }
}

} // verus!
