//! Trusted items around URL construction.

use vstd::prelude::*;

verus! {

#[verifier::external_type_specification]
#[verifier::external_body]
pub struct ExUrl(url::Url);

#[verifier::external_type_specification]
#[verifier::external_body]
pub struct ExUrlParseError(url::ParseError);

/// What percent-encoding makes of a text; a function of the text alone.
pub uninterp spec fn percent_encoded(s: Seq<char>) -> Seq<char>;

/// Relies on `urlencoding::encode`: percent-encodes every byte except
/// alphanumerics and `-`, `_`, `.`, `~`, and leaves an empty text empty.
#[verifier::external_body]
pub fn percent_encode(s: &str) -> (r: String)
    ensures
        r@ == percent_encoded(s@),
        s@.len() == 0 ==> r@.len() == 0,
{
    urlencoding::encode(s).into_owned()
}

/// Relies on `url::Url::parse`: parses an absolute URL from a string.
pub assume_specification[ url::Url::parse ](input: &str) -> (r: Result<url::Url, url::ParseError>);

/// Relies on `url::Url::parse_with_params`: parses the base URL and appends
/// each pair, percent-encoded, to its query. Fails exactly when the base
/// does not parse as an absolute URL.
#[verifier::external_body]
pub fn url_with_params(base: &str, params: &Vec<(String, String)>) -> (r: Result<
    url::Url,
    url::ParseError,
>)
{
    url::Url::parse_with_params(base, params.iter())
}

} // verus!
