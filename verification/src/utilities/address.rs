//! URLs, as the `url` crate reads them.
//!
//! Nothing in this file is proved: each function is one call into `url`.

use vstd::prelude::*;
use url::ParseError;
use url::Url;

verus! {

/// A parsed URL.
#[verifier::external_type_specification]
#[verifier::external_body]
pub struct ExUrl(url::Url);

/// Why a text is no URL.
#[verifier::external_type_specification]
#[verifier::external_body]
pub struct ExParseError(url::ParseError);

/// The text of `url`, as `url` writes it.
pub uninterp spec fn url_text(url: Url) -> Seq<char>;

/// What `Url::parse` makes of `text`: the text of the URL that it reads,
/// or `None` where `text` is no absolute URL.
pub uninterp spec fn parsed_url(text: Seq<char>) -> Option<Seq<char>>;

/// `Url::parse`: the absolute URL that `text` spells.
#[verifier::external_body]
pub(crate) fn parse_url(text: &str) -> (url: Result<Url, ParseError>)
    ensures
        match url {
            Ok(u) => parsed_url(text@) == Some(url_text(u)),
            Err(_) => parsed_url(text@) is None,
        },
{
    Url::parse(text)
}

/// What `Url::join` makes of `reference` on the base URL with the text
/// `base`: the text of the URL that it reads, or `None` where `reference`
/// is no URL on that base.
pub uninterp spec fn joined_url(base: Seq<char>, reference: Seq<char>) -> Option<Seq<char>>;

/// `Url::join`: the URL that `reference` spells, with `base` as the base
/// URL.
#[verifier::external_body]
pub(crate) fn join_url(base: &Url, reference: &str) -> (url: Result<Url, ParseError>)
    ensures
        match url {
            Ok(u) => joined_url(url_text(*base), reference@) == Some(url_text(u)),
            Err(_) => joined_url(url_text(*base), reference@) is None,
        },
{
    base.join(reference)
}

/// `Url::as_str`: the text of the URL.
#[verifier::external_body]
pub(crate) fn url_as_str(url: &Url) -> (text: &str)
    ensures
        text@ == url_text(*url),
{
    url.as_str()
}

} // verus!
