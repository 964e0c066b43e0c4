//! Addresses: the server's base URL, the endpoint appended to it, and what
//! the `url` crate makes of the two.
//!
//! A parsed URL is held as its serialization, the text that `url::Url::as_str`
//! returns for it.

use vstd::prelude::*;
use vstd::string::StrSliceExecFns;
use vstd::string::StringExecFns;

verus! {

#[verifier::external_type_specification]
#[verifier::external_body]
pub struct ExParseError(url::ParseError);

/// What `url::Url::parse` returns for `input`: the serialization of the URL
/// that it parsed, or the reason why `input` is no absolute URL.
pub uninterp spec fn url_parse(input: Seq<char>) -> Result<Seq<char>, url::ParseError>;

/// The words that the `url` crate has for the reason `e`: what `to_string`
/// returns for it.
pub uninterp spec fn parse_error_words(e: url::ParseError) -> Seq<char>;

/// `base` without the slash that it ends in, if it ends in one.
pub open spec fn without_trailing_slash(base: Seq<char>) -> Seq<char> {
    if base.len() > 0 && base.last() == '/' {
        base.drop_last()
    } else {
        base
    }
}

/// The endpoint's path appended to the server's base URL: the base without
/// a slash at its end, then the path as it is.
pub open spec fn appended(server: Seq<char>, endpoint: Seq<char>) -> Seq<char> {
    without_trailing_slash(server) + endpoint
}

/// The address that a request goes to: what the parser makes of the endpoint
/// appended to the server.
pub open spec fn resolve(server: Seq<char>, endpoint: Seq<char>) -> Result<
    Seq<char>,
    url::ParseError,
> {
    url_parse(appended(server, endpoint))
}

/// A result that holds a string, with the string taken by its view.
pub open spec fn text_of(res: Result<String, url::ParseError>) -> Result<
    Seq<char>,
    url::ParseError,
> {
    match res {
        Ok(text) => Ok(text@),
        Err(e) => Err(e),
    }
}

/// Calls `url::Url::parse` on `input` and, where it succeeds, takes the URL's
/// serialization out of it. The contract only gives the outcome its name,
/// `url_parse(input)`.
#[verifier::external_body]
pub(crate) fn parse_url(input: &str) -> (res: Result<String, url::ParseError>)
    ensures
        text_of(res) == url_parse(input@),
{
    url::Url::parse(input).map(String::from)
}

/// Calls `to_string` on a `url::ParseError`, which writes the words that the
/// `url` crate has for that reason. The contract only gives them their name,
/// `parse_error_words(e)`.
#[verifier::external_body]
pub(crate) fn parse_error_text(e: &url::ParseError) -> (text: String)
    ensures
        text@ == parse_error_words(*e),
{
    e.to_string()
}

/// Appends the endpoint's path to the server's base URL.
///
/// A base that ends in a slash loses that one slash first, so that a path
/// which begins with one does not double it. Nothing else is changed:
/// whether the text is a URL is for the parser to say.
pub fn append_path(server: &str, endpoint: &str) -> (text: String)
    ensures
        text@ == appended(server@, endpoint@),
{
    let length = server.unicode_len();
    let base = if length > 0 && server.get_char(length - 1) == '/' {
        server.substring_char(0, length - 1)
    } else {
        server
    };
    assert(base@ =~= without_trailing_slash(server@));
    let mut text = String::from_str(base);
    text.append(endpoint);
    text
}

} // verus!
