//! Absolute module identifiers and how text becomes one.

use crate::error::{BridgeError, BridgeErrorView};
use vstd::prelude::*;

verus! {

/// The reason `url::Url::parse` gives for refusing a text. The bridge only
/// tells it from success; nothing is known of what it holds.
#[verifier::external_type_specification]
#[verifier::external_body]
pub struct ExParseError(url::ParseError);

/// What `url::Url::parse` makes of `text`: the serialization of the URL it
/// parsed, or `None` where it refuses the text.
pub uninterp spec fn parsed_url(text: Seq<char>) -> Option<Seq<char>>;

/// Calls `url::Url::parse` and hands back the URL's serialization, which is
/// also what the URL prints as. The parser reads nothing but `text`, and
/// returns an error on every text that it does not accept.
#[verifier::external_body]
fn parse_url(text: &str) -> (parsed: Result<String, url::ParseError>)
    ensures
        parsed is Ok <==> parsed_url(text@) is Some,
        parsed matches Ok(href) ==> parsed_url(text@) == Some(href@),
{
    url::Url::parse(text).map(String::from)
}

/// What is said of a text that is no absolute URL.
pub open spec fn invalid_url_message() -> Seq<char> {
    "invalid URL"@
}

/// The outcome of resolving a text as an absolute identifier, given what the
/// parser made of it.
pub open spec fn resolved_url(parsed: Option<Seq<char>>) -> Result<Seq<char>, BridgeErrorView> {
    match parsed {
        Some(href) => Ok(href),
        None => Err(BridgeErrorView::Resolution { message: invalid_url_message() }),
    }
}

/// Converts a string representing an absolute URL into the canonical text of
/// a module identifier.
pub fn resolve_url(text: &str) -> (resolved: Result<String, BridgeError>)
    ensures
        match resolved_url(parsed_url(text@)) {
            Ok(href) => resolved matches Ok(found) && found@ == href,
            Err(error) => resolved matches Err(e) && e@ == error,
        },
{
    match parse_url(text) {
        Ok(href) => Ok(href),
        Err(_) => Err(BridgeError::Resolution { message: String::from_str("invalid URL") }),
    }
}

/// The canonical text of `text` as an absolute URL, where it is one.
pub fn absolute(text: &str) -> (parsed: Option<String>)
    ensures
        match parsed_url(text@) {
            Some(href) => parsed matches Some(found) && found@ == href,
            None => parsed is None,
        },
{
    match resolve_url(text) {
        Ok(href) => Some(href),
        Err(_) => None,
    }
}

} // verus!
