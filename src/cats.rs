use vstd::prelude::*;
use vstd::string::StringExecFns;
use vstd::utf8::{decode_utf8, valid_utf8};

use crate::parser::utf8_text;

verus! {

/// Search endpoint of the cat-image API, up to the media type.
pub const CAT_SEARCH_PREFIX: &'static str = "https://api.thecatapi.com/v1/images/search?mime_types=";

/// Rest of the search query: a single result.
pub const CAT_SEARCH_SUFFIX: &'static str = "&limit=1";

/// Media type asked for on the day of still pictures.
pub const STILL_MIME: &'static str = "jpg";

/// Media type asked for on every other day.
pub const ANIMATED_MIME: &'static str = "gif";

/// A day of the week.
#[derive(PartialEq, Eq, Structural, Debug, Clone, Copy)]
pub enum Weekday {
    Monday,
    Tuesday,
    Wednesday,
    Thursday,
    Friday,
    Saturday,
    Sunday,
}

/// Why an API response could not be read.
#[derive(PartialEq, Eq, Structural, Debug, Clone, Copy)]
pub enum PayloadError {
    /// The body is not UTF-8 text.
    NotText,
    /// The text is not JSON.
    NotJson,
}

/// Still pictures on Mondays, animations on the other days.
pub open spec fn mime_type_of(day: Weekday) -> Seq<char> {
    if day == Weekday::Monday {
        STILL_MIME@
    } else {
        ANIMATED_MIME@
    }
}

/// The search URL for `day`.
pub open spec fn search_url_of(day: Weekday) -> Seq<char> {
    CAT_SEARCH_PREFIX@ + mime_type_of(day) + CAT_SEARCH_SUFFIX@
}

/// For a JSON text, the `url` field of the first element of the top-level
/// array, as JSON displays it (`null` where it is missing); `None` where the
/// text is not JSON.
pub uninterp spec fn json_first_url(text: Seq<char>) -> Option<Seq<char>>;

/// Relies on `json::parse`, indexing of `json::JsonValue` (a missing element or
/// field is `null`) and its `Display`.
#[verifier::external_body]
fn first_result_url(text: &str) -> (r: Option<String>)
    ensures
        r.deep_view() == json_first_url(text@),
{
    match json::parse(text) {
        Ok(value) => Some(value[0]["url"].to_string()),
        Err(_) => None,
    }
}

/// The URL found in an API response body.
pub open spec fn cat_url_of(body: Seq<u8>) -> Result<Seq<char>, PayloadError> {
    if !valid_utf8(body) {
        Err(PayloadError::NotText)
    } else {
        match json_first_url(decode_utf8(body)) {
            Some(url) => Ok(url),
            None => Err(PayloadError::NotJson),
        }
    }
}

/// The media type to ask for on `day`.
pub fn mime_type(day: Weekday) -> (r: &'static str)
    ensures
        r@ == mime_type_of(day),
{
    if day == Weekday::Monday {
        STILL_MIME
    } else {
        ANIMATED_MIME
    }
}

/// The search URL that asks for one picture of the day's media type.
pub fn cat_search_url(day: Weekday) -> (r: String)
    ensures
        r@ == search_url_of(day),
{
    let mut r = String::from_str(CAT_SEARCH_PREFIX);
    r.append(mime_type(day));
    r.append(CAT_SEARCH_SUFFIX);
    r
}

/// Reads the first result's URL out of an API response body.
pub fn cat_url_from_body(body: &[u8]) -> (r: Result<String, PayloadError>)
    ensures
        r matches Ok(url) ==> cat_url_of(body@) == Ok::<Seq<char>, PayloadError>(url@),
        r matches Err(e) ==> cat_url_of(body@) == Err::<Seq<char>, PayloadError>(e),
{
    match utf8_text(body) {
        None => Err(PayloadError::NotText),
        Some(text) => match first_result_url(text) {
            Some(url) => Ok(url),
            None => Err(PayloadError::NotJson),
        },
    }
}

} // verus!
