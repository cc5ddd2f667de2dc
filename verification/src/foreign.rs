//! The calls this library makes into std and into outside crates, each with the
//! contract that the library relies on.

use std::time::Duration;
use vstd::prelude::*;

verus! {

/// `serde_json::Value`, carried through the library unread.
#[verifier::external_type_specification]
#[verifier::external_body]
pub struct ExJsonValue(serde_json::Value);

/// `serde_json::Error`, carried in a decoding error.
#[verifier::external_type_specification]
#[verifier::external_body]
pub struct ExJsonError(serde_json::Error);

/// `reqwest::Error`, carried in a transport or client error.
#[verifier::external_type_specification]
#[verifier::external_body]
pub struct ExHttpError(reqwest::Error);

/// `Duration::clone`: `Duration` is `Copy`, so a clone is the same value.
pub assume_specification[ <Duration as Clone>::clone ](d: &Duration) -> (r: Duration)
    ensures
        r == *d,
;

/// The duration of `secs` whole seconds.
pub uninterp spec fn secs_duration(secs: u64) -> Duration;

/// Calls `Duration::from_secs`: the result is determined by `secs` alone.
#[verifier::external_body]
pub(crate) fn duration_from_secs(secs: u64) -> (d: Duration)
    ensures
        d == secs_duration(secs),
{
    Duration::from_secs(secs)
}

/// The full Unicode lower-case mapping of a string, as `str::to_lowercase` computes it.
pub uninterp spec fn lowercase(s: Seq<char>) -> Seq<char>;

/// Calls `str::to_lowercase`: the result is determined by the characters of `s` alone.
#[verifier::external_body]
pub(crate) fn to_lowercase(s: &str) -> (r: String)
    ensures
        r@ == lowercase(s@),
{
    s.to_lowercase()
}


/// The string that `String::from_utf8_lossy` decodes from `bytes`, invalid
/// sequences replaced by U+FFFD.
pub uninterp spec fn utf8_lossy(bytes: Seq<u8>) -> Seq<char>;

/// Calls `String::from_utf8_lossy`: the result is determined by `bytes`, and is the
/// plain decoding when `bytes` is valid UTF-8.
#[verifier::external_body]
pub(crate) fn from_utf8_lossy(bytes: &[u8]) -> (s: String)
    ensures
        s@ == utf8_lossy(bytes@),
        vstd::utf8::valid_utf8(bytes@) ==> s@ == vstd::utf8::decode_utf8(bytes@),
{
    String::from_utf8_lossy(bytes).into_owned()
}


/// What the library reads of a parsed URL.
pub struct UrlParts {
    pub scheme: String,
    pub host: Option<String>,
    pub username: String,
    pub password: Option<String>,
    pub query: Option<String>,
    pub fragment: Option<String>,
    /// The URL's serialization.
    pub href: String,
}

/// The components of a parsed URL.
pub ghost struct UrlView {
    pub scheme: Seq<char>,
    pub host: Option<Seq<char>>,
    pub username: Seq<char>,
    pub password: Option<Seq<char>>,
    pub query: Option<Seq<char>>,
    pub fragment: Option<Seq<char>>,
    pub href: Seq<char>,
}

/// The characters of an optional string.
pub open spec fn opt_view(s: Option<String>) -> Option<Seq<char>> {
    match s {
        Some(t) => Some(t@),
        None => None,
    }
}

impl View for UrlParts {
    type V = UrlView;

    open spec fn view(&self) -> UrlView {
        UrlView {
            scheme: self.scheme@,
            host: opt_view(self.host),
            username: self.username@,
            password: opt_view(self.password),
            query: opt_view(self.query),
            fragment: opt_view(self.fragment),
            href: self.href@,
        }
    }
}

/// What `Url::parse` makes of `input`: the URL's components, or the text of the
/// parse error.
pub uninterp spec fn parsed_url(input: Seq<char>) -> core::result::Result<UrlView, Seq<char>>;

/// Calls `reqwest::Url::parse` (the `url` crate) and reads the components of the
/// result; the outcome is determined by `input` alone.
#[verifier::external_body]
pub(crate) fn parse_url(input: &str) -> (r: core::result::Result<UrlParts, String>)
    ensures
        match r {
            Ok(p) => parsed_url(input@) == Ok::<UrlView, Seq<char>>(p@),
            Err(e) => parsed_url(input@) == Err::<UrlView, Seq<char>>(e@),
        },
{
    match reqwest::Url::parse(input) {
        Ok(u) => Ok(UrlParts {
            scheme: u.scheme().to_string(),
            host: u.host_str().map(str::to_string),
            username: u.username().to_string(),
            password: u.password().map(str::to_string),
            query: u.query().map(str::to_string),
            fragment: u.fragment().map(str::to_string),
            href: u.as_str().to_string(),
        }),
        Err(e) => Err(e.to_string()),
    }
}

/// What `Url::join` makes of `reference` against the URL that `Url::parse` reads from
/// `base`: the serialization of the joined URL, or the text of the error.
pub uninterp spec fn joined_url(base: Seq<char>, reference: Seq<char>) -> core::result::Result<
    Seq<char>,
    Seq<char>,
>;

/// Calls `reqwest::Url::parse` on `base` and then `Url::join` with `reference` on the
/// URL it gives; the outcome is determined by `base` and `reference` alone.
#[verifier::external_body]
pub(crate) fn join_url(base: &str, reference: &str) -> (r: core::result::Result<String, String>)
    ensures
        match r {
            Ok(u) => joined_url(base@, reference@) == Ok::<Seq<char>, Seq<char>>(u@),
            Err(e) => joined_url(base@, reference@) == Err::<Seq<char>, Seq<char>>(e@),
        },
{
    match reqwest::Url::parse(base) {
        Ok(b) => match b.join(reference) {
            Ok(u) => Ok(u.to_string()),
            Err(e) => Err(e.to_string()),
        },
        Err(e) => Err(e.to_string()),
    }
}

/// The standard reason phrase of an HTTP status code, if it has one.
pub uninterp spec fn status_reason(code: u16) -> Option<Seq<char>>;

/// Calls `StatusCode::canonical_reason` on the status `code`; the result is
/// determined by `code` alone.
#[verifier::external_body]
pub(crate) fn canonical_reason(code: u16) -> (r: Option<String>)
    ensures
        match r {
            Some(s) => status_reason(code) == Some(s@),
            None => status_reason(code) is None,
        },
{
    match reqwest::StatusCode::from_u16(code) {
        Ok(s) => s.canonical_reason().map(str::to_string),
        Err(_) => None,
    }
}

} // verus!
