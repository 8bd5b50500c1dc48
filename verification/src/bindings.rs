//! The calls this library makes into the `url` and `idna` crates, and the
//! types of `url`, `reqwest` and `serde_json` that it carries.
//!
//! Nothing in this file is proved: each contract below is taken from the
//! documentation and source of the crate it calls, and the rest of the library
//! is verified against these contracts.

use vstd::prelude::*;

verus! {

/// The error type of `url::Url::parse` and `url::Url::parse_with_params`.
#[verifier::external_type_specification]
#[verifier::external_body]
pub struct ExUrlParseError(url::ParseError);

/// The error type of the `reqwest` transport.
#[verifier::external_type_specification]
#[verifier::external_body]
pub struct ExTransportError(reqwest::Error);

/// The error type of the `serde_json` decoder.
#[verifier::external_type_specification]
#[verifier::external_body]
pub struct ExJsonError(serde_json::Error);

/// A JSON value of any shape, as `serde_json` holds it.
#[verifier::external_type_specification]
#[verifier::external_body]
pub struct ExJsonValue(serde_json::Value);

/// The views of a list of name/value pairs.
pub open spec fn pair_views(pairs: Seq<(&str, &str)>) -> Seq<(Seq<char>, Seq<char>)> {
    pairs.map_values(|p: (&str, &str)| (p.0@, p.1@))
}

/// The serialization of the URL that `url::Url::parse_with_params` builds
/// from `base` and `pairs`, or `None` where `base` does not parse as an
/// absolute URL.
pub uninterp spec fn url_with_params(base: Seq<char>, pairs: Seq<(Seq<char>, Seq<char>)>) -> Option<
    Seq<char>,
>;

/// The host of the URL that `url::Url::parse` reads from `text`, as
/// `url::Url::host_str` gives it, or `None` where `text` does not parse or the
/// URL has no host.
pub uninterp spec fn url_host(text: Seq<char>) -> Option<Seq<char>>;

/// What `idna::domain_to_ascii` makes of `domain`: the ASCII form, or the
/// debug text of the codec's error.
pub uninterp spec fn idna_ascii(domain: Seq<char>) -> Result<Seq<char>, Seq<char>>;

/// What `idna::domain_to_unicode` makes of `domain`: the Unicode form, which
/// is always produced, and the debug text of the codec's error where it
/// reports one.
pub uninterp spec fn idna_unicode(domain: Seq<char>) -> (Seq<char>, Option<Seq<char>>);

/// Whether `base` can be given a query string: it holds no `#`, and it is
/// short enough for the URL parsed from it to stay within the 32-bit offsets
/// that the `url` crate keeps.
pub open spec fn takes_query(base: Seq<char>) -> bool {
    !base.contains('#') && base.len() <= 0x00ff_ffff
}

/// Calls `url::Url::parse_with_params`, which parses `base` as an absolute URL
/// and appends every pair, in order, to its query string in
/// `application/x-www-form-urlencoded` syntax. The contract names the outcome:
/// the serialized URL on success, and an error exactly where `base` does not
/// parse.
///
/// The `url` crate converts two offsets to 32 bits on this path and stops the
/// program where one does not fit: the start of the query, where the parsed
/// URL has none yet, and the start of a fragment that is put back behind the
/// pairs. The precondition leaves both out: a bounded `base` parses to a URL
/// far below 4 GiB, and without a fragment nothing is converted once the
/// pairs are appended.
#[verifier::external_body]
pub(crate) fn parse_with_params(base: &str, pairs: &[(&str, &str)]) -> (r: Result<
    String,
    url::ParseError,
>)
    requires
        takes_query(base@),
    ensures
        match r {
            Ok(u) => url_with_params(base@, pair_views(pairs@)) == Some(u@),
            Err(_) => url_with_params(base@, pair_views(pairs@)) is None,
        },
{
    url::Url::parse_with_params(base, pairs).map(String::from)
}

/// Calls `url::Url::parse` and then `url::Url::host_str` on the URL it gives.
/// The contract names the outcome: the host as text, or nothing where `text`
/// does not parse or the URL has no host.
#[verifier::external_body]
pub(crate) fn parse_host(text: &str) -> (r: Option<String>)
    ensures
        match r {
            Some(h) => url_host(text@) == Some(h@),
            None => url_host(text@) is None,
        },
{
    url::Url::parse(text).ok()?.host_str().map(String::from)
}

/// Calls `idna::domain_to_ascii`. The contract names the outcome: the ASCII
/// form, or the debug text of the error the codec reports.
#[verifier::external_body]
pub(crate) fn domain_to_ascii(domain: &str) -> (r: Result<String, String>)
    ensures
        match r {
            Ok(a) => idna_ascii(domain@) == Ok::<Seq<char>, Seq<char>>(a@),
            Err(e) => idna_ascii(domain@) == Err::<Seq<char>, Seq<char>>(e@),
        },
{
    match idna::domain_to_ascii(domain) {
        Ok(ascii) => Ok(ascii),
        Err(e) => Err(format!("{:?}", e)),
    }
}

/// Calls `idna::domain_to_unicode`. The contract names the outcome: the
/// Unicode form, and the debug text of the error where the codec reports one.
#[verifier::external_body]
pub(crate) fn domain_to_unicode(domain: &str) -> (r: (String, Option<String>))
    ensures
        r.0@ == idna_unicode(domain@).0,
        match r.1 {
            Some(e) => idna_unicode(domain@).1 == Some(e@),
            None => idna_unicode(domain@).1 is None,
        },
{
    let (unicode, outcome) = idna::domain_to_unicode(domain);
    match outcome {
        Ok(()) => (unicode, None),
        Err(e) => (unicode, Some(format!("{:?}", e))),
    }
}

} // verus!
