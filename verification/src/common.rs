//! The part of a lookup that every endpoint shares: the configuration, the
//! request URL with its query string, and the reading of a response.

use vstd::prelude::*;
use vstd::std_specs::iter::IteratorSpec;
use crate::bindings::{pair_views, parse_with_params, takes_query, url_with_params};
use crate::errors::Ip2LocationError;
use crate::text::{has_text, option_view};

verus! {

/// The endpoint of the IP geolocation service.
pub const BASE_IP_URL: &'static str = "https://api.ip2location.io/";

/// The endpoint of the WHOIS service.
pub const BASE_WHOIS_URL: &'static str = "https://api.ip2whois.com/v2";

/// The endpoint of the hosted-domains service.
pub const BASE_HOSTED_DOMAINS_URL: &'static str = "https://domains.ip2whois.com/domains";

/// What every handler of one client shares. It does not change once made.
#[derive(Clone, Debug)]
pub struct Config {
    pub api_key: Option<String>,
}

/// `params`, followed by the `key` parameter where a key is configured and is
/// not empty.
pub open spec fn with_key(params: Seq<(Seq<char>, Seq<char>)>, api_key: Option<Seq<char>>) -> Seq<
    (Seq<char>, Seq<char>),
> {
    if has_text(api_key) {
        params.push(("key"@, api_key->0))
    } else {
        params
    }
}

/// Whether an HTTP status reports success.
pub open spec fn is_success(status: u16) -> bool {
    200 <= status < 300
}

/// What a response with this status and body amounts to.
pub open spec fn response_outcome(status: u16, body: String) -> Result<String, Ip2LocationError> {
    if is_success(status) {
        Ok(body)
    } else {
        Err(Ip2LocationError::ApiError { status, message: body })
    }
}

/// Whether `r` is what building a request URL from `base` and `params` gives:
/// the URL with its query string, or `Url` exactly where `base` does not
/// parse.
pub open spec fn is_request_for(
    r: Result<String, Ip2LocationError>,
    base: Seq<char>,
    params: Seq<(Seq<char>, Seq<char>)>,
) -> bool {
    match r {
        Ok(u) => url_with_params(base, params) == Some(u@),
        Err(e) => e is Url && url_with_params(base, params) is None,
    }
}

impl Config {
    /// The configured key as a sequence of characters.
    pub open spec fn key_view(&self) -> Option<Seq<char>> {
        option_view(self.api_key)
    }

    /// A configuration with an optional API key. An empty key counts as none.
    pub fn new(api_key: Option<String>) -> (r: Self)
        ensures
            r.api_key == api_key,
    {
        Config { api_key }
    }
}

/// A key that is empty is no key: the parameters are the same either way.
pub proof fn lemma_empty_key_is_no_key(params: Seq<(Seq<char>, Seq<char>)>)
    ensures
        with_key(params, Some(Seq::<char>::empty())) == with_key(params, None),
{
}

/// With a key that is not empty, the parameters are the ones given, in their
/// order, and the key after them; without one, they are the ones given.
pub proof fn lemma_key_comes_last(params: Seq<(Seq<char>, Seq<char>)>, api_key: Option<Seq<char>>)
    ensures
        ({
            let all = with_key(params, api_key);
            &&& all.len() == params.len() + (if has_text(api_key) { 1int } else { 0int })
            &&& forall|i: int| 0 <= i < params.len() ==> all[i] == params[i]
            &&& has_text(api_key) ==> all.last() == ("key"@, api_key->0)
        }),
{
}

/// Puts together the parameters of one request: `params` in their order, and
/// the configured key after them where it is not empty.
pub fn with_api_key<'a>(params: &[(&'a str, &'a str)], config: &'a Config) -> (r: Vec<
    (&'a str, &'a str),
>)
    ensures
        pair_views(r@) == with_key(pair_views(params@), config.key_view()),
{
    let mut all: Vec<(&str, &str)> = Vec::new();
    let mut i: usize = 0;
    while i < params.len()
        invariant
            0 <= i <= params@.len(),
            all@ == params@.subrange(0, i as int),
        decreases params@.len() - i,
    {
        all.push(params[i]);
        i = i + 1;
    }
    if let Some(k) = &config.api_key {
        if !k.as_str().is_empty() {
            all.push(("key", k.as_str()));
            assert(pair_views(all@) == pair_views(params@).push(("key"@, k@)));
        }
    }
    all
}

/// Tests whether `base_url` can be given a query string, which is what
/// `request_url` asks of it.
pub fn can_take_query(base_url: &str) -> (r: bool)
    ensures
        r == takes_query(base_url@),
{
    if base_url.unicode_len() > 0x00ff_ffff {
        return false;
    }
    let mut rest = base_url.chars();
    let ghost mut seen: int = 0;
    loop
        invariant
            0 <= seen <= base_url@.len() <= 0x00ff_ffff,
            rest.remaining() == base_url@.subrange(seen, base_url@.len() as int),
            forall|j: int| 0 <= j < seen ==> base_url@[j] != '#',
        decreases base_url@.len() - seen,
    {
        match rest.next() {
            None => {
                return true;
            },
            Some(c) => {
                if c == '#' {
                    return false;
                }
                proof {
                    seen = seen + 1;
                }
            },
        }
    }
}

/// Each endpoint of the services can be given a query string.
pub proof fn lemma_endpoints_take_query()
    ensures
        takes_query(BASE_IP_URL@),
        takes_query(BASE_WHOIS_URL@),
        takes_query(BASE_HOSTED_DOMAINS_URL@),
{
    reveal_strlit("https://api.ip2location.io/");
    reveal_strlit("https://api.ip2whois.com/v2");
    reveal_strlit("https://domains.ip2whois.com/domains");
}

/// Builds the URL of the GET request for one lookup: `base_url` with `params`
/// appended to its query string in the order given, and the configured key
/// after them where it is not empty. Fails with `Url` exactly where
/// `base_url` does not parse. A `base_url` with a fragment, or one of more
/// than 16 777 215 characters, is outside what the URL builder takes.
pub fn request_url(base_url: &str, config: &Config, params: &[(&str, &str)]) -> (r: Result<
    String,
    Ip2LocationError,
>)
    requires
        takes_query(base_url@),
    ensures
        is_request_for(r, base_url@, with_key(pair_views(params@), config.key_view())),
{
    let all = with_api_key(params, config);
    match parse_with_params(base_url, all.as_slice()) {
        Ok(u) => Ok(u),
        Err(e) => Err(Ip2LocationError::from(e)),
    }
}

/// Reads the outcome of the exchange: the body of a successful response, to
/// be decoded by the caller, or `ApiError` with the status and the body as it
/// came.
pub fn read_response(status: u16, body: String) -> (r: Result<String, Ip2LocationError>)
    ensures
        r == response_outcome(status, body),
{
    if 200 <= status && status < 300 {
        Ok(body)
    } else {
        Err(Ip2LocationError::ApiError { status, message: body })
    }
}

/// What decoding the body of a successful response amounts to: the record,
/// or `Json` with the decoder's diagnostic. Nothing of a record is handed out
/// where decoding failed.
pub open spec fn decode_outcome<T>(outcome: Result<T, serde_json::Error>) -> Result<
    T,
    Ip2LocationError,
> {
    match outcome {
        Ok(record) => Ok(record),
        Err(e) => Err(Ip2LocationError::Json(e)),
    }
}

/// Closes a lookup with what the decoder made of the body.
pub fn decoded<T>(outcome: Result<T, serde_json::Error>) -> (r: Result<T, Ip2LocationError>)
    ensures
        r == decode_outcome(outcome),
{
    match outcome {
        Ok(record) => Ok(record),
        Err(e) => Err(Ip2LocationError::from(e)),
    }
}

} // verus!
