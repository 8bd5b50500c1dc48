//! The WHOIS endpoint, and utilities on domain names.

use vstd::prelude::*;
use vstd::string::StringExecFns;
use crate::bindings::{
    domain_to_ascii, domain_to_unicode, idna_ascii, idna_unicode, pair_views, parse_host, url_host,
};
use crate::common::{
    is_request_for, lemma_endpoints_take_query, request_url, with_key, Config, BASE_WHOIS_URL,
};
use crate::errors::Ip2LocationError;
use crate::text::{
    from_first_dot, is_blank, option_view, starts_with, str_is_blank, suffix_from_first_dot,
};

verus! {

/// The parameters of a WHOIS lookup, before the key.
pub open spec fn whois_params(domain: Seq<char>) -> Seq<(Seq<char>, Seq<char>)> {
    seq![("domain"@, domain)]
}

/// The text that is parsed for its host: `url` itself where it begins with
/// `http`, and `url` behind `https://` where it does not.
pub open spec fn url_candidate(url: Seq<char>) -> Seq<char> {
    if "http"@.is_prefix_of(url) {
        url
    } else {
        "https://"@ + url
    }
}

/// `host` without a leading `www.`.
pub open spec fn without_www(host: Seq<char>) -> Seq<char> {
    if "www."@.is_prefix_of(host) {
        host.skip(4)
    } else {
        host
    }
}

/// The hostname of `url`: nothing for the empty string, else the host of the
/// parsed candidate, without a leading `www.`.
pub open spec fn domain_name(url: Seq<char>) -> Option<Seq<char>> {
    if url.len() == 0 {
        None
    } else {
        match url_host(url_candidate(url)) {
            Some(h) => Some(without_www(h)),
            None => None,
        }
    }
}

/// The extension of the hostname of `url`, from the hostname's first `.` on.
pub open spec fn domain_extension(url: Seq<char>) -> Option<Seq<char>> {
    match domain_name(url) {
        Some(d) => from_first_dot(d),
        None => None,
    }
}

/// The result of encoding `domain`: its ASCII form, or the codec's error
/// behind a fixed prefix.
pub open spec fn punycode(domain: Seq<char>) -> Result<Seq<char>, Seq<char>> {
    match idna_ascii(domain) {
        Ok(a) => Ok(a),
        Err(e) => Err("IDNA encode error: "@ + e),
    }
}

/// The result of decoding `domain`: its Unicode form where the codec reports
/// no error, else the error behind a fixed prefix.
pub open spec fn normaltext(domain: Seq<char>) -> Result<Seq<char>, Seq<char>> {
    match idna_unicode(domain).1 {
        None => Ok(idna_unicode(domain).0),
        Some(e) => Err("IDNA decode error: "@ + e),
    }
}

/// The views of a result of two strings.
pub open spec fn result_view(r: Result<String, String>) -> Result<Seq<char>, Seq<char>> {
    match r {
        Ok(s) => Ok(s@),
        Err(e) => Err(e@),
    }
}

/// Puts `url` into the form that is parsed for its host.
pub fn candidate(url: &str) -> (r: String)
    ensures
        r@ == url_candidate(url@),
{
    if starts_with(url, "http") {
        url.to_owned()
    } else {
        "https://".to_owned().concat(url)
    }
}

/// Removes a leading `www.` from `host`.
pub fn strip_www(host: &str) -> (r: String)
    ensures
        r@ == without_www(host@),
{
    if starts_with(host, "www.") {
        proof {
            reveal_strlit("www.");
        }
        let n: usize = host.unicode_len();
        host.substring_char(4, n).to_owned()
    } else {
        host.to_owned()
    }
}

/// Puts together the parameters of a WHOIS lookup, before the key.
pub fn whois_query<'a>(domain: &'a str) -> (r: Vec<(&'a str, &'a str)>)
    ensures
        pair_views(r@) == whois_params(domain@),
{
    let mut params: Vec<(&str, &str)> = Vec::new();
    params.push(("domain", domain));
    params
}

/// A view of one client's configuration that looks up WHOIS records.
pub struct Whois<'a> {
    config: &'a Config,
}

impl<'a> Whois<'a> {
    /// The configuration this handler borrows.
    pub closed spec fn config(&self) -> Config {
        *self.config
    }

    /// A handler that borrows `config`.
    pub fn new(config: &'a Config) -> (r: Self)
        ensures
            r.config() == *config,
    {
        Whois { config }
    }

    /// Prepares the lookup of `domain` and returns the URL of the GET request
    /// that performs it. A `domain` that is empty once trimmed is refused
    /// before anything is built.
    pub fn lookup_domain(&self, domain: &str) -> (r: Result<String, Ip2LocationError>)
        ensures
            is_blank(domain@) ==> (r matches Err(Ip2LocationError::InvalidInput(m)) && m@
                == "Domain is empty"@),
            !is_blank(domain@) ==> is_request_for(
                r,
                BASE_WHOIS_URL@,
                with_key(whois_params(domain@), self.config().key_view()),
            ),
    {
        if str_is_blank(domain) {
            return Err(Ip2LocationError::InvalidInput("Domain is empty".to_owned()));
        }
        let params = whois_query(domain);
        proof {
            lemma_endpoints_take_query();
        }
        request_url(BASE_WHOIS_URL, self.config, params.as_slice())
    }

    /// Converts a Unicode domain name to its ASCII (Punycode) form.
    pub fn get_punycode(domain: &str) -> (r: Result<String, String>)
        ensures
            result_view(r) == punycode(domain@),
    {
        match domain_to_ascii(domain) {
            Ok(a) => Ok(a),
            Err(e) => Err("IDNA encode error: ".to_owned().concat(e.as_str())),
        }
    }

    /// Converts a domain name in ASCII (Punycode) form back to Unicode. The
    /// text that the codec produces beside an error is not handed out.
    pub fn get_normaltext(domain: &str) -> (r: Result<String, String>)
        ensures
            result_view(r) == normaltext(domain@),
    {
        let (unicode, failure) = domain_to_unicode(domain);
        match failure {
            None => Ok(unicode),
            Some(e) => Err("IDNA decode error: ".to_owned().concat(e.as_str())),
        }
    }

    /// Extracts the hostname from a URL or a bare host, without a leading
    /// `www.`.
    pub fn get_domainname(url: &str) -> (r: Option<String>)
        ensures
            option_view(r) == domain_name(url@),
    {
        if url.is_empty() {
            return None;
        }
        let text = candidate(url);
        match parse_host(text.as_str()) {
            Some(host) => Some(strip_www(host.as_str())),
            None => None,
        }
    }

    /// Extracts the extension of the hostname of a URL, with its leading `.`:
    /// `.co.uk` for `https://www.example.co.uk`.
    pub fn get_domain_extension(url: &str) -> (r: Option<String>)
        ensures
            option_view(r) == domain_extension(url@),
    {
        match Self::get_domainname(url) {
            Some(d) => suffix_from_first_dot(d.as_str()),
            None => None,
        }
    }
}

} // verus!
