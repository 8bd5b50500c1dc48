//! The IP geolocation endpoint.

use vstd::prelude::*;
use crate::bindings::pair_views;
use crate::common::{
    is_request_for, lemma_endpoints_take_query, request_url, with_key, Config, BASE_IP_URL,
};
use crate::errors::Ip2LocationError;
use crate::text::{has_text, is_blank, opt_view, str_is_blank};

verus! {

/// The parameters of a geolocation lookup, before the key: `ip`, then `lang`
/// where a language is given and is not empty.
pub open spec fn geolocation_params(ip: Seq<char>, lang: Option<Seq<char>>) -> Seq<
    (Seq<char>, Seq<char>),
> {
    if has_text(lang) {
        seq![("ip"@, ip), ("lang"@, lang->0)]
    } else {
        seq![("ip"@, ip)]
    }
}

/// A geolocation request carries `ip` first, `lang` second exactly where a
/// language is given and is not empty, `key` last exactly where a key is
/// configured and is not empty, and nothing else.
pub proof fn lemma_geolocation_query_order(
    ip: Seq<char>,
    lang: Option<Seq<char>>,
    api_key: Option<Seq<char>>,
)
    ensures
        ({
            let q = with_key(geolocation_params(ip, lang), api_key);
            let n_lang = if has_text(lang) { 1int } else { 0int };
            let n_key = if has_text(api_key) { 1int } else { 0int };
            &&& q.len() == 1 + n_lang + n_key
            &&& q[0] == ("ip"@, ip)
            &&& has_text(lang) ==> q[1] == ("lang"@, lang->0)
            &&& has_text(api_key) ==> q[q.len() - 1] == ("key"@, api_key->0)
            &&& has_text(lang) <==> exists|i: int| 0 <= i < q.len() && (#[trigger] q[i]).0 == "lang"@
            &&& has_text(api_key) <==> exists|i: int|
                0 <= i < q.len() && (#[trigger] q[i]).0 == "key"@
        }),
{
    reveal_strlit("ip");
    reveal_strlit("lang");
    reveal_strlit("key");
    let q = with_key(geolocation_params(ip, lang), api_key);
    assert("ip"@ != "lang"@ && "ip"@ != "key"@ && "lang"@ != "key"@) by {
        assert("ip"@.len() == 2 && "key"@.len() == 3 && "lang"@.len() == 4);
    }
    if has_text(lang) {
        assert(q[1].0 == "lang"@);
    }
    if has_text(api_key) {
        assert(q[q.len() - 1].0 == "key"@);
    }
}

/// Puts together the parameters of a geolocation lookup, before the key.
pub fn geolocation_query<'a>(ip: &'a str, lang: Option<&'a str>) -> (r: Vec<(&'a str, &'a str)>)
    ensures
        pair_views(r@) == geolocation_params(ip@, opt_view(lang)),
{
    let mut params: Vec<(&str, &str)> = Vec::new();
    params.push(("ip", ip));
    if let Some(l) = lang {
        if !l.is_empty() {
            params.push(("lang", l));
        }
    }
    params
}

/// A view of one client's configuration that looks up IP addresses.
pub struct IpGeolocation<'a> {
    config: &'a Config,
}

impl<'a> IpGeolocation<'a> {
    /// The configuration this handler borrows.
    pub closed spec fn config(&self) -> Config {
        *self.config
    }

    /// A handler that borrows `config`.
    pub fn new(config: &'a Config) -> (r: Self)
        ensures
            r.config() == *config,
    {
        IpGeolocation { config }
    }

    /// Prepares the lookup of `ip` and returns the URL of the GET request that
    /// performs it. An `ip` that is empty once trimmed is refused before
    /// anything is built.
    pub fn lookup_ip(&self, ip: &str, lang: Option<&str>) -> (r: Result<String, Ip2LocationError>)
        ensures
            is_blank(ip@) ==> (r matches Err(Ip2LocationError::InvalidInput(m)) && m@
                == "IP is empty"@),
            !is_blank(ip@) ==> is_request_for(
                r,
                BASE_IP_URL@,
                with_key(geolocation_params(ip@, opt_view(lang)), self.config().key_view()),
            ),
    {
        if str_is_blank(ip) {
            return Err(Ip2LocationError::InvalidInput("IP is empty".to_owned()));
        }
        let params = geolocation_query(ip, lang);
        proof {
            lemma_endpoints_take_query();
        }
        request_url(BASE_IP_URL, self.config, params.as_slice())
    }
}

} // verus!
