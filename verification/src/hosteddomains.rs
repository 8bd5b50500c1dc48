//! The hosted-domains endpoint, which lists the domains served from an IP
//! address.

use vstd::prelude::*;
use crate::bindings::pair_views;
use crate::common::{
    is_request_for, lemma_endpoints_take_query, request_url, with_key, Config,
    BASE_HOSTED_DOMAINS_URL,
};
use crate::errors::Ip2LocationError;
use crate::text::{has_text, is_blank, option_view, str_is_blank};

verus! {

/// The parameters of a hosted-domains lookup, before the key: `ip`, then
/// `page` where a page is given and is not empty.
pub open spec fn hosted_domains_params(ip: Seq<char>, page: Option<Seq<char>>) -> Seq<
    (Seq<char>, Seq<char>),
> {
    if has_text(page) {
        seq![("ip"@, ip), ("page"@, page->0)]
    } else {
        seq![("ip"@, ip)]
    }
}

/// Puts together the parameters of a hosted-domains lookup, before the key.
pub fn hosted_domains_query<'a>(ip: &'a str, page: &'a Option<String>) -> (r: Vec<
    (&'a str, &'a str),
>)
    ensures
        pair_views(r@) == hosted_domains_params(ip@, option_view(*page)),
{
    let mut params: Vec<(&str, &str)> = Vec::new();
    params.push(("ip", ip));
    if let Some(p) = page {
        if !p.as_str().is_empty() {
            params.push(("page", p.as_str()));
        }
    }
    params
}

/// A view of one client's configuration that lists the domains hosted on an
/// IP address.
pub struct HostedDomains<'a> {
    config: &'a Config,
}

impl<'a> HostedDomains<'a> {
    /// The configuration this handler borrows.
    pub closed spec fn config(&self) -> Config {
        *self.config
    }

    /// A handler that borrows `config`.
    pub fn new(config: &'a Config) -> (r: Self)
        ensures
            r.config() == *config,
    {
        HostedDomains { config }
    }

    /// Prepares the lookup of `ip` and returns the URL of the GET request that
    /// performs it. `page` is handed on as it is. An `ip` that is empty once
    /// trimmed is refused before anything is built.
    pub fn lookup_hosteddomains(&self, ip: &str, page: Option<String>) -> (r: Result<
        String,
        Ip2LocationError,
    >)
        ensures
            is_blank(ip@) ==> (r matches Err(Ip2LocationError::InvalidInput(m)) && m@
                == "IP is empty"@),
            !is_blank(ip@) ==> is_request_for(
                r,
                BASE_HOSTED_DOMAINS_URL@,
                with_key(hosted_domains_params(ip@, option_view(page)), self.config().key_view()),
            ),
    {
        if str_is_blank(ip) {
            return Err(Ip2LocationError::InvalidInput("IP is empty".to_owned()));
        }
        let params = hosted_domains_query(ip, &page);
        proof {
            lemma_endpoints_take_query();
        }
        request_url(BASE_HOSTED_DOMAINS_URL, self.config, params.as_slice())
    }
}

} // verus!
