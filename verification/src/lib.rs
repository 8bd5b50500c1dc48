//! Typed request building and response classification for the IP2Location.io
//! lookup services, with a few domain-name utilities.

pub mod bindings;
pub mod common;
pub mod errors;
pub mod hosteddomains;
pub mod ip_geolocation;
pub mod models;
pub mod text;
pub mod whois;

use vstd::prelude::*;
use crate::common::Config;
pub use crate::hosteddomains::HostedDomains;
pub use crate::ip_geolocation::IpGeolocation;
pub use crate::whois::Whois;

verus! {

/// The client for all the lookup services. It owns the configuration, and
/// hands out handlers that borrow it.
pub struct Client {
    config: Config,
}

impl Client {
    /// The configuration of this client.
    pub closed spec fn config(&self) -> Config {
        self.config
    }

    /// Makes a client with an optional API key. An empty key counts as none.
    pub fn new(api_key: Option<String>) -> (r: Self)
        ensures
            r.config().api_key == api_key,
    {
        Client { config: Config::new(api_key) }
    }

    /// A handler for the IP geolocation endpoint.
    pub fn ip_geolocation(&self) -> (r: IpGeolocation<'_>)
        ensures
            r.config() == self.config(),
    {
        IpGeolocation::new(&self.config)
    }

    /// A handler for the WHOIS endpoint.
    pub fn whois(&self) -> (r: Whois<'_>)
        ensures
            r.config() == self.config(),
    {
        Whois::new(&self.config)
    }

    /// A handler for the hosted-domains endpoint.
    pub fn hosted_domains(&self) -> (r: HostedDomains<'_>)
        ensures
            r.config() == self.config(),
    {
        HostedDomains::new(&self.config)
    }
}

} // verus!
