//! The records that the services answer with. A field that a response may
//! leave out is optional: absent means unknown.

use vstd::prelude::*;

verus! {

/// The continent an address lies in.
#[derive(Debug, Clone, PartialEq)]
pub struct Continent {
    pub name: Option<String>,
    pub code: Option<String>,
    pub hemisphere: Vec<String>,
    pub translation: Translation,
}

/// A name in the language that the request asked for.
#[derive(Debug, Clone, PartialEq)]
pub struct Translation {
    pub lang: Option<String>,
    pub value: Option<String>,
}

/// The country an address lies in.
#[derive(Debug, Clone, PartialEq)]
pub struct Country {
    pub name: Option<String>,
    pub alpha3_code: Option<String>,
    pub numeric_code: Option<i32>,
    pub demonym: Option<String>,
    pub flag: Option<String>,
    pub capital: Option<String>,
    pub total_area: Option<i32>,
    pub population: Option<i32>,
    pub currency: Currency,
    pub language: Language,
    pub tld: Option<String>,
    pub translation: Translation,
}

/// A country's currency.
#[derive(Debug, Clone, PartialEq)]
pub struct Currency {
    pub code: Option<String>,
    pub name: Option<String>,
    pub symbol: Option<String>,
}

/// A country's main language.
#[derive(Debug, Clone, PartialEq)]
pub struct Language {
    pub code: Option<String>,
    pub name: Option<String>,
}

/// The region an address lies in.
#[derive(Debug, Clone, PartialEq)]
pub struct Region {
    pub name: Option<String>,
    pub code: Option<String>,
    pub translation: Translation,
}

/// The city an address lies in.
#[derive(Debug, Clone, PartialEq)]
pub struct City {
    pub name: Option<String>,
    pub translation: Translation,
}

/// The marketing area an address lies in.
#[derive(Debug, Clone, PartialEq)]
pub struct Geotargeting {
    pub metro: Option<String>,
}

/// The time zone of an address, and the local time there.
#[derive(Debug, Clone, PartialEq)]
pub struct TimeZoneInfo {
    pub olson: Option<String>,
    pub current_time: Option<String>,
    pub gmt_offset: Option<i32>,
    pub is_dst: Option<bool>,
    pub abbreviation: Option<String>,
    pub dst_start_date: Option<String>,
    pub dst_end_date: Option<String>,
    pub sunrise: Option<String>,
    pub sunset: Option<String>,
}

/// What is known of an address as a proxy.
#[derive(Debug, Clone, PartialEq)]
pub struct Proxy {
    pub last_seen: Option<i32>,
    pub proxy_type: Option<String>,
    pub threat: Option<String>,
    pub provider: Option<String>,
    pub is_vpn: Option<bool>,
    pub is_tor: Option<bool>,
    pub is_data_center: Option<bool>,
    pub is_public_proxy: Option<bool>,
    pub is_web_proxy: Option<bool>,
    pub is_web_crawler: Option<bool>,
    pub is_residential_proxy: Option<bool>,
    pub is_spammer: Option<bool>,
    pub is_scanner: Option<bool>,
    pub is_botnet: Option<bool>,
    pub is_bogon: Option<bool>,
    pub is_consumer_privacy_network: Option<bool>,
    pub is_enterprise_private_network: Option<bool>,
}

/// The WHOIS record of a domain. The contact blocks differ from one registrar
/// to the next and are kept as JSON values.
#[derive(Debug, Clone, PartialEq)]
pub struct WhoisResult {
    pub domain: Option<String>,
    pub domain_id: Option<String>,
    pub status: Option<String>,
    pub create_date: Option<String>,
    pub update_date: Option<String>,
    pub expire_date: Option<String>,
    pub whois_server: Option<String>,
    pub domain_age: Option<u64>,
    pub registrar: Option<serde_json::Value>,
    pub registrant: Option<serde_json::Value>,
    pub admin: Option<serde_json::Value>,
    pub tech: Option<serde_json::Value>,
    pub billing: Option<serde_json::Value>,
    pub nameservers: Option<serde_json::Value>,
}

/// One page of the domains that are hosted on an IP address.
#[derive(Debug, Clone, PartialEq)]
pub struct HostedDomainsResult {
    pub ip: Option<String>,
    pub total_domains: Option<i32>,
    pub page: Option<i32>,
    pub per_page: Option<i32>,
    pub total_pages: Option<i32>,
    pub domains: Vec<String>,
}

} // verus!
