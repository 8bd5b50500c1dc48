use ip2location_io::common::{
    can_take_query, decoded, read_response, request_url, with_api_key, Config,
    BASE_HOSTED_DOMAINS_URL, BASE_IP_URL, BASE_WHOIS_URL,
};
use ip2location_io::errors::Ip2LocationError;
use ip2location_io::hosteddomains::hosted_domains_query;
use ip2location_io::ip_geolocation::geolocation_query;
use ip2location_io::whois::whois_query;
use ip2location_io::Client;

fn keyed(key: &str) -> Client {
    Client::new(Some(key.to_string()))
}

fn invalid_input(r: Result<String, Ip2LocationError>) -> String {
    match r {
        Err(Ip2LocationError::InvalidInput(m)) => m,
        other => panic!("expected InvalidInput, got {:?}", other),
    }
}

#[test]
fn base_urls() {
    assert_eq!(BASE_IP_URL, "https://api.ip2location.io/");
    assert_eq!(BASE_WHOIS_URL, "https://api.ip2whois.com/v2");
    assert_eq!(BASE_HOSTED_DOMAINS_URL, "https://domains.ip2whois.com/domains");
}

#[test]
fn geolocation_query_with_and_without_language() {
    assert_eq!(geolocation_query("8.8.8.8", None), vec![("ip", "8.8.8.8")]);
    assert_eq!(geolocation_query("8.8.8.8", Some("")), vec![("ip", "8.8.8.8")]);
    assert_eq!(
        geolocation_query("8.8.8.8", Some("fr")),
        vec![("ip", "8.8.8.8"), ("lang", "fr")]
    );
}

#[test]
fn hosted_domains_query_with_and_without_page() {
    assert_eq!(hosted_domains_query("8.8.8.8", &None), vec![("ip", "8.8.8.8")]);
    assert_eq!(hosted_domains_query("8.8.8.8", &Some(String::new())), vec![("ip", "8.8.8.8")]);
    assert_eq!(
        hosted_domains_query("8.8.8.8", &Some("2".to_string())),
        vec![("ip", "8.8.8.8"), ("page", "2")]
    );
    assert_eq!(
        hosted_domains_query("8.8.8.8", &Some("next token".to_string())),
        vec![("ip", "8.8.8.8"), ("page", "next token")]
    );
}

#[test]
fn whois_query_holds_the_domain() {
    assert_eq!(whois_query("example.com"), vec![("domain", "example.com")]);
}

#[test]
fn key_is_appended_last() {
    let config = Config::new(Some("secret".to_string()));
    let params = [("ip", "8.8.8.8"), ("lang", "fr")];
    assert_eq!(
        with_api_key(&params, &config),
        vec![("ip", "8.8.8.8"), ("lang", "fr"), ("key", "secret")]
    );
    assert_eq!(with_api_key(&[], &config), vec![("key", "secret")]);
}

#[test]
fn empty_key_is_no_key() {
    let params = [("ip", "8.8.8.8")];
    let none = Config::new(None);
    let empty = Config::new(Some(String::new()));
    assert_eq!(with_api_key(&params, &none), vec![("ip", "8.8.8.8")]);
    assert_eq!(with_api_key(&params, &empty), vec![("ip", "8.8.8.8")]);
}

#[test]
fn geolocation_request_with_language_and_key() {
    let client = keyed("abc");
    let url = client.ip_geolocation().lookup_ip("8.8.8.8", Some("fr")).unwrap();
    assert_eq!(url, "https://api.ip2location.io/?ip=8.8.8.8&lang=fr&key=abc");
}

#[test]
fn geolocation_request_without_language() {
    let client = keyed("abc");
    let url = client.ip_geolocation().lookup_ip("8.8.8.8", None).unwrap();
    assert_eq!(url, "https://api.ip2location.io/?ip=8.8.8.8&key=abc");
}

#[test]
fn geolocation_request_with_empty_language() {
    let client = keyed("abc");
    let url = client.ip_geolocation().lookup_ip("8.8.8.8", Some("")).unwrap();
    assert_eq!(url, "https://api.ip2location.io/?ip=8.8.8.8&key=abc");
}

#[test]
fn geolocation_request_without_key() {
    let client = Client::new(None);
    let url = client.ip_geolocation().lookup_ip("8.8.8.8", Some("es")).unwrap();
    assert_eq!(url, "https://api.ip2location.io/?ip=8.8.8.8&lang=es");
}

#[test]
fn geolocation_request_with_empty_key() {
    let client = Client::new(Some(String::new()));
    let url = client.ip_geolocation().lookup_ip("8.8.8.8", None).unwrap();
    assert_eq!(url, "https://api.ip2location.io/?ip=8.8.8.8");
}

#[test]
fn geolocation_request_keeps_the_address_untrimmed() {
    let client = Client::new(None);
    let url = client.ip_geolocation().lookup_ip(" 8.8.8.8 ", None).unwrap();
    assert_eq!(url, "https://api.ip2location.io/?ip=+8.8.8.8+");
}

#[test]
fn geolocation_request_encodes_an_ipv6_address() {
    let client = Client::new(None);
    let url = client.ip_geolocation().lookup_ip("2001:db8::1", None).unwrap();
    assert_eq!(url, "https://api.ip2location.io/?ip=2001%3Adb8%3A%3A1");
}

#[test]
fn whois_request() {
    let client = keyed("abc");
    let url = client.whois().lookup_domain("example.com").unwrap();
    assert_eq!(url, "https://api.ip2whois.com/v2?domain=example.com&key=abc");
}

#[test]
fn whois_request_encodes_the_domain() {
    let client = Client::new(None);
    let url = client.whois().lookup_domain("bücher.de").unwrap();
    assert_eq!(url, "https://api.ip2whois.com/v2?domain=b%C3%BCcher.de");
}

#[test]
fn hosted_domains_request_with_page() {
    let client = keyed("abc");
    let url =
        client.hosted_domains().lookup_hosteddomains("8.8.8.8", Some("2".to_string())).unwrap();
    assert_eq!(url, "https://domains.ip2whois.com/domains?ip=8.8.8.8&page=2&key=abc");
}

#[test]
fn hosted_domains_request_without_page() {
    let client = keyed("abc");
    let url = client.hosted_domains().lookup_hosteddomains("8.8.8.8", None).unwrap();
    assert_eq!(url, "https://domains.ip2whois.com/domains?ip=8.8.8.8&key=abc");
    let url = client.hosted_domains().lookup_hosteddomains("8.8.8.8", Some(String::new())).unwrap();
    assert_eq!(url, "https://domains.ip2whois.com/domains?ip=8.8.8.8&key=abc");
}

#[test]
fn hosted_domains_request_hands_the_page_on_as_it_is() {
    let client = Client::new(None);
    let url = client
        .hosted_domains()
        .lookup_hosteddomains("8.8.8.8", Some("a b&c=d".to_string()))
        .unwrap();
    assert_eq!(url, "https://domains.ip2whois.com/domains?ip=8.8.8.8&page=a+b%26c%3Dd");
}

#[test]
fn blank_ip_is_refused_by_geolocation() {
    let client = keyed("abc");
    for ip in ["", " ", "   ", "\t\n", "\u{a0}\u{3000}"] {
        let r = client.ip_geolocation().lookup_ip(ip, Some("fr"));
        assert_eq!(invalid_input(r), "IP is empty");
    }
}

#[test]
fn blank_domain_is_refused_by_whois() {
    let client = keyed("abc");
    for domain in ["", " ", "   ", "\t\n", "\u{a0}\u{3000}"] {
        let r = client.whois().lookup_domain(domain);
        assert_eq!(invalid_input(r), "Domain is empty");
    }
}

#[test]
fn blank_ip_is_refused_by_hosted_domains() {
    let client = keyed("abc");
    for ip in ["", " ", "   ", "\t\n", "\u{a0}\u{3000}"] {
        let r = client.hosted_domains().lookup_hosteddomains(ip, Some("1".to_string()));
        assert_eq!(invalid_input(r), "IP is empty");
    }
}

#[test]
fn request_url_appends_to_a_query_that_is_there() {
    let config = Config::new(Some("k".to_string()));
    let url = request_url("https://example.net?dont=clobberme", &config, &[("lang", "rust")]);
    assert_eq!(url.unwrap(), "https://example.net/?dont=clobberme&lang=rust&key=k");
}

#[test]
fn request_url_encodes_names_and_values() {
    let config = Config::new(None);
    let url = request_url("https://example.net/x", &config, &[("a b", "Été+hiver"), ("c", "")]);
    assert_eq!(url.unwrap(), "https://example.net/x?a+b=%C3%89t%C3%A9%2Bhiver&c=");
}

#[test]
fn request_url_refuses_a_base_that_does_not_parse() {
    let config = Config::new(Some("k".to_string()));
    let r = request_url("not a url", &config, &[("ip", "8.8.8.8")]);
    assert!(matches!(r, Err(Ip2LocationError::Url(url::ParseError::RelativeUrlWithoutBase))));
    let r = request_url("https://", &config, &[("ip", "8.8.8.8")]);
    assert!(matches!(r, Err(Ip2LocationError::Url(url::ParseError::EmptyHost))));
}

#[test]
fn unauthorized_response_is_an_api_error() {
    let body = "{\"error\":\"invalid key\"}".to_string();
    match read_response(401, body) {
        Err(Ip2LocationError::ApiError { status, message }) => {
            assert_eq!(status, 401);
            assert_eq!(message, "{\"error\":\"invalid key\"}");
        }
        other => panic!("expected ApiError, got {:?}", other),
    }
}

#[test]
fn successful_response_hands_the_body_on() {
    for status in [200u16, 201, 204, 299] {
        assert_eq!(read_response(status, "{}".to_string()).unwrap(), "{}");
    }
}

#[test]
fn statuses_outside_success() {
    for code in [0u16, 100, 199, 300, 301, 400, 404, 500, 503, 65535] {
        match read_response(code, "body".to_string()) {
            Err(Ip2LocationError::ApiError { status, message }) => {
                assert_eq!(status, code);
                assert_eq!(message, "body");
            }
            other => panic!("expected ApiError, got {:?}", other),
        }
    }
}

#[test]
fn status_agrees_with_the_transport() {
    let mut code: u16 = 100;
    while code < 1000 {
        let status = reqwest::StatusCode::from_u16(code).unwrap();
        assert_eq!(read_response(code, String::new()).is_ok(), status.is_success());
        code += 1;
    }
}

#[test]
fn body_that_is_no_json_is_a_json_error() {
    let body = read_response(200, "<html>oops</html>".to_string()).unwrap();
    let r = decoded(serde_json::from_str::<serde_json::Value>(&body));
    assert!(matches!(r, Err(Ip2LocationError::Json(_))));
}

#[test]
fn body_of_another_shape_is_a_json_error() {
    let body = read_response(200, "{\"domains\": 5}".to_string()).unwrap();
    let r = decoded(serde_json::from_str::<Vec<String>>(&body));
    assert!(matches!(r, Err(Ip2LocationError::Json(_))));
}

#[test]
fn decoded_record_is_handed_on() {
    let body = read_response(200, "[\"a.com\",\"b.com\"]".to_string()).unwrap();
    let r = decoded(serde_json::from_str::<Vec<String>>(&body));
    assert_eq!(r.unwrap(), vec!["a.com".to_string(), "b.com".to_string()]);
}

#[test]
fn handlers_borrow_a_configuration() {
    let config = Config::new(Some("abc".to_string()));
    let geo = ip2location_io::IpGeolocation::new(&config);
    let whois = ip2location_io::Whois::new(&config);
    let hosted = ip2location_io::HostedDomains::new(&config);
    assert_eq!(
        geo.lookup_ip("1.1.1.1", None).unwrap(),
        "https://api.ip2location.io/?ip=1.1.1.1&key=abc"
    );
    assert_eq!(
        whois.lookup_domain("example.org").unwrap(),
        "https://api.ip2whois.com/v2?domain=example.org&key=abc"
    );
    assert_eq!(
        hosted.lookup_hosteddomains("1.1.1.1", None).unwrap(),
        "https://domains.ip2whois.com/domains?ip=1.1.1.1&key=abc"
    );
}

#[test]
fn handlers_of_one_client_share_its_key() {
    let client = keyed("k1");
    let other = keyed("k2");
    assert_eq!(
        client.whois().lookup_domain("a.b").unwrap(),
        "https://api.ip2whois.com/v2?domain=a.b&key=k1"
    );
    assert_eq!(
        other.whois().lookup_domain("a.b").unwrap(),
        "https://api.ip2whois.com/v2?domain=a.b&key=k2"
    );
    assert_eq!(
        client.ip_geolocation().lookup_ip("1.1.1.1", None).unwrap(),
        "https://api.ip2location.io/?ip=1.1.1.1&key=k1"
    );
}

#[test]
fn endpoints_can_take_a_query() {
    assert!(can_take_query(BASE_IP_URL));
    assert!(can_take_query(BASE_WHOIS_URL));
    assert!(can_take_query(BASE_HOSTED_DOMAINS_URL));
    assert!(can_take_query("https://example.net?dont=clobberme"));
    assert!(can_take_query("not a url"));
    assert!(can_take_query(""));
}

#[test]
fn base_with_a_fragment_cannot_take_a_query() {
    assert!(!can_take_query("https://h/#f"));
    assert!(!can_take_query("#"));
    assert!(!can_take_query("https://example.net/?a=b#"));
}

#[test]
fn base_length_is_bounded() {
    let longest = "a".repeat(0x00ff_ffff);
    assert!(can_take_query(&longest));
    let too_long = "a".repeat(0x0100_0000);
    assert!(!can_take_query(&too_long));
    let wide = "é".repeat(0x00ff_ffff);
    assert!(can_take_query(&wide));
}

#[test]
fn request_url_is_built_only_for_a_base_that_can_take_a_query() {
    let config = Config::new(None);
    for base in ["https://example.net/x", "https://example.net/?q=1", "not a url"] {
        assert!(can_take_query(base));
        let built = request_url(base, &config, &[("ip", "8.8.8.8")]);
        assert_eq!(built.is_ok(), url::Url::parse(base).is_ok());
    }
}
