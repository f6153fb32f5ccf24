use ingots::cgi::{endpoint, is_https, is_secure, method, port, query_string, uri, Context};
use ingots::config::{Location, ServerConfig};
use ingots::engine::IngotEngine;
use ingots::ext::{get_app_root, RequestExt};
use ingots::http::{first_equal, get_header, Buffering, Request, Response, ResponseHead, MOVED_PERMANENTLY};
use std::path::PathBuf;

fn fields(head: &ResponseHead) -> Vec<(String, String)> {
    (0..head.header_count())
        .map(|i| {
            let (name, value) = head.header(i);
            (name.to_string(), value.to_string())
        })
        .collect()
}

fn pair(name: &str, value: &str) -> (String, String) {
    (name.to_string(), value.to_string())
}

#[test]
fn default_config_is_empty_with_one_thread() {
    let config = ServerConfig::default();
    assert!(config.keep_alive.is_none());
    assert!(config.read_timeout.is_none());
    assert!(config.write_timeout.is_none());
    assert_eq!(config.threads, 1);
    assert!(config.locations.is_empty());
}

#[test]
fn add_location_appends_in_order() {
    let mut config = ServerConfig::default();
    config.add_location(Location { prefix: String::from("/api"), ingot: PathBuf::from("a.so") });
    config.add_location(Location { prefix: String::from("/"), ingot: "b.so".into() });
    assert_eq!(config.locations.len(), 2);
    assert_eq!(config.locations[0].prefix, "/api");
    assert_eq!(config.locations[0].ingot, PathBuf::from("a.so"));
    assert_eq!(config.locations[1].prefix, "/");
    assert_eq!(config.locations[1].ingot, PathBuf::from("b.so"));
    assert_eq!(config.threads, 1);
    let copy = config.clone();
    assert_eq!(copy.locations.len(), 2);
    assert_eq!(copy.locations[1].ingot, PathBuf::from("b.so"));
}

#[test]
fn configured_locations_route_in_their_order() {
    let mut config = ServerConfig::default();
    config.add_location(Location { prefix: String::from("/api"), ingot: PathBuf::from("a.so") });
    config.add_location(Location { prefix: String::from("/"), ingot: PathBuf::from("b.so") });
    let mut engine = IngotEngine::new();
    for location in config.locations.iter() {
        engine.register(location.prefix.clone(), location.ingot.clone());
    }
    assert_eq!(engine.find_ingot_for_url("/api/x"), Some(&PathBuf::from("a.so")));
    assert_eq!(engine.find_ingot_for_url("/other"), Some(&PathBuf::from("b.so")));
}

#[test]
fn echo_handler_answers_with_the_request_path() {
    fn echo(path: &str) -> String {
        path.to_string()
    }
    fn fixed(_path: &str) -> String {
        String::from("fixed")
    }
    let mut engine: IngotEngine<fn(&str) -> String> = IngotEngine::new();
    engine.register(String::from("/echo"), echo);
    engine.register(String::from("/"), fixed);
    let path = "/echo/some/page";
    let handler = engine.find_ingot_for_url(path).unwrap();
    assert_eq!(handler(path), "/echo/some/page");
    let other = engine.find_ingot_for_url("/x").unwrap();
    assert_eq!(other("/x"), "fixed");
}

#[test]
fn buffering_is_a_plain_value() {
    let on = Buffering::On(65536);
    let copy = on;
    assert_eq!(on, copy);
    assert_ne!(on, Buffering::Off);
    assert_ne!(Buffering::On(1), Buffering::On(2));
}

#[test]
fn first_equal_finds_the_earliest() {
    let names = vec![String::from("a"), String::from("b"), String::from("a")];
    assert_eq!(first_equal(&names, &String::from("a")), Some(0));
    assert_eq!(first_equal(&names, &String::from("b")), Some(1));
    assert_eq!(first_equal(&names, &String::from("A")), None);
    assert_eq!(first_equal(&Vec::new(), &String::from("a")), None);
}

#[test]
fn header_lookup_ignores_letter_case() {
    let headers = [("Content-Type", "text/plain"), ("X-Trace", "1"), ("content-type", "other")];
    assert_eq!(get_header(&headers, "content-type"), Some("text/plain"));
    assert_eq!(get_header(&headers, "CONTENT-TYPE"), Some("text/plain"));
    assert_eq!(get_header(&headers, "x-trace"), Some("1"));
    assert_eq!(get_header(&headers, "Accept"), None);
    assert_eq!(get_header(&[], "Accept"), None);
}

struct Plain {
    fields: Vec<(&'static str, &'static str)>,
}

impl Request for Plain {
    fn method(&self) -> String {
        String::from("GET")
    }

    fn uri(&self) -> String {
        String::from("/")
    }

    fn protocol(&self) -> String {
        String::from("HTTP/1.1")
    }

    fn headers(&self) -> &[(&str, &str)] {
        &self.fields
    }
}

#[test]
fn request_defaults() {
    let request = Plain { fields: vec![("Host", "example.org")] };
    assert_eq!(request.query_string(), None);
    assert!(!request.is_secure());
    assert_eq!(request.get_header("host"), Some("example.org"));
    assert_eq!(request.get_header("accept"), None);
}

#[test]
fn new_response_head_is_ok_and_bare() {
    let mut head = ResponseHead::new();
    assert_eq!(head.status(), 200);
    assert_eq!(head.header_count(), 0);
    assert_eq!(head.buffering(), Buffering::On(65536));
    assert!(head.set_buffering(false));
    assert!(!head.headers_sent());
}

#[test]
fn set_header_replaces_fields_of_the_same_name() {
    let mut head = ResponseHead::new();
    head.set_header("A", String::from("1"));
    head.set_header("B", String::from("2"));
    head.set_header("A", String::from("3"));
    assert_eq!(fields(&head), vec![pair("B", "2"), pair("A", "3")]);
    head.set_header("a", String::from("4"));
    assert_eq!(fields(&head), vec![pair("B", "2"), pair("A", "3"), pair("a", "4")]);
    head.set_status(404);
    assert_eq!(head.status(), 404);
    assert_eq!(head.header_count(), 3);
}

#[test]
fn redirect_sets_status_and_location() {
    let mut head = ResponseHead::new();
    head.set_header("Location", String::from("/old"));
    head.set_header("X", String::from("y"));
    head.redirect("https://example.org/new");
    assert_eq!(MOVED_PERMANENTLY, 301);
    assert_eq!(head.status(), 301);
    assert_eq!(fields(&head), vec![pair("X", "y"), pair("Location", "https://example.org/new")]);
}

#[test]
fn download_sets_three_fields() {
    let mut head = ResponseHead::new();
    head.set_status(201);
    head.set_header("Content-Type", String::from("text/html"));
    head.download("report.pdf");
    assert_eq!(head.status(), 201);
    assert_eq!(
        fields(&head),
        vec![
            pair("Content-Type", "application/octet-stream"),
            pair("Content-Transfer-Encoding", "binary"),
            pair("Content-Disposition", "attachment; filename=\"report.pdf\""),
        ]
    );
}

#[test]
fn app_root_is_scheme_host_and_context_path() {
    assert_eq!(get_app_root(true, Some("example.org"), "shop"), "https://example.org/shop");
    assert_eq!(get_app_root(false, Some("example.org"), "shop"), "http://example.org/shop");
    assert_eq!(get_app_root(false, None, ""), "http://localhost/");
    assert_eq!(get_app_root(true, None, "a/b"), "https://localhost/a/b");
}

struct Secure;

impl Request for Secure {
    fn method(&self) -> String {
        String::from("GET")
    }

    fn uri(&self) -> String {
        String::from("/")
    }

    fn protocol(&self) -> String {
        String::from("HTTP/2")
    }

    fn headers(&self) -> &[(&str, &str)] {
        &[]
    }

    fn is_secure(&self) -> bool {
        true
    }
}

#[test]
fn app_root_of_a_request_follows_its_security() {
    let plain = Plain { fields: Vec::new() };
    assert_eq!(RequestExt::get_app_root(&plain, Some("example.org"), "shop"), "http://example.org/shop");
    assert_eq!(RequestExt::get_app_root(&plain, None, ""), "http://localhost/");
    assert_eq!(RequestExt::get_app_root(&Secure, Some("example.org"), "shop"), "https://example.org/shop");
    assert_eq!(Secure.get_header("anything"), None);
}

#[test]
fn download_twice_keeps_one_field_of_each_name() {
    let mut head = ResponseHead::new();
    head.download("a.bin");
    head.download("b.bin");
    assert_eq!(
        fields(&head),
        vec![
            pair("Content-Type", "application/octet-stream"),
            pair("Content-Transfer-Encoding", "binary"),
            pair("Content-Disposition", "attachment; filename=\"b.bin\""),
        ]
    );
}

#[test]
fn query_string_follows_the_first_question_mark() {
    assert_eq!(query_string("/page?x=1&y=2"), Some(String::from("x=1&y=2")));
    assert_eq!(query_string("/page?a?b"), Some(String::from("a?b")));
    assert_eq!(query_string("/page?"), Some(String::new()));
    assert_eq!(query_string("?"), Some(String::new()));
    assert_eq!(query_string("/page"), None);
    assert_eq!(query_string(""), None);
    assert_eq!(query_string("/caf\u{e9}?q=\u{fc}"), Some(String::from("q=\u{fc}")));
}

#[test]
fn request_line_defaults() {
    assert_eq!(uri(None), "/");
    assert_eq!(uri(Some(String::from("/a?b"))), "/a?b");
    assert_eq!(method(None), "GET");
    assert_eq!(method(Some(String::from("post"))), "post");
}

#[test]
fn secure_scheme_is_https_in_any_case() {
    assert!(is_secure(Some("https")));
    assert!(is_secure(Some("HTTPS")));
    assert!(is_secure(Some("Https")));
    assert!(!is_secure(Some("http")));
    assert!(!is_secure(Some("")));
    assert!(!is_secure(None));
    assert!(is_https(&String::from("https")));
    assert!(!is_https(&String::from("HTTPS")));
}

#[test]
fn port_reads_decimal_digits() {
    assert_eq!(port("80"), Some(80));
    assert_eq!(port("0"), Some(0));
    assert_eq!(port("65535"), Some(65535));
    assert_eq!(port("+443"), Some(443));
    assert_eq!(port("00080"), Some(80));
    assert_eq!(port("0000000000000000065535"), Some(65535));
}

#[test]
fn port_refuses_what_is_no_sixteen_bit_number() {
    assert_eq!(port(""), None);
    assert_eq!(port("+"), None);
    assert_eq!(port("65536"), None);
    assert_eq!(port("99999999999999999999"), None);
    assert_eq!(port("-1"), None);
    assert_eq!(port("++1"), None);
    assert_eq!(port("8 0"), None);
    assert_eq!(port(" 80"), None);
    assert_eq!(port("80 "), None);
    assert_eq!(port("8o"), None);
    assert_eq!(port("1+"), None);
    assert_eq!(port("\u{663}"), None);
    assert_eq!(port("70000x"), None);
}

#[test]
fn port_agrees_with_the_standard_parser() {
    let samples = [
        "", "+", "-", "0", "+0", "-0", "1", "9", "10", "080", "443", "8080", "65535", "65536",
        "65540", "99999", "100000", "+65535", "+65536", "12a", "a12", "1 2", "\u{ff11}", "٣",
        "4294967296", "18446744073709551616", "0x50", "1e3", "1_000",
    ];
    for text in samples {
        assert_eq!(port(text), text.parse::<u16>().ok(), "{:?}", text);
    }
}

#[test]
fn endpoint_needs_an_address_and_a_port_number() {
    let end = endpoint(Some(String::from("127.0.0.1")), Some("9000")).unwrap();
    assert_eq!(end.host, "127.0.0.1");
    assert_eq!(end.port, 9000);
    assert!(endpoint(None, Some("9000")).is_none());
    assert!(endpoint(Some(String::from("127.0.0.1")), None).is_none());
    assert!(endpoint(Some(String::from("127.0.0.1")), Some("http")).is_none());
    assert!(endpoint(Some(String::from("127.0.0.1")), Some("70000")).is_none());
}

#[test]
fn gateway_context_is_read_from_the_parameters() {
    let context = Context::from_params(
        Some(String::from("10.0.0.7")),
        Some("51234"),
        Some(String::from("10.0.0.1")),
        Some("80"),
        Some(String::from("example.org")),
        Some("/search?q=rust&page=2"),
    )
    .unwrap();
    assert_eq!(context.remote.host, "10.0.0.7");
    assert_eq!(context.remote.port, 51234);
    assert_eq!(context.server.host, "10.0.0.1");
    assert_eq!(context.server.port, 80);
    assert_eq!(context.server_name, "example.org");
    assert_eq!(context.query_string, Some(String::from("q=rust&page=2")));
}

#[test]
fn gateway_context_defaults() {
    let context = Context::from_params(
        Some(String::from("::1")),
        Some("1"),
        Some(String::from("::1")),
        Some("65535"),
        None,
        None,
    )
    .unwrap();
    assert_eq!(context.server_name, "");
    assert_eq!(context.query_string, None);
    assert_eq!(context.server.port, 65535);
    let plain = Context::from_params(
        Some(String::from("h")),
        Some("1"),
        Some(String::from("h")),
        Some("2"),
        None,
        Some("/page"),
    )
    .unwrap();
    assert_eq!(plain.query_string, None);
}

#[test]
fn gateway_context_needs_both_ends() {
    let host = || Some(String::from("h"));
    assert!(Context::from_params(None, Some("1"), host(), Some("2"), None, None).is_none());
    assert!(Context::from_params(host(), None, host(), Some("2"), None, None).is_none());
    assert!(Context::from_params(host(), Some("1"), None, Some("2"), None, None).is_none());
    assert!(Context::from_params(host(), Some("1"), host(), None, None, None).is_none());
    assert!(Context::from_params(host(), Some("x"), host(), Some("2"), None, None).is_none());
    assert!(Context::from_params(host(), Some("1"), host(), Some("65536"), None, None).is_none());
}
