use doco::browser::{browser_capabilities, parse_server_base_url, server_base_url, webdriver_endpoint};
use doco::text::decimal_string;
use thirtyfour::CapabilitiesHelper;

#[test]
fn headless_capabilities_carry_headless_argument() {
    let mut caps = browser_capabilities(true);

    assert!(caps.is_headless());
}

#[test]
fn headed_capabilities_carry_no_argument() {
    let mut caps = browser_capabilities(false);

    assert!(!caps.is_headless());
    assert_eq!(caps.get("browserName").and_then(|v| v.as_str()), Some("firefox"));
}

#[test]
fn endpoint_joins_host_and_port() {
    assert_eq!(webdriver_endpoint("localhost", 32768), "http://localhost:32768");
    assert_eq!(webdriver_endpoint("127.0.0.1", 4444), "http://127.0.0.1:4444");
}

#[test]
fn base_url_points_at_docker_host() {
    assert_eq!(server_base_url(32789), "http://host.docker.internal:32789");
    assert_eq!(server_base_url(0), "http://host.docker.internal:0");
    assert_eq!(server_base_url(u16::MAX), "http://host.docker.internal:65535");
}

#[test]
fn decimal_matches_display() {
    for n in [0u32, 7, 9, 10, 99, 100, 4444, 65535, 1_000_000, u32::MAX] {
        assert_eq!(decimal_string(n), n.to_string());
    }
}

#[test]
fn different_ports_give_different_endpoints() {
    assert_ne!(webdriver_endpoint("localhost", 4444), webdriver_endpoint("localhost", 44440));
    assert_ne!(server_base_url(80), server_base_url(8));
}

#[test]
fn parsed_base_url_serialises_with_root_path() {
    let url = parse_server_base_url(32789).expect("base URL parses");
    assert_eq!(url.as_str(), "http://host.docker.internal:32789/");
    assert_eq!(url.port(), Some(32789));
    let default_port = parse_server_base_url(80).expect("base URL parses");
    assert_eq!(default_port.as_str(), "http://host.docker.internal/");
}
