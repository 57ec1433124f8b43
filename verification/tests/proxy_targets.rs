use af_cli::proxy::{host_bypass, IpAddress};
use af_cli::proxy::{should_bypass_proxy, ProxyMode};

#[test]
fn bypasses_local_and_private_targets() {
    assert!(should_bypass_proxy("http://127.0.0.1:8081/health"));
    assert!(should_bypass_proxy("http://localhost:8081/health"));
    assert!(should_bypass_proxy("http://192.168.50.214:9998/health"));
}

#[test]
fn does_not_bypass_public_targets() {
    assert!(!should_bypass_proxy("http://8.8.8.8:80/health"));
    assert!(!should_bypass_proxy("https://example.com/health"));
}

#[test]
fn localhost_is_matched_in_any_ascii_case() {
    assert!(should_bypass_proxy("http://LocalHost:8081/"));
    assert!(!should_bypass_proxy("http://localhost.example.com/"));
}

#[test]
fn private_ranges_and_their_edges() {
    assert!(should_bypass_proxy("http://10.1.2.3/"));
    assert!(should_bypass_proxy("http://172.16.0.1/"));
    assert!(should_bypass_proxy("http://172.31.255.255/"));
    assert!(!should_bypass_proxy("http://172.32.0.1/"));
    assert!(!should_bypass_proxy("http://172.15.0.1/"));
    assert!(should_bypass_proxy("http://169.254.1.1/"));
    assert!(!should_bypass_proxy("http://169.253.1.1/"));
}

#[test]
fn bracketed_ipv6_hosts_are_not_addresses() {
    // the URL host of an IPv6 target keeps its brackets, which no IP parser accepts
    assert!(!should_bypass_proxy("http://[::1]:8081/"));
}

#[test]
fn unparsable_urls_do_not_bypass() {
    assert!(!should_bypass_proxy("not a url"));
    assert!(!should_bypass_proxy(""));
}

#[test]
fn proxy_mode_names() {
    assert_eq!(ProxyMode::System.as_str(), "system");
    assert_eq!(ProxyMode::Direct.as_str(), "direct");
    assert_eq!(ProxyMode::Auto.as_str(), "auto");
}

#[test]
fn host_test_on_given_hosts_and_addresses() {
    assert!(host_bypass("LOCALHOST", &None));
    assert!(host_bypass("10.0.0.7", &Some(IpAddress::V4(10, 0, 0, 7))));
    assert!(!host_bypass("8.8.4.4", &Some(IpAddress::V4(8, 8, 4, 4))));
    assert!(host_bypass("::1", &Some(IpAddress::V6(0, 0, 0, 0, 0, 0, 0, 1))));
    assert!(host_bypass("fd00::1", &Some(IpAddress::V6(0xfd00, 0, 0, 0, 0, 0, 0, 1))));
    assert!(host_bypass("fe80::1", &Some(IpAddress::V6(0xfe80, 0, 0, 0, 0, 0, 0, 1))));
    assert!(!host_bypass("2001:db8::1", &Some(IpAddress::V6(0x2001, 0xdb8, 0, 0, 0, 0, 0, 1))));
    assert!(!host_bypass("example.com", &None));
}
