use scanopy::net::{is_private_ip, IpAddress};
use scanopy::reach::{
    check_resolved, check_test_addresses, insecure_daemon_url, connection_failure, guard_target, health_url,
    reachability_target, reachable_response, ConnectOutcome, DeploymentType,
};

fn v4(a: u8, b: u8, c: u8, d: u8) -> IpAddress {
    IpAddress::V4(a, b, c, d)
}

#[allow(clippy::too_many_arguments)]
fn v6(a: u16, b: u16, c: u16, d: u16, e: u16, f: u16, g: u16, h: u16) -> IpAddress {
    IpAddress::V6(a, b, c, d, e, f, g, h)
}

#[test]
fn blocks_internal_ranges() {
    let blocked = [
        v4(127, 0, 0, 1),                          // loopback
        v4(10, 1, 2, 3),                           // RFC1918 /8
        v4(172, 16, 5, 9),                         // RFC1918 /12
        v4(192, 168, 1, 1),                        // RFC1918 /16
        v4(169, 254, 169, 254),                    // link-local / cloud metadata endpoint
        v4(0, 0, 0, 0),                            // unspecified
        v4(255, 255, 255, 255),                    // broadcast
        v4(100, 64, 0, 1),                         // CGNAT / shared 100.64.0.0/10
        v4(100, 127, 255, 254),                    // CGNAT upper edge
        v6(0, 0, 0, 0, 0, 0, 0, 1),                // ::1
        v6(0, 0, 0, 0, 0, 0, 0, 0),                // ::
        v6(0xfc00, 0, 0, 0, 0, 0, 0, 1),           // fc00::1
        v6(0xfd12, 0x3456, 0, 0, 0, 0, 0, 1),      // fd12:3456::1
        v6(0xfe80, 0, 0, 0, 0, 0, 0, 1),           // fe80::1
        v6(0, 0, 0, 0, 0, 0xffff, 0x0a00, 0x0001), // ::ffff:10.0.0.1
        v6(0, 0, 0, 0, 0, 0xffff, 0xa9fe, 0xa9fe), // ::ffff:169.254.169.254
    ];
    for a in blocked {
        assert!(is_private_ip(&a), "{} should be classified private", a.to_text());
    }
}

#[test]
fn allows_public_addresses() {
    let allowed = [
        v4(8, 8, 8, 8),
        v4(1, 1, 1, 1),
        v4(93, 184, 216, 34),
        v4(100, 63, 255, 255),                              // just below CGNAT
        v4(100, 128, 0, 0),                                 // just above CGNAT
        v6(0x2606, 0x4700, 0x4700, 0, 0, 0, 0, 0x1111), // 2606:4700:4700::1111
    ];
    for a in allowed {
        assert!(!is_private_ip(&a), "{} should be classified public", a.to_text());
    }
}

#[test]
fn address_text_follows_the_standard_notation() {
    assert_eq!(v4(10, 0, 0, 1).to_text(), "10.0.0.1");
    assert_eq!(v6(0, 0, 0, 0, 0, 0, 0, 1).to_text(), "::1");
    assert_eq!(v6(0, 0, 0, 0, 0, 0, 0, 0).to_text(), "::");
    assert_eq!(v6(0xfd12, 0x3456, 0, 0, 0, 0, 0, 1).to_text(), "fd12:3456::1");
    assert_eq!(v6(0x2606, 0x4700, 0x4700, 0, 0, 0, 0, 0x1111).to_text(), "2606:4700:4700::1111");
    assert_eq!(v6(0, 0, 0, 0, 0, 0xffff, 0x0a00, 0x0001).to_text(), "::ffff:10.0.0.1");
    assert_eq!(v6(1, 0, 2, 0, 0, 3, 0, 4).to_text(), "1:0:2::3:0:4");
}

#[test]
fn mapped_addresses_fold_to_v4() {
    let mapped = v6(0, 0, 0, 0, 0, 0xffff, 0x7f00, 0x0001);
    assert_eq!(mapped.to_canonical(), v4(127, 0, 0, 1));
    assert!(!mapped.is_loopback());
    assert!(mapped.to_canonical().is_loopback());
    assert_eq!(v4(8, 8, 8, 8).to_canonical(), v4(8, 8, 8, 8));
}

#[test]
fn guard_is_noop_for_self_hosted() {
    assert!(matches!(guard_target("http://192.168.1.50:8080", DeploymentType::SelfHosted), Ok(None)));
}

#[test]
fn guard_blocks_private_literal_in_cloud() {
    let (host, port) = guard_target("http://127.0.0.1:8080", DeploymentType::Cloud).unwrap().unwrap();
    assert_eq!(host, "127.0.0.1");
    assert_eq!(port, 8080);
    let e = check_resolved(&vec![v4(127, 0, 0, 1)]).unwrap_err();
    assert_eq!(e.message, "Daemon URL resolves to a private/internal address (blocked in cloud mode)");

    let (host, port) =
        guard_target("http://169.254.169.254/latest/meta-data", DeploymentType::Cloud).unwrap().unwrap();
    assert_eq!(host, "169.254.169.254");
    assert_eq!(port, 80);
    assert!(check_resolved(&vec![v4(169, 254, 169, 254)]).is_err());
}

#[test]
fn guard_allows_public_literal_in_cloud() {
    let (host, port) = guard_target("http://8.8.8.8:443", DeploymentType::Cloud).unwrap().unwrap();
    assert_eq!(host, "8.8.8.8");
    assert_eq!(port, 443);
    assert!(check_resolved(&vec![v4(8, 8, 8, 8)]).is_ok());
}

#[test]
fn guard_refuses_unparsable_urls_in_cloud() {
    let e = guard_target("not a url", DeploymentType::Cloud).unwrap_err();
    assert_eq!(e.message, "Invalid daemon URL");
    let e = guard_target("unix:/run/daemon.sock", DeploymentType::Cloud).unwrap_err();
    assert_eq!(e.message, "Daemon URL has no host");
    assert!(check_resolved(&vec![v4(8, 8, 8, 8), v4(10, 0, 0, 1)]).is_err());
}

#[test]
fn guard_uses_the_scheme_default_port() {
    let (host, port) = guard_target("https://daemon.example/x", DeploymentType::Cloud).unwrap().unwrap();
    assert_eq!(host, "daemon.example");
    assert_eq!(port, 443);
    let (_, port) = guard_target("https://daemon.example:60073/x", DeploymentType::Cloud).unwrap().unwrap();
    assert_eq!(port, 60073);
}

#[test]
fn reachability_targets() {
    assert_eq!(reachability_target("https://d.example").unwrap(), ("d.example".to_string(), 443));
    assert_eq!(reachability_target("http://d.example").unwrap(), ("d.example".to_string(), 80));
    assert_eq!(reachability_target("http://d.example:9").unwrap(), ("d.example".to_string(), 9));
    assert_eq!(reachability_target("::nope").unwrap_err(), "Invalid URL format");
}

#[test]
fn test_address_checks() {
    assert_eq!(check_test_addresses(&vec![], "h", DeploymentType::Cloud).unwrap_err(), "Could not resolve host: h");
    assert_eq!(
        check_test_addresses(&vec![v4(10, 0, 0, 1)], "h", DeploymentType::Cloud).unwrap_err(),
        "Cannot test reachability to private/loopback addresses"
    );
    assert!(check_test_addresses(&vec![v4(10, 0, 0, 1)], "h", DeploymentType::SelfHosted).is_ok());
}

#[test]
fn connection_failure_messages() {
    assert!(connection_failure(&ConnectOutcome::Connected, "h", 1).is_none());
    let r = connection_failure(&ConnectOutcome::Refused, "h", 8080).unwrap();
    assert!(!r.reachable);
    assert_eq!(r.error.as_deref(), Some("Connection refused — no service is listening on port 8080 at h"));
    let r = connection_failure(&ConnectOutcome::Deadline, "h", 22).unwrap();
    assert_eq!(r.error.as_deref(), Some("Connection timed out after 5 seconds — could not reach h:22"));
    let ok = reachable_response(Some(true));
    assert!(ok.reachable && ok.error.is_none() && ok.health == Some(true));
}

#[test]
fn health_probe_is_the_url_followed_by_health() {
    assert_eq!(health_url("http://d:1"), "http://d:1/health");
    assert_eq!(health_url("https://daemon.example.com:60073"), "https://daemon.example.com:60073/health");
}

#[test]
fn plaintext_daemon_urls_are_flagged() {
    assert!(insecure_daemon_url("http://daemon.corp:60073"));
    assert!(!insecure_daemon_url("https://daemon.corp:60073"));
    assert!(!insecure_daemon_url("http://localhost:60073"));
    assert!(!insecure_daemon_url("http://127.0.0.1:60073"));
    assert!(!insecure_daemon_url("not a url"));
}
