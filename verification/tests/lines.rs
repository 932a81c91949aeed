use traceroute::report::{HopResult, Line, ResponderIdentity};

fn visible(ttl: u32, name: &str, address: &str) -> Line {
    Line::Hop {
        ttl,
        result: HopResult::Visible(ResponderIdentity {
            name: name.to_string(),
            address: address.to_string(),
        }),
    }
}

#[test]
fn visible_hop_shows_ttl_name_and_address() {
    assert_eq!(
        visible(1, "gateway.example", "192.0.2.1").render(),
        "1 gateway.example (192.0.2.1)"
    );
    assert_eq!(
        visible(12, "core7.example", "2001:db8::7").render(),
        "12 core7.example (2001:db8::7)"
    );
    assert_eq!(visible(30, "a", "b").render(), "30 a (b)");
    assert_eq!(visible(255, "", "").render(), "255  ()");
    assert_eq!(
        visible(4294967295, "far.example", "198.51.100.9").render(),
        "4294967295 far.example (198.51.100.9)"
    );
}

#[test]
fn unreachable_hop_shows_three_stars() {
    for ttl in [1u32, 6, 30, 4294967295] {
        assert_eq!(Line::Hop { ttl, result: HopResult::Unreachable }.render(), "* * *");
    }
}

#[test]
fn diagnostic_shows_the_detail() {
    assert_eq!(
        Line::Diagnostic { detail: "connection refused".to_string() }.render(),
        "Something went wrong: connection refused"
    );
    assert_eq!(Line::Diagnostic { detail: String::new() }.render(), "Something went wrong: ");
}

#[test]
fn heading_names_the_host() {
    assert_eq!(
        Line::Heading { hostname: "example.org".to_string() }.render(),
        "Tracing route to: example.org"
    );
}

#[test]
fn only_hop_lines_are_outcomes() {
    assert!(visible(3, "a", "b").is_hop());
    assert!(Line::Hop { ttl: 3, result: HopResult::Unreachable }.is_hop());
    assert!(!Line::Diagnostic { detail: "x".to_string() }.is_hop());
    assert!(!Line::Heading { hostname: "x".to_string() }.is_hop());
}

#[test]
fn found_name_is_shown_beside_the_address() {
    let identity =
        ResponderIdentity::of("192.0.2.7".to_string(), Some("seven.example".to_string()));
    assert_eq!(identity.name, "seven.example");
    assert_eq!(identity.address, "192.0.2.7");
}

#[test]
fn failed_lookup_falls_back_to_the_address() {
    let identity = ResponderIdentity::of("192.0.2.7".to_string(), None);
    assert_eq!(identity.name, "192.0.2.7");
    assert_eq!(identity.address, "192.0.2.7");
    let line = Line::Hop { ttl: 4, result: HopResult::Visible(identity) };
    assert_eq!(line.render(), "4 192.0.2.7 (192.0.2.7)");
}
