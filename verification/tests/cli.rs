use gnosis_vpn::cli::maxhop;
use gnosis_vpn::cli::valid_listen_host;

#[test]
fn test_valid_listen_host() {
    assert!(valid_listen_host(&Some("0.0.0.0:60006".to_string())));
    assert!(valid_listen_host(&Some(":60006".to_string())));
    assert!(valid_listen_host(&Some("0.0.0.0".to_string())));
    assert!(valid_listen_host(&Some("localhost:0".to_string())));
    assert!(!valid_listen_host(&Some("".to_string())));
    assert!(!valid_listen_host(&Some("localhost:".to_string())));
    assert!(!valid_listen_host(&Some("localhost:abc".to_string())));
    assert!(!valid_listen_host(&Some("localhost:65536".to_string())));
    assert!(!valid_listen_host(&Some("localhost:-1".to_string())));
}

#[test]
fn listen_host_may_be_left_out() {
    assert!(valid_listen_host(&None));
}

#[test]
fn listen_host_with_two_colons_is_refused() {
    assert!(!valid_listen_host(&Some("localhost:80:80".to_string())));
    assert!(!valid_listen_host(&Some("::".to_string())));
}

#[test]
fn listen_host_port_limits() {
    assert!(valid_listen_host(&Some("localhost:65535".to_string())));
    assert!(valid_listen_host(&Some("localhost:+80".to_string())));
    assert!(valid_listen_host(&Some("localhost:00080".to_string())));
    assert!(!valid_listen_host(&Some("localhost:99999999999999999999".to_string())));
    assert!(!valid_listen_host(&Some("localhost:8 0".to_string())));
}

#[test]
fn at_most_three_hops() {
    assert!(maxhop(&None));
    assert!(maxhop(&Some(0)));
    assert!(maxhop(&Some(3)));
    assert!(!maxhop(&Some(4)));
    assert!(!maxhop(&Some(255)));
}
