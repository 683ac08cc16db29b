use gnosis_vpn::config;
use gnosis_vpn::config::default_session_target_host;
use gnosis_vpn::config::default_session_target_port;
use gnosis_vpn::config::read;
use gnosis_vpn::config::Config;
use gnosis_vpn::config::Error;
use gnosis_vpn::config::SessionCapabilitiesConfig;
use gnosis_vpn::config::SessionPathConfig;
use gnosis_vpn::config::SessionTargetConfig;
use gnosis_vpn::config::SessionTargetType;
use gnosis_vpn::config::WireGuardConfig;
use gnosis_vpn::peer_id::PeerId;
use gnosis_vpn::state;
use gnosis_vpn::state::State;

fn versioned(version: u8) -> Config {
    Config { version, entry_node: None, connection: None, wireguard: None }
}

#[test]
fn what_stands_where_nothing_is_given() {
    assert_eq!(Config::default(), versioned(1));
    assert!(Config::default().is_default());
    assert_eq!(SessionPathConfig::default(), SessionPathConfig::Hop(1));
    assert_eq!(
        SessionTargetConfig::default(),
        SessionTargetConfig {
            type_: Some(SessionTargetType::Plain),
            host: Some("wg-server".to_string()),
            port: Some(51820),
        }
    );
    assert_eq!(default_session_target_host(), "wg-server");
    assert_eq!(default_session_target_port(), 51820);
}

#[test]
fn a_configuration_with_anything_in_it_is_not_the_default() {
    assert!(!versioned(2).is_default());
    let mut config = Config::default();
    config.wireguard = Some(WireGuardConfig {
        address: "10.0.0.1".to_string(),
        server_public_key: "k".to_string(),
        allowed_ips: None,
        preshared_key: None,
        private_key: None,
    });
    assert!(!config.is_default());
}

#[test]
fn a_configuration_that_may_be_taken() {
    assert!(Config::default().is_valid());
    assert!(!versioned(2).is_valid());
    let connection = |listen_host: Option<&str>, path: Option<SessionPathConfig>| Config {
        version: 1,
        entry_node: None,
        connection: Some(config::SessionConfig {
            capabilities: None,
            destination: PeerId::from_base58("12D3KooWExit").unwrap(),
            listen_host: listen_host.map(|host| host.to_string()),
            path,
            target: None,
        }),
        wireguard: None,
    };
    assert!(connection(None, None).is_valid());
    assert!(connection(Some(":60006"), Some(SessionPathConfig::Hop(3))).is_valid());
    assert!(connection(Some("0.0.0.0"), Some(SessionPathConfig::Intermediates(vec![]))).is_valid());
    assert!(!connection(Some("localhost:65536"), None).is_valid());
    assert!(!connection(None, Some(SessionPathConfig::Hop(4))).is_valid());
    assert_eq!(
        read(Ok(connection(Some("localhost:65536"), None))),
        Err(Error::InvalidConnection)
    );
    assert_eq!(read(Ok(connection(None, Some(SessionPathConfig::Hop(4))))), Err(Error::InvalidConnection));
    let taken = connection(Some("localhost:65535"), Some(SessionPathConfig::Hop(0)));
    assert_eq!(read(Ok(taken.clone())), Ok(taken));
}

#[test]
fn only_version_one_is_understood() {
    assert_eq!(read(Ok(versioned(1))), Ok(versioned(1)));
    assert_eq!(read(Ok(versioned(0))), Err(Error::VersionMismatch(0)));
    assert_eq!(read(Ok(versioned(2))), Err(Error::VersionMismatch(2)));
}

#[test]
fn a_failure_to_read_stays_what_it_was() {
    assert_eq!(read(Err(Error::NoFile)), Err(Error::NoFile));
    assert_eq!(read(Err(Error::IO("x".to_string()))), Err(Error::IO("x".to_string())));
    assert_eq!(
        read(Err(Error::Deserialization("x".to_string()))),
        Err(Error::Deserialization("x".to_string()))
    );
}

#[test]
fn the_messages_of_the_errors() {
    assert_eq!(Error::NoFile.to_string(), "Config file not found");
    assert_eq!(Error::IO("x".to_string()).to_string(), "IO error: x");
    assert_eq!(Error::Deserialization("x".to_string()).to_string(), "Deserialization error: x");
    assert_eq!(Error::VersionMismatch(9).to_string(), "Unsupported config version");
    assert_eq!(Error::InvalidConnection.to_string(), "Invalid listen host or hop count");
    assert_eq!(state::Error::NoStateFolder.to_string(), "state folder error");
    assert_eq!(state::Error::NoFile.to_string(), "state file not found");
    assert_eq!(state::Error::NoParentFolder.to_string(), "error determining parent folder");
    assert_eq!(state::Error::IO("x".to_string()).to_string(), "IO error: x");
    assert_eq!(
        state::Error::BinCodeError("x".to_string()).to_string(),
        "error serializing/deserializing state: x"
    );
}

#[test]
fn the_names_that_are_sent() {
    assert_eq!(SessionTargetType::Plain.to_string(), "Plain");
    assert_eq!(SessionTargetType::Sealed.to_string(), "Sealed");
    assert_eq!(SessionCapabilitiesConfig::Segmentation.to_string(), "Segmentation");
    assert_eq!(SessionCapabilitiesConfig::Retransmission.to_string(), "Retransmission");
}

#[test]
fn a_path_is_copied() {
    let relay = PeerId::from_base58("QmYyQSo1c1Ym7orWxLYvCrM2EmxFTANf8wXmmE7DWjhx5N").unwrap();
    for path in [SessionPathConfig::Hop(3), SessionPathConfig::Intermediates(vec![relay])] {
        assert_eq!(path.duplicate(), path);
    }
}

#[test]
fn the_configuration_is_found_at_its_default_place() {
    assert_eq!(config::path(None), "/etc/gnosisvpn/config.toml");
    assert_eq!(config::path(Some("/tmp/c.toml".to_string())), "/tmp/c.toml");
}

#[test]
fn the_kept_state_takes_a_key() {
    let mut state = State::default();
    assert_eq!(state, State { wg_private_key: None });
    state.set_wg_private_key("k".to_string());
    assert_eq!(state, State { wg_private_key: Some("k".to_string()) });
    assert_eq!(state.duplicate(), state);
}
