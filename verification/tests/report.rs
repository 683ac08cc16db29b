use gnosis_vpn::config;
use gnosis_vpn::config::SessionPathConfig;
use gnosis_vpn::engine::Issue;
use gnosis_vpn::engine::Status;
use gnosis_vpn::entry_node::Addresses;
use gnosis_vpn::entry_node::EntryNode;
use gnosis_vpn::exit_node::ExitNode;
use gnosis_vpn::peer_id::PeerId;
use gnosis_vpn::remote_data::CustomError;
use gnosis_vpn::remote_data::RemoteData;
use gnosis_vpn::report::print_entry_node;
use gnosis_vpn::report::print_error;
use gnosis_vpn::report::print_exit_node;
use gnosis_vpn::report::print_issue;
use gnosis_vpn::report::print_issues;
use gnosis_vpn::report::print_path;
use gnosis_vpn::report::print_slot;
use gnosis_vpn::report::print_status;
use gnosis_vpn::state;
use gnosis_vpn::wireguard;

const PEER: &str = "12D3KooWRNw2pJC9748Fmq4WNV27HoSTcX3r37132FLkQMrbKAiC";
const RELAY: &str = "QmYyQSo1c1Ym7orWxLYvCrM2EmxFTANf8wXmmE7DWjhx5N";
const SECOND: u64 = 1_000_000_000;

#[test]
fn the_status_is_told_with_the_time_since() {
    assert_eq!(print_status(&Status::Idle, 9 * SECOND), "idle");
    assert_eq!(
        print_status(&Status::OpeningSession { start_time: SECOND }, 3 * SECOND),
        "opening session since 2s"
    );
    assert_eq!(
        print_status(&Status::MonitoringSession { start_time: SECOND, cancel: 4 }, 3 * SECOND + 5),
        "monitoring session since 2s "
    );
    assert_eq!(
        print_status(&Status::ClosingSession { start_time: 0 }, 3_725 * SECOND),
        "closing session since 1h 2m "
    );
}

#[test]
fn a_path_is_told() {
    assert_eq!(print_path(&SessionPathConfig::Hop(2)), "hop: 2");
    let one = PeerId::from_base58(PEER).unwrap();
    let other = PeerId::from_base58(RELAY).unwrap();
    assert_eq!(
        print_path(&SessionPathConfig::Intermediates(vec![one.clone()])),
        format!("intermediate_id: {PEER}")
    );
    assert_eq!(
        print_path(&SessionPathConfig::Intermediates(vec![one, other])),
        format!("intermediate_id: {PEER}, {RELAY}")
    );
}

#[test]
fn an_entry_node_is_told_with_its_token_masked() {
    let mut entry = EntryNode::new("http://e:1/", "secret", None, SessionPathConfig::Hop(1));
    assert_eq!(
        print_entry_node(&entry),
        "{\"endpoint\":\"http://e:1/\",\"api_token\":\"*****\",\"path\":\"hop: 1\"}"
    );
    entry.listen_host = Some(":60006".to_string());
    entry.addresses = Some(Addresses { hopr: "H".to_string(), native: "N".to_string() });
    let told = print_entry_node(&entry);
    assert!(!told.contains("secret"));
    assert!(told.contains("\"listen_host\":\":60006\""), "{told}");
    assert!(told.contains("\"addresses\":\"{\\\"hopr\\\":\\\"H\\\",\\\"native\\\":\\\"N\\\"}\""), "{told}");
}

#[test]
fn an_exit_node_is_told() {
    let exit = ExitNode { peer_id: PeerId::from_base58(PEER).unwrap() };
    assert_eq!(print_exit_node(&exit), format!("{{\"peer_id\":\"{PEER}\"}}"));
}

#[test]
fn the_failure_of_a_call_is_told() {
    let error = CustomError { reqw_err: None, status: Some(500), value: Some("{}".to_string()) };
    assert_eq!(print_error(&error), "CustomError: reqw_err: none, status: 500, value: {}");
    let error = CustomError { reqw_err: Some("timeout".to_string()), status: None, value: None };
    assert_eq!(print_error(&error), "CustomError: reqw_err: timeout, status: none, value: none");
}

#[test]
fn a_slot_is_told() {
    let error = CustomError { reqw_err: Some("e".to_string()), status: None, value: None };
    assert_eq!(print_slot(&RemoteData::NotAsked, 0), "NotAsked");
    assert_eq!(print_slot(&RemoteData::Success, 0), "Success");
    assert_eq!(
        print_slot(&RemoteData::Fetching { started_at: SECOND, backoffs: vec![1] }, 4 * SECOND),
        "Fetching since 3s"
    );
    assert_eq!(
        print_slot(
            &RemoteData::RetryFetching { error: error.clone(), backoffs: vec![2, 1], cancel: 0 },
            0
        ),
        "RetryFetching error: CustomError: reqw_err: e, status: none, value: none, backoffs: 2"
    );
    assert_eq!(
        print_slot(&RemoteData::Failure { error }, 0),
        "Failure: CustomError: reqw_err: e, status: none, value: none"
    );
}

#[test]
fn issues_are_told() {
    let issues = vec![
        Issue::Config(config::Error::NoFile),
        Issue::WireGuardInit(wireguard::Error::IO("a".to_string())),
        Issue::State(state::Error::NoFile),
        Issue::WireGuard(wireguard::Error::WgError("b".to_string())),
    ];
    assert_eq!(print_issue(&issues[0]), "config file issue: Config file not found");
    assert_eq!(print_issue(&issues[1]), "wireguard initialization issue: IO error: a");
    assert_eq!(print_issue(&issues[2]), "storage issue: state file not found");
    assert_eq!(print_issue(&issues[3]), "wireguard issue: wireguard error: b");
    assert_eq!(
        print_issues(&issues),
        "config file issue: Config file not found | wireguard initialization issue: IO error: a | storage issue: state file not found | wireguard issue: wireguard error: b"
    );
    assert_eq!(print_issues(&vec![]), "");
}
