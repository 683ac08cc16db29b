use gnosis_vpn::cli;
use gnosis_vpn::cli::as_internal_cmd;
use gnosis_vpn::command::choose_path;
use gnosis_vpn::command::Command;
use gnosis_vpn::config::SessionPathConfig;
use gnosis_vpn::json::Json;
use gnosis_vpn::peer_id::PeerId;
use gnosis_vpn::socket;
use gnosis_vpn::socket::awaits_response;
use gnosis_vpn::socket::process_cmd;
use gnosis_vpn::socket::ReturnValue;

const PEER: &str = "12D3KooWRNw2pJC9748Fmq4WNV27HoSTcX3r37132FLkQMrbKAiC";
const RELAY: &str = "QmYyQSo1c1Ym7orWxLYvCrM2EmxFTANf8wXmmE7DWjhx5N";

fn object(members: Vec<(&str, Json)>) -> Json {
    Json::object(members.into_iter().map(|(name, value)| (name.to_string(), value)).collect())
}

fn from_value(value: &serde_json::Value) -> Json {
    match value {
        serde_json::Value::Null => Json::Null,
        serde_json::Value::Bool(b) => Json::Bool(*b),
        serde_json::Value::Number(n) => match n.as_u64() {
            Some(number) => Json::Number(number),
            None => Json::Numeral(n.to_string()),
        },
        serde_json::Value::String(s) => Json::Text(s.clone()),
        serde_json::Value::Array(items) => Json::Array(items.iter().map(from_value).collect()),
        serde_json::Value::Object(members) => {
            Json::Object(members.iter().map(|(name, value)| (name.clone(), from_value(value))).collect())
        }
    }
}

fn to_value(json: &Json) -> serde_json::Value {
    match json {
        Json::Null => serde_json::Value::Null,
        Json::Bool(b) => serde_json::Value::Bool(*b),
        Json::Number(n) => serde_json::Value::from(*n),
        Json::Numeral(text) => text.parse().unwrap(),
        Json::Text(s) => serde_json::Value::String(s.clone()),
        Json::Array(items) => serde_json::Value::Array(items.iter().map(to_value).collect()),
        Json::Object(members) => serde_json::Value::Object(
            members.iter().map(|(name, value)| (name.clone(), to_value(value))).collect(),
        ),
    }
}

fn read(text: &str) -> Option<Command> {
    let value: Option<serde_json::Value> = serde_json::from_str(text).ok();
    let through_the_tree = value.and_then(|value| Command::from_json(&from_value(&value)));
    assert_eq!(Command::from_str(text), through_the_tree, "{text}");
    through_the_tree
}

fn written(command: &Command) -> String {
    let text = command.to_wire();
    let value: serde_json::Value = serde_json::from_str(&text).unwrap();
    assert_eq!(value, to_value(&command.to_json()));
    text
}

fn entry(listen_host: Option<&str>, hop: Option<u8>, relay: Option<&str>) -> Command {
    Command::EntryNode {
        endpoint: "http://e:1/".to_string(),
        api_token: "t".to_string(),
        listen_host: listen_host.map(|host| host.to_string()),
        hop,
        intermediate_id: relay.map(|id| PeerId::from_base58(id).unwrap()),
    }
}

fn commands() -> Vec<Command> {
    vec![
        Command::Status,
        Command::ExitNode { peer_id: PeerId::from_base58(PEER).unwrap() },
        entry(None, None, None),
        entry(Some("0.0.0.0:60006"), Some(0), None),
        entry(Some(":60006"), Some(3), Some(RELAY)),
        entry(Some("localhost"), None, Some(RELAY)),
    ]
}

#[test]
fn the_document_of_each_command() {
    assert_eq!(Command::Status.to_json(), Json::text("Status"));
    assert_eq!(
        Command::ExitNode { peer_id: PeerId::from_base58(PEER).unwrap() }.to_json(),
        object(vec![("ExitNode", object(vec![("peer_id", Json::text(PEER))]))])
    );
    assert_eq!(
        entry(Some("0.0.0.0:60006"), Some(0), None).to_json(),
        object(vec![(
            "EntryNode",
            object(vec![
                ("endpoint", Json::text("http://e:1/")),
                ("api_token", Json::text("t")),
                ("listen_host", Json::text("0.0.0.0:60006")),
                ("hop", Json::Number(0)),
                ("intermediate_id", Json::Null),
            ])
        )])
    );
    assert_eq!(
        entry(None, None, Some(RELAY)).to_json(),
        object(vec![(
            "EntryNode",
            object(vec![
                ("endpoint", Json::text("http://e:1/")),
                ("api_token", Json::text("t")),
                ("listen_host", Json::Null),
                ("hop", Json::Null),
                ("intermediate_id", Json::text(RELAY)),
            ])
        )])
    );
}

#[test]
fn a_command_is_read_back_as_it_was_sent() {
    for command in commands() {
        assert_eq!(Command::from_json(&command.to_json()), Some(command.clone()));
        assert_eq!(read(&written(&command)), Some(command));
    }
}

#[test]
fn the_text_of_each_command() {
    assert_eq!(written(&Command::Status), "\"Status\"");
    assert_eq!(
        written(&Command::ExitNode { peer_id: PeerId::from_base58(PEER).unwrap() }),
        format!("{{\"ExitNode\":{{\"peer_id\":\"{PEER}\"}}}}")
    );
    assert_eq!(
        read("{\"EntryNode\":{\"endpoint\":\"http://e:1\",\"api_token\":\"t\",\"listen_host\":\"0.0.0.0:60006\",\"hop\":0,\"intermediate_id\":null}}"),
        Some(entry(Some("0.0.0.0:60006"), Some(0), None))
    );
}

#[test]
fn the_token_is_masked_in_print_and_not_on_the_wire() {
    let command = entry(Some("0.0.0.0:60006"), Some(0), None);
    let masked = command.masked();
    assert_eq!(
        masked,
        Command::EntryNode {
            endpoint: "http://e:1/".to_string(),
            api_token: "*****".to_string(),
            listen_host: Some("0.0.0.0:60006".to_string()),
            hop: Some(0),
            intermediate_id: None,
        }
    );
    assert!(written(&masked).contains("\"api_token\":\"*****\""));
    assert_eq!(command.to_string(), written(&masked));
    assert_eq!(
        command.to_string(),
        "{\"EntryNode\":{\"endpoint\":\"http://e:1/\",\"api_token\":\"*****\",\"listen_host\":\"0.0.0.0:60006\",\"hop\":0,\"intermediate_id\":null}}"
    );
    assert_eq!(Command::Status.to_string(), "\"Status\"");
    assert!(written(&command).contains("\"api_token\":\"t\""));
    assert!(!written(&command).contains("*****"));
    assert_eq!(Command::Status.masked(), Command::Status);
    let exit = Command::ExitNode { peer_id: PeerId::from_base58(PEER).unwrap() };
    assert_eq!(exit.masked(), exit);
}

#[test]
fn members_that_may_be_left_out() {
    assert_eq!(
        read("{\"EntryNode\":{\"endpoint\":\"http://e:1/\",\"api_token\":\"t\"}}"),
        Some(entry(None, None, None))
    );
    assert_eq!(
        read("{\"EntryNode\":{\"endpoint\":\"http://e:1/\",\"api_token\":\"t\",\"more\":[1]}}"),
        Some(entry(None, None, None))
    );
}

#[test]
fn a_listening_host_with_a_port_too_large_is_refused() {
    assert_eq!(
        read("{\"EntryNode\":{\"endpoint\":\"http://e:1/\",\"api_token\":\"t\",\"listen_host\":\"localhost:65536\",\"hop\":0,\"intermediate_id\":null}}"),
        None
    );
    assert!(!entry(Some("localhost:65536"), Some(0), None).validate());
    assert!(entry(Some("localhost:65535"), Some(0), None).validate());
}

#[test]
fn more_than_three_hops_are_refused() {
    assert_eq!(
        read("{\"EntryNode\":{\"endpoint\":\"http://e:1/\",\"api_token\":\"t\",\"hop\":4}}"),
        None
    );
    assert_eq!(
        read("{\"EntryNode\":{\"endpoint\":\"http://e:1/\",\"api_token\":\"t\",\"hop\":3}}"),
        Some(entry(None, Some(3), None))
    );
    assert!(!entry(None, Some(4), None).validate());
    assert!(Command::Status.validate());
}

#[test]
fn documents_that_stand_for_no_command() {
    for text in [
        "\"status\"",
        "\"EntryNode\"",
        "null",
        "3",
        "[]",
        "{}",
        "{\"Status\":null}",
        "{\"ExitNode\":{}}",
        "{\"ExitNode\":{\"peer_id\":\"nobody\"}}",
        "{\"ExitNode\":{\"peer_id\":null}}",
        "{\"ExitNode\":{\"peer_id\":\"12D3KooWRNw2pJC9748Fmq4WNV27HoSTcX3r37132FLkQMrbKAiC\"},\"x\":1}",
        "{\"EntryNode\":{\"api_token\":\"t\"}}",
        "{\"EntryNode\":{\"endpoint\":\"http://e:1/\"}}",
        "{\"EntryNode\":{\"endpoint\":\"no url\",\"api_token\":\"t\"}}",
        "{\"EntryNode\":{\"endpoint\":\"http://e:1/\",\"api_token\":7}}",
        "{\"EntryNode\":{\"endpoint\":\"http://e:1/\",\"api_token\":\"t\",\"hop\":-1}}",
        "{\"EntryNode\":{\"endpoint\":\"http://e:1/\",\"api_token\":\"t\",\"hop\":1.5}}",
        "{\"EntryNode\":{\"endpoint\":\"http://e:1/\",\"api_token\":\"t\",\"hop\":\"1\"}}",
        "{\"EntryNode\":{\"endpoint\":\"http://e:1/\",\"api_token\":\"t\",\"hop\":256}}",
        "{\"EntryNode\":{\"endpoint\":\"http://e:1/\",\"api_token\":\"t\",\"listen_host\":1}}",
        "{\"EntryNode\":{\"endpoint\":\"http://e:1/\",\"api_token\":\"t\",\"intermediate_id\":\"x\"}}",
        "{\"Other\":{}}",
        "",
        "Status",
        "{\"ExitNode\":",
    ] {
        assert_eq!(read(text), None, "{text}");
    }
}

#[test]
fn the_path_that_a_command_asks_for() {
    let relay = PeerId::from_base58(RELAY).unwrap();
    assert_eq!(choose_path(&Some(2), &Some(relay.clone())), SessionPathConfig::Hop(2));
    assert_eq!(choose_path(&Some(0), &None), SessionPathConfig::Hop(0));
    assert_eq!(
        choose_path(&None, &Some(relay.clone())),
        SessionPathConfig::Intermediates(vec![relay])
    );
    assert_eq!(choose_path(&None, &None), SessionPathConfig::Hop(1));
}

#[test]
fn a_command_of_the_command_line_is_sent_as_it_is() {
    let relay = PeerId::from_base58(RELAY).unwrap();
    assert_eq!(as_internal_cmd(&cli::Command::Status), Command::Status);
    assert_eq!(
        as_internal_cmd(&cli::Command::ExitNode { peer_id: relay.clone() }),
        Command::ExitNode { peer_id: relay.clone() }
    );
    assert_eq!(
        as_internal_cmd(&cli::Command::EntryNode {
            endpoint: "http://e:1/".to_string(),
            api_token: "t".to_string(),
            listen_host: Some(":1".to_string()),
            hop: Some(3),
            intermediate_id: Some(relay.clone()),
        }),
        entry(Some(":1"), Some(3), Some(RELAY))
    );
}

#[test]
fn only_the_status_is_answered() {
    assert!(awaits_response(&Command::Status));
    for command in commands().into_iter().skip(1) {
        assert!(!awaits_response(&command));
        assert_eq!(process_cmd(&command, "ignored".to_string()), ReturnValue::NoResponse);
    }
    assert_eq!(
        process_cmd(&Command::Status, "idle".to_string()),
        ReturnValue::WithResponse("idle".to_string())
    );
}

#[test]
fn the_socket_is_found_at_its_default_place() {
    assert_eq!(socket::path(None), "/var/run/gnosis-vpn.sock");
    assert_eq!(socket::path(Some("/tmp/s".to_string())), "/tmp/s");
}
