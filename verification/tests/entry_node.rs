use gnosis_vpn::config::SessionPathConfig;
use gnosis_vpn::entry_node::Addresses;
use gnosis_vpn::entry_node::EntryNode;
use gnosis_vpn::json::Json;
use gnosis_vpn::remote_data::Method;
use gnosis_vpn::remote_data::RequestError;

fn object(members: Vec<(&str, Json)>) -> Json {
    Json::object(members.into_iter().map(|(name, value)| (name.to_string(), value)).collect())
}

#[test]
fn a_new_entry_node_has_no_addresses_yet() {
    let entry = EntryNode::new("http://e:1/", "t", Some("0.0.0.0:60006"), SessionPathConfig::Hop(0));
    assert_eq!(entry.endpoint, "http://e:1/");
    assert_eq!(entry.api_token, "t");
    assert_eq!(entry.listen_host, Some("0.0.0.0:60006".to_string()));
    assert_eq!(entry.path, SessionPathConfig::Hop(0));
    assert_eq!(entry.addresses, None);
}

#[test]
fn the_addresses_are_asked_for() {
    let entry = EntryNode::new("http://e:1/", "t", None, SessionPathConfig::Hop(1));
    let request = entry.query_addresses().unwrap();
    assert_eq!(request.method, Method::Get);
    assert_eq!(request.url, "http://e:1/api/v3/account/addresses");
    assert_eq!(request.body, None);
    assert_eq!(request.timeout, 30);
}

#[test]
fn the_sessions_are_asked_for() {
    let entry = EntryNode::new("http://e:1/", "t", None, SessionPathConfig::Hop(1));
    let request = entry.list_sessions().unwrap();
    assert_eq!(request.method, Method::Get);
    assert_eq!(request.url, "http://e:1/api/v3/session/udp");
    assert_eq!(request.body, None);
}

#[test]
fn no_request_for_a_bad_token_or_endpoint() {
    let entry = EntryNode::new("http://e:1/", "\n", None, SessionPathConfig::Hop(1));
    assert_eq!(entry.query_addresses(), Err(RequestError::InvalidHeaderValue));
    assert_eq!(entry.list_sessions(), Err(RequestError::InvalidHeaderValue));
    let entry = EntryNode::new("nothing", "t", None, SessionPathConfig::Hop(1));
    assert_eq!(entry.query_addresses(), Err(RequestError::Url));
    assert_eq!(entry.list_sessions(), Err(RequestError::Url));
}

#[test]
fn the_addresses_are_read_from_the_answer() {
    let answer = object(vec![("hopr", Json::text("H")), ("native", Json::text("N"))]);
    assert_eq!(
        Addresses::from_json(&answer),
        Some(Addresses { hopr: "H".to_string(), native: "N".to_string() })
    );
    let more = object(vec![
        ("native", Json::text("N")),
        ("other", Json::Null),
        ("hopr", Json::text("H")),
    ]);
    assert_eq!(
        Addresses::from_json(&more),
        Some(Addresses { hopr: "H".to_string(), native: "N".to_string() })
    );
}

#[test]
fn an_answer_without_both_addresses_is_refused() {
    assert_eq!(Addresses::from_json(&object(vec![("hopr", Json::text("H"))])), None);
    assert_eq!(
        Addresses::from_json(&object(vec![("hopr", Json::text("H")), ("native", Json::Number(1))])),
        None
    );
    assert_eq!(Addresses::from_json(&Json::array(vec![])), None);
}
