use gnosis_vpn::config::SessionCapabilitiesConfig;
use gnosis_vpn::config::SessionPathConfig;
use gnosis_vpn::config::SessionTargetConfig;
use gnosis_vpn::config::SessionTargetType;
use gnosis_vpn::entry_node::EntryNode;
use gnosis_vpn::json::Json;
use gnosis_vpn::peer_id::PeerId;
use gnosis_vpn::remote_data::Header;
use gnosis_vpn::remote_data::Method;
use gnosis_vpn::remote_data::RequestError;
use gnosis_vpn::session::open;
use gnosis_vpn::session::OpenSession;
use gnosis_vpn::session::Session;

const PEER: &str = "12D3KooWRNw2pJC9748Fmq4WNV27HoSTcX3r37132FLkQMrbKAiC";
const RELAY: &str = "QmYyQSo1c1Ym7orWxLYvCrM2EmxFTANf8wXmmE7DWjhx5N";

fn object(members: Vec<(&str, Json)>) -> Json {
    Json::object(members.into_iter().map(|(name, value)| (name.to_string(), value)).collect())
}

fn session(ip: &str, port: u16, protocol: &str, target: &str) -> Session {
    Session {
        ip: ip.to_string(),
        port,
        protocol: protocol.to_string(),
        target: target.to_string(),
    }
}

fn document(ip: &str, port: u64, protocol: &str, target: &str) -> Json {
    object(vec![
        ("ip", Json::text(ip)),
        ("port", Json::Number(port)),
        ("protocol", Json::text(protocol)),
        ("target", Json::text(target)),
    ])
}

fn plain(endpoint: &str, token: &str) -> OpenSession {
    OpenSession {
        endpoint: endpoint.to_string(),
        api_token: token.to_string(),
        destination: PEER.to_string(),
        capabilities: None,
        listen_host: None,
        path: None,
        target: None,
    }
}

#[test]
fn a_session_is_found_in_a_list_that_holds_it() {
    let open = session("0.0.0.0", 60006, "udp", "wg-server:51820");
    assert!(open.verify_open(&[open.duplicate()]));
    assert!(open.verify_open(&[session("1.1.1.1", 1, "udp", "x"), open.duplicate()]));
}

#[test]
fn a_session_is_not_found_in_a_list_without_it() {
    let open = session("0.0.0.0", 60006, "udp", "wg-server:51820");
    assert!(!open.verify_open(&[]));
    assert!(!open.verify_open(&[session("0.0.0.0", 60007, "udp", "wg-server:51820")]));
    assert!(!open.verify_open(&[session("0.0.0.1", 60006, "udp", "wg-server:51820")]));
    assert!(!open.verify_open(&[session("0.0.0.0", 60006, "tcp", "wg-server:51820")]));
    assert!(!open.verify_open(&[session("0.0.0.0", 60006, "udp", "wg-server:51821")]));
}

#[test]
fn case_in_the_target_tells_no_sessions_apart() {
    let open = session("0.0.0.0", 60006, "udp", "wg-server:51820");
    let listed = session("0.0.0.0", 60006, "udp", "WG-Server:51820");
    assert!(open.verify_open(&[listed.duplicate()]));
    assert!(listed.verify_open(&[open.duplicate()]));
    assert!(open == listed);
    assert!(open.same(&listed));
}

#[test]
fn case_in_the_protocol_and_the_ip_does_tell_sessions_apart() {
    let open = session("host", 60006, "udp", "t");
    assert!(open != session("host", 60006, "UDP", "t"));
    assert!(open != session("HOST", 60006, "udp", "t"));
}

#[test]
fn a_session_is_read_from_the_answer() {
    assert_eq!(
        Session::from_json(&document("0.0.0.0", 60006, "udp", "wg-server:51820")),
        Some(session("0.0.0.0", 60006, "udp", "wg-server:51820"))
    );
}

#[test]
fn an_answer_that_names_no_session_is_refused() {
    assert_eq!(Session::from_json(&Json::Null), None);
    assert_eq!(Session::from_json(&document("0.0.0.0", 65536, "udp", "t")), None);
    assert_eq!(
        Session::from_json(&object(vec![
            ("ip", Json::text("0.0.0.0")),
            ("port", Json::text("60006")),
            ("protocol", Json::text("udp")),
            ("target", Json::text("t")),
        ])),
        None
    );
    assert_eq!(
        Session::from_json(&object(vec![("ip", Json::text("0.0.0.0")), ("port", Json::Number(1))])),
        None
    );
}

#[test]
fn a_list_of_sessions_is_read() {
    assert_eq!(Session::list_from_json(&Json::array(vec![])), Some(vec![]));
    let list = Json::array(vec![document("a", 1, "udp", "x"), document("b", 2, "udp", "y")]);
    assert_eq!(
        Session::list_from_json(&list),
        Some(vec![session("a", 1, "udp", "x"), session("b", 2, "udp", "y")])
    );
}

#[test]
fn a_list_with_something_that_is_no_session_is_refused() {
    assert_eq!(Session::list_from_json(&Json::array(vec![Json::Null])), None);
    assert_eq!(Session::list_from_json(&document("a", 1, "udp", "x")), None);
}

#[test]
fn a_session_is_printed() {
    assert_eq!(
        session("0.0.0.0", 60006, "udp", "wg-server:51820").to_string(),
        "Session[0.0.0.0:60006 udp wg-server:51820]"
    );
}

#[test]
fn a_session_is_closed_at_its_ip_and_port() {
    let entry = EntryNode::new("http://e:1/", "t", None, SessionPathConfig::Hop(1));
    let request = session("0.0.0.0", 60006, "udp", "x").close(&entry).unwrap();
    assert_eq!(request.method, Method::Delete);
    assert_eq!(request.url, "http://e:1/api/v3/session/udp/0.0.0.0/60006");
    assert_eq!(request.body, None);
    assert_eq!(request.timeout, 30);
    assert_eq!(
        request.headers,
        vec![
            Header {
                name: "content-type".to_string(),
                value: "application/json".to_string(),
                sensitive: false
            },
            Header { name: "x-auth-token".to_string(), value: "t".to_string(), sensitive: true },
        ]
    );
}

#[test]
fn a_session_is_asked_for_with_what_stands_where_nothing_is_given() {
    let request = open(&plain("http://e:1/", "t")).unwrap();
    assert_eq!(request.method, Method::Post);
    assert_eq!(request.url, "http://e:1/api/v3/session/udp");
    assert_eq!(request.timeout, 30);
    assert_eq!(request.headers[1].value, "t");
    assert!(request.headers[1].sensitive);
    assert_eq!(
        request.body,
        Some(object(vec![
            ("destination", Json::text(PEER)),
            ("target", object(vec![("Plain", Json::text("wg-server:51820"))])),
            ("path", object(vec![("Hops", Json::Number(1))])),
            ("capabilities", Json::array(vec![Json::text("Segmentation")])),
        ]))
    );
}

#[test]
fn a_session_is_asked_for_with_what_is_given() {
    let mut asked = plain("http://e:1/base/", "t");
    asked.capabilities =
        Some(vec![SessionCapabilitiesConfig::Retransmission, SessionCapabilitiesConfig::Segmentation]);
    asked.listen_host = Some("0.0.0.0:60006".to_string());
    asked.path = Some(SessionPathConfig::Intermediates(vec![PeerId::from_base58(RELAY).unwrap()]));
    asked.target = Some(SessionTargetConfig {
        type_: Some(SessionTargetType::Sealed),
        host: Some("10.0.0.1".to_string()),
        port: Some(4001),
    });
    let request = open(&asked).unwrap();
    assert_eq!(request.url, "http://e:1/api/v3/session/udp");
    assert_eq!(
        request.body,
        Some(object(vec![
            ("destination", Json::text(PEER)),
            ("target", object(vec![("Sealed", Json::text("10.0.0.1:4001"))])),
            ("path", object(vec![("IntermediatePath", Json::array(vec![Json::text(RELAY)]))])),
            ("listenHost", Json::text("0.0.0.0:60006")),
            (
                "capabilities",
                Json::array(vec![Json::text("Retransmission"), Json::text("Segmentation")])
            ),
        ]))
    );
}

#[test]
fn a_target_is_filled_up_part_by_part() {
    let mut asked = plain("http://e:1/", "t");
    asked.target = Some(SessionTargetConfig { type_: None, host: None, port: Some(1) });
    asked.path = Some(SessionPathConfig::Hop(0));
    let body = open(&asked).unwrap().body.unwrap();
    assert_eq!(body.member("target"), Some(&object(vec![("Plain", Json::text("wg-server:1"))])));
    assert_eq!(body.member("path"), Some(&object(vec![("Hops", Json::Number(0))])));
    assert_eq!(body.member("listenHost"), None);
}

#[test]
fn a_token_that_cannot_be_a_header_is_refused() {
    assert_eq!(open(&plain("http://e:1/", "bad\ntoken")), Err(RequestError::InvalidHeaderValue));
}

#[test]
fn an_endpoint_that_is_no_base_is_refused() {
    assert_eq!(open(&plain("mailto:someone@example.com", "t")), Err(RequestError::Url));
    assert_eq!(open(&plain("not a url", "t")), Err(RequestError::Url));
}

#[test]
fn the_token_is_looked_at_before_the_endpoint() {
    assert_eq!(open(&plain("not a url", "\u{7f}")), Err(RequestError::InvalidHeaderValue));
}
