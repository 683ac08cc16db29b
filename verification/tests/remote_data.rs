use gnosis_vpn::json::Json;
use gnosis_vpn::remote_data::authentication_headers;
use gnosis_vpn::remote_data::build_request;
use gnosis_vpn::remote_data::classify;
use gnosis_vpn::remote_data::CustomError;
use gnosis_vpn::remote_data::Event;
use gnosis_vpn::remote_data::Fetched;
use gnosis_vpn::remote_data::Header;
use gnosis_vpn::remote_data::Method;
use gnosis_vpn::remote_data::RemoteData;
use gnosis_vpn::remote_data::RequestError;
use gnosis_vpn::remote_data::Slot;

fn error(text: &str) -> CustomError {
    CustomError { reqw_err: Some(text.to_string()), status: None, value: None }
}

#[test]
fn every_request_carries_the_content_type_and_the_token() {
    assert_eq!(
        authentication_headers("secret"),
        Ok(vec![
            Header {
                name: "content-type".to_string(),
                value: "application/json".to_string(),
                sensitive: false
            },
            Header {
                name: "x-auth-token".to_string(),
                value: "secret".to_string(),
                sensitive: true
            },
        ])
    );
}

#[test]
fn tokens_that_may_stand_in_a_header() {
    assert!(authentication_headers("").is_ok());
    assert!(authentication_headers("a b\tc").is_ok());
    assert!(authentication_headers("~ü€").is_ok());
}

#[test]
fn tokens_that_may_not_stand_in_a_header() {
    for token in ["a\nb", "a\rb", "\u{0}", "\u{1f}", "\u{7f}"] {
        assert_eq!(authentication_headers(token), Err(RequestError::InvalidHeaderValue), "{token:?}");
    }
}

#[test]
fn a_request_is_made_up_for_a_path_at_the_endpoint() {
    let request = build_request(Method::Get, "https://node.example:3001/x/y", "t", "/a/b", None);
    let request = request.unwrap();
    assert_eq!(request.method, Method::Get);
    assert_eq!(request.url, "https://node.example:3001/a/b");
    assert_eq!(request.body, None);
    assert_eq!(request.timeout, 30);
}

fn answered(status: u16, text: &str) -> Fetched {
    Fetched::Answered { status, text: text.to_string() }
}

#[test]
fn a_status_of_success_with_a_document_is_a_response() {
    for slot in [Slot::Addresses, Slot::OpenSession, Slot::ListSessions, Slot::CloseSession] {
        assert_eq!(classify(slot, answered(200, "1")), Event::Response(Json::Number(1)));
        assert_eq!(classify(slot, answered(299, " null ")), Event::Response(Json::Null));
        assert_eq!(
            classify(slot, answered(201, "{\"hopr\":\"H\"}")),
            Event::Response(Json::object(vec![("hopr".to_string(), Json::text("H"))]))
        );
    }
}

#[test]
fn another_status_with_a_document_is_an_error_that_holds_both() {
    for status in [199, 300, 404, 500] {
        assert_eq!(
            classify(Slot::OpenSession, answered(status, "{\"error\": 1}")),
            Event::Error(CustomError {
                reqw_err: None,
                status: Some(status),
                value: Some("{\"error\": 1}".to_string())
            })
        );
    }
}

#[test]
fn a_status_without_a_document_is_an_error() {
    for slot in [Slot::Addresses, Slot::OpenSession, Slot::ListSessions] {
        for text in ["", "not json", "{"] {
            assert_eq!(
                classify(slot, answered(200, text)),
                Event::Error(CustomError {
                    reqw_err: Some("error decoding response body".to_string()),
                    status: Some(200),
                    value: None
                })
            );
        }
        let fetched = Fetched::Unread { status: 200, error: "eof".to_string() };
        assert_eq!(
            classify(slot, fetched),
            Event::Error(CustomError {
                reqw_err: Some("eof".to_string()),
                status: Some(200),
                value: None
            })
        );
    }
    assert_eq!(
        classify(Slot::CloseSession, answered(500, "")),
        Event::Error(CustomError {
            reqw_err: Some("error decoding response body".to_string()),
            status: Some(500),
            value: None
        })
    );
    let fetched = Fetched::Unread { status: 500, error: "eof".to_string() };
    assert_eq!(
        classify(Slot::CloseSession, fetched),
        Event::Error(CustomError { reqw_err: Some("eof".to_string()), status: Some(500), value: None })
    );
}

#[test]
fn closing_succeeds_without_a_document() {
    assert_eq!(classify(Slot::CloseSession, answered(204, "")), Event::Response(Json::Null));
    let fetched = Fetched::Unread { status: 204, error: "eof".to_string() };
    assert_eq!(classify(Slot::CloseSession, fetched), Event::Response(Json::Null));
    assert_eq!(
        classify(Slot::CloseSession, answered(200, "{\"ok\":true}")),
        Event::Response(Json::object(vec![("ok".to_string(), Json::Bool(true))]))
    );
}

#[test]
fn a_call_that_did_not_get_through_is_an_error() {
    let fetched = Fetched::Failed { error: "timeout".to_string() };
    assert_eq!(classify(Slot::CloseSession, fetched), Event::Error(error("timeout")));
}

#[test]
fn the_body_of_a_request_is_sent_as_a_text() {
    let body = Json::object(vec![("Hops".to_string(), Json::Number(1))]);
    let request =
        build_request(Method::Post, "http://e:1/", "t", "/a", Some(body)).unwrap();
    assert_eq!(request.body_text(), Some("{\"Hops\":1}".to_string()));
    let request = build_request(Method::Get, "http://e:1/", "t", "/a", None).unwrap();
    assert_eq!(request.body_text(), None);
}

#[test]
fn a_failure_sets_a_retry_while_delays_are_left() {
    let mut slot = RemoteData::Fetching { started_at: 1, backoffs: vec![4000, 2000, 1000] };
    assert_eq!(slot.fail(error("a"), 7), Some(1000));
    assert_eq!(
        slot,
        RemoteData::RetryFetching { error: error("a"), backoffs: vec![4000, 2000], cancel: 7 }
    );
    assert!(slot.is_retrying());
    assert!(!slot.is_fetching());
    assert_eq!(slot.cancel_handle(), Some(7));
}

#[test]
fn a_failure_without_delays_left_is_for_good() {
    let mut slot = RemoteData::Fetching { started_at: 1, backoffs: vec![] };
    assert_eq!(slot.fail(error("a"), 7), None);
    assert_eq!(slot, RemoteData::Failure { error: error("a") });
    assert_eq!(slot.cancel_handle(), None);
}

#[test]
fn a_failure_changes_no_slot_without_a_worker() {
    for before in [
        RemoteData::NotAsked,
        RemoteData::Success,
        RemoteData::Failure { error: error("x") },
        RemoteData::RetryFetching { error: error("x"), backoffs: vec![1], cancel: 3 },
    ] {
        let mut slot = before.clone();
        assert_eq!(slot.fail(error("a"), 7), None);
        assert_eq!(slot, before);
    }
}

#[test]
fn a_retry_that_is_called_off_leaves_nothing_asked() {
    let mut slot = RemoteData::RetryFetching { error: error("x"), backoffs: vec![1], cancel: 3 };
    assert_eq!(slot.cancel(), Some(3));
    assert_eq!(slot, RemoteData::NotAsked);
    assert_eq!(slot.cancel(), None);
    let mut slot = RemoteData::Fetching { started_at: 0, backoffs: vec![1] };
    assert_eq!(slot.cancel(), None);
    assert_eq!(slot, RemoteData::Fetching { started_at: 0, backoffs: vec![1] });
}

#[test]
fn the_delays_that_are_left_are_taken_from_a_waiting_retry() {
    let mut slot = RemoteData::RetryFetching { error: error("x"), backoffs: vec![2, 1], cancel: 3 };
    assert_eq!(slot.take_backoffs(), vec![2, 1]);
    assert_eq!(slot, RemoteData::NotAsked);
    let mut slot = RemoteData::Success;
    assert_eq!(slot.take_backoffs(), Vec::<u64>::new());
    assert_eq!(slot, RemoteData::Success);
}
