use gnosis_vpn::log_output::elapsed;
use gnosis_vpn::log_output::elapsed_at;
use gnosis_vpn::log_output::serialize;
use gnosis_vpn::log_output::truncate_after_second_space;

#[test]
fn text_is_cut_after_its_second_space() {
    assert_eq!(truncate_after_second_space("1m 5s 300ms"), "1m 5s ");
    assert_eq!(truncate_after_second_space("5s 123ms 456us 789ns"), "5s 123ms ");
}

#[test]
fn text_with_one_space_is_cut_after_it() {
    assert_eq!(truncate_after_second_space("5s 123ms"), "5s ");
}

#[test]
fn text_without_space_is_kept() {
    assert_eq!(truncate_after_second_space("5s"), "5s");
    assert_eq!(truncate_after_second_space(""), "");
}

#[test]
fn the_two_largest_units_of_a_span_are_printed() {
    assert_eq!(elapsed_at(0, 5_123_456_789), "5s 123ms ");
    assert_eq!(elapsed_at(1_000, 65_000_001_000), "1m ");
    assert_eq!(elapsed_at(0, 3_600_000_000_000 + 61_000_000_000 + 5), "1h 1m ");
    assert_eq!(elapsed_at(7, 7), "0s");
}

#[test]
fn a_time_that_is_still_to_come_is_an_error() {
    assert_eq!(
        elapsed_at(2, 1),
        "error displaying duration: second time provided was later than self"
    );
}

#[test]
fn the_time_since_the_epoch_is_long() {
    let text = elapsed(0);
    assert!(text.contains("years"), "{text}");
}

#[test]
fn members_are_written_as_an_object_of_texts() {
    assert_eq!(serialize(&vec![]), "{}");
    assert_eq!(serialize(&vec![("a".to_string(), "b".to_string())]), "{\"a\":\"b\"}");
    assert_eq!(
        serialize(&vec![("k".to_string(), "say \"hi\"\n".to_string())]),
        "{\"k\":\"say \\\"hi\\\"\\n\"}"
    );
}

#[test]
fn members_stay_in_the_order_in_which_they_are_given() {
    assert_eq!(
        serialize(&vec![
            ("status".to_string(), "idle".to_string()),
            ("config".to_string(), "<default>".to_string()),
        ]),
        "{\"status\":\"idle\",\"config\":\"<default>\"}"
    );
}

#[test]
fn an_object_within_an_object_is_a_text() {
    let inner = serialize(&vec![("hopr".to_string(), "H".to_string())]);
    assert_eq!(
        serialize(&vec![("addresses".to_string(), inner)]),
        "{\"addresses\":\"{\\\"hopr\\\":\\\"H\\\"}\"}"
    );
}
