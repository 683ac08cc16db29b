use gnosis_vpn::endpoint::normalize;
use gnosis_vpn::peer_id::PeerId;

const PEER: &str = "12D3KooWRNw2pJC9748Fmq4WNV27HoSTcX3r37132FLkQMrbKAiC";
const RELAY: &str = "QmYyQSo1c1Ym7orWxLYvCrM2EmxFTANf8wXmmE7DWjhx5N";

#[test]
fn a_peer_identity_is_read_and_printed() {
    for text in [PEER, RELAY, "12D3KooWExit"] {
        let id = PeerId::from_base58(text).unwrap();
        assert_eq!(id.to_base58(), text);
        assert_eq!(id.as_str(), text);
        assert_eq!(id.duplicate(), id);
        assert!(id.same(&id.duplicate()));
    }
}

#[test]
fn peer_identities_are_told_apart() {
    let one = PeerId::from_base58(PEER).unwrap();
    let other = PeerId::from_base58(RELAY).unwrap();
    assert!(!one.same(&other));
    assert!(one != other);
}

#[test]
fn what_is_no_peer_identity_is_refused() {
    for text in ["", "0OIl", "hello world", "QmYyQSo1c1Ym7orWxLYvCrM2EmxFTANf8wXmmE7DWjhx5"] {
        assert_eq!(PeerId::from_base58(text), None, "{text:?}");
    }
}

#[test]
fn a_url_is_held_as_it_is_written_out() {
    assert_eq!(normalize("http://e:1"), Some("http://e:1/".to_string()));
    assert_eq!(normalize("http://e:1/"), Some("http://e:1/".to_string()));
    assert_eq!(normalize("HTTP://Example.COM:80/a/../b"), Some("http://example.com/b".to_string()));
    assert_eq!(normalize("https://node.example:3001/api"), Some("https://node.example:3001/api".to_string()));
}

#[test]
fn what_is_no_url_is_refused() {
    for text in ["", "/only/a/path", "http://", "no url"] {
        assert_eq!(normalize(text), None, "{text:?}");
    }
}
