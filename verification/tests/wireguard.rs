use gnosis_vpn::wireguard::best_flavor;
use gnosis_vpn::wireguard::choose_flavor;
use gnosis_vpn::wireguard::kernel;
use gnosis_vpn::wireguard::kernel::Kernel;
use gnosis_vpn::wireguard::tooling;
use gnosis_vpn::wireguard::tooling::Tooling;
use gnosis_vpn::wireguard::userspace;
use gnosis_vpn::wireguard::userspace::UserSpace;
use gnosis_vpn::wireguard::ConnectSession;
use gnosis_vpn::wireguard::Error;
use gnosis_vpn::wireguard::Flavor;
use gnosis_vpn::wireguard::InterfaceInfo;
use gnosis_vpn::wireguard::PeerInfo;
use gnosis_vpn::wireguard::WireGuard;

fn session(address: &str, allowed_ips: Option<&str>) -> ConnectSession {
    ConnectSession {
        interface: InterfaceInfo {
            private_key: "PRIV".to_string(),
            address: address.to_string(),
            allowed_ips: allowed_ips.map(|ips| ips.to_string()),
        },
        peer: PeerInfo { public_key: "PUB".to_string(), endpoint: "e:60006".to_string() },
    }
}

#[test]
fn the_file_for_wg_quick() {
    assert_eq!(
        session("10.34.0.8/32", None).to_file_string(),
        "[Interface]\nPrivateKey = PRIV\nAddress = 10.34.0.8/32\n\n[Peer]\nPublicKey = PUB\nEndpoint = e:60006\nAllowedIPs = 10.34.0.0/24\nPersistentKeepalive = 30\n"
    );
}

#[test]
fn allowed_ips_that_are_given_are_taken() {
    let text = session("10.34.0.8/32", Some("0.0.0.0/0")).to_file_string();
    assert!(text.contains("\nAllowedIPs = 0.0.0.0/0\n"), "{text}");
    assert_eq!(session("10.34.0.8/32", Some("0.0.0.0/0")).allowed_ips(), "0.0.0.0/0");
}

#[test]
fn allowed_ips_default_to_the_network_of_the_address() {
    assert_eq!(session("10.34.0.8", None).allowed_ips(), "10.34.0.0/24");
    assert_eq!(session("192.168.1.77/24", None).allowed_ips(), "192.168.1.0/24");
    assert_eq!(session("10.34", None).allowed_ips(), "10.34.0/24");
    assert_eq!(session("", None).allowed_ips(), ".0/24");
}

fn pending(what: &str) -> Error {
    Error::NotYetImplemented(what.to_string())
}

#[test]
fn kernel_and_userspace_are_still_to_come() {
    assert_eq!(kernel::available(), Err(pending("netlink kernel module")));
    assert_eq!(userspace::available(), Err(pending("userspace")));
    assert_eq!(Kernel::new().generate_key(), Err(pending("netlink kernel module")));
    assert_eq!(Kernel::new().connect_session(&session("a", None)), Err(pending("connect_session")));
    assert_eq!(Kernel::new().public_key("k"), Err(pending("connect_session")));
    assert_eq!(UserSpace::new().generate_key(), Err(pending("userspace")));
    assert_eq!(
        UserSpace::new().connect_session(&session("a", None)),
        Err(pending("connect_session"))
    );
    assert_eq!(UserSpace::new().public_key("k"), Err(pending("connect_session")));
}

#[test]
fn the_tooling_is_there_where_wg_quick_is_found() {
    let _ = Tooling::new();
    assert_eq!(tooling::available(Ok(true)), Ok(true));
    assert_eq!(tooling::available(Ok(false)), Ok(false));
    assert_eq!(tooling::available(Err("no which".to_string())), Err(Error::IO("no which".to_string())));
}

#[test]
fn the_tooling_is_taken_where_it_is_found() {
    assert_eq!(
        best_flavor(Ok(true)),
        (Some(Flavor::Tooling), vec![pending("netlink kernel module"), pending("userspace")])
    );
}

#[test]
fn nothing_is_taken_where_nothing_is_found() {
    assert_eq!(
        best_flavor(Ok(false)),
        (None, vec![pending("netlink kernel module"), pending("userspace")])
    );
    assert_eq!(
        best_flavor(Err(Error::IO("x".to_string()))),
        (
            None,
            vec![pending("netlink kernel module"), pending("userspace"), Error::IO("x".to_string())]
        )
    );
}

#[test]
fn the_first_way_that_is_found_is_taken() {
    assert_eq!(choose_flavor(Ok(true), Ok(true), Ok(true)), (Some(Flavor::Kernel), vec![]));
    assert_eq!(
        choose_flavor(Err(pending("k")), Ok(true), Err(pending("t"))),
        (Some(Flavor::UserSpace), vec![pending("k")])
    );
    assert_eq!(choose_flavor(Ok(false), Ok(false), Ok(true)), (Some(Flavor::Tooling), vec![]));
    assert_eq!(choose_flavor(Ok(false), Ok(false), Ok(false)), (None, vec![]));
}

#[test]
fn errors_have_messages() {
    assert_eq!(pending("x").to_string(), "implementation pending: x");
    assert_eq!(Error::IO("x".to_string()).to_string(), "IO error: x");
    assert_eq!(Error::FromUtf8Error("x".to_string()).to_string(), "encoding error: x");
    assert_eq!(Error::Toml("x".to_string()).to_string(), "toml error: x");
    assert_eq!(Error::Monitoring("x".to_string()).to_string(), "monitoring error: x");
    assert_eq!(Error::WgError("x".to_string()).to_string(), "wireguard error: x");
    assert_eq!(Error::WgError("x".to_string()).duplicate(), Error::WgError("x".to_string()));
}
