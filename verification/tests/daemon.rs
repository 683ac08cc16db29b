use gnosis_vpn::clock::liveness_delay;
use gnosis_vpn::clock::Moment;
use gnosis_vpn::daemon::exit_code;
use gnosis_vpn::daemon::exit_shutdown;
use gnosis_vpn::daemon::incoming_config_fs_event;
use gnosis_vpn::daemon::FileChange;
use gnosis_vpn::daemon::StartupFailure;
use gnosis_vpn::event::Event;
use gnosis_vpn::remote_data;
use gnosis_vpn::remote_data::Slot;

#[test]
fn the_code_of_each_failure_to_start() {
    assert_eq!(exit_code(StartupFailure::NoSuchSignal), 71);
    assert_eq!(exit_code(StartupFailure::MultipleHandlers), 69);
    assert_eq!(exit_code(StartupFailure::SignalSystem), 74);
    assert_eq!(exit_code(StartupFailure::ConfigWithoutFolder), 69);
    assert_eq!(exit_code(StartupFailure::ConfigFolder), 74);
    assert_eq!(exit_code(StartupFailure::ConfigWatch), 74);
    assert_eq!(exit_code(StartupFailure::SocketExists), 75);
    assert_eq!(exit_code(StartupFailure::SocketCheck), 74);
    assert_eq!(exit_code(StartupFailure::SocketBind), 72);
    assert_eq!(exit_code(StartupFailure::SocketPermissions), 77);
}

#[test]
fn the_codes_are_those_of_the_system() {
    assert_eq!(exit_code(StartupFailure::NoSuchSignal), exitcode::OSERR);
    assert_eq!(exit_code(StartupFailure::MultipleHandlers), exitcode::UNAVAILABLE);
    assert_eq!(exit_code(StartupFailure::SignalSystem), exitcode::IOERR);
    assert_eq!(exit_code(StartupFailure::SocketExists), exitcode::TEMPFAIL);
    assert_eq!(exit_code(StartupFailure::SocketBind), exitcode::OSFILE);
    assert_eq!(exit_code(StartupFailure::SocketPermissions), exitcode::NOPERM);
    assert_eq!(exit_shutdown(), exitcode::OK);
}

#[test]
fn a_shutdown_ends_well() {
    assert_eq!(exit_shutdown(), 0);
}

#[test]
fn a_change_of_the_configuration_file_is_read_after_a_wait() {
    let paths = vec!["/etc/gnosisvpn/config.toml".to_string()];
    for change in [FileChange::Created, FileChange::Modified, FileChange::Removed] {
        assert_eq!(incoming_config_fs_event(change, &paths, "/etc/gnosisvpn/config.toml"), Some(333));
    }
}

#[test]
fn other_changes_are_let_pass() {
    let config = "/etc/gnosisvpn/config.toml";
    let paths = vec![config.to_string()];
    assert_eq!(incoming_config_fs_event(FileChange::Other, &paths, config), None);
    let other = vec!["/etc/gnosisvpn/other.toml".to_string()];
    assert_eq!(incoming_config_fs_event(FileChange::Modified, &other, config), None);
    let both = vec![config.to_string(), "/etc/gnosisvpn/other.toml".to_string()];
    assert_eq!(incoming_config_fs_event(FileChange::Modified, &both, config), None);
    assert_eq!(incoming_config_fs_event(FileChange::Modified, &vec![], config), None);
}

#[test]
fn the_wait_before_a_check_is_five_to_thirteen_seconds() {
    let mut seen = std::collections::BTreeSet::new();
    for _ in 0..400 {
        let delay = liveness_delay();
        assert!(5000 <= delay && delay < 13000, "{delay}");
        assert_eq!(delay % 1000, 0);
        seen.insert(delay);
    }
    assert!(seen.len() > 1);
}

#[test]
fn a_moment_is_read() {
    let first = Moment::read();
    let second = Moment::read();
    assert!(first.now > 1_600_000_000_000_000_000);
    assert!(first.now <= second.now);
    assert!(5000 <= first.liveness && first.liveness < 13000);
}

#[test]
fn a_report_belongs_to_its_call() {
    assert_eq!(
        Event::remote(Slot::Addresses, remote_data::Event::Retry),
        Event::FetchAddresses(remote_data::Event::Retry)
    );
    assert_eq!(
        Event::remote(Slot::OpenSession, remote_data::Event::Retry),
        Event::FetchOpenSession(remote_data::Event::Retry)
    );
    assert_eq!(
        Event::remote(Slot::ListSessions, remote_data::Event::Retry),
        Event::FetchListSessions(remote_data::Event::Retry)
    );
    assert_eq!(
        Event::remote(Slot::CloseSession, remote_data::Event::Retry),
        Event::FetchCloseSession(remote_data::Event::Retry)
    );
}
