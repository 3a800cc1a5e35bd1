use codex_lifecycle::daemon_socket::maybe_probe_default_daemon_socket;
use codex_lifecycle::daemon_socket::probe_verdict;
use codex_lifecycle::daemon_socket::DaemonProbe;
use codex_lifecycle::daemon_socket::ProbeVerdict;
use codex_lifecycle::daemon_socket::AUTO_CONNECT_DAEMON_PROBE_TIMEOUT_MS;
use codex_lifecycle::version::cli_version;

fn probed(probe: DaemonProbe) -> Option<&'static str> {
    maybe_probe_default_daemon_socket("control.sock", &probe, &cli_version("0.150.0"))
}

#[test]
fn default_daemon_auto_connect_skips_missing_socket() {
    assert_eq!(probed(DaemonProbe::Failed), None);
}

#[test]
fn default_daemon_auto_connect_accepts_matching_runtime() {
    assert_eq!(
        probed(DaemonProbe::Version(cli_version("0.150.0"))),
        Some("control.sock")
    );
}

#[test]
fn default_daemon_auto_connect_skips_incompatible_runtime() {
    assert_eq!(probed(DaemonProbe::Version("0.151.0".to_string())), None);
}

#[test]
fn daemon_of_the_bare_upstream_version_is_skipped() {
    assert_eq!(probed(DaemonProbe::Version("0.150.0".to_string())), None);
}

#[test]
fn silent_daemon_is_skipped() {
    assert_eq!(probed(DaemonProbe::TimedOut), None);
    assert_eq!(AUTO_CONNECT_DAEMON_PROBE_TIMEOUT_MS, 250);
}

#[test]
fn verdicts_tell_why_a_daemon_is_skipped() {
    let version = cli_version("0.150.0");
    assert_eq!(
        probe_verdict(&DaemonProbe::Version(version.clone()), &version),
        ProbeVerdict::Connect
    );
    assert_eq!(
        probe_verdict(&DaemonProbe::Version("0.151.0".to_string()), &version),
        ProbeVerdict::SkipIncompatible
    );
    assert_eq!(
        probe_verdict(&DaemonProbe::Failed, &version),
        ProbeVerdict::SkipFailed
    );
    assert_eq!(
        probe_verdict(&DaemonProbe::TimedOut, &version),
        ProbeVerdict::SkipTimedOut
    );
}
