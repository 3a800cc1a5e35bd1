//! Whether a running app-server daemon is connected to.

use vstd::prelude::*;

use crate::text::same_text;
use crate::version::cli_version_of;

verus! {

/// How long a daemon may take to tell its version, in milliseconds.
pub const AUTO_CONNECT_DAEMON_PROBE_TIMEOUT_MS: u64 = 250;

/// What a daemon answered when it was asked for its version.
#[derive(Debug, PartialEq, Eq)]
pub enum DaemonProbe {
    /// Its version.
    Version(String),
    /// It could not be asked.
    Failed,
    /// It did not answer in time.
    TimedOut,
}

/// What is done with a daemon.
#[derive(Clone, Copy, Debug, PartialEq, Eq, Structural)]
pub enum ProbeVerdict {
    /// It is connected to.
    Connect,
    /// It is left alone, since it is another build.
    SkipIncompatible,
    /// It is left alone, since it could not be asked.
    SkipFailed,
    /// It is left alone, since it did not answer in time.
    SkipTimedOut,
}

/// What is done with a daemon that gave the answer `probe` to a build of version `cli_version`.
pub open spec fn verdict_of(probe: DaemonProbe, cli_version: Seq<char>) -> ProbeVerdict {
    match probe {
        DaemonProbe::Version(version) => if version@ == cli_version {
            ProbeVerdict::Connect
        } else {
            ProbeVerdict::SkipIncompatible
        },
        DaemonProbe::Failed => ProbeVerdict::SkipFailed,
        DaemonProbe::TimedOut => ProbeVerdict::SkipTimedOut,
    }
}

/// What is done with a daemon that gave the answer `probe`.
pub fn probe_verdict(probe: &DaemonProbe, cli_version: &str) -> (verdict: ProbeVerdict)
    ensures
        verdict == verdict_of(*probe, cli_version@),
{
    match probe {
        DaemonProbe::Version(version) => if same_text(version.as_str(), cli_version) {
            ProbeVerdict::Connect
        } else {
            ProbeVerdict::SkipIncompatible
        },
        DaemonProbe::Failed => ProbeVerdict::SkipFailed,
        DaemonProbe::TimedOut => ProbeVerdict::SkipTimedOut,
    }
}

/// The socket to connect to: `socket_path`, where the daemon there is the same build.
pub fn maybe_probe_default_daemon_socket<S>(
    socket_path: S,
    probe: &DaemonProbe,
    cli_version: &str,
) -> (connected: Option<S>)
    ensures
        connected == (if verdict_of(*probe, cli_version@) == ProbeVerdict::Connect {
            Some(socket_path)
        } else {
            None
        }),
{
    match probe_verdict(probe, cli_version) {
        ProbeVerdict::Connect => Some(socket_path),
        ProbeVerdict::SkipIncompatible => None,
        ProbeVerdict::SkipFailed => None,
        ProbeVerdict::SkipTimedOut => None,
    }
}

/// A daemon is connected to exactly where it tells the version of the asking build.
pub proof fn law_only_the_same_build_is_connected(probe: DaemonProbe, upstream: Seq<char>)
    ensures
        verdict_of(probe, cli_version_of(upstream)) == ProbeVerdict::Connect <==> (
        probe matches DaemonProbe::Version(version) && version@ == cli_version_of(upstream)),
{
}

/// A daemon of the bare upstream version is left alone.
pub proof fn law_upstream_daemon_is_skipped(version: String, upstream: Seq<char>)
    requires
        version@ == upstream,
    ensures
        verdict_of(DaemonProbe::Version(version), cli_version_of(upstream))
            == ProbeVerdict::SkipIncompatible,
{
    crate::version::law_build_is_not_its_upstream(upstream);
}

/// A daemon that tells its version is connected to exactly where that is the version asked for,
/// and is another build otherwise. A daemon that could not be asked, and one that did not answer
/// in time, are left alone for that reason.
pub proof fn law_daemon_is_treated_by_its_answer(
    version: String,
    cli_version: Seq<char>,
)
    ensures
        version@ == cli_version ==> verdict_of(DaemonProbe::Version(version), cli_version)
            == ProbeVerdict::Connect,
        version@ != cli_version ==> verdict_of(DaemonProbe::Version(version), cli_version)
            == ProbeVerdict::SkipIncompatible,
        verdict_of(DaemonProbe::Failed, cli_version) == ProbeVerdict::SkipFailed,
        verdict_of(DaemonProbe::TimedOut, cli_version) == ProbeVerdict::SkipTimedOut,
{
}

} // verus!
