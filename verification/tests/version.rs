use codex_lifecycle::version::cli_version;
use codex_lifecycle::version::CODEX_FORK_BUILD_ID;

#[test]
fn version_identifies_maintained_fork() {
    assert!(cli_version("0.150.0").contains("+jkammerland.mcp.17"));
}

#[test]
fn version_is_upstream_and_build() {
    assert_eq!(cli_version("0.150.0"), "0.150.0+jkammerland.mcp.17");
    assert_eq!(CODEX_FORK_BUILD_ID, "jkammerland.mcp.17");
    assert_ne!(cli_version("0.150.0"), cli_version("0.151.0"));
    assert_ne!(cli_version("0.150.0"), "0.150.0");
}
