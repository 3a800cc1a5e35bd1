//! The version that this build answers to.

use vstd::prelude::*;

use crate::text::join_three;

verus! {

/// The identity of this build.
pub const CODEX_FORK_BUILD_ID: &'static str = "jkammerland.mcp.17";

/// The user-visible version of this build on top of the upstream version `upstream`.
pub open spec fn cli_version_of(upstream: Seq<char>) -> Seq<char> {
    upstream + "+"@ + CODEX_FORK_BUILD_ID@
}

/// The user-visible version of this build on top of the upstream version `upstream`.
pub fn cli_version(upstream: &str) -> (version: String)
    ensures
        version@ == cli_version_of(upstream@),
{
    join_three(upstream, "+", CODEX_FORK_BUILD_ID)
}

/// Builds on different upstream versions have different versions.
pub proof fn law_versions_tell_upstreams_apart(one: Seq<char>, other: Seq<char>)
    ensures
        cli_version_of(one) == cli_version_of(other) <==> one == other,
{
    let suffix = "+"@ + CODEX_FORK_BUILD_ID@;
    assert(cli_version_of(one) =~= one + suffix);
    assert(cli_version_of(other) =~= other + suffix);
    if cli_version_of(one) == cli_version_of(other) {
        assert(one.len() == other.len());
        assert(one =~= (one + suffix).take(one.len() as int));
        assert(other =~= (other + suffix).take(other.len() as int));
    }
}

/// No version of this build is an upstream version alone.
pub proof fn law_build_is_not_its_upstream(upstream: Seq<char>)
    ensures
        cli_version_of(upstream) != upstream,
{
    reveal_strlit("+");
    assert(cli_version_of(upstream).len() > upstream.len());
}

/// The version is the upstream version followed by the suffix of this build.
pub proof fn law_version_ends_in_the_build(upstream: Seq<char>)
    ensures
        cli_version_of(upstream) == upstream + "+jkammerland.mcp.17"@,
{
    reveal_strlit("+");
    reveal_strlit("jkammerland.mcp.17");
    reveal_strlit("+jkammerland.mcp.17");
    assert(cli_version_of(upstream) =~= upstream + "+jkammerland.mcp.17"@);
}

} // verus!
