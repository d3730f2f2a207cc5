//! The environment service: which programs are there, and how well the
//! application can run. Nothing is installed yet: the installations answer
//! with fixed values.

use crate::error::ServiceError;
use crate::models::environment::{EnvComponent, EnvSummary, EnvironmentStatus, InstallationResult};
use crate::strings::owned;
use crate::text::{char_is_whitespace, is_whitespace};
use vstd::prelude::*;
use vstd::string::*;

verus! {

/// Tells whether the part of `s` from `from` up to `to` is `s` without the
/// whitespace at its two ends: there is nothing but whitespace before and
/// after the part, and none at its own two ends.
pub open spec fn is_trimmed_part(s: Seq<char>, from: int, to: int) -> bool {
    &&& 0 <= from <= to <= s.len()
    &&& forall|i: int| 0 <= i < from ==> is_whitespace(#[trigger] s[i])
    &&& forall|i: int| to <= i < s.len() ==> is_whitespace(#[trigger] s[i])
    &&& from < to ==> !is_whitespace(s[from]) && !is_whitespace(s[to - 1])
}

/// `s` without the whitespace at its two ends.
pub open spec fn trimmed(s: Seq<char>) -> Seq<char> {
    let bounds = choose|bounds: (int, int)| is_trimmed_part(s, bounds.0, bounds.1);
    s.subrange(bounds.0, bounds.1)
}

/// Any two ways to cut the whitespace off the two ends leave the same text.
pub proof fn lemma_trim_unique(s: Seq<char>, a: int, b: int, c: int, d: int)
    requires
        is_trimmed_part(s, a, b),
        is_trimmed_part(s, c, d),
    ensures
        s.subrange(a, b) == s.subrange(c, d),
{
    if a < b {
        assert(!is_whitespace(s[a]));
        assert(!is_whitespace(s[b - 1]));
        assert(c <= a && b <= d);
        assert(c < d);
        assert(a <= c && d <= b);
    } else {
        if c < d {
            assert(!is_whitespace(s[c]));
            assert(c < a || c >= b);
        }
        assert(s.subrange(a, b) =~= s.subrange(c, d));
    }
}

/// `s` without the whitespace at its two ends.
pub fn trim(s: &str) -> (t: &str)
    ensures
        t@ == trimmed(s@),
{
    let mut from: usize = 0;
    let mut to: usize = 0;
    let mut seen: usize = 0;
    let total: usize = s.unicode_len();
    for c in it: s.chars()
        invariant
            it.seq() == s@,
            seen == it.index(),
            total == s@.len(),
            seen <= total,
            from <= to <= seen,
            to == 0 ==> from == 0,
            forall|i: int| to <= i < seen ==> is_whitespace(#[trigger] s@[i]),
            to > 0 ==> {
                &&& forall|i: int| 0 <= i < from ==> is_whitespace(#[trigger] s@[i])
                &&& from < to
                &&& !is_whitespace(s@[from as int])
                &&& !is_whitespace(s@[to - 1])
            },
    {
        if !char_is_whitespace(c) {
            if to == 0 {
                from = seen;
            }
            to = seen + 1;
        }
        seen = seen + 1;
    }
    proof {
        if to == 0 {
            assert(is_trimmed_part(s@, 0, 0));
        }
        assert(is_trimmed_part(s@, from as int, to as int));
        let bounds = choose|bounds: (int, int)| is_trimmed_part(s@, bounds.0, bounds.1);
        assert(is_trimmed_part(s@, (from as int, to as int).0, (from as int, to as int).1));
        lemma_trim_unique(s@, from as int, to as int, bounds.0, bounds.1);
    }
    s.substring_char(from, to)
}

/// What a program said when it was asked for its version.
pub open spec fn reported_version(success: bool, stdout: Seq<char>, stderr: Seq<char>) -> Option<
    Seq<char>,
> {
    if !success {
        None
    } else if trimmed(stdout).len() > 0 {
        Some(trimmed(stdout))
    } else if trimmed(stderr).len() > 0 {
        Some(trimmed(stderr))
    } else {
        None
    }
}

/// The version that a program reported: what it wrote to its standard
/// output, or else to its standard error, without the whitespace around
/// it. A program that failed or wrote nothing reported none.
pub fn get_version(success: bool, stdout: &str, stderr: &str) -> (version: Option<String>)
    ensures
        match version {
            Some(v) => reported_version(success, stdout@, stderr@) == Some(v@),
            None => reported_version(success, stdout@, stderr@) is None,
        },
{
    if !success {
        return None;
    }
    let out = trim(stdout);
    if !out.is_empty() {
        return Some(owned(out));
    }
    let err = trim(stderr);
    if !err.is_empty() {
        Some(owned(err))
    } else {
        None
    }
}

/// The health for `missing` programs that were not found: 100 less 20 for
/// each of them, but not below 0.
pub open spec fn health_for(missing: int) -> int {
    if 100 - 20 * missing < 0 {
        0
    } else {
        100 - 20 * missing
    }
}

/// 1 where the program was not found, else 0.
pub open spec fn lacking(version: Option<String>) -> int {
    if version is None {
        1
    } else {
        0
    }
}

/// The environment service.
#[derive(Clone, Copy, Debug, PartialEq, Eq, Structural)]
pub struct EnvironmentService;

impl EnvironmentService {
    /// The environment service.
    pub fn new() -> (service: EnvironmentService)
        ensures
            service == EnvironmentService,
    {
        EnvironmentService
    }

    /// Whether the application can run: for now it always can.
    pub fn check_environment(&self) -> (r: Result<EnvironmentStatus, ServiceError>)
        ensures
            r == Ok::<EnvironmentStatus, ServiceError>(EnvironmentStatus::Ready),
    {
        Ok(EnvironmentStatus::Ready)
    }

    /// The summary for the versions that Node.js, npm and the companion
    /// reported. A program that reported none is not installed and counts
    /// as an issue; each issue costs 20 points of health.
    pub fn get_summary(
        &self,
        node: Option<String>,
        npm: Option<String>,
        writeflow: Option<String>,
    ) -> (summary: EnvSummary)
        ensures
            summary.node == (EnvComponent { installed: node is Some, version: node }),
            summary.npm == (EnvComponent { installed: npm is Some, version: npm }),
            summary.writeflow == (EnvComponent { installed: writeflow is Some, version: writeflow }),
            summary.issues == lacking(node) + lacking(npm) + lacking(writeflow),
            summary.health == health_for(summary.issues as int),
    {
        let node = EnvComponent { installed: node.is_some(), version: node };
        let npm = EnvComponent { installed: npm.is_some(), version: npm };
        let writeflow = EnvComponent { installed: writeflow.is_some(), version: writeflow };
        let mut issues: u32 = 0;
        if !node.installed {
            issues = issues + 1;
        }
        if !npm.installed {
            issues = issues + 1;
        }
        if !writeflow.installed {
            issues = issues + 1;
        }
        let health: u8 = (100 - 20 * issues) as u8;
        EnvSummary { health, issues, node, npm, writeflow }
    }

    /// Installs Node.js: for now a fixed answer.
    pub fn install_nodejs(&self) -> (r: Result<InstallationResult, ServiceError>)
        ensures
            r matches Ok(done) && {
                &&& done.tool@ == "nodejs"@
                &&& done.success
                &&& done.message@ == "Node.js installation placeholder"@
                &&& (done.installed_version matches Some(v) && v@ == "18.0.0"@)
            },
    {
        Ok(
            InstallationResult {
                tool: owned("nodejs"),
                success: true,
                message: owned("Node.js installation placeholder"),
                installed_version: Some(owned("18.0.0")),
            },
        )
    }

    /// Installs the command-line companion: for now a fixed answer.
    pub fn install_writeflow_cli(&self) -> (r: Result<InstallationResult, ServiceError>)
        ensures
            r matches Ok(done) && {
                &&& done.tool@ == "writeflow-cli"@
                &&& done.success
                &&& done.message@ == "WriteFlow CLI installation placeholder"@
                &&& (done.installed_version matches Some(v) && v@ == "1.0.0"@)
            },
    {
        Ok(
            InstallationResult {
                tool: owned("writeflow-cli"),
                success: true,
                message: owned("WriteFlow CLI installation placeholder"),
                installed_version: Some(owned("1.0.0")),
            },
        )
    }

    /// Repairs the environment: for now a fixed answer.
    pub fn repair_environment(&self) -> (r: Result<InstallationResult, ServiceError>)
        ensures
            r matches Ok(done) && {
                &&& done.tool@ == "environment"@
                &&& done.success
                &&& done.message@ == "Environment repair placeholder"@
                &&& done.installed_version is None
            },
    {
        Ok(
            InstallationResult {
                tool: owned("environment"),
                success: true,
                message: owned("Environment repair placeholder"),
                installed_version: None,
            },
        )
    }
}

} // verus!
