//! What the machine offers to the application.

use crate::strings::owned;
use vstd::prelude::*;

verus! {

/// The machine, the command-line companion and the tools around it.
#[derive(Clone, Debug, PartialEq, Eq)]
pub struct EnvironmentInfo {
    pub system: SystemEnvironment,
    pub writeflow: WriteFlowEnvironment,
    pub tools: ToolsEnvironment,
    pub status: EnvironmentStatus,
}

/// The machine.
#[derive(Clone, Debug, PartialEq, Eq)]
pub struct SystemEnvironment {
    pub platform: String,
    pub arch: String,
    pub os_version: String,
    pub available_memory: u64,
    pub disk_space: u64,
    pub cpu_cores: u32,
}

/// The command-line companion.
#[derive(Clone, Debug, PartialEq, Eq)]
pub struct WriteFlowEnvironment {
    pub cli_installed: bool,
    pub cli_version: Option<String>,
    pub cli_path: Option<String>,
    pub config_path: Option<String>,
    pub templates_path: Option<String>,
    pub compatibility: CompatibilityStatus,
}

/// Whether the companion fits the application.
#[derive(Clone, Copy, Debug, PartialEq, Eq, Structural)]
pub enum CompatibilityStatus {
    Compatible,
    UpdateRequired,
    Incompatible,
    NotInstalled,
}

/// The tools that the application can make use of.
#[derive(Clone, Debug, PartialEq, Eq)]
pub struct ToolsEnvironment {
    pub pandoc: ToolInfo,
    pub latex: ToolInfo,
    pub git: ToolInfo,
    pub node: ToolInfo,
    pub python: ToolInfo,
}

/// One tool.
#[derive(Clone, Debug, PartialEq, Eq)]
pub struct ToolInfo {
    pub installed: bool,
    pub version: Option<String>,
    pub path: Option<String>,
    pub required: bool,
}

/// Whether the application can run.
#[derive(Clone, Copy, Debug, PartialEq, Eq, Structural)]
pub enum EnvironmentStatus {
    Ready,
    PartiallyReady,
    NotReady,
    CheckFailed,
}

/// A request to install a tool.
#[derive(Clone, Debug, PartialEq, Eq)]
pub struct InstallationRequest {
    pub tool: String,
    pub version: Option<String>,
    pub auto_install: bool,
}

/// How an installation went.
#[derive(Clone, Debug, PartialEq, Eq)]
pub struct InstallationResult {
    pub tool: String,
    pub success: bool,
    pub message: String,
    pub installed_version: Option<String>,
}

/// What a check of the environment found.
#[derive(Clone, Debug, PartialEq, Eq)]
pub struct EnvironmentCheckResult {
    pub overall_status: EnvironmentStatus,
    pub missing_tools: Vec<String>,
    pub warnings: Vec<String>,
    pub recommendations: Vec<String>,
    pub can_proceed: bool,
}

/// One program that the application runs, as far as it was found.
#[derive(Clone, Debug, PartialEq, Eq)]
pub struct EnvComponent {
    pub installed: bool,
    pub version: Option<String>,
}

/// The state of the three programs that the application runs.
#[derive(Clone, Debug, PartialEq, Eq)]
pub struct EnvSummary {
    /// From 0 to 100.
    pub health: u8,
    /// The number of programs that were not found.
    pub issues: u32,
    pub node: EnvComponent,
    pub npm: EnvComponent,
    pub writeflow: EnvComponent,
}

impl Default for ToolInfo {
    /// A tool that is neither installed nor required.
    fn default() -> (tool: ToolInfo)
        ensures
            tool == (ToolInfo { installed: false, version: None, path: None, required: false }),
    {
        ToolInfo { installed: false, version: None, path: None, required: false }
    }
}

impl ToolInfo {
    /// A tool is missing where it is required and not installed.
    pub open spec fn is_missing(self) -> bool {
        self.required && !self.installed
    }

    /// Tells whether the tool is required and not installed.
    pub fn missing(&self) -> (r: bool)
        ensures
            r == self.is_missing(),
    {
        self.required && !self.installed
    }
}

/// `names` and, where `tool` is missing, `name` after them.
pub open spec fn with_missing(names: Seq<Seq<char>>, tool: ToolInfo, name: Seq<char>) -> Seq<
    Seq<char>,
> {
    if tool.is_missing() {
        names.push(name)
    } else {
        names
    }
}

impl ToolsEnvironment {
    /// The names of the missing tools, in the order pandoc, latex, git,
    /// node, python.
    pub open spec fn missing(self) -> Seq<Seq<char>> {
        with_missing(
            with_missing(
                with_missing(
                    with_missing(
                        with_missing(Seq::empty(), self.pandoc, "pandoc"@),
                        self.latex,
                        "latex"@,
                    ),
                    self.git,
                    "git"@,
                ),
                self.node,
                "node"@,
            ),
            self.python,
            "python"@,
        )
    }
}

fn note_missing(names: &mut Vec<String>, tool: &ToolInfo, name: &str)
    ensures
        final(names).deep_view() == with_missing(old(names).deep_view(), *tool, name@),
{
    if tool.missing() {
        names.push(owned(name));
        assert(names.deep_view() =~= old(names).deep_view().push(name@));
    }
}

impl EnvironmentInfo {
    /// Whether the companion fits the application.
    pub fn check_compatibility(&self) -> (r: CompatibilityStatus)
        ensures
            r == self.writeflow.compatibility,
    {
        self.writeflow.compatibility
    }

    /// The names of the tools that are required and not installed, in the
    /// order pandoc, latex, git, node, python.
    pub fn get_missing_tools(&self) -> (missing: Vec<String>)
        ensures
            missing.deep_view() == self.tools.missing(),
    {
        let mut missing: Vec<String> = Vec::new();
        assert(missing.deep_view() =~= Seq::<Seq<char>>::empty());
        note_missing(&mut missing, &self.tools.pandoc, "pandoc");
        note_missing(&mut missing, &self.tools.latex, "latex");
        note_missing(&mut missing, &self.tools.git, "git");
        note_missing(&mut missing, &self.tools.node, "node");
        note_missing(&mut missing, &self.tools.python, "python");
        missing
    }

    /// Whether the application can run.
    pub fn is_ready(&self) -> (r: bool)
        ensures
            r == (self.status == EnvironmentStatus::Ready),
    {
        match self.status {
            EnvironmentStatus::Ready => true,
            _ => false,
        }
    }
}

} // verus!
