//! From a session's configuration to the argument vector of the agent process.

use vstd::prelude::*;
use crate::error::ClientError;
use crate::text::{is_text, prefixed, views};

verus! {

/// How much of the machine the agent may touch.
#[derive(Clone, Copy, Debug, PartialEq, Eq, Structural)]
pub enum SandboxMode {
    ReadOnly,
    WorkspaceWrite,
    DangerFullAccess,
}

impl SandboxMode {
    /// The mode that a configured string stands for: one of the three known
    /// names, and `WorkspaceWrite` for every other string.
    pub open spec fn spec_parse(s: Seq<char>) -> SandboxMode {
        if s == "read-only"@ {
            SandboxMode::ReadOnly
        } else if s == "danger-full-access"@ {
            SandboxMode::DangerFullAccess
        } else {
            SandboxMode::WorkspaceWrite
        }
    }

    /// The name of a mode on the command line.
    pub open spec fn spec_name(self) -> Seq<char> {
        match self {
            SandboxMode::ReadOnly => "read-only"@,
            SandboxMode::WorkspaceWrite => "workspace-write"@,
            SandboxMode::DangerFullAccess => "danger-full-access"@,
        }
    }

    /// Reads a configured sandbox mode. An unknown string is not an error: it
    /// degrades to `WorkspaceWrite`.
    pub fn parse(s: &str) -> (mode: SandboxMode)
        ensures
            mode == Self::spec_parse(s@),
    {
        if is_text(s, "read-only") {
            SandboxMode::ReadOnly
        } else if is_text(s, "danger-full-access") {
            SandboxMode::DangerFullAccess
        } else {
            SandboxMode::WorkspaceWrite
        }
    }

    /// The name of this mode on the command line.
    pub fn name(&self) -> (r: &'static str)
        ensures
            r@ == self.spec_name(),
    {
        match self {
            SandboxMode::ReadOnly => "read-only",
            SandboxMode::WorkspaceWrite => "workspace-write",
            SandboxMode::DangerFullAccess => "danger-full-access",
        }
    }
}

/// What a session is created with. A session keeps its configuration
/// unchanged for as long as it lives.
#[derive(Clone, Debug)]
pub struct CodexConfig {
    /// The agent binary to run; `None` asks for the discovered default.
    pub codex_path: Option<String>,
    /// Model identifier; empty for the agent's default.
    pub model: String,
    /// Approval policy identifier; empty for the agent's default.
    pub approval_policy: String,
    /// Sandbox mode by name; empty for the agent's default.
    pub sandbox_mode: String,
    /// Whether to use the alternate, open-source model provider.
    pub use_oss: bool,
    /// Directory to run the agent in; empty to inherit the caller's.
    pub working_directory: String,
    /// Raw arguments that follow every generated one.
    pub custom_args: Option<Vec<String>>,
}

/// A configuration as plain values.
pub struct ConfigView {
    pub codex_path: Option<Seq<char>>,
    pub model: Seq<char>,
    pub approval_policy: Seq<char>,
    pub sandbox_mode: Seq<char>,
    pub use_oss: bool,
    pub working_directory: Seq<char>,
    pub custom_args: Seq<Seq<char>>,
}

impl View for CodexConfig {
    type V = ConfigView;

    open spec fn view(&self) -> ConfigView {
        ConfigView {
            codex_path: match self.codex_path {
                Some(p) => Some(p@),
                None => None,
            },
            model: self.model@,
            approval_policy: self.approval_policy@,
            sandbox_mode: self.sandbox_mode@,
            use_oss: self.use_oss,
            working_directory: self.working_directory@,
            custom_args: match self.custom_args {
                Some(args) => views(args@),
                None => Seq::empty(),
            },
        }
    }
}

/// The flag that introduces a `key=value` setting.
pub open spec fn setting_flag() -> Seq<char> {
    "-c"@
}

/// The subcommand that selects the machine protocol.
pub open spec fn protocol_subcommand() -> Seq<char> {
    "proto"@
}

/// One `-c key=value` pair, or nothing when the setting is switched off.
pub open spec fn setting(present: bool, key_eq: Seq<char>, value: Seq<char>) -> Seq<Seq<char>> {
    if present {
        seq![setting_flag(), key_eq + value]
    } else {
        Seq::empty()
    }
}

/// The sandbox setting of a configuration: absent for the empty string,
/// else the known mode that the string stands for.
pub open spec fn sandbox_setting(mode: Seq<char>) -> Seq<Seq<char>> {
    setting(mode.len() > 0, "sandbox_mode="@, SandboxMode::spec_parse(mode).spec_name())
}

/// The three settings that make the agent show its reasoning in full.
pub open spec fn reasoning_settings(force: bool) -> Seq<Seq<char>> {
    if force {
        setting(true, "show_raw_agent_reasoning="@, "true"@) + setting(
            true,
            "model_reasoning_effort="@,
            "high"@,
        ) + setting(true, "model_reasoning_summary="@, "detailed"@)
    } else {
        Seq::empty()
    }
}

/// The arguments generated from the configuration itself, in their fixed
/// order: subcommand, provider, model, approval policy, sandbox mode.
pub open spec fn spec_configured_args(c: ConfigView) -> Seq<Seq<char>> {
    seq![protocol_subcommand()] + setting(c.use_oss, "model_provider="@, "oss"@) + setting(
        c.model.len() > 0,
        "model="@,
        c.model,
    ) + setting(c.approval_policy.len() > 0, "approval_policy="@, c.approval_policy)
        + sandbox_setting(c.sandbox_mode)
}

/// The whole argument vector: the configured arguments, the reasoning
/// settings when forced, and the caller's own arguments last.
pub open spec fn spec_build_args(c: ConfigView, force_reasoning: bool) -> Seq<Seq<char>> {
    spec_configured_args(c) + reasoning_settings(force_reasoning) + c.custom_args
}

/// Appends `-c` and `key_eq` followed by `value` to `args`.
fn push_setting(args: &mut Vec<String>, key_eq: &str, value: &str)
    ensures
        views(final(args)@) == views(old(args)@) + setting(true, key_eq@, value@),
{
    args.push(String::from_str("-c"));
    args.push(prefixed(key_eq, value));
}

/// Builds the argument vector of the agent process.
///
/// Later `-c` settings override earlier ones with the same key, so the
/// order is part of the result: the caller's own arguments come last and
/// therefore win.
pub fn build_args(config: &CodexConfig, force_reasoning: bool) -> (args: Vec<String>)
    ensures
        views(args@) == spec_build_args(config@, force_reasoning),
{
    let mut args: Vec<String> = Vec::new();
    args.push(String::from_str("proto"));
    assert(views(args@) =~= seq![protocol_subcommand()]);
    if config.use_oss {
        push_setting(&mut args, "model_provider=", "oss");
    }
    if !config.model.as_str().is_empty() {
        push_setting(&mut args, "model=", config.model.as_str());
    }
    if !config.approval_policy.as_str().is_empty() {
        push_setting(&mut args, "approval_policy=", config.approval_policy.as_str());
    }
    if !config.sandbox_mode.as_str().is_empty() {
        let mode = SandboxMode::parse(config.sandbox_mode.as_str());
        push_setting(&mut args, "sandbox_mode=", mode.name());
    }
    if force_reasoning {
        push_setting(&mut args, "show_raw_agent_reasoning=", "true");
        push_setting(&mut args, "model_reasoning_effort=", "high");
        push_setting(&mut args, "model_reasoning_summary=", "detailed");
    }
    match &config.custom_args {
        Some(custom) => {
            let ghost base = args@;
            let mut i: usize = 0;
            while i < custom.len()
                invariant
                    i <= custom.len(),
                    views(args@) == views(base) + views(custom@).subrange(0, i as int),
                decreases custom.len() - i,
            {
                let ghost before = args@;
                let arg = custom[i].clone();
                args.push(arg);
                assert(views(args@) =~= views(before).push(arg@));
                i = i + 1;
            }
            assert(views(custom@).subrange(0, i as int) =~= views(custom@));
        },
        None => {},
    }
    args
}

/// The binary to run: the configured path as it stands, else the path
/// that discovery found.
pub open spec fn spec_resolve_command(
    configured: Option<Seq<char>>,
    discovered: Option<Seq<char>>,
) -> Option<Seq<char>> {
    match configured {
        Some(p) => Some(p),
        None => discovered,
    }
}

/// Picks the binary to run. `discovered` is what a search of the machine
/// found, if anything; it is used only where no path is configured.
pub fn resolve_command(config: &CodexConfig, discovered: Option<String>) -> (r: Result<
    String,
    ClientError,
>)
    ensures
        match spec_resolve_command(
            config@.codex_path,
            match discovered {
                Some(d) => Some(d@),
                None => None,
            },
        ) {
            Some(p) => r matches Ok(path) && path@ == p,
            None => r matches Err(e) && e is DiscoveryFailed,
        },
{
    match &config.codex_path {
        Some(path) => Ok(path.clone()),
        None => match discovered {
            Some(path) => Ok(path),
            None => Err(ClientError::DiscoveryFailed),
        },
    }
}

/// The directory the process is started in: absent for the empty string.
pub open spec fn spec_working_directory(dir: Seq<char>) -> Option<Seq<char>> {
    if dir.len() == 0 {
        None
    } else {
        Some(dir)
    }
}

/// The working-directory override of a configuration, if it has one.
pub fn working_directory(config: &CodexConfig) -> (r: Option<String>)
    ensures
        match spec_working_directory(config@.working_directory) {
            Some(d) => r matches Some(dir) && dir@ == d,
            None => r is None,
        },
{
    if config.working_directory.as_str().is_empty() {
        None
    } else {
        Some(config.working_directory.clone())
    }
}

/// A sandbox mode that is set, but to none of the three known names, is
/// handed to the agent as `workspace-write`: the argument vector holds
/// `sandbox_mode=workspace-write`, directly after a `-c`.
pub proof fn lemma_unknown_sandbox_mode_degrades(c: ConfigView, force_reasoning: bool)
    requires
        c.sandbox_mode.len() > 0,
        c.sandbox_mode != "read-only"@,
        c.sandbox_mode != "workspace-write"@,
        c.sandbox_mode != "danger-full-access"@,
    ensures
        exists|i: int|
            0 < i < spec_build_args(c, force_reasoning).len() && spec_build_args(
                c,
                force_reasoning,
            )[i - 1] == "-c"@ && #[trigger] spec_build_args(c, force_reasoning)[i]
                == "sandbox_mode=workspace-write"@,
{
    reveal_strlit("sandbox_mode=");
    reveal_strlit("workspace-write");
    reveal_strlit("sandbox_mode=workspace-write");
    let configured = spec_configured_args(c);
    let all = spec_build_args(c, force_reasoning);
    let i = configured.len() - 1;
    assert(all[i] == configured[i]);
}

/// The caller's own arguments end the argument vector, unchanged and in
/// their order, and what stands before them does not depend on them.
pub proof fn lemma_custom_args_come_last(c: ConfigView, force_reasoning: bool)
    ensures
        spec_build_args(c, force_reasoning).len() >= c.custom_args.len(),
        spec_build_args(c, force_reasoning).subrange(
            spec_build_args(c, force_reasoning).len() - c.custom_args.len(),
            spec_build_args(c, force_reasoning).len() as int,
        ) == c.custom_args,
        spec_build_args(c, force_reasoning).subrange(
            0,
            spec_build_args(c, force_reasoning).len() - c.custom_args.len(),
        ) == spec_build_args(ConfigView { custom_args: Seq::empty(), ..c }, force_reasoning),
{
}

/// With provider, model, approval policy and sandbox mode all set, the four
/// settings follow the subcommand in exactly that order.
pub proof fn lemma_settings_keep_their_order(c: ConfigView)
    requires
        c.use_oss,
        c.model.len() > 0,
        c.approval_policy.len() > 0,
        c.sandbox_mode.len() > 0,
    ensures
        spec_configured_args(c) == seq![
            "proto"@,
            "-c"@,
            "model_provider=oss"@,
            "-c"@,
            "model="@ + c.model,
            "-c"@,
            "approval_policy="@ + c.approval_policy,
            "-c"@,
            "sandbox_mode="@ + SandboxMode::spec_parse(c.sandbox_mode).spec_name(),
        ],
{
    reveal_strlit("model_provider=");
    reveal_strlit("oss");
    reveal_strlit("model_provider=oss");
    assert("model_provider="@ + "oss"@ =~= "model_provider=oss"@);
}

} // verus!
