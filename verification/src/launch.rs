//! How the agent process is started: directly, or behind a helper that gives
//! it a terminal or line-buffered streams.

use vstd::prelude::*;
use crate::command::{build_args, resolve_command, spec_build_args, spec_resolve_command,
    spec_working_directory, working_directory, CodexConfig};
use crate::error::ClientError;
use crate::text::{join, spec_join, views};

verus! {

/// One character inside single quotes: a quote closes the quoting, stands
/// escaped, and opens it again; any other character stands for itself.
pub open spec fn spec_escape_char(c: char) -> Seq<char> {
    if c == '\'' {
        seq!['\'', '\\', '\'', '\'']
    } else {
        seq![c]
    }
}

/// The characters of `s`, each escaped for single quotes.
pub open spec fn spec_escape_chars(s: Seq<char>) -> Seq<char>
    decreases s.len(),
{
    if s.len() == 0 {
        Seq::empty()
    } else {
        spec_escape_chars(s.drop_last()) + spec_escape_char(s.last())
    }
}

/// `s` as one word of a POSIX shell command line.
pub open spec fn spec_sh_escape(s: Seq<char>) -> Seq<char> {
    seq!['\''] + spec_escape_chars(s) + seq!['\'']
}

/// Quotes `s` so that a POSIX shell reads it as one word with exactly the
/// characters of `s`. The empty string becomes `''`.
pub fn sh_escape(s: &str) -> (r: String)
    ensures
        r@ == spec_sh_escape(s@),
{
    let mut out = String::new();
    out.push('\'');
    for c in it: s.chars()
        invariant
            it.seq() == s@,
            out@ == seq!['\''] + spec_escape_chars(s@.subrange(0, it.index() as int)),
    {
        let ghost done = s@.subrange(0, it.index() as int);
        let ghost next = s@.subrange(0, it.index() + 1);
        assert(next.drop_last() =~= done);
        if c == '\'' {
            out.push('\'');
            out.push('\\');
            out.push('\'');
            out.push('\'');
        } else {
            out.push(c);
        }
    }
    assert(s@.subrange(0, s@.len() as int) =~= s@);
    out.push('\'');
    out
}

/// How the agent binary is put on a command line.
#[derive(Clone, Copy, Debug, PartialEq, Eq, Structural)]
pub enum SpawnStrategy {
    /// Run the binary itself.
    Direct,
    /// Run it under `script`, which gives it a pseudo-terminal.
    Pty,
    /// Run it under `stdbuf`, which makes its output line-buffered.
    LineBuffered,
}

/// The strategy for a caller that does or does not want a terminal, on a
/// machine that has or lacks the two helpers. `script` is preferred to
/// `stdbuf`; with neither, the binary runs directly.
pub open spec fn spec_choose_strategy(
    want_tty: bool,
    has_script: bool,
    has_stdbuf: bool,
) -> SpawnStrategy {
    if !want_tty {
        SpawnStrategy::Direct
    } else if has_script {
        SpawnStrategy::Pty
    } else if has_stdbuf {
        SpawnStrategy::LineBuffered
    } else {
        SpawnStrategy::Direct
    }
}

/// Chooses the spawn strategy from what the caller wants and what the
/// machine offers.
pub fn choose_strategy(want_tty: bool, has_script: bool, has_stdbuf: bool) -> (s: SpawnStrategy)
    ensures
        s == spec_choose_strategy(want_tty, has_script, has_stdbuf),
{
    if !want_tty {
        SpawnStrategy::Direct
    } else if has_script {
        SpawnStrategy::Pty
    } else if has_stdbuf {
        SpawnStrategy::LineBuffered
    } else {
        SpawnStrategy::Direct
    }
}

/// `which::which` searches the directories of `PATH` for an executable of
/// the given name. The answer depends on the machine, so nothing is
/// claimed of it.
#[verifier::external_body]
fn on_search_path(tool: &str) -> bool {
    which::which(tool).is_ok()
}

/// Chooses the spawn strategy on this machine: looks for `script`, and
/// for `stdbuf` only where `script` is missing. A caller that wants no
/// terminal gets `Direct` without any search.
pub fn select_strategy(want_tty: bool) -> (s: SpawnStrategy)
    ensures
        !want_tty ==> s == SpawnStrategy::Direct,
{
    if !want_tty {
        choose_strategy(false, false, false)
    } else {
        let has_script = on_search_path("script");
        let has_stdbuf = if has_script {
            false
        } else {
            on_search_path("stdbuf")
        };
        choose_strategy(true, has_script, has_stdbuf)
    }
}

/// The binary and its arguments as one shell command: every word quoted,
/// one space between each two.
pub open spec fn spec_command_line(command: Seq<char>, args: Seq<Seq<char>>) -> Seq<char> {
    spec_join(
        seq![spec_sh_escape(command)] + Seq::new(args.len(), |i: int| spec_sh_escape(args[i])),
        " "@,
    )
}

/// Writes the binary and its arguments as one shell command.
pub fn command_line(command: &str, args: &Vec<String>) -> (r: String)
    ensures
        r@ == spec_command_line(command@, views(args@)),
{
    let mut words: Vec<String> = Vec::new();
    words.push(sh_escape(command));
    let mut i: usize = 0;
    while i < args.len()
        invariant
            i <= args.len(),
            views(words@) == seq![spec_sh_escape(command@)] + Seq::new(
                i as nat,
                |k: int| spec_sh_escape(views(args@)[k]),
            ),
        decreases args.len() - i,
    {
        let ghost before = views(words@);
        let word = sh_escape(args[i].as_str());
        words.push(word);
        assert(views(words@) =~= before.push(spec_sh_escape(args@[i as int]@)));
        i = i + 1;
    }
    join(&words, " ")
}

/// The program to start and its arguments, for a binary, its arguments
/// and a strategy.
pub open spec fn spec_wrap_command(
    strategy: SpawnStrategy,
    command: Seq<char>,
    args: Seq<Seq<char>>,
) -> (Seq<char>, Seq<Seq<char>>) {
    match strategy {
        SpawnStrategy::Direct => (command, args),
        SpawnStrategy::Pty => (
            "script"@,
            seq!["-qf"@, "-c"@, spec_command_line(command, args), "/dev/null"@],
        ),
        SpawnStrategy::LineBuffered => ("stdbuf"@, seq!["-oL"@, "-eL"@, command] + args),
    }
}

/// Puts the binary and its arguments behind the helper that the strategy
/// names, or leaves them as they are.
pub fn wrap_command(strategy: SpawnStrategy, command: String, args: Vec<String>) -> (r: (
    String,
    Vec<String>,
))
    ensures
        (r.0@, views(r.1@)) == spec_wrap_command(strategy, command@, views(args@)),
{
    match strategy {
        SpawnStrategy::Direct => (command, args),
        SpawnStrategy::Pty => {
            let line = command_line(command.as_str(), &args);
            let mut wrapped: Vec<String> = Vec::new();
            wrapped.push(String::from_str("-qf"));
            wrapped.push(String::from_str("-c"));
            wrapped.push(line);
            wrapped.push(String::from_str("/dev/null"));
            (String::from_str("script"), wrapped)
        },
        SpawnStrategy::LineBuffered => {
            let mut wrapped: Vec<String> = Vec::new();
            wrapped.push(String::from_str("-oL"));
            wrapped.push(String::from_str("-eL"));
            wrapped.push(command);
            let mut args = args;
            wrapped.append(&mut args);
            (String::from_str("stdbuf"), wrapped)
        },
    }
}

/// Everything needed to start the agent process. Its three standard
/// streams are always piped, and it inherits the caller's environment.
#[derive(Debug)]
pub struct Invocation {
    /// The program to start.
    pub program: String,
    /// Its arguments, in order.
    pub args: Vec<String>,
    /// The directory to start it in, if not the caller's.
    pub working_dir: Option<String>,
}

/// An invocation as plain values.
pub struct InvocationView {
    pub program: Seq<char>,
    pub args: Seq<Seq<char>>,
    pub working_dir: Option<Seq<char>>,
}

impl View for Invocation {
    type V = InvocationView;

    open spec fn view(&self) -> InvocationView {
        InvocationView {
            program: self.program@,
            args: views(self.args@),
            working_dir: match self.working_dir {
                Some(d) => Some(d@),
                None => None,
            },
        }
    }
}

/// The invocation for a configuration, given what discovery found, whether
/// reasoning is forced, and the strategy; `None` where there is no binary.
pub open spec fn spec_plan_invocation(
    c: crate::command::ConfigView,
    discovered: Option<Seq<char>>,
    force_reasoning: bool,
    strategy: SpawnStrategy,
) -> Option<InvocationView> {
    match spec_resolve_command(c.codex_path, discovered) {
        Some(command) => {
            let wrapped = spec_wrap_command(
                strategy,
                command,
                spec_build_args(c, force_reasoning),
            );
            Some(
                InvocationView {
                    program: wrapped.0,
                    args: wrapped.1,
                    working_dir: spec_working_directory(c.working_directory),
                },
            )
        },
        None => None,
    }
}

/// Plans the start of the agent process. Fails with `DiscoveryFailed`
/// exactly when no binary is configured and none was discovered.
pub fn plan_invocation(
    config: &CodexConfig,
    discovered: Option<String>,
    force_reasoning: bool,
    strategy: SpawnStrategy,
) -> (r: Result<Invocation, ClientError>)
    ensures
        match spec_plan_invocation(
            config@,
            match discovered {
                Some(d) => Some(d@),
                None => None,
            },
            force_reasoning,
            strategy,
        ) {
            Some(plan) => r matches Ok(inv) && inv@ == plan,
            None => r matches Err(e) && e is DiscoveryFailed,
        },
{
    match resolve_command(config, discovered) {
        Ok(command) => {
            let args = build_args(config, force_reasoning);
            let (program, args) = wrap_command(strategy, command, args);
            let working_dir = working_directory(config);
            Ok(Invocation { program, args, working_dir })
        },
        Err(e) => Err(e),
    }
}

/// What an attempt to start the process means for the creation of the
/// session: the handle of the started process, or `SpawnFailed` with the
/// cause that the operating system gave.
pub fn spawn_outcome<P>(attempt: Result<P, String>) -> (r: Result<P, ClientError>)
    ensures
        match attempt {
            Ok(process) => r == Ok::<P, ClientError>(process),
            Err(cause) => r matches Err(ClientError::SpawnFailed { cause: c }) && c@ == cause@,
        },
{
    match attempt {
        Ok(process) => Ok(process),
        Err(cause) => Err(ClientError::SpawnFailed { cause }),
    }
}

/// Whatever the strategy, a planned invocation overrides the working
/// directory exactly where the configuration names one, and then with that
/// directory.
pub proof fn lemma_working_directory_is_kept(
    c: crate::command::ConfigView,
    discovered: Option<Seq<char>>,
    force_reasoning: bool,
    strategy: SpawnStrategy,
)
    requires
        spec_plan_invocation(c, discovered, force_reasoning, strategy) is Some,
    ensures
        c.working_directory.len() == 0 ==> spec_plan_invocation(
            c,
            discovered,
            force_reasoning,
            strategy,
        )->0.working_dir is None,
        c.working_directory.len() > 0 ==> spec_plan_invocation(
            c,
            discovered,
            force_reasoning,
            strategy,
        )->0.working_dir == Some(c.working_directory),
{
}

/// Started directly, the agent gets the configured path as its program
/// and the built arguments as they are, with nothing before them.
pub proof fn lemma_direct_invocation_is_verbatim(
    c: crate::command::ConfigView,
    discovered: Option<Seq<char>>,
    force_reasoning: bool,
)
    requires
        c.codex_path is Some,
    ensures
        spec_plan_invocation(c, discovered, force_reasoning, SpawnStrategy::Direct) == Some(
            InvocationView {
                program: c.codex_path->0,
                args: spec_build_args(c, force_reasoning),
                working_dir: spec_working_directory(c.working_directory),
            },
        ),
{
}

} // verus!
