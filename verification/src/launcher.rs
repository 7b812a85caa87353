//! Process-launch planning: the two spawn strategies and the fallback policy
//! between them, the child's command-line argument contract, the interpreter
//! mode's source-directory search, and the bundled mode's output-relay
//! decisions.
//!
//! The application performs the spawns, filesystem probes and stream writes;
//! every choice they depend on is decided here.

use vstd::prelude::*;

use crate::decimal::{dec_of, u64_to_dec};

verus! {

/// How the engine child process is created: by invoking an interpreter
/// against source, or by running the bundled platform-native executable.
#[derive(Clone, Copy, Debug, PartialEq, Eq, Structural)]
pub enum SpawnStrategy {
    Interpreter,
    Bundled,
}

/// The strategy tried first: bundled in a packaged build, interpreter in
/// a development build.
pub open spec fn first_strategy_spec(packaged: bool) -> SpawnStrategy {
    if packaged {
        SpawnStrategy::Bundled
    } else {
        SpawnStrategy::Interpreter
    }
}

/// Picks the strategy to try first for this build mode.
pub fn first_strategy(packaged: bool) -> (s: SpawnStrategy)
    ensures
        s == first_strategy_spec(packaged),
{
    if packaged {
        SpawnStrategy::Bundled
    } else {
        SpawnStrategy::Interpreter
    }
}

/// The strategy to retry with after `failed` failed: only a packaged build's
/// bundled attempt falls back (to the interpreter); a failed interpreter
/// attempt is final.
pub open spec fn fallback_after_spec(packaged: bool, failed: SpawnStrategy) -> Option<
    SpawnStrategy,
> {
    if packaged && failed is Bundled {
        Some(SpawnStrategy::Interpreter)
    } else {
        None
    }
}

/// Picks the strategy to retry with after a failed attempt, if any.
pub fn fallback_after(packaged: bool, failed: SpawnStrategy) -> (r: Option<SpawnStrategy>)
    ensures
        r == fallback_after_spec(packaged, failed),
{
    if packaged && matches!(failed, SpawnStrategy::Bundled) {
        Some(SpawnStrategy::Interpreter)
    } else {
        None
    }
}

/// Whether a strategy's spawn attempt succeeds, given the outcome of each
/// kind of attempt.
pub open spec fn strategy_succeeds(
    s: SpawnStrategy,
    bundled_ok: bool,
    interpreter_ok: bool,
) -> bool {
    match s {
        SpawnStrategy::Bundled => bundled_ok,
        SpawnStrategy::Interpreter => interpreter_ok,
    }
}

/// The strategy a launch ends up using: the first strategy if its attempt
/// succeeds, else the fallback strategy if there is one and its attempt
/// succeeds, else nothing.
pub open spec fn launch_outcome(packaged: bool, bundled_ok: bool, interpreter_ok: bool) -> Option<
    SpawnStrategy,
> {
    let first = first_strategy_spec(packaged);
    if strategy_succeeds(first, bundled_ok, interpreter_ok) {
        Some(first)
    } else {
        match fallback_after_spec(packaged, first) {
            Some(second) => if strategy_succeeds(second, bundled_ok, interpreter_ok) {
                Some(second)
            } else {
                None
            },
            None => None,
        }
    }
}

/// A packaged build whose bundled spawn fails falls back to the interpreter:
/// if the interpreter spawn succeeds, the launch succeeds with it.
pub proof fn lemma_fallback_recovers(packaged: bool)
    requires
        packaged,
    ensures
        launch_outcome(packaged, false, true) == Some(SpawnStrategy::Interpreter),
{
}

/// When both spawn strategies fail, the launch fails, in either build mode.
pub proof fn lemma_both_strategies_fail(packaged: bool)
    ensures
        launch_outcome(packaged, false, false) is None,
{
}

/// A development build never attempts the bundled strategy: its launch
/// outcome is decided by the interpreter attempt alone.
pub proof fn lemma_development_uses_interpreter(bundled_ok: bool, interpreter_ok: bool)
    ensures
        first_strategy_spec(false) == SpawnStrategy::Interpreter,
        fallback_after_spec(false, SpawnStrategy::Interpreter) is None,
        launch_outcome(false, bundled_ok, interpreter_ok) == (if interpreter_ok {
            Some(SpawnStrategy::Interpreter)
        } else {
            None::<SpawnStrategy>
        }),
{
}

/// The child's log verbosity: verbose in a development build, minimal in a
/// packaged build.
pub fn spawn_log_level(debug_build: bool) -> (r: &'static str)
    ensures
        debug_build ==> r@ == "DEBUG"@,
        !debug_build ==> r@ == "INFO"@,
{
    if debug_build {
        "DEBUG"
    } else {
        "INFO"
    }
}

/// The argument contract both spawn modes pass to the child:
/// `--port <port> --token <token> --parent-pid <pid> --log-level <level>`.
pub fn engine_cli_args(port: u16, token: &str, parent_pid: u32, log_level: &str) -> (r: Vec<
    String,
>)
    ensures
        r@.len() == 8,
        r@[0]@ == "--port"@,
        r@[1]@ == dec_of(port as nat),
        r@[2]@ == "--token"@,
        r@[3]@ == token@,
        r@[4]@ == "--parent-pid"@,
        r@[5]@ == dec_of(parent_pid as nat),
        r@[6]@ == "--log-level"@,
        r@[7]@ == log_level@,
{
    let mut args: Vec<String> = Vec::new();
    args.push(String::from_str("--port"));
    args.push(u64_to_dec(port as u64));
    args.push(String::from_str("--token"));
    args.push(String::from_str(token));
    args.push(String::from_str("--parent-pid"));
    args.push(u64_to_dec(parent_pid as u64));
    args.push(String::from_str("--log-level"));
    args.push(String::from_str(log_level));
    args
}

/// The interpreter invocation's arguments: run the engine's main module,
/// then the common argument contract.
pub fn interpreter_args(port: u16, token: &str, parent_pid: u32, log_level: &str) -> (r: Vec<
    String,
>)
    ensures
        r@.len() == 10,
        r@[0]@ == "-m"@,
        r@[1]@ == "engine.main"@,
        r@[2]@ == "--port"@,
        r@[3]@ == dec_of(port as nat),
        r@[4]@ == "--token"@,
        r@[5]@ == token@,
        r@[6]@ == "--parent-pid"@,
        r@[7]@ == dec_of(parent_pid as nat),
        r@[8]@ == "--log-level"@,
        r@[9]@ == log_level@,
{
    let mut args: Vec<String> = Vec::new();
    args.push(String::from_str("-m"));
    args.push(String::from_str("engine.main"));
    let mut rest = engine_cli_args(port, token, parent_pid, log_level);
    args.append(&mut rest);
    args
}

/// A base directory joined with the fixed subpath of the engine's sources.
pub open spec fn engine_src_join(base: Seq<char>) -> Seq<char> {
    base + "/engine/src"@
}

/// Joins a base directory with the fixed engine-source subpath.
pub fn join_engine_src(base: &str) -> (r: String)
    ensures
        r@ == engine_src_join(base@),
{
    let mut s = String::from_str(base);
    s.append("/engine/src");
    s
}

/// The interpreter mode's source-directory candidates, in search order:
/// two levels up from the working directory, one level up, and the working
/// directory itself, each joined with the engine-source subpath. Missing
/// ancestors are skipped.
pub open spec fn candidate_seq(
    grandparent: Option<Seq<char>>,
    parent: Option<Seq<char>>,
    current: Seq<char>,
) -> Seq<Seq<char>> {
    (match grandparent {
        Some(b) => seq![engine_src_join(b)],
        None => Seq::<Seq<char>>::empty(),
    }) + (match parent {
        Some(b) => seq![engine_src_join(b)],
        None => Seq::<Seq<char>>::empty(),
    }) + seq![engine_src_join(current)]
}

/// Builds the candidate directories for the interpreter mode's source
/// search, from the working directory and its available ancestors.
pub fn module_path_candidates(
    grandparent: Option<&str>,
    parent: Option<&str>,
    current: &str,
) -> (r: Vec<String>)
    ensures
        r@.map_values(|s: String| s@) =~= candidate_seq(
            (match grandparent {
                Some(b) => Some(b@),
                None => None,
            }),
            (match parent {
                Some(b) => Some(b@),
                None => None,
            }),
            current@,
        ),
{
    let mut r: Vec<String> = Vec::new();
    match grandparent {
        Some(b) => r.push(join_engine_src(b)),
        None => (),
    }
    match parent {
        Some(b) => r.push(join_engine_src(b)),
        None => (),
    }
    r.push(join_engine_src(current));
    r
}

/// Picks the first candidate directory that exists on disk: `candidates`
/// in search order, `present` the result of probing each one.
pub fn select_existing_path(candidates: &Vec<String>, present: &Vec<bool>) -> (r: Option<String>)
    requires
        candidates@.len() == present@.len(),
    ensures
        match r {
            Some(p) => exists|i: int|
                0 <= i < present@.len() && present@[i] && p@ == candidates@[i]@ && (forall|j: int|
                    0 <= j < i ==> !present@[j]),
            None => forall|i: int| 0 <= i < present@.len() ==> !present@[i],
        },
{
    let mut i: usize = 0;
    while i < candidates.len()
        invariant
            candidates@.len() == present@.len(),
            i <= candidates@.len(),
            forall|j: int| 0 <= j < i ==> !present@[j],
        decreases candidates@.len() - i,
    {
        if present[i] {
            return Some(String::from_str(candidates[i].as_str()));
        }
        i = i + 1;
    }
    None
}

/// The error reported when no candidate directory holds the engine sources.
pub fn engine_path_error(current_dir: &str) -> (r: String)
    ensures
        r@ == "Engine path not found. Current dir: "@ + current_dir@,
{
    let mut s = String::from_str("Engine path not found. Current dir: ");
    s.append(current_dir);
    s
}

/// One event from the bundled child's asynchronous stream: an output line,
/// a spawn error, termination, or anything else.
pub enum RelayEvent {
    StdoutLine(Vec<u8>),
    StderrLine(Vec<u8>),
    ErrorMessage(String),
    Terminated,
    Other,
}

/// What the relay does with one event: forward the line to the matching
/// parent stream, note an error, finish on termination, or ignore it.
pub enum RelayAction {
    WriteStdout(Vec<u8>),
    WriteStderr(Vec<u8>),
    NoteError(String),
    Finish,
    Ignore,
}

/// The relay's decision for each event: stdout lines go to the parent's
/// stdout, stderr lines to its stderr, errors are noted, termination ends
/// the relay, and everything else is ignored.
pub open spec fn relay_action_of(e: RelayEvent) -> RelayAction {
    match e {
        RelayEvent::StdoutLine(line) => RelayAction::WriteStdout(line),
        RelayEvent::StderrLine(line) => RelayAction::WriteStderr(line),
        RelayEvent::ErrorMessage(msg) => RelayAction::NoteError(msg),
        RelayEvent::Terminated => RelayAction::Finish,
        RelayEvent::Other => RelayAction::Ignore,
    }
}

/// Decides what to do with one event of the bundled child's stream.
pub fn relay_action(e: RelayEvent) -> (a: RelayAction)
    ensures
        a == relay_action_of(e),
{
    match e {
        RelayEvent::StdoutLine(line) => RelayAction::WriteStdout(line),
        RelayEvent::StderrLine(line) => RelayAction::WriteStderr(line),
        RelayEvent::ErrorMessage(msg) => RelayAction::NoteError(msg),
        RelayEvent::Terminated => RelayAction::Finish,
        RelayEvent::Other => RelayAction::Ignore,
    }
}

} // verus!
