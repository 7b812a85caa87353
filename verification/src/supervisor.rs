//! The engine supervisor's authoritative state and its lifecycle state
//! machine: `Stopped → Starting → Running → Stopped`, with `Error` reachable
//! from `Starting` on any failure.
//!
//! The application owns the OS process handle, the HTTP shutdown request and
//! the grace-period wait; the transitions below decide everything those
//! operations record or read.

use vstd::prelude::*;

use crate::decimal::{dec_of, u64_to_dec};
use crate::launcher::SpawnStrategy;
use crate::ports::{PORT_RANGE_END, PORT_RANGE_START};
use crate::status::{EngineInfo, EngineStatus};
use crate::token::token_wf;

verus! {

/// The supervisor's authoritative record of the engine's lifecycle: created
/// once at application startup, mutated in place by start and stop, read by
/// the queries. `process` tags which spawn strategy produced the live child
/// whose handle the application holds; it is `None` whenever no child is
/// tracked.
pub struct EngineState {
    pub status: EngineStatus,
    pub port: u16,
    pub token: String,
    pub process: Option<SpawnStrategy>,
}

impl EngineState {
    /// The state machine's invariant: the port stays in the reserved range;
    /// a running engine has a tracked child and a well-formed credential;
    /// in every other phase no child is tracked and the credential is empty.
    pub open spec fn wf(self) -> bool {
        &&& PORT_RANGE_START <= self.port < PORT_RANGE_END
        &&& (self.status is Running ==> self.process is Some && token_wf(self.token@))
        &&& (!(self.status is Running) ==> self.process is None && self.token@.len() == 0)
    }

    /// The initial state: stopped, default port, empty credential, no child.
    pub fn new() -> (s: Self)
        ensures
            s.wf(),
            s.status is Stopped,
            s.port == PORT_RANGE_START,
            s.token@ == Seq::<char>::empty(),
            s.process is None,
    {
        EngineState {
            status: EngineStatus::Stopped,
            port: PORT_RANGE_START,
            token: String::new(),
            process: None,
        }
    }

    /// The short-circuit a start begins with: an engine already running or
    /// starting keeps its port; otherwise the start may proceed.
    pub fn start_precheck(&self) -> (r: Option<u16>)
        ensures
            r == start_precheck_spec(*self),
    {
        if matches!(self.status, EngineStatus::Running) || matches!(
            self.status,
            EngineStatus::Starting,
        ) {
            Some(self.port)
        } else {
            None
        }
    }

    /// Marks the start as under way. Runs only after the precheck declined
    /// to short-circuit, so from `Stopped` or `Error`; nothing else changes,
    /// and in particular no child is tracked yet.
    pub fn begin_starting(&mut self)
        requires
            old(self).wf(),
            !(old(self).status is Running),
            !(old(self).status is Starting),
        ensures
            final(self).wf(),
            final(self).status is Starting,
            final(self).port == old(self).port,
            final(self).token@.len() == 0,
            final(self).process is None,
    {
        self.status = EngineStatus::Starting;
    }

    /// Records a successful spawn: handle tag, port and credential are
    /// stored and only then does the status flip to `Running`, so a
    /// concurrent query never observes `Running` without a tracked child.
    pub fn start_complete(&mut self, port: u16, token: String, kind: SpawnStrategy)
        requires
            old(self).status is Starting,
            PORT_RANGE_START <= port < PORT_RANGE_END,
            token_wf(token@),
        ensures
            final(self).wf(),
            running_post(*old(self), *final(self), port, token@, kind),
    {
        self.process = Some(kind);
        self.port = port;
        self.token = token;
        self.status = EngineStatus::Running;
    }

    /// Records a failed start — no free port, or every spawn strategy
    /// failed: the credential and child are cleared and the status becomes
    /// `Error`, a dead end until a fresh start.
    pub fn start_fail(&mut self)
        requires
            old(self).wf(),
            old(self).status is Starting,
        ensures
            final(self).wf(),
            error_post(*old(self), *final(self)),
    {
        self.status = EngineStatus::Error;
        self.process = None;
        self.token = String::new();
    }

    /// Records the end of a stop: whatever the shutdown request, the grace
    /// wait or the kill reported, the engine is no longer tracked — status
    /// `Stopped`, credential cleared, no child. Callable from any phase.
    pub fn stop_finish(&mut self)
        requires
            old(self).wf(),
        ensures
            final(self).wf(),
            stopped_post(*old(self), *final(self)),
    {
        self.status = EngineStatus::Stopped;
        self.process = None;
        self.token = String::new();
    }
}

/// What a start's short-circuit returns: the current port when the engine
/// is already running or starting, nothing otherwise.
pub open spec fn start_precheck_spec(s: EngineState) -> Option<u16> {
    if s.status is Running || s.status is Starting {
        Some(s.port)
    } else {
        None
    }
}

/// The state a successful start leaves behind: running, with exactly the
/// spawned child's tag, port and credential recorded.
pub open spec fn running_post(
    pre: EngineState,
    post: EngineState,
    port: u16,
    token: Seq<char>,
    kind: SpawnStrategy,
) -> bool {
    &&& post.status is Running
    &&& post.port == port
    &&& post.token@ == token
    &&& post.process == Some(kind)
}

/// The state a failed start leaves behind: `Error`, credential cleared,
/// no tracked child, port untouched.
pub open spec fn error_post(pre: EngineState, post: EngineState) -> bool {
    &&& post.status is Error
    &&& post.token@.len() == 0
    &&& post.process is None
    &&& post.port == pre.port
}

/// The state a stop leaves behind: `Stopped`, credential cleared, no
/// tracked child, port untouched — regardless of what the engine did.
pub open spec fn stopped_post(pre: EngineState, post: EngineState) -> bool {
    &&& post.status is Stopped
    &&& post.token@.len() == 0
    &&& post.process is None
    &&& post.port == pre.port
}

/// The current (or last-used) port.
pub fn get_engine_port(state: &EngineState) -> (r: u16)
    ensures
        r == state.port,
{
    state.port
}

/// The port/status pair the UI polls.
pub fn get_engine_status(state: &EngineState) -> (r: EngineInfo)
    ensures
        r == info_of(*state),
{
    EngineInfo { port: state.port, status: state.status }
}

/// What a status query reports of a state.
pub open spec fn info_of(s: EngineState) -> EngineInfo {
    EngineInfo { port: s.port, status: s.status }
}

/// The current credential; empty whenever the engine is not running.
pub fn get_engine_token(state: &EngineState) -> (r: String)
    ensures
        r@ == state.token@,
{
    String::from_str(state.token.as_str())
}

/// Timeout of the graceful shutdown request, in milliseconds.
pub const SHUTDOWN_REQUEST_TIMEOUT_MS: u64 = 3000;

/// Grace period between the shutdown request and the forceful kill, in
/// milliseconds.
pub const SHUTDOWN_GRACE_MS: u64 = 500;

/// The graceful half of the shutdown protocol, as data: where to POST, and
/// which bearer credential to attach, if any.
pub struct ShutdownRequest {
    pub url: String,
    pub bearer: Option<String>,
}

/// The engine's loopback shutdown endpoint for a port.
pub open spec fn shutdown_url_of(port: u16) -> Seq<char> {
    "http://127.0.0.1:"@ + dec_of(port as nat) + "/shutdown"@
}

/// Builds the graceful shutdown request for the current state: an
/// authenticated POST to the engine's loopback shutdown endpoint, with the
/// credential attached as a bearer token exactly when one is held.
pub fn stop_request(state: &EngineState) -> (r: ShutdownRequest)
    ensures
        r.url@ == shutdown_url_of(state.port),
        state.token@.len() == 0 ==> r.bearer is None,
        state.token@.len() > 0 ==> (r.bearer matches Some(t) && t@ == state.token@),
{
    let mut url = String::from_str("http://127.0.0.1:");
    let port_dec = u64_to_dec(state.port as u64);
    url.append(port_dec.as_str());
    url.append("/shutdown");
    let bearer: Option<String> = if state.token.as_str().unicode_len() == 0 {
        None
    } else {
        Some(String::from_str(state.token.as_str()))
    };
    ShutdownRequest { url, bearer }
}

/// A start that finds the engine already running or starting returns the
/// existing port and changes nothing — no new spawn is attempted.
pub proof fn lemma_start_idempotent(s: EngineState)
    requires
        s.status is Running || s.status is Starting,
    ensures
        start_precheck_spec(s) == Some(s.port),
{
}

/// After a successful start, a status query reports `Running` with a port
/// in the reserved range, and the credential query returns a non-empty
/// credential.
pub proof fn lemma_start_success_observable(
    pre: EngineState,
    post: EngineState,
    port: u16,
    token: Seq<char>,
    kind: SpawnStrategy,
)
    requires
        running_post(pre, post, port, token, kind),
        PORT_RANGE_START <= port < PORT_RANGE_END,
        token_wf(token),
    ensures
        info_of(post).status is Running,
        PORT_RANGE_START <= info_of(post).port < PORT_RANGE_END,
        post.token@.len() > 0,
{
}

/// After a stop, a status query reports `Stopped` and the credential query
/// returns an empty credential — whatever phase the stop began in and
/// whatever the engine answered.
pub proof fn lemma_stop_observable(pre: EngineState, post: EngineState)
    requires
        stopped_post(pre, post),
    ensures
        info_of(post).status is Stopped,
        post.token@.len() == 0,
        post.process is None,
{
}

/// A stop that finds the engine already stopped leaves it stopped, with
/// the port it had.
pub proof fn lemma_stop_when_stopped(pre: EngineState, post: EngineState)
    requires
        pre.status is Stopped,
        stopped_post(pre, post),
    ensures
        info_of(post).status is Stopped,
        info_of(post).port == info_of(pre).port,
{
}

} // verus!
