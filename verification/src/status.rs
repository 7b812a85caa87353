//! Lifecycle status of the supervised engine, and the query surface's
//! combined port/status record.

use vstd::prelude::*;

verus! {

/// Lifecycle phase of the supervised engine process. Exactly one value holds
/// at any instant; `Error` is a dead end that only a fresh start leaves.
#[derive(Clone, Copy, Debug, PartialEq, Eq, Structural)]
pub enum EngineStatus {
    Stopped,
    Starting,
    Running,
    Error,
}

/// What a status query reports: the current (or last-used) port together
/// with the lifecycle phase.
#[derive(Clone, Copy, Debug, PartialEq, Eq, Structural)]
pub struct EngineInfo {
    pub port: u16,
    pub status: EngineStatus,
}

} // verus!
