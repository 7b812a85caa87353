//! Supervisor for a local backend "engine" process: lifecycle state machine,
//! port and token negotiation, dual-strategy spawn planning with fallback,
//! and the graceful-then-forceful shutdown protocol.
//!
//! The surrounding application performs the actual process, network and
//! filesystem operations; every decision those operations depend on is made
//! here, with a verified contract.

pub mod decimal;
pub mod launcher;
pub mod ports;
pub mod status;
pub mod supervisor;
pub mod token;
