//! Port allocation: an ascending scan over the engine's reserved port range.
//!
//! Binding a candidate port is the application's job; the scan below decides
//! which candidate to probe next, guarantees every candidate is in range, and
//! reports exhaustion after the whole range has been refused.

use vstd::prelude::*;

verus! {

/// First port of the reserved range (inclusive).
pub const PORT_RANGE_START: u16 = 48100;

/// End of the reserved range (exclusive).
pub const PORT_RANGE_END: u16 = 48200;

/// State of one ascending scan over the reserved range: `next` is the lowest
/// candidate not yet refused.
pub struct PortScan {
    pub next: u16,
}

/// The candidate the scan offers: the lowest port not yet refused, or
/// nothing once the whole range has been refused.
pub open spec fn current_of(s: PortScan) -> Option<u16> {
    if s.next < PORT_RANGE_END {
        Some(s.next)
    } else {
        None
    }
}

impl PortScan {
    /// The scan never leaves the reserved range.
    pub open spec fn wf(self) -> bool {
        PORT_RANGE_START <= self.next <= PORT_RANGE_END
    }

    /// A fresh scan starts at the bottom of the range: the lowest free port
    /// is preferred, for reproducibility across runs on one machine.
    pub fn new() -> (s: Self)
        ensures
            s.wf(),
            s.next == PORT_RANGE_START,
    {
        PortScan { next: PORT_RANGE_START }
    }

    /// The candidate to probe now, if any is left.
    pub fn current(&self) -> (r: Option<u16>)
        ensures
            r == current_of(*self),
    {
        if self.next < PORT_RANGE_END {
            Some(self.next)
        } else {
            None
        }
    }

    /// Refuses the current candidate (its bind failed) and moves to the next.
    pub fn advance(&mut self)
        requires
            old(self).wf(),
            current_of(*old(self)) is Some,
        ensures
            final(self).wf(),
            final(self).next == old(self).next + 1,
    {
        self.next = self.next + 1;
    }
}

/// Every candidate the scan ever offers lies in the reserved range.
pub proof fn lemma_port_in_range(s: PortScan, p: u16)
    requires
        s.wf(),
        current_of(s) == Some(p),
    ensures
        PORT_RANGE_START <= p < PORT_RANGE_END,
{
}

/// The error reported when every port in the range was refused.
pub fn no_port_error() -> (r: String)
    ensures
        r@ == "No available port in range 48100-48199"@,
{
    String::from_str("No available port in range 48100-48199")
}

} // verus!
