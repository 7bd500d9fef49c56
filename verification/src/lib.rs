//! Node orchestration layer for a small ledger service.
//!
//! A single node loop exclusively owns the ledger: every other thread
//! requests mutations or reads by sending an encoded command, and balance
//! reads are answered over a correlated reply. The modules here hold the
//! command wire protocol, the ledger model, the bootstrap/shutdown state
//! machine with its dispatch step, and the periodic mining scheduler.

pub mod ledger;
pub mod node;
pub mod numeral;
pub mod parse;
pub mod protocol;
pub mod sched;

use vstd::prelude::*;

verus! {

/// Seconds between two mining ticks of the node's scheduler.
pub const BLOCK_MINING_SECS: u64 = 10;

} // verus!
