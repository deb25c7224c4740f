//! The command-dispatch and request-correlation core of a peer-to-peer node.
//!
//! `driver::SwarmDriver` owns the correlation tables. For each command it
//! decides what the network stack is to do (`SwarmDriver::handle_cmd`); the
//! identifiers that the stack hands back are registered in the tables, and
//! taken out exactly once when the operation completes.

use vstd::prelude::*;

pub mod driver;
pub mod laws;
pub mod table;
pub mod types;

verus! {

} // verus!
