//! Per-connection features: the handshake state machine.
use vstd::prelude::*;

pub mod connectivity;

pub use connectivity::{ConnectivityHandler, ConnectivityState};

verus! {

} // verus!
