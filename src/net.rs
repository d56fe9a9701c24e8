//! Connections, the table of connections and the protocol's constants.
use vstd::prelude::*;

pub mod connection;
pub mod connection_manager;
pub mod constants;

pub use connection::Connection;
pub use connection_manager::ConnectionManager;

verus! {

} // verus!
