//! The connection and query engine of a multi-database client: dialect-aware
//! connection construction over several transports, a cancellable query task
//! queue, result spooling with paginated retrieval, and an encrypted
//! credential store. Everything here is verified; the runtime shell around
//! it performs the actual network and disk work against the plans, queries
//! and artifacts these modules produce.

use vstd::prelude::*;

pub mod builder;
pub mod catalog;
pub mod config;
pub mod connection;
pub mod crypto;
pub mod error;
pub mod queue;
pub mod registry;
pub mod spool;
pub mod sql;
pub mod text;
pub mod tx;

verus! {

} // verus!
