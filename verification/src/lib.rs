//! A verified connection-pool manager for a TDS (tabular data stream)
//! database server.
//!
//! The crate supplies the decision logic behind a pooled-connection
//! lifecycle: parsing a connection descriptor into a structured
//! configuration, classifying connection and validation failures, and
//! driving the bootstrap of a bounded pool.  The network itself (socket
//! connect, protocol login, query round-trips) is asynchronous I/O that an
//! unverified driver performs; it reports each outcome back as a plain
//! event, and every decision taken on those events is verified here.

pub mod bootstrap;
pub mod descriptor;
pub mod errors;
pub mod fixture;
pub mod manager;
pub mod pool;
