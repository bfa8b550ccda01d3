//! Startup controller for a cross-chain relayer.
//!
//! Turns a static configuration plus operator-supplied key material into a
//! fully validated operating context: a resolved relaying mode, parsed
//! contract and payment addresses, a contract filter, a narrowed chain
//! identity, and a readiness-gated handoff to the continuous relay loop.
//! The fallible network operations themselves (opening connections, querying
//! the chain id, waiting for node sync, checking account liveness) are
//! performed by collaborators outside this crate; this crate decides, in a
//! strictly ordered bootstrap protocol, what to do next after each outcome.

pub mod address;
pub mod bootstrap;
pub mod chain_id;
pub mod config;
pub mod errors;
pub mod mode;
