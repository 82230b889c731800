//! A directory-tree sweeper: it walks filesystem entries depth-first and
//! removes files whose name ends with the backup marker `~`, subject to a
//! depth limit, an interactive confirmation, and verbose tracing.
//!
//! The crate holds the traversal-and-decision engine only. All blocking
//! platform work (metadata lookup, directory listing, file deletion, console
//! input and output) is left to a driver: the engine is a state machine that
//! hands the driver one [`sweeper::Request`] at a time and consumes the
//! driver's [`sweeper::Response`], so every decision the sweeper makes is
//! verified here, for every outcome the platform can report.

pub mod laws;
pub mod options;
pub mod policy;
pub mod sweeper;
