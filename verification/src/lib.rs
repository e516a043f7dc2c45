//! Resolution of blockchain-facing configuration values.
//!
//! Five required values (four contract addresses and one deployment block
//! hash) may each come from a direct raw string or from one of two JSON
//! deployment-descriptor files. The library merges these sources under a
//! fixed precedence (direct values win), parses every value into a typed
//! form, and fails with a descriptive error if a required value is still
//! missing after the merge.

pub mod config;
pub mod deployment;
pub mod values;
