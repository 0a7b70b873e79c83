//! Core logic of a dynamic-DNS synchronizer.
//!
//! The library holds everything that can be stated and proved: deriving the
//! registrable apex from a domain name, interpreting the DNS provider's
//! response envelopes, scanning record lists, parsing the diagnostic trace
//! text that reports the caller's public address, and deciding which address
//! families get an update. The surrounding binary performs the HTTP exchanges
//! and hands the decoded values to these functions.

pub mod text;
pub mod provider;
pub mod trace;
pub mod reconcile;
