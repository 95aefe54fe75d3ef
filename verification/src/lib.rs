//! Request inspection for an edge web application firewall: threat bit
//! flags, a risky-delimiter pre-filter, a keyword automaton over request
//! paths and queries, and a direct-mapped verdict cache.

pub mod flags;
pub mod scan;
pub mod decode;
pub mod patterns;
pub mod automaton;
pub mod endings;
pub mod inspector;
pub mod reply;
pub mod laws;
pub mod guarantees;
