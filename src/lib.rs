//! A registry of compliance attestations: authority-issued claims that a set of
//! wallets met a jurisdiction's requirement for a period, each stored at an
//! address derived from the hash of its audit artifact.

pub mod types;
pub mod lifecycle;
pub mod addressing;
pub mod registry;
pub mod program;
pub mod laws;
