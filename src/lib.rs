//! Locations of the assets of a sealed sector, as a prover and a verifier see them.
//!
//! A prover needs, for each sector, the sealed replica and its cache; each of
//! the two may live on local storage or in an object-storage service, chosen
//! independently. A verifier only needs the proof version and the commitment.

pub mod commitment;
pub mod proof_version;
pub mod sector_path;
pub mod replica;
pub mod laws;
