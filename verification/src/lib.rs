//! Reserve-attestation evaluation and compliance moderation.
//!
//! The crate evaluates financial-reserve attestations submitted by
//! participants (banks, custodians) against policy thresholds, and enforces
//! the compliance consequences of the resulting verdicts: strikes, blacklisting,
//! reputation decay, and appeal-driven reinstatement.

pub mod appeals;
pub mod attestation;
pub mod moderation;
pub mod registry;
pub mod sbt;
pub mod text;

pub use attestation::{prove_reserves_multi_asset, MultiAssetProofInput};
