//! Verification of SEV-SNP attestation evidence: a fixed-layout report, a
//! three-certificate endorsement chain, and a caller-chosen nonce.
//!
//! `attest::verify_bundle` runs the stages in order (decoding, chain
//! building, chain verification, report verification, nonce matching) and
//! stops at the first that fails. The nonce comparison can also be reported
//! on its own through `attest::check_bundle_nonce`; a match there is no proof
//! of authenticity. Trusting a root takes more than its self-signature:
//! `cert::root_is_anchor` compares it with an anchor configured out of band.

pub mod bytes;
pub mod der;
pub mod error;
pub mod nonce;
pub mod report;
pub mod cert;
pub mod extensions;
pub mod attest;
pub mod laws;
