//! Re-derivation of a winning number from a slot index and a base58 block hash.
//!
//! The digest material is the slot as eight little-endian bytes followed by the
//! 32 raw hash bytes; its SHA-256 digest is reduced by summing its bytes and
//! taking the remainder modulo the caller's modulus.
pub mod base58;
pub mod digest;
pub mod material;
pub mod verify;
pub mod version;

pub use verify::{verify_from_slot_and_blockhash, VerifyDebug, VerifyError, VerifyResult};
