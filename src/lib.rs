//! Verified core of a foreign-callable boundary around a stateful,
//! epoch-indexed hash-based signature scheme.
//!
//! The library owns the decisions that surround the cryptography: the
//! closed set of result codes, the activation and prepared epoch windows of
//! a secret key, the signing precondition, the mapping of every outcome to a
//! code, and the ledger of byte buffers handed across the boundary. The
//! signature scheme's own operations (key generation, signing, verification,
//! encodings) are passed in as closures, and the contracts say what is
//! returned for each outcome they report.

mod result;
mod window;
mod keypair;
mod ledger;

pub use result::LeansigResult;
pub use window::{requested_activation, EpochInterval, KeyWindows, LIFETIME};
pub use keypair::{
    leansig_keypair_generate, leansig_keypair_restore, leansig_sign, leansig_verify,
    leansig_verify_with_keypair, signing_result, verification_result, LeansigKeypair,
};
pub use ledger::{BufferLedger, ReleaseAction};
