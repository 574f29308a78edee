//! Verified models of the account rules behind an escrow program and a
//! deposit vault program (in a checked and an unchecked arithmetic flavour).
//!
//! Each instruction is a function from the accounts it touches to the
//! updated accounts, plus the system-program transfer that the runtime must
//! carry out, or the error that makes the whole transaction revert.
pub mod escrow;
pub mod instruction;
pub mod pubkey;
pub mod secure;
pub mod vulnerable;
