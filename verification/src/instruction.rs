//! What every instruction handler takes and gives back.
use vstd::prelude::*;

use crate::pubkey::Pubkey;

verus! {

/// The accounts an instruction was given, with the id of the program that
/// runs it.
#[derive(Clone, Copy, Debug, PartialEq, Eq)]
pub struct Context<T> {
    pub program_id: Pubkey,
    pub accounts: T,
}

/// Why an instruction failed. A failed instruction makes the whole
/// transaction revert: no account it was given changes.
#[derive(Clone, Copy, Debug, PartialEq, Eq)]
pub enum InstructionError<E> {
    /// An account's address is not the program-derived address of the seeds
    /// its accounts struct declares for it (or no address derives from them).
    ConstraintSeeds,
    /// A `constraint = ..` of an accounts struct does not hold.
    ConstraintRaw,
    /// The program's own error.
    Program(E),
}

/// A lamport transfer that the handler asks the system program to make
/// (a cross-program invocation). The runtime carries it out after the handler
/// has updated the accounts; when the system program refuses it, the whole
/// transaction reverts.
#[derive(Clone, Copy, Debug, PartialEq, Eq)]
pub struct SystemTransfer {
    pub from: Pubkey,
    pub to: Pubkey,
    pub lamports: u64,
}

} // verus!
