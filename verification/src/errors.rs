//! The error taxonomy shared by every operation.

use vstd::prelude::*;

verus! {

/// Why an operation was rejected. Every rejection leaves all records
/// untouched: an operation either commits every mutation or none.
#[derive(Clone, Copy, Debug, PartialEq, Eq, Structural)]
pub enum Errors {
    ProgramIsPaused,
    NotWhitelisted,
    NotWholeNumber,
    NotPrivileged,
    NotEnoughBalance,
    OwnerMismatch,
    MintMismatch,
    MetadataAccountMismatch,
    MintFromWrongCollection,
    NotTheMintCreator,
    WrongAmount,
    WrongBondId,
    InvalidRemainingAccounts,
    WrongValue,
    BondIsInactive,
    BondIsNotAVault,
    MerkleTreeMismatch,
    NotCreator,
    AssetIdMismatch,
    VaultBondIdMismatch,
    ParentBondIsNotVault,
    ParentBondIsNotActive,
    /// An intermediate value of unsigned fixed-point arithmetic cannot be
    /// represented; the whole operation aborts with no state change.
    ArithmeticOverflow,
}

} // verus!
