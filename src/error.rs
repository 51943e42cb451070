//! Verification errors.
use vstd::prelude::*;
use crate::hash::{H256, U256};

verus! {

/// A block number that is not its parent's plus one.
#[derive(Clone, Copy, Debug, PartialEq, Eq)]
pub struct NumberError {
    pub expected: u64,
    pub actual: u64,
}

#[derive(Clone, Copy, Debug, PartialEq, Eq)]
pub enum TimestampError {
    BlockTimeTooEarly { min: u64, found: u64 },
    BlockTimeTooNew { max: u64, found: u64 },
}

#[derive(Clone, Copy, Debug, PartialEq, Eq)]
pub enum DifficultyError {
    AncestorNotFound,
    MixMismatch { expected: U256, actual: U256 },
}

#[derive(Clone, Copy, Debug, PartialEq, Eq)]
pub enum PowError {
    InvalidProof,
}

/// Why a header or block was rejected.
#[derive(Clone, Copy, Debug, PartialEq, Eq)]
pub enum Error {
    UnknownParent(H256),
    Number(NumberError),
    Timestamp(TimestampError),
    Difficulty(DifficultyError),
    Pow(PowError),
    /// `(expected, actual)`: the committed root and the computed one.
    InvalidTransactionsRoot(H256, H256),
}

} // verus!
