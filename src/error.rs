use vstd::prelude::*;

verus! {

/// The failures that one event can report.
#[derive(Debug, Clone, Copy, PartialEq, Eq, Structural)]
pub enum Error {
    /// The event is malformed or lacks a field it needs.
    InvalidData,
    /// The operation would drive a balance below zero.
    InsufficientFunds,
    /// A balance would leave the range of a decimal.
    Overflow,
    /// The transaction id was already used by a deposit or withdrawal.
    TxExists,
}

impl Error {
    /// A short description of the failure.
    pub fn message(&self) -> (r: &'static str) {
        match self {
            Error::InvalidData => "invalid data",
            Error::InsufficientFunds => "insufficient funds for operation",
            Error::Overflow => "overflow",
            Error::TxExists => "tx already exists",
        }
    }
}

} // verus!
