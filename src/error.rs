use vstd::prelude::*;

use crate::addr::Addr;

verus! {

/// Relies on cosmwasm_std::StdError only as an opaque value: a storage
/// failure is carried to the caller as it came, never inspected.
#[verifier::external_type_specification]
#[verifier::external_body]
pub struct ExStdError(cosmwasm_std::StdError);

/// Why a command was refused.
#[derive(Debug, PartialEq)]
pub enum ContractError {
    /// Reading or writing the persisted state failed.
    Std(cosmwasm_std::StdError),
    /// The caller may not perform the command.
    Unauthorized { message: String },
    /// The lock is held by `address`.
    AlreadyLocked { address: Addr },
    /// The lock is free.
    AlreadyUnlocked,
}

/// The mathematical value of a refusal.
pub enum Failure {
    Storage,
    Unauthorized(Seq<char>),
    AlreadyLocked(Seq<char>),
    AlreadyUnlocked,
}

impl View for ContractError {
    type V = Failure;

    open spec fn view(&self) -> Failure {
        match self {
            ContractError::Std(_) => Failure::Storage,
            ContractError::Unauthorized { message } => Failure::Unauthorized(message@),
            ContractError::AlreadyLocked { address } => Failure::AlreadyLocked(address@),
            ContractError::AlreadyUnlocked => Failure::AlreadyUnlocked,
        }
    }
}

} // verus!
