//! The errors that the contract's own rules raise.

use vstd::prelude::*;

verus! {

/// Why an operation was refused.
#[derive(Debug, Clone, Copy, PartialEq, Eq, Structural)]
pub enum ContractError {
    Unauthorized {},
    InsufficientStaked {},
    InsufficientFunds {},
    InvalidAmount {},
    InvalidClaim {},
}

impl ContractError {
    /// The message that the error displays.
    pub fn message(&self) -> (s: String)
        ensures
            s@ == match *self {
                ContractError::Unauthorized {} => "Unauthorized"@,
                ContractError::InsufficientStaked {} => "Insufficient staked amount"@,
                ContractError::InsufficientFunds {} => "Insufficient funds to withdraw"@,
                ContractError::InvalidAmount {} => "InvalidAmount"@,
                ContractError::InvalidClaim {} => "Zero Claim"@,
            },
    {
        match self {
            ContractError::Unauthorized {} => String::from_str("Unauthorized"),
            ContractError::InsufficientStaked {} => String::from_str("Insufficient staked amount"),
            ContractError::InsufficientFunds {} => String::from_str("Insufficient funds to withdraw"),
            ContractError::InvalidAmount {} => String::from_str("InvalidAmount"),
            ContractError::InvalidClaim {} => String::from_str("Zero Claim"),
        }
    }
}

} // verus!
