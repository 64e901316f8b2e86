use vstd::prelude::*;

verus! {

#[verifier::external_type_specification]
#[verifier::external_body]
pub struct ExStdError(cosmwasm_std::StdError);

/// Every way an operation of the ledger can fail.
#[derive(Debug)]
pub enum ContractError {
    /// The host could not encode or store a value.
    Std(cosmwasm_std::StdError),
    /// The caller is not the administrator.
    Unauthorized {},
    /// An address is malformed or the parameters contradict the ledger.
    WrongConfig {},
    ExistCoin {},
    InvalidCoin {},
    NoFundsNeed {},
    SeveralCoinsSent {},
    PresaleNotStarted {},
    PresaleEnded {},
    PresaleNotEnded {},
    /// The claimant has a claim record already.
    AlreadyClaimed {},
    /// The claim would take the distributed total past the supply.
    NoEnoughTokens {},
    /// The stored deployment belongs to another contract.
    CannotMigrate { previous_contract: String },
}

} // verus!
