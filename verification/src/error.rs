//! The refusals of the contract.
use vstd::prelude::*;

verus! {

#[derive(Debug, Clone, Copy, PartialEq, Eq, Structural)]
pub enum ContractError {
    /// The sender is not the owner.
    Unauthorized,
    /// No bot in the request is due yet.
    AllPending,
}

} // verus!
