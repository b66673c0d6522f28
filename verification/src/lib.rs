//! Verified core of the Curve lending bot contract on Paloma: who may call it, which
//! bots are due for another `add_collateral` or `repay`, and the ABI-encoded calls
//! that it hands to Paloma for the Vyper contract on the EVM chain.
pub mod abi;
pub mod calls;
pub mod contract;
pub mod error;
pub mod guard;
pub mod laws;
pub mod msg;
pub mod retry;
pub mod state;
