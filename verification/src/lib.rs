//! A collateralized credit ledger.
//!
//! Participants deposit a fungible balance, the ledger grants each of them a
//! credit line proportional to the deposit, and they may draw down and repay
//! against that line without withdrawing the underlying collateral.
//!
//! This crate holds the accounting state machine alone: the records, the
//! rules governing deposit, withdrawal, credit draw and repayment, and the
//! invariants that keep collateral and debt consistent. Account lookup,
//! authorization, fund custody and event transport belong to the surrounding
//! runtime, which calls the operations here with records it has already
//! loaded and identities it has already checked.

pub mod engine;
pub mod laws;
pub mod state;
