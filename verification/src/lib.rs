//! Verified core of a contract virtual machine.
//!
//! A contract script reads and checks the state of the operation that it
//! validates. [`contract_op`] holds the operations of such scripts, [`laws`]
//! what holds of all of them. They work on the registers of [`registers`], the
//! state of [`state`] and [`operation`], and the history of [`contract_state`];
//! [`env`] puts these together. [`bundle`] holds bundles of state transitions
//! and the identifiers that commit to them.

pub mod bundle;
pub mod confinement;
pub mod contract_op;
pub mod contract_state;
pub mod env;
pub mod laws;
pub mod operation;
pub mod registers;
pub mod state;
pub mod types;
