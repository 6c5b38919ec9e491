//! State-transition core of a rollup ledger: accounts, operations, their
//! binary public-data codec, priority operations from the base chain and the
//! gas estimator that bounds a block.

pub mod basic;
pub mod abi;
pub mod bytes;
pub mod packing;
pub mod account;
pub mod state;
pub mod tx;
pub mod priority_ops;
pub mod operations;
pub mod zkdpos_op;
pub mod handler;
pub mod gas_counter;
pub mod decimal;
pub mod tokens;
pub mod network;
pub mod config;
pub mod zkdpos_tx;
