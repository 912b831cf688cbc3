//! A staking derivative: a contract that bonds native coins to a validator and issues tokens for
//! them. The tokens can be traded, and given up for the coins that they are worth.
//!
//! [`contract`] runs the messages, and [`guard`] runs them only where nothing can leave the
//! machine's limits. [`rules`] says what each message does, over the model of the storage in
//! [`state`] and over the amounts, the ledger and the claims in [`amount`], [`token`] and
//! [`claims`]. [`promises`], [`answers`] and [`ledger`] prove what each message and each query promises
//! to whoever sends it, [`limits`] when it can be run, and [`meanings`] what the model stands for.
//! [`laws`], [`conservation`] and [`histories`] prove what follows for the contract as a whole. The
//! storage and the chain are reached through [`store`] and [`chain`].

pub mod amount;
pub mod answers;
pub mod chain;
pub mod claims;
pub mod conservation;
pub mod contract;
pub mod error;
pub mod guard;
pub mod histories;
pub mod laws;
pub mod ledger;
pub mod limits;
pub mod meanings;
pub mod msg;
pub mod promises;
pub mod rules;
pub mod state;
pub mod store;
pub mod token;
pub mod types;
