//! Core library of the Warp deployment tool: the data model of a contract
//! workspace, the message-templating engine, the per-network deployment
//! ledger, and the autodeploy orchestration state machine, all with verified
//! contracts. Process invocation, file handling and argument parsing live in
//! the surrounding binary, which drives the state machine defined here.

pub mod chains;
pub mod commands;
pub mod config;
pub mod deploy;
pub mod error;
pub mod fees;
pub mod ledger;
pub mod retry;
pub mod text;
pub mod tx;

pub use error::WarpError;
