//! A record store for one text message per account.
//!
//! An account is a fixed-capacity storage region with an owner. Four
//! operations act on it: create, read, update and delete. They are reached
//! through [`processor::process_instruction`], which checks ownership and
//! routes by the first byte of the instruction.

pub mod failure;
pub mod identity;
pub mod message;
pub mod account;
pub mod operations;
pub mod processor;
pub mod laws;
