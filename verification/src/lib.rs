//! A relay between an agent that verifies real-world assets and the token
//! module that mints for them.
//!
//! The contract keeps three addresses and its owner. It hands a mint request
//! on to the token module when the trusted agent sends it, lets the owner
//! name another token module, and shows its configuration to anyone.
//! `contract` holds the entry points and states what each of them does;
//! `state` holds the durable state; `msg` and `error` hold the requests and
//! the refusals; `host` holds the calls into the chain's own library.

pub mod address;
pub mod contract;
pub mod error;
pub mod host;
pub mod msg;
pub mod state;
