//! A verified state-transition engine for a ledger-hosted poll application.
//!
//! The library owns the data model (a configuration singleton and a
//! collection of polls keyed by their question), the persistent store that
//! holds them, and the instantiate / create-poll / vote / query transitions
//! over that store. Every operation is specified as a mathematical state
//! transition and proved against it; the hosting runtime is expected to
//! supply message decoding, address validation and durable storage around
//! this core.

pub mod contract;
pub mod error;
pub mod msg;
pub mod state;
