//! A single-writer command pipeline: a typed command line becomes a canonical
//! payload and a storage address, the payload becomes the blueprint of a signed
//! transaction in a one-transaction batch, the batch is run by an execution
//! engine, and the single state change it yields advances the state root.
//!
//! Everything here is a function of plain values. The execution engine, the
//! state store and the signer stay with the caller, who performs the actions
//! this library decides on and reports back what happened.
//!
//! - [`payload`], [`grammar`], [`integer`]: from a line of text to a command.
//! - [`action`], [`wire`], [`varint`]: the payload message and its wire form.
//! - [`address`]: the storage address of an item.
//! - [`transaction`]: from a line to payload bytes and addresses.
//! - [`handler`]: the business rule that a payload applies to what is stored.
//! - [`batcher`]: what is to be signed, as a transaction and as a batch.
//! - [`scheduler`]: the stages of one execution.
//! - [`state_handler`]: from an execution result to the one write to commit.
//! - [`pipeline`]: the control loop that sequences all of these.
//! - [`error`]: the failures of the pipeline.

pub mod action;
pub mod address;
pub mod batcher;
pub mod error;
pub mod grammar;
pub mod handler;
pub mod integer;
pub mod payload;
pub mod pipeline;
pub mod scheduler;
pub mod state_handler;
pub mod transaction;
pub mod varint;
pub mod wire;
