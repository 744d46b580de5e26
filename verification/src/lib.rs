//! A scan bridge between a row-at-a-time host executor and a remote engine that
//! answers in columnar batches.
//!
//! The remote engine's columns are Arrow arrays. Everything the bridge decides
//! is verified: which host value a remote cell becomes, how a batch is turned
//! into rows, in which order a scan hands its rows out, and how the state of a
//! scan moves from planning to its end. What is read out of an Arrow array is
//! taken on trust from the Arrow implementation; `column` holds those reads.

pub mod column;
pub mod datum;
pub mod utils;
pub mod results;
pub mod token;
pub mod state;
pub mod functions;
