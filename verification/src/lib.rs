//! Row-to-column ingestion of weather readings and the bootstrap rules of the
//! table that receives them.
//!
//! The library turns readings into columnar batches, decides whether a table
//! has to be created before data can be appended, and steers a run from
//! configuration to commit. The table engine itself is driven by the caller,
//! which performs each action the library asks for and reports the outcome.
//!
//! Contracts are stated over the mathematical value of each type, its view.
//! What is taken on trust is the behaviour of the system clock and of the JSON
//! object that carries the commit information; both are marked where they are
//! called.

pub mod batch;
pub mod bootstrap;
pub mod clock;
pub mod commit_info;
pub mod pipeline;
pub mod record;
pub mod schema;
