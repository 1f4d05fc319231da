//! A multi-agent consensus and ledger-append pipeline.
//!
//! A submitted statement is judged by a configured number of independent
//! agents; each agent's free-text answer is interpreted as a boolean vote,
//! the votes are aggregated into a strict-majority decision, and a record
//! of the statement, the votes and the outcome is appended to an in-memory,
//! append-only ledger.

pub mod collector;
pub mod consensus;
mod external;
pub mod pipeline;
pub mod ledger;
pub mod types;
pub mod validator;
