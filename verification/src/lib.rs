//! Treasury ledger and governance core of a multi-agent automation platform.
//!
//! The crate custodies pooled funds, splits incoming payments among
//! stakeholders, enforces solvency and spend-rate limits, grants and revokes
//! capability budgets to autonomous agents, and gates structural changes
//! behind explicit delay and authorization rules.
//!
//! Every operation is a pure state transition: it takes the records it reads
//! and writes, the caller's identity, and the current time, and it either
//! commits the whole change or returns an error and leaves every record
//! untouched.  Fund transfers, persistence, and signature verification are the
//! host substrate's business and stay outside this crate.

pub mod aeon;
pub mod agent;
pub mod budget;
pub mod donations;
pub mod errors;
pub mod permission;
pub mod policy;
pub mod treasury;
pub mod types;
pub mod volume;
