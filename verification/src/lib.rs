//! A breadth-limited link crawler, as a verified state machine.
//!
//! The library holds the crawl's decisions: which kind of link a run records,
//! how a page's links change the pending queue and the collected e-mails, what
//! is handed on to be written, and when the run is over. Fetching pages and
//! writing the output are left to the caller, which feeds each fetch's outcome
//! back in.

pub mod kind;
pub mod links;
pub mod crawler;
pub mod laws;
pub mod report;
