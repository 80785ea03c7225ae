//! Incremental synchronization of partner sales records: a two-level
//! watermark protocol, bounded-fan-out pass orchestration decisions, an
//! in-memory model of the relational store, password-derived envelope
//! encryption for the API credential, and delimited text export.

pub mod enrich;
pub mod errors;
pub mod export;
pub mod feed;
pub mod lookup;
pub mod orchestrator;
pub mod records;
pub mod store;
pub mod vault;
pub mod worker;

