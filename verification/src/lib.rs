//! Verified core of a periodic backup agent for a remote data store.
//!
//! The agent discovers namespaces and databases over the store's HTTP
//! query interface, exports each pair as a dump stream, and uploads the
//! stream to object storage. This crate holds the decision and
//! computation logic of that pipeline — the retry governor, the request
//! and response models, the destination-key derivation, the upload
//! gating and the scheduler's cycle planning — each with a proved
//! contract. The surrounding process (HTTP transport, object storage,
//! daemonization, logging) drives these functions from outside.

pub mod config;
pub mod enumerate;
pub mod export;
pub mod period;
pub mod request;
pub mod response;
pub mod retry;
pub mod schedule;
pub mod timefmt;
pub mod upload;
