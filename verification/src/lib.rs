//! Verified core of a distributed log-debugging service: job and session
//! models, the rules of the job queue (state records, retry and dead-letter
//! decisions, session key sealing), configuration, and worker decisions.

pub mod text;
pub mod errors;
pub mod models;
pub mod config;
pub mod queue;
pub mod workers;
pub mod services;
pub mod handlers;
