pub mod job;
pub mod log;
pub mod session;
