pub mod analyze;
pub mod result;
pub mod session;
