pub mod log;
pub mod message;
