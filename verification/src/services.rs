pub mod service;
pub mod ssh;
