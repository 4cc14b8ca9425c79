pub mod error;
pub mod platform;
pub mod registry;
pub mod launcher;
pub mod coordinator;
