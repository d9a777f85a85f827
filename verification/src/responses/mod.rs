//! The packets the session sends in answer.
pub mod encryption;
pub mod pong;
pub mod status;
