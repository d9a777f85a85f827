//! What the session does with each client packet.
pub mod encryption_response;
pub mod handshake;
pub mod login_start;
