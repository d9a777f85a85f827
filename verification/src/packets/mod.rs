//! Packets of the status and login phases: building the ones the server sends and parsing
//! the ones the client sends.
pub mod disconnect;
pub mod encryption_request;
pub mod encryption_response;
pub mod handshake;
pub mod login_start;
pub mod ping;
pub mod status;
