//! Login-flow library for a Minecraft authentication server.
pub mod buffer;
pub mod byte_buf_utils;
pub mod config;
pub mod crypto;
pub mod format;
pub mod generators;
pub mod handlers;
pub mod map;
pub mod mojang;
pub mod packets;
pub mod responses;
pub mod session;
pub mod text;
