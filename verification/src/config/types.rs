//! The shape of `config.toml`.
use vstd::prelude::*;

verus! {

/// The whole configuration.
pub struct Config {
    /// API config
    pub api: API,
    /// Minecraft server config
    pub server: Server,
    /// Messages config
    pub messages: Messages,
    /// The server icon as a data URL, when one could be loaded
    pub image: Option<String>,
}

/// HTTP API settings.
pub struct API {
    /// API address
    pub addr: String,
    /// API port
    pub port: u16,
    /// Life time of assigned code, in seconds
    pub code_life_time: u64,
    /// Number of digits of an assigned code
    pub code_length: usize,
}

/// Minecraft server settings.
pub struct Server {
    /// Server address
    pub addr: String,
    /// Server port
    pub port: u16,
    /// Server connection timeout, in seconds
    pub timeout: u64,
    /// Minecraft server config
    pub config: ServerConfig,
    /// Server list ping config
    pub status: ServerStatus,
    /// The host name clients must connect through, when one is required
    pub server_ip: Option<String>,
    /// Whether clients of 1.19 to 1.19.2 are let in
    pub support_1_19: bool,
}

/// Protocol settings.
pub struct ServerConfig {
    /// Minecraft server name, sent as the server id
    pub server_name: String,
    /// Protocol version (`0` for auto)
    pub protocol: usize,
    /// Minecraft version string (e.g. `1.20.1`)
    pub version: String,
    /// Session Auth URL: `{{NAME}}` is replaced by the client nickname and `{{HASH}}` by
    /// the generated client hash
    pub auth_url: String,
}

/// What the server list shows.
pub struct ServerStatus {
    /// Server description (you can use MOTD)
    pub description: String,
    /// Max players count, displayed in server list
    pub players_max: usize,
    /// Online players count, displayed in server list
    pub players_online: usize,
    /// Path to the server icon
    pub icon_path: String,
}

/// Messages shown to clients.
pub struct Messages {
    /// Message for success auth: `{{NAME}}` is replaced by the client nickname, `{{UUID}}`
    /// by the client UUID and `{{CODE}}` by the generated code
    pub success: String,
    /// Message for Mojang API error
    pub bad_session: String,
    /// Message for a client that connected through another host name
    pub using_proxy: String,
    /// Message for a client of a protocol version the server does not take
    pub unsupported_client_version: String,
    /// Message for an internal error
    pub internal_error: String,
}

} // verus!
