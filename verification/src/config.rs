//! Configuration records the process is started with. Reading and parsing
//! the configuration file happens outside the library; the values arrive
//! here as plain data.

use vstd::prelude::*;

verus! {

/// The whole startup configuration.
pub struct AppConfig {
    pub telegram: TelegramConfig,
}

/// The notification transport's credentials and the conversations allowed
/// to issue commands.
pub struct TelegramConfig {
    pub bot_token: String,
    pub user_ids: Vec<String>,
}

/// Connection facts for one statically configured camera.
pub struct CameraConfig {
    pub name: String,
    pub ip: String,
    pub snapshot_uri: String,
    pub username: String,
    pub password: String,
}

} // verus!
