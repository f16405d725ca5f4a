//! Process settings: where the record store lives and which port to serve on.

use vstd::prelude::*;

verus! {

/// Settings read from the `CONFIG_REGION`, `CONFIG_DB_URL` and
/// `CONFIG_SERVER_PORT` environment variables.
#[derive(Debug)]
pub struct AppConfig {
    pub region: String,
    pub db_url: String,
    pub server_port: u16,
}

/// The same settings, as gathered by a layered configuration loader.
#[derive(Debug)]
pub struct Config {
    pub region: String,
    pub db_url: String,
    pub server_port: u16,
}

} // verus!
