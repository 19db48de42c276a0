use vstd::prelude::*;

verus! {

/// The process-wide configuration, as read once at start.
#[derive(Debug)]
pub struct Env {
    pub server_host: String,
    pub server_port: String,
    pub database_url: String,
    pub password_salt: String,
    /// Hexadecimal text of the key that authenticates access tokens.
    pub jwt_access_key: String,
    pub jwt_access_lifetime_in_min: u64,
    /// Hexadecimal text of the key that authenticates refresh tokens.
    pub jwt_refresh_key: String,
    pub jwt_refresh_lifetime_in_min: u64,
    pub upload_dir: String,
}

} // verus!
