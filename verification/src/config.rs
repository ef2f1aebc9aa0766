use vstd::prelude::*;

verus! {

/// Process configuration, constructed once at startup and passed in
/// explicitly: the credential store's address, the upstream client pair used
/// when refreshing the credential, and the shared access key that admits
/// callers of the widget endpoint.
pub struct EnvConfig {
    pub database_url: String,
    pub spotify_client_id: String,
    pub spotify_client_secret: String,
    pub api_access_key: String,
}

} // verus!
