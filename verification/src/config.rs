//! The settings of a marketplace, with their defaults.

use vstd::prelude::*;

verus! {

/// The settings of a marketplace. The times to live are in seconds.
#[derive(Clone, Debug)]
pub struct Config {
    /// The address the server binds to.
    pub server_addr: String,
    pub server_port: u16,
    /// The base URL of the indexer.
    pub gorillapool_base_url: String,
    pub whatsonchain_base_url: String,
    /// The most requests per second that are sent to external services.
    pub api_rate_limit_per_second: u32,
    pub api_rate_limit_burst: u32,
    /// How long ownership data is cached: shortly, for ownership changes.
    pub ownership_cache_ttl: u64,
    /// How long inscription content is cached: long, for it never changes.
    pub content_cache_ttl: u64,
    pub metadata_cache_ttl: u64,
    pub max_cache_entries: u64,
    pub max_concurrent_requests: usize,
    pub db_path: String,
    /// The address that receives the marketplace fee and the tips.
    pub marketplace_fee_address: String,
    /// The public id of the payment provider's app.
    pub handcash_app_id: String,
    /// The secret of the payment provider's app. The default is a
    /// placeholder and has to be replaced before the provider is used.
    pub handcash_app_secret: String,
}

impl Default for Config {
    fn default() -> (config: Self)
        ensures
            config.server_addr@ == "0.0.0.0"@,
            config.server_port == 3000,
            config.gorillapool_base_url@ == "https://ordinals.gorillapool.io/api"@,
            config.whatsonchain_base_url@ == "https://plugins.whatsonchain.com/api/plugin/main"@,
            config.api_rate_limit_per_second == 10,
            config.api_rate_limit_burst == 20,
            config.ownership_cache_ttl == 30,
            config.content_cache_ttl == 86400,
            config.metadata_cache_ttl == 300,
            config.max_cache_entries == 10000,
            config.max_concurrent_requests == 5,
            config.db_path@ == "marketplace_db"@,
            config.marketplace_fee_address@ == "15BvxtG9U61ndVZccSmuG9nQzygzjDqC41"@,
            config.handcash_app_id@ == "68082b6ba117aae3817ec15f"@,
            config.handcash_app_secret@ == "PLACEHOLDER_SECRET_DO_NOT_USE_IN_PRODUCTION"@,
    {
        Config {
            server_addr: "0.0.0.0".to_owned(),
            server_port: 3000,
            gorillapool_base_url: "https://ordinals.gorillapool.io/api".to_owned(),
            whatsonchain_base_url: "https://plugins.whatsonchain.com/api/plugin/main".to_owned(),
            api_rate_limit_per_second: 10,
            api_rate_limit_burst: 20,
            ownership_cache_ttl: 30,
            content_cache_ttl: 86400,
            metadata_cache_ttl: 300,
            max_cache_entries: 10000,
            max_concurrent_requests: 5,
            db_path: "marketplace_db".to_owned(),
            marketplace_fee_address: "15BvxtG9U61ndVZccSmuG9nQzygzjDqC41".to_owned(),
            handcash_app_id: "68082b6ba117aae3817ec15f".to_owned(),
            handcash_app_secret: "PLACEHOLDER_SECRET_DO_NOT_USE_IN_PRODUCTION".to_owned(),
        }
    }
}

} // verus!
