//! What the fetch-only provider is configured with.

use vstd::prelude::*;

verus! {

/// Which of the provider's two services is used.
#[derive(Debug, Clone, Copy, PartialEq, Eq, Structural)]
pub enum Environment {
    /// The service with made-up data, for trying things out.
    Sandbox,
    /// The service with the data of real accounts.
    Live,
}

/// What holds for every provider of the fetch-only client: where the
/// client's credentials are kept, and which service is used.
#[derive(Debug, Clone)]
pub struct MainConfig {
    pub client_credentials: String,
    pub environment: Environment,
}

/// One provider of the fetch-only client: where its token is kept, where
/// its files go, and what is fetched.
#[derive(Debug, Clone)]
pub struct ProviderConfig {
    pub user_token: String,
    pub target_dir: String,
    pub scrape_accounts: bool,
    pub scrape_cards: bool,
    pub scrape_info: bool,
}

impl ProviderConfig {
    /// A provider with the given token and target, for which nothing is
    /// switched on: each of the three switches is off unless it is set.
    pub fn new(user_token: String, target_dir: String) -> (r: ProviderConfig)
        ensures
            r.user_token == user_token,
            r.target_dir == target_dir,
            !r.scrape_accounts,
            !r.scrape_cards,
            !r.scrape_info,
    {
        ProviderConfig {
            user_token,
            target_dir,
            scrape_accounts: false,
            scrape_cards: false,
            scrape_info: false,
        }
    }
}

} // verus!
