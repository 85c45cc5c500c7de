//! Credentials and base URLs.

use vstd::prelude::*;

verus! {

/// Credentials and endpoints for one Alpaca account.
#[derive(Debug, Clone)]
pub struct AlpacaConfig {
    pub api_key_id: String,
    pub api_secret_key: String,
    pub trading_base_url: String,
    pub market_data_base_url: String,
}

/// Base URL of the paper-trading API.
pub open spec fn paper_trading_url() -> Seq<char> {
    "https://paper-api.alpaca.markets"@
}

/// Base URL of the market-data API.
pub open spec fn market_data_url() -> Seq<char> {
    "https://data.alpaca.markets"@
}

/// The text of `choice`, or `fallback` where there is none.
pub open spec fn url_or(choice: Option<String>, fallback: Seq<char>) -> Seq<char> {
    match choice {
        Some(url) => url@,
        None => fallback,
    }
}

impl AlpacaConfig {
    /// A configuration with the given credentials. A base URL that is not
    /// given is that of paper trading, or that of market data.
    pub fn with_defaults(
        api_key_id: String,
        api_secret_key: String,
        trading_base_url: Option<String>,
        market_data_base_url: Option<String>,
    ) -> (config: Self)
        ensures
            config.api_key_id == api_key_id,
            config.api_secret_key == api_secret_key,
            config.trading_base_url@ == url_or(trading_base_url, paper_trading_url()),
            config.market_data_base_url@ == url_or(market_data_base_url, market_data_url()),
    {
        let trading_base_url = match trading_base_url {
            Some(url) => url,
            None => "https://paper-api.alpaca.markets".to_owned(),
        };
        let market_data_base_url = match market_data_base_url {
            Some(url) => url,
            None => "https://data.alpaca.markets".to_owned(),
        };
        AlpacaConfig { api_key_id, api_secret_key, trading_base_url, market_data_base_url }
    }

    /// A configuration for paper trading: the given credentials with the
    /// paper-trading and market-data base URLs.
    pub fn paper(api_key_id: String, api_secret_key: String) -> (config: Self)
        ensures
            config.api_key_id == api_key_id,
            config.api_secret_key == api_secret_key,
            config.trading_base_url@ == paper_trading_url(),
            config.market_data_base_url@ == market_data_url(),
    {
        Self::with_defaults(api_key_id, api_secret_key, None, None)
    }
}

} // verus!
