//! Verified core of a client for the Alpaca brokerage and market-data API.
//!
//! The library holds the parts of the client that decide something: how a
//! response is classified, how pages are gathered, which frames a stream
//! reader forwards, and which text goes out on the wire. Sockets and HTTP
//! exchanges are driven by the caller, who hands their results in as values.

pub mod alpaca;
pub mod client;
pub mod config;
pub mod endpoints;
pub mod error;
pub mod headers;
pub mod pagination;
pub mod stream;
pub mod text;
pub mod types;
pub mod websocket;

pub use alpaca::AlpacaClient;
pub use client::{RestClient, RestClientBuilder};
pub use config::AlpacaConfig;
pub use error::{AlpacaError, ApiClientError};
pub use stream::MarketDataFeed;
