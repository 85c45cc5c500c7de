//! The Alpaca client: one REST client for trading, one for market data,
//! both carrying the account's credentials.

use crate::client::{
    client_headers, client_timeout, no_headers, whole_seconds, RestClient,
    RestClientBuilder, DEFAULT_TIMEOUT_SECS,
};
use crate::config::AlpacaConfig;
use crate::error::{AlpacaError, ApiClientError, Failure};
use crate::headers::{is_field_value, is_header_name, is_token_byte, lower_name};
use vstd::prelude::*;
use vstd::string::*;
use vstd::utf8::encode_utf8;

verus! {

/// The header that carries the key identifier.
pub const KEY_ID_HEADER: &'static str = "APCA-API-KEY-ID";

/// The header that carries the secret key.
pub const SECRET_KEY_HEADER: &'static str = "APCA-API-SECRET-KEY";

/// The default headers of a client that carries the credentials: the key
/// identifier under the one header, the secret key under the other, and
/// nothing else.
pub open spec fn credential_headers(key_id: Seq<u8>, secret_key: Seq<u8>) -> Map<
    Seq<u8>,
    Seq<Seq<u8>>,
> {
    no_headers().insert(lower_name(KEY_ID_HEADER.spec_bytes()), seq![key_id]).insert(
        lower_name(SECRET_KEY_HEADER.spec_bytes()),
        seq![secret_key],
    )
}

/// Whether an HTTP client carries the credentials: with every request it
/// sends the key identifier and the secret key under their two headers,
/// and it gives a request up after thirty seconds.
pub open spec fn carries_credentials(http: reqwest::Client, key_id: Seq<u8>, secret_key: Seq<u8>)
    -> bool {
    let sent = client_headers(http);
    &&& sent.dom().contains(lower_name(KEY_ID_HEADER.spec_bytes()))
    &&& sent[lower_name(KEY_ID_HEADER.spec_bytes())] == key_id
    &&& sent.dom().contains(lower_name(SECRET_KEY_HEADER.spec_bytes()))
    &&& sent[lower_name(SECRET_KEY_HEADER.spec_bytes())] == secret_key
    &&& client_timeout(http) == whole_seconds(DEFAULT_TIMEOUT_SECS)
}

/// A client for the trading API and the market-data API of one account.
pub struct AlpacaClient {
    trading: RestClient,
    market_data: RestClient,
    config: AlpacaConfig,
}

/// The two credential headers have names that a header map takes, and the
/// map files them under different names.
proof fn credential_headers_are_names()
    ensures
        is_header_name(KEY_ID_HEADER.spec_bytes()),
        is_header_name(SECRET_KEY_HEADER.spec_bytes()),
        lower_name(KEY_ID_HEADER.spec_bytes()) != lower_name(SECRET_KEY_HEADER.spec_bytes()),
{
    reveal_strlit("APCA-API-KEY-ID");
    reveal_strlit("APCA-API-SECRET-KEY");
    let key = KEY_ID_HEADER;
    let secret = SECRET_KEY_HEADER;
    assert(is_ascii(key)) by {
        assert forall|i: int| 0 <= i < key@.len() implies (key@[i] as u32) < 128 by {}
    }
    assert(is_ascii(secret)) by {
        assert forall|i: int| 0 <= i < secret@.len() implies (secret@[i] as u32) < 128 by {}
    }
    is_ascii_spec_bytes(key);
    is_ascii_spec_bytes(secret);
    assert forall|i: int| 0 <= i < key.spec_bytes().len() implies is_token_byte(
        #[trigger] key.spec_bytes()[i],
    ) by {}
    assert forall|i: int| 0 <= i < secret.spec_bytes().len() implies is_token_byte(
        #[trigger] secret.spec_bytes()[i],
    ) by {}
    assert(lower_name(secret.spec_bytes()).len() == 19);
}

/// A builder for a client at `base_url` that sends the two credentials as
/// default headers, with the default timeout.
///
/// Each credential must be a header value: visible ASCII, spaces and tabs
/// only. Where one is not, nothing is built and `Config` is returned.
pub fn credentialed_builder(base_url: &str, key_id: &str, secret_key: &str) -> (made: Result<
    RestClientBuilder,
    ApiClientError,
>)
    ensures
        if is_field_value(key_id.spec_bytes()) && is_field_value(secret_key.spec_bytes()) {
            made matches Ok(builder) && builder@.base_url == base_url@ && builder@.headers
                == credential_headers(key_id.spec_bytes(), secret_key.spec_bytes())
                && builder@.header_count <= 2 && builder@.timeout == whole_seconds(
                DEFAULT_TIMEOUT_SECS,
            )
        } else {
            made matches Err(err) && err@ == Failure::Config("failed to parse header value"@)
        },
{
    proof {
        credential_headers_are_names();
    }
    let builder = RestClient::builder(base_url);
    let builder = match builder.header(KEY_ID_HEADER, key_id) {
        Ok(builder) => builder,
        Err(err) => {
            return Err(err);
        },
    };
    builder.header(SECRET_KEY_HEADER, secret_key)
}

/// A REST client for `base_url` that sends the two credentials with every
/// request.
fn credentialed_client(base_url: &str, key_id: &str, secret_key: &str) -> (built: Result<
    RestClient,
    ApiClientError,
>)
    ensures
        match built {
            Ok(client) => is_field_value(key_id.spec_bytes()) && is_field_value(
                secret_key.spec_bytes(),
            ) && client.base_url_of() == base_url@ && carries_credentials(
                client.http_of(),
                key_id.spec_bytes(),
                secret_key.spec_bytes(),
            ),
            Err(err) => if is_field_value(key_id.spec_bytes()) && is_field_value(
                secret_key.spec_bytes(),
            ) {
                err@ is Http
            } else {
                err@ == Failure::Config("failed to parse header value"@)
            },
        },
{
    let builder = match credentialed_builder(base_url, key_id, secret_key) {
        Ok(builder) => builder,
        Err(err) => {
            return Err(err);
        },
    };
    let ghost held = builder@;
    match builder.build() {
        Ok(client) => {
            proof {
                credential_headers_are_names();
                assert(held.headers.dom().contains(lower_name(KEY_ID_HEADER.spec_bytes())));
                assert(held.headers.dom().contains(lower_name(SECRET_KEY_HEADER.spec_bytes())));
            }
            Ok(client)
        },
        Err(err) => Err(err),
    }
}

impl AlpacaClient {
    /// The configuration that this client was made with.
    pub closed spec fn config_of(&self) -> AlpacaConfig {
        self.config
    }

    /// The client for the trading API.
    pub closed spec fn trading_of(&self) -> RestClient {
        self.trading
    }

    /// The client for the market-data API.
    pub closed spec fn market_data_of(&self) -> RestClient {
        self.market_data
    }

    /// The base URL of the trading client.
    pub open spec fn trading_url_of(&self) -> Seq<char> {
        self.trading_of().base_url_of()
    }

    /// The base URL of the market-data client.
    pub open spec fn market_data_url_of(&self) -> Seq<char> {
        self.market_data_of().base_url_of()
    }

    /// A client for the account of `config`.
    ///
    /// Both credentials go into headers, so each must be a header value:
    /// visible ASCII, spaces and tabs only. A credential that is not fails
    /// the construction with `Config`, before anything is built. With good
    /// credentials the only failure left is that of building the HTTP
    /// clients, reported as `Http`. In a client that was made, the trading
    /// client and the market-data client stand at the two base URLs of
    /// `config`, and each sends both credentials with every request.
    pub fn new(config: AlpacaConfig) -> (made: Result<Self, AlpacaError>)
        ensures
            match made {
                Ok(client) => is_field_value(encode_utf8(config.api_key_id@)) && is_field_value(
                    encode_utf8(config.api_secret_key@),
                ) && client.config_of() == config && client.trading_url_of()
                    == config.trading_base_url@ && client.market_data_url_of()
                    == config.market_data_base_url@ && carries_credentials(
                    client.trading_of().http_of(),
                    encode_utf8(config.api_key_id@),
                    encode_utf8(config.api_secret_key@),
                ) && carries_credentials(
                    client.market_data_of().http_of(),
                    encode_utf8(config.api_key_id@),
                    encode_utf8(config.api_secret_key@),
                ),
                Err(err) => if is_field_value(encode_utf8(config.api_key_id@)) && is_field_value(
                    encode_utf8(config.api_secret_key@),
                ) {
                    err@ is Http
                } else {
                    err@ == Failure::Config("failed to parse header value"@)
                },
            },
    {
        let trading = match credentialed_client(
            config.trading_base_url.as_str(),
            config.api_key_id.as_str(),
            config.api_secret_key.as_str(),
        ) {
            Ok(client) => client,
            Err(err) => {
                return Err(AlpacaError::from(err));
            },
        };
        let market_data = match credentialed_client(
            config.market_data_base_url.as_str(),
            config.api_key_id.as_str(),
            config.api_secret_key.as_str(),
        ) {
            Ok(client) => client,
            Err(err) => {
                return Err(AlpacaError::from(err));
            },
        };
        Ok(AlpacaClient { trading, market_data, config })
    }

    /// The configuration that this client was made with.
    pub fn config(&self) -> (config: &AlpacaConfig)
        ensures
            *config == self.config_of(),
    {
        &self.config
    }

    /// The client for the trading API.
    pub fn trading(&self) -> (client: &RestClient)
        ensures
            *client == self.trading_of(),
    {
        &self.trading
    }

    /// The client for the market-data API.
    pub fn market_data(&self) -> (client: &RestClient)
        ensures
            *client == self.market_data_of(),
    {
        &self.market_data
    }
}

} // verus!
