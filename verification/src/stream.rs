//! The Alpaca streams: their endpoints and the control messages that go out
//! on them.

use crate::config::AlpacaConfig;
use crate::text::{joined, replace_all, replaced, same_text};
use vstd::prelude::*;
use vstd::string::*;

verus! {

/// Where market data comes from.
#[derive(Debug, Clone, Copy, PartialEq, Eq, Structural)]
pub enum MarketDataFeed {
    /// All US exchanges; needs a paid plan.
    Sip,
    /// The Investors Exchange only; free.
    Iex,
    /// Made-up data for development.
    Test,
}

/// The endpoint of a market-data feed.
pub open spec fn feed_url(feed: MarketDataFeed) -> Seq<char> {
    match feed {
        MarketDataFeed::Sip => "wss://stream.data.alpaca.markets/v2/sip"@,
        MarketDataFeed::Iex => "wss://stream.data.alpaca.markets/v2/iex"@,
        MarketDataFeed::Test => "wss://stream.data.alpaca.markets/v2/test"@,
    }
}

impl MarketDataFeed {
    /// The endpoint of this feed.
    pub fn url(&self) -> (url: &'static str)
        ensures
            url@ == feed_url(*self),
    {
        match self {
            MarketDataFeed::Sip => "wss://stream.data.alpaca.markets/v2/sip",
            MarketDataFeed::Iex => "wss://stream.data.alpaca.markets/v2/iex",
            MarketDataFeed::Test => "wss://stream.data.alpaca.markets/v2/test",
        }
    }
}

/// The endpoint of the trade-updates stream of the account whose trading API
/// is at `trading_base_url`: the same address with `wss://` for `https://`,
/// and `/stream` after it.
pub open spec fn trade_updates_endpoint(trading_base_url: Seq<char>) -> Seq<char> {
    replaced(trading_base_url, "https://"@, "wss://"@) + "/stream"@
}

/// The endpoint of the trade-updates stream for `config`.
pub fn trade_updates_url(config: &AlpacaConfig) -> (url: String)
    ensures
        url@ == trade_updates_endpoint(config.trading_base_url@),
{
    let mut url = replace_all(config.trading_base_url.as_str(), "https://", "wss://");
    url.append("/stream");
    url
}

/// The kinds of message that the market-data stream sends. Each message
/// names its kind in its `T` field.
#[derive(Debug, Clone, Copy, PartialEq, Eq, Structural)]
pub enum StreamMessageKind {
    /// The handshake went through.
    Success,
    /// The handshake or the protocol failed.
    Error,
    /// The subscription now in force.
    Subscription,
    /// A trade tick.
    Trade,
    /// A quote tick.
    Quote,
    /// A bar tick.
    Bar,
}

/// The value of the `T` field that names a kind of message.
pub open spec fn kind_tag(kind: StreamMessageKind) -> Seq<char> {
    match kind {
        StreamMessageKind::Success => "success"@,
        StreamMessageKind::Error => "error"@,
        StreamMessageKind::Subscription => "subscription"@,
        StreamMessageKind::Trade => "t"@,
        StreamMessageKind::Quote => "q"@,
        StreamMessageKind::Bar => "b"@,
    }
}

/// The kind of message that a value of the `T` field names, if it names one.
pub open spec fn tagged_kind(tag: Seq<char>) -> Option<StreamMessageKind> {
    if tag == "success"@ {
        Some(StreamMessageKind::Success)
    } else if tag == "error"@ {
        Some(StreamMessageKind::Error)
    } else if tag == "subscription"@ {
        Some(StreamMessageKind::Subscription)
    } else if tag == "t"@ {
        Some(StreamMessageKind::Trade)
    } else if tag == "q"@ {
        Some(StreamMessageKind::Quote)
    } else if tag == "b"@ {
        Some(StreamMessageKind::Bar)
    } else {
        None
    }
}

impl StreamMessageKind {
    /// The value of the `T` field that names this kind.
    pub fn tag(&self) -> (tag: &'static str)
        ensures
            tag@ == kind_tag(*self),
    {
        match self {
            StreamMessageKind::Success => "success",
            StreamMessageKind::Error => "error",
            StreamMessageKind::Subscription => "subscription",
            StreamMessageKind::Trade => "t",
            StreamMessageKind::Quote => "q",
            StreamMessageKind::Bar => "b",
        }
    }

    /// The kind that `tag` names, for the caller to parse the message as.
    pub fn from_tag(tag: &str) -> (kind: Option<StreamMessageKind>)
        ensures
            kind == tagged_kind(tag@),
    {
        if same_text(tag, "success") {
            Some(StreamMessageKind::Success)
        } else if same_text(tag, "error") {
            Some(StreamMessageKind::Error)
        } else if same_text(tag, "subscription") {
            Some(StreamMessageKind::Subscription)
        } else if same_text(tag, "t") {
            Some(StreamMessageKind::Trade)
        } else if same_text(tag, "q") {
            Some(StreamMessageKind::Quote)
        } else if same_text(tag, "b") {
            Some(StreamMessageKind::Bar)
        } else {
            None
        }
    }
}

/// Every kind is the one that its own tag names.
pub proof fn tag_names_its_kind(kind: StreamMessageKind)
    ensures
        tagged_kind(kind_tag(kind)) == Some(kind),
{
    reveal_strlit("success");
    reveal_strlit("error");
    reveal_strlit("subscription");
    reveal_strlit("t");
    reveal_strlit("q");
    reveal_strlit("b");
    assert("success"@.len() == 7 && "error"@.len() == 5 && "subscription"@.len() == 12);
    assert("t"@[0] == 't' && "q"@[0] == 'q' && "b"@[0] == 'b');
}

/// What it takes to open a stream: where to connect, and the handshake to
/// send first.
#[derive(Debug)]
pub struct StreamEndpoint {
    pub url: String,
    pub handshake: ControlMessage,
}

impl StreamEndpoint {
    /// The market-data stream of `feed`, opened with the key and the secret
    /// of `config`.
    pub fn market_data(config: &AlpacaConfig, feed: MarketDataFeed) -> (endpoint: Self)
        ensures
            endpoint.url@ == feed_url(feed),
            endpoint.handshake@ == (ControlModel::Auth {
                key: config.api_key_id@,
                secret: config.api_secret_key@,
            }),
    {
        StreamEndpoint {
            url: feed.url().to_owned(),
            handshake: ControlMessage::market_data_auth(config),
        }
    }

    /// The trade-updates stream of the account of `config`. Once it is open
    /// the caller still has to ask for the channel, with
    /// `ControlMessage::listen_trade_updates`.
    pub fn trade_updates(config: &AlpacaConfig) -> (endpoint: Self)
        ensures
            endpoint.url@ == trade_updates_endpoint(config.trading_base_url@),
            endpoint.handshake@ == (ControlModel::Authenticate {
                key_id: config.api_key_id@,
                secret_key: config.api_secret_key@,
            }),
    {
        StreamEndpoint {
            url: trade_updates_url(config),
            handshake: ControlMessage::trade_updates_auth(config),
        }
    }
}

/// Whether a subscription message adds channels or takes them away.
#[derive(Debug, Clone, Copy, PartialEq, Eq, Structural)]
pub enum SubscriptionAction {
    Subscribe,
    Unsubscribe,
}

/// The word that names a subscription action on the wire.
pub open spec fn action_word(action: SubscriptionAction) -> Seq<char> {
    match action {
        SubscriptionAction::Subscribe => "subscribe"@,
        SubscriptionAction::Unsubscribe => "unsubscribe"@,
    }
}

/// A message that the client sends to steer a stream.
#[derive(Debug)]
pub enum ControlMessage {
    /// The handshake of the market-data stream.
    Auth { key: String, secret: String },
    /// The handshake of the trade-updates stream.
    Authenticate { key_id: String, secret_key: String },
    /// Asks the trade-updates stream for the named channels.
    Listen { streams: Vec<String> },
    /// Adds or removes symbols, by kind of tick. All three lists go out,
    /// an empty one as an empty list.
    Subscription {
        action: SubscriptionAction,
        trades: Vec<String>,
        quotes: Vec<String>,
        bars: Vec<String>,
    },
}

/// `ControlMessage` with its texts as character sequences.
pub enum ControlModel {
    Auth { key: Seq<char>, secret: Seq<char> },
    Authenticate { key_id: Seq<char>, secret_key: Seq<char> },
    Listen { streams: Seq<Seq<char>> },
    Subscription {
        action: SubscriptionAction,
        trades: Seq<Seq<char>>,
        quotes: Seq<Seq<char>>,
        bars: Seq<Seq<char>>,
    },
}

/// The texts of a list of strings.
pub open spec fn texts(items: Seq<String>) -> Seq<Seq<char>> {
    Seq::new(items.len(), |i: int| items[i]@)
}

/// The texts of a list of string slices.
pub open spec fn slice_texts(items: Seq<&str>) -> Seq<Seq<char>> {
    Seq::new(items.len(), |i: int| items[i]@)
}

impl View for ControlMessage {
    type V = ControlModel;

    open spec fn view(&self) -> ControlModel {
        match self {
            ControlMessage::Auth { key, secret } => ControlModel::Auth {
                key: key@,
                secret: secret@,
            },
            ControlMessage::Authenticate { key_id, secret_key } => ControlModel::Authenticate {
                key_id: key_id@,
                secret_key: secret_key@,
            },
            ControlMessage::Listen { streams } => ControlModel::Listen { streams: texts(streams@) },
            ControlMessage::Subscription { action, trades, quotes, bars } => {
                ControlModel::Subscription {
                    action: *action,
                    trades: texts(trades@),
                    quotes: texts(quotes@),
                    bars: texts(bars@),
                }
            },
        }
    }
}

/// `serde_json::Error`: why a value could not be written as JSON.
#[verifier::external_type_specification]
#[verifier::external_body]
pub struct ExJsonError(serde_json::Error);

/// What `serde_json` makes of the string `text`: its JSON string literal
/// (the text between double quotes, with what JSON does not take as it is
/// escaped), or `None` where it will not write the string.
pub uninterp spec fn json_string(text: Seq<char>) -> Option<Seq<char>>;

/// `serde_json::to_string` on a string slice: the JSON string literal for
/// `text`, or the refusal to write one.
#[verifier::external_body]
fn quote(text: &str) -> (quoted: Result<String, serde_json::Error>)
    ensures
        quoted is Ok <==> json_string(text@) is Some,
        quoted matches Ok(literal) ==> json_string(text@) == Some(literal@),
{
    serde_json::to_string(text)
}

/// The `Display` text of a `serde_json::Error`.
#[verifier::external_body]
fn json_error_text(err: &serde_json::Error) -> (text: String) {
    err.to_string()
}

/// Whether `text` can be written as a JSON string literal.
pub open spec fn has_literal(text: Seq<char>) -> bool {
    json_string(text) is Some
}

/// The JSON string literal for `text`; empty where there is none.
pub open spec fn literal(text: Seq<char>) -> Seq<char> {
    match json_string(text) {
        Some(written) => written,
        None => Seq::empty(),
    }
}

/// Whether each of `items` can be written as a JSON string literal.
pub open spec fn all_have_literals(items: Seq<Seq<char>>) -> bool {
    forall|i: int| 0 <= i < items.len() ==> has_literal(#[trigger] items[i])
}

/// The JSON string literals for `items`, with commas between them.
pub open spec fn json_strings(items: Seq<Seq<char>>) -> Seq<char>
    decreases items.len(),
{
    if items.len() == 0 {
        Seq::empty()
    } else if items.len() == 1 {
        literal(items[0])
    } else {
        json_strings(items.drop_last()) + ","@ + literal(items.last())
    }
}

/// The JSON array of the strings `items`.
pub open spec fn json_array(items: Seq<Seq<char>>) -> Seq<char> {
    "["@ + json_strings(items) + "]"@
}

/// Whether a control message can be written as JSON: whether each string
/// in it can.
pub open spec fn writable(message: ControlModel) -> bool {
    match message {
        ControlModel::Auth { key, secret } => has_literal(key) && has_literal(secret),
        ControlModel::Authenticate { key_id, secret_key } => has_literal(key_id) && has_literal(
            secret_key,
        ),
        ControlModel::Listen { streams } => all_have_literals(streams),
        ControlModel::Subscription { action, trades, quotes, bars } => all_have_literals(trades)
            && all_have_literals(quotes) && all_have_literals(bars),
    }
}

/// The JSON text of a control message that can be written, without white
/// space and with the keys of each object in alphabetical order.
pub open spec fn control_text(message: ControlModel) -> Seq<char> {
    match message {
        ControlModel::Auth { key, secret } => "{\"action\":\"auth\",\"key\":"@ + literal(key)
            + ",\"secret\":"@ + literal(secret) + "}"@,
        ControlModel::Authenticate { key_id, secret_key } =>
            "{\"action\":\"authenticate\",\"data\":{\"key_id\":"@ + literal(key_id)
            + ",\"secret_key\":"@ + literal(secret_key) + "}}"@,
        ControlModel::Listen { streams } => "{\"action\":\"listen\",\"data\":{\"streams\":"@
            + json_array(streams) + "}}"@,
        ControlModel::Subscription { action, trades, quotes, bars } => "{\"action\":\""@
            + action_word(action) + "\",\"bars\":"@ + json_array(bars) + ",\"quotes\":"@
            + json_array(quotes) + ",\"trades\":"@ + json_array(trades) + "}"@,
    }
}

/// Appends the JSON string literal for `text`. Where there is none, `out`
/// stays as it is and the refusal is reported.
fn append_string(out: &mut String, text: &str) -> (done: Result<(), String>)
    ensures
        match json_string(text@) {
            Some(written) => done is Ok && final(out)@ == old(out)@ + written,
            None => done is Err && final(out)@ == old(out)@,
        },
{
    match quote(text) {
        Ok(written) => {
            out.append(written.as_str());
            Ok(())
        },
        Err(err) => Err(json_error_text(&err)),
    }
}

/// Appends the JSON array of the strings `items`. Where one of them cannot
/// be written, `out` stays as it is and the first refusal is reported.
fn append_array(out: &mut String, items: &Vec<String>) -> (done: Result<(), String>)
    ensures
        if all_have_literals(texts(items@)) {
            done is Ok && final(out)@ == old(out)@ + json_array(texts(items@))
        } else {
            done is Err && final(out)@ == old(out)@
        },
{
    let ghost all = texts(items@);
    let mut list = "[".to_owned();
    let mut i: usize = 0;
    while i < items.len()
        invariant
            i <= items.len(),
            all == texts(items@),
            forall|j: int| 0 <= j < i ==> has_literal(#[trigger] all[j]),
            list@ == "["@ + json_strings(all.take(i as int)),
        decreases items.len() - i,
    {
        if i > 0 {
            list.append(",");
        }
        match append_string(&mut list, items[i].as_str()) {
            Ok(_) => {},
            Err(detail) => {
                assert(!has_literal(all[i as int]));
                return Err(detail);
            },
        }
        assert(all.take(i + 1).drop_last() =~= all.take(i as int));
        i += 1;
    }
    list.append("]");
    assert(all.take(items.len() as int) =~= all);
    out.append(list.as_str());
    Ok(())
}

/// Copies string slices into strings.
fn owned(items: &[&str]) -> (copies: Vec<String>)
    ensures
        texts(copies@) == slice_texts(items@),
{
    let mut copies: Vec<String> = Vec::new();
    let mut i: usize = 0;
    while i < items.len()
        invariant
            i <= items.len(),
            copies@.len() == i,
            forall|j: int| 0 <= j < i ==> (#[trigger] copies@[j])@ == items@[j]@,
        decreases items.len() - i,
    {
        copies.push(items[i].to_owned());
        i += 1;
    }
    copies
}

impl ControlMessage {
    /// The handshake of the market-data stream for `config`.
    pub fn market_data_auth(config: &AlpacaConfig) -> (message: ControlMessage)
        ensures
            message@ == (ControlModel::Auth {
                key: config.api_key_id@,
                secret: config.api_secret_key@,
            }),
    {
        ControlMessage::Auth {
            key: config.api_key_id.clone(),
            secret: config.api_secret_key.clone(),
        }
    }

    /// The handshake of the trade-updates stream for `config`.
    pub fn trade_updates_auth(config: &AlpacaConfig) -> (message: ControlMessage)
        ensures
            message@ == (ControlModel::Authenticate {
                key_id: config.api_key_id@,
                secret_key: config.api_secret_key@,
            }),
    {
        ControlMessage::Authenticate {
            key_id: config.api_key_id.clone(),
            secret_key: config.api_secret_key.clone(),
        }
    }

    /// The message that asks the trade-updates stream for its one channel,
    /// `trade_updates`.
    pub fn listen_trade_updates() -> (message: ControlMessage)
        ensures
            message@ == (ControlModel::Listen { streams: seq!["trade_updates"@] }),
    {
        let mut streams: Vec<String> = Vec::new();
        streams.push("trade_updates".to_owned());
        assert(texts(streams@) =~= seq!["trade_updates"@]);
        ControlMessage::Listen { streams }
    }

    /// The message that adds the given symbols to the subscription.
    pub fn subscribe(trades: &[&str], quotes: &[&str], bars: &[&str]) -> (message: ControlMessage)
        ensures
            message@ == (ControlModel::Subscription {
                action: SubscriptionAction::Subscribe,
                trades: slice_texts(trades@),
                quotes: slice_texts(quotes@),
                bars: slice_texts(bars@),
            }),
    {
        Self::subscription(SubscriptionAction::Subscribe, trades, quotes, bars)
    }

    /// The message that takes the given symbols out of the subscription.
    pub fn unsubscribe(trades: &[&str], quotes: &[&str], bars: &[&str]) -> (message:
        ControlMessage)
        ensures
            message@ == (ControlModel::Subscription {
                action: SubscriptionAction::Unsubscribe,
                trades: slice_texts(trades@),
                quotes: slice_texts(quotes@),
                bars: slice_texts(bars@),
            }),
    {
        Self::subscription(SubscriptionAction::Unsubscribe, trades, quotes, bars)
    }

    /// The message that subscribes to the trades of `symbols`.
    pub fn subscribe_trades(symbols: &[&str]) -> (message: ControlMessage)
        ensures
            message@ == (ControlModel::Subscription {
                action: SubscriptionAction::Subscribe,
                trades: slice_texts(symbols@),
                quotes: Seq::empty(),
                bars: Seq::empty(),
            }),
    {
        let none: [&str; 0] = [];
        assert(slice_texts(none@) =~= Seq::empty());
        Self::subscription(SubscriptionAction::Subscribe, symbols, &none, &none)
    }

    /// The message that subscribes to the quotes of `symbols`.
    pub fn subscribe_quotes(symbols: &[&str]) -> (message: ControlMessage)
        ensures
            message@ == (ControlModel::Subscription {
                action: SubscriptionAction::Subscribe,
                trades: Seq::empty(),
                quotes: slice_texts(symbols@),
                bars: Seq::empty(),
            }),
    {
        let none: [&str; 0] = [];
        assert(slice_texts(none@) =~= Seq::empty());
        Self::subscription(SubscriptionAction::Subscribe, &none, symbols, &none)
    }

    /// The message that subscribes to the minute bars of `symbols`.
    pub fn subscribe_bars(symbols: &[&str]) -> (message: ControlMessage)
        ensures
            message@ == (ControlModel::Subscription {
                action: SubscriptionAction::Subscribe,
                trades: Seq::empty(),
                quotes: Seq::empty(),
                bars: slice_texts(symbols@),
            }),
    {
        let none: [&str; 0] = [];
        assert(slice_texts(none@) =~= Seq::empty());
        Self::subscription(SubscriptionAction::Subscribe, &none, &none, symbols)
    }

    /// A subscription message with the given action and symbols.
    pub fn subscription(
        action: SubscriptionAction,
        trades: &[&str],
        quotes: &[&str],
        bars: &[&str],
    ) -> (message: ControlMessage)
        ensures
            message@ == (ControlModel::Subscription {
                action,
                trades: slice_texts(trades@),
                quotes: slice_texts(quotes@),
                bars: slice_texts(bars@),
            }),
    {
        ControlMessage::Subscription {
            action,
            trades: owned(trades),
            quotes: owned(quotes),
            bars: owned(bars),
        }
    }

    /// The JSON text of this message. It is there exactly where each string
    /// in the message can be written as a JSON string literal; otherwise
    /// the first refusal is reported.
    pub fn encode(&self) -> (encoded: Result<String, String>)
        ensures
            if writable(self@) {
                encoded matches Ok(text) && text@ == control_text(self@)
            } else {
                encoded is Err
            },
    {
        match self {
            ControlMessage::Auth { key, secret } => {
                let mut out = "{\"action\":\"auth\",\"key\":".to_owned();
                match append_string(&mut out, key.as_str()) {
                    Ok(_) => {},
                    Err(detail) => {
                        return Err(detail);
                    },
                }
                out.append(",\"secret\":");
                match append_string(&mut out, secret.as_str()) {
                    Ok(_) => {},
                    Err(detail) => {
                        return Err(detail);
                    },
                }
                out.append("}");
                Ok(out)
            },
            ControlMessage::Authenticate { key_id, secret_key } => {
                let mut out = "{\"action\":\"authenticate\",\"data\":{\"key_id\":".to_owned();
                match append_string(&mut out, key_id.as_str()) {
                    Ok(_) => {},
                    Err(detail) => {
                        return Err(detail);
                    },
                }
                out.append(",\"secret_key\":");
                match append_string(&mut out, secret_key.as_str()) {
                    Ok(_) => {},
                    Err(detail) => {
                        return Err(detail);
                    },
                }
                out.append("}}");
                Ok(out)
            },
            ControlMessage::Listen { streams } => {
                let mut out = "{\"action\":\"listen\",\"data\":{\"streams\":".to_owned();
                match append_array(&mut out, streams) {
                    Ok(_) => {},
                    Err(detail) => {
                        return Err(detail);
                    },
                }
                out.append("}}");
                Ok(out)
            },
            ControlMessage::Subscription { action, trades, quotes, bars } => {
                let mut out = "{\"action\":\"".to_owned();
                match action {
                    SubscriptionAction::Subscribe => out.append("subscribe"),
                    SubscriptionAction::Unsubscribe => out.append("unsubscribe"),
                }
                out.append("\",\"bars\":");
                match append_array(&mut out, bars) {
                    Ok(_) => {},
                    Err(detail) => {
                        return Err(detail);
                    },
                }
                out.append(",\"quotes\":");
                match append_array(&mut out, quotes) {
                    Ok(_) => {},
                    Err(detail) => {
                        return Err(detail);
                    },
                }
                out.append(",\"trades\":");
                match append_array(&mut out, trades) {
                    Ok(_) => {},
                    Err(detail) => {
                        return Err(detail);
                    },
                }
                out.append("}");
                Ok(out)
            },
        }
    }
}

} // verus!
