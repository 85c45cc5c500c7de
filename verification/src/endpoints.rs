//! The paths and query parameters of the Alpaca endpoints.

use crate::text::{joined, decimal, decimal_text};
use vstd::prelude::*;
use vstd::string::*;

verus! {

/// The account of the credentials in use.
pub const ACCOUNT_PATH: &'static str = "/v2/account";

/// All orders.
pub const ORDERS_PATH: &'static str = "/v2/orders";

/// All open positions.
pub const POSITIONS_PATH: &'static str = "/v2/positions";

/// All assets.
pub const ASSETS_PATH: &'static str = "/v2/assets";

/// The market calendar.
pub const CALENDAR_PATH: &'static str = "/v2/calendar";

/// The market clock.
pub const CLOCK_PATH: &'static str = "/v2/clock";

/// The most items that a page holds, unless the caller asks for fewer.
pub const DEFAULT_PAGE_LIMIT: u32 = 10000;

/// The text that an optional string slice stands for, if it is there.
pub open spec fn chosen(choice: Option<&str>) -> Option<Seq<char>> {
    match choice {
        Some(text) => Some(text@),
        None => None,
    }
}

/// `choice`, or `fallback` where nothing was chosen.
pub open spec fn or_else(choice: Option<Seq<char>>, fallback: Seq<char>) -> Seq<char> {
    match choice {
        Some(text) => text,
        None => fallback,
    }
}

/// The path of one order.
pub fn order_path(order_id: &str) -> (path: String)
    ensures
        path@ == "/v2/orders/"@ + order_id@,
{
    joined("/v2/orders/", order_id)
}

/// The path of the orders with the given status, or of all orders.
pub fn orders_path(status: Option<&str>) -> (path: String)
    ensures
        path@ == match status {
            Some(wanted) => "/v2/orders?status="@ + wanted@,
            None => "/v2/orders"@,
        },
{
    match status {
        Some(wanted) => joined("/v2/orders?status=", wanted),
        None => "/v2/orders".to_owned(),
    }
}

/// The path of the position in one symbol.
pub fn position_path(symbol: &str) -> (path: String)
    ensures
        path@ == "/v2/positions/"@ + symbol@,
{
    joined("/v2/positions/", symbol)
}

/// The path of one asset.
pub fn asset_path(symbol: &str) -> (path: String)
    ensures
        path@ == "/v2/assets/"@ + symbol@,
{
    joined("/v2/assets/", symbol)
}

/// The path of the latest quote of a symbol.
pub fn latest_quote_path(symbol: &str) -> (path: String)
    ensures
        path@ == "/v2/stocks/"@ + symbol@ + "/quotes/latest"@,
{
    let mut path = joined("/v2/stocks/", symbol);
    path.append("/quotes/latest");
    path
}

/// The path of the latest trade of a symbol.
pub fn latest_trade_path(symbol: &str) -> (path: String)
    ensures
        path@ == "/v2/stocks/"@ + symbol@ + "/trades/latest"@,
{
    let mut path = joined("/v2/stocks/", symbol);
    path.append("/trades/latest");
    path
}

/// The path of the snapshot of a symbol.
pub fn snapshot_path(symbol: &str) -> (path: String)
    ensures
        path@ == "/v2/stocks/"@ + symbol@ + "/snapshot"@,
{
    let mut path = joined("/v2/stocks/", symbol);
    path.append("/snapshot");
    path
}

/// One query parameter: its name and its value.
pub type QueryPair = (String, String);

/// The names and values of a list of query parameters.
pub open spec fn pairs(query: Seq<QueryPair>) -> Seq<(Seq<char>, Seq<char>)> {
    Seq::new(query.len(), |i: int| (query[i].0@, query[i].1@))
}

/// The query for a filter on up to two parameters: the first where it is
/// given, then the second where it is given.
pub open spec fn filter_query(
    first_name: Seq<char>,
    first: Option<Seq<char>>,
    second_name: Seq<char>,
    second: Option<Seq<char>>,
) -> Seq<(Seq<char>, Seq<char>)> {
    let head = match first {
        Some(value) => seq![(first_name, value)],
        None => Seq::empty(),
    };
    let tail = match second {
        Some(value) => seq![(second_name, value)],
        None => Seq::empty(),
    };
    head + tail
}

fn two_filters(first_name: &str, first: Option<&str>, second_name: &str, second: Option<&str>)
    -> (query: Vec<QueryPair>)
    ensures
        pairs(query@) == filter_query(first_name@, chosen(first), second_name@, chosen(second)),
{
    let mut query: Vec<QueryPair> = Vec::new();
    if let Some(value) = first {
        query.push((first_name.to_owned(), value.to_owned()));
    }
    if let Some(value) = second {
        query.push((second_name.to_owned(), value.to_owned()));
    }
    assert(pairs(query@) =~= filter_query(
        first_name@,
        chosen(first),
        second_name@,
        chosen(second),
    ));
    query
}

/// The query that narrows the assets down by status and by asset class.
pub fn assets_query(status: Option<&str>, asset_class: Option<&str>) -> (query: Vec<QueryPair>)
    ensures
        pairs(query@) == filter_query(
            "status"@,
            chosen(status),
            "asset_class"@,
            chosen(asset_class),
        ),
{
    two_filters("status", status, "asset_class", asset_class)
}

/// The query that narrows the calendar down to the days from `start` to
/// `end`, each a date written as year, month and day.
pub fn calendar_query(start: Option<&str>, end: Option<&str>) -> (query: Vec<QueryPair>)
    ensures
        pairs(query@) == filter_query("start"@, chosen(start), "end"@, chosen(end)),
{
    two_filters("start", start, "end", end)
}

/// The limit in force: what was asked for, or the default.
pub open spec fn limit_or_default(limit: Option<u32>) -> nat {
    match limit {
        Some(n) => n as nat,
        None => DEFAULT_PAGE_LIMIT as nat,
    }
}

/// The path of the first page of the historical bars of a symbol.
pub open spec fn bars_path_text(
    symbol: Seq<char>,
    start: Seq<char>,
    end: Seq<char>,
    timeframe: Seq<char>,
    feed: Option<Seq<char>>,
    adjustment: Option<Seq<char>>,
    limit: Option<u32>,
) -> Seq<char> {
    "/v2/stocks/"@ + symbol + "/bars?start="@ + start + "&end="@ + end + "&timeframe="@
        + timeframe + "&adjustment="@ + or_else(adjustment, "split"@) + "&feed="@ + or_else(
        feed,
        "iex"@,
    ) + "&limit="@ + decimal(limit_or_default(limit))
}

/// The path of the first page of the historical bars of `symbol` between
/// the dates `start` and `end`. Without other wishes the bars are adjusted
/// for splits, come from the IEX feed and number up to 10000 a page.
pub fn bars_path(
    symbol: &str,
    start: &str,
    end: &str,
    timeframe: &str,
    feed: Option<&str>,
    adjustment: Option<&str>,
    limit: Option<u32>,
) -> (path: String)
    ensures
        path@ == bars_path_text(
            symbol@,
            start@,
            end@,
            timeframe@,
            chosen(feed),
            chosen(adjustment),
            limit,
        ),
{
    let limit: u32 = match limit {
        Some(n) => n,
        None => DEFAULT_PAGE_LIMIT,
    };
    let adjustment = match adjustment {
        Some(text) => text,
        None => "split",
    };
    let feed = match feed {
        Some(text) => text,
        None => "iex",
    };
    let mut path = joined("/v2/stocks/", symbol);
    path.append("/bars?start=");
    path.append(start);
    path.append("&end=");
    path.append(end);
    path.append("&timeframe=");
    path.append(timeframe);
    path.append("&adjustment=");
    path.append(adjustment);
    path.append("&feed=");
    path.append(feed);
    path.append("&limit=");
    path.append(decimal_text(limit as u64).as_str());
    path
}

/// The path of the first page of the historical trades of a symbol.
pub open spec fn trades_path_text(
    symbol: Seq<char>,
    start: Seq<char>,
    end: Seq<char>,
    feed: Option<Seq<char>>,
    limit: Option<u32>,
) -> Seq<char> {
    "/v2/stocks/"@ + symbol + "/trades?start="@ + start + "&end="@ + end + "&feed="@ + or_else(
        feed,
        "iex"@,
    ) + "&limit="@ + decimal(limit_or_default(limit))
}

/// The path of the first page of the historical trades of `symbol` between
/// the dates `start` and `end`. Without other wishes the trades come from
/// the IEX feed and number up to 10000 a page.
pub fn trades_path(symbol: &str, start: &str, end: &str, feed: Option<&str>, limit: Option<u32>)
    -> (path: String)
    ensures
        path@ == trades_path_text(symbol@, start@, end@, chosen(feed), limit),
{
    let limit: u32 = match limit {
        Some(n) => n,
        None => DEFAULT_PAGE_LIMIT,
    };
    let feed = match feed {
        Some(text) => text,
        None => "iex",
    };
    let mut path = joined("/v2/stocks/", symbol);
    path.append("/trades?start=");
    path.append(start);
    path.append("&end=");
    path.append(end);
    path.append("&feed=");
    path.append(feed);
    path.append("&limit=");
    path.append(decimal_text(limit as u64).as_str());
    path
}

/// The path of one page of a paged endpoint: the path of the first page,
/// with the page token after it where there is one.
pub fn page_path(first_page: &str, page_token: Option<&str>) -> (path: String)
    ensures
        path@ == match page_token {
            Some(token) => first_page@ + "&page_token="@ + token@,
            None => first_page@,
        },
{
    match page_token {
        Some(token) => {
            let mut path = joined(first_page, "&page_token=");
            path.append(token);
            path
        },
        None => first_page.to_owned(),
    }
}

} // verus!
