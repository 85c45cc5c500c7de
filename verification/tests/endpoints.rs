use alpaca_sdk::endpoints::{
    asset_path, assets_query, bars_path, calendar_query, latest_quote_path, latest_trade_path,
    order_path, orders_path, page_path, position_path, snapshot_path, trades_path, ACCOUNT_PATH,
    ASSETS_PATH, CALENDAR_PATH, CLOCK_PATH, DEFAULT_PAGE_LIMIT, ORDERS_PATH, POSITIONS_PATH,
};
use alpaca_sdk::types::{AlpacaOrderRequest, AlpacaReplaceOrderRequest};
use rust_decimal::Decimal;

fn pair(name: &str, value: &str) -> (String, String) {
    (name.to_string(), value.to_string())
}

#[test]
fn fixed_paths() {
    assert_eq!(ACCOUNT_PATH, "/v2/account");
    assert_eq!(ORDERS_PATH, "/v2/orders");
    assert_eq!(POSITIONS_PATH, "/v2/positions");
    assert_eq!(ASSETS_PATH, "/v2/assets");
    assert_eq!(CALENDAR_PATH, "/v2/calendar");
    assert_eq!(CLOCK_PATH, "/v2/clock");
    assert_eq!(DEFAULT_PAGE_LIMIT, 10000);
}

#[test]
fn paths_with_an_identifier() {
    assert_eq!(order_path("order-1"), "/v2/orders/order-1");
    assert_eq!(position_path("SPY"), "/v2/positions/SPY");
    assert_eq!(asset_path("AAPL"), "/v2/assets/AAPL");
    assert_eq!(latest_quote_path("AAPL"), "/v2/stocks/AAPL/quotes/latest");
    assert_eq!(latest_trade_path("AAPL"), "/v2/stocks/AAPL/trades/latest");
    assert_eq!(snapshot_path("AAPL"), "/v2/stocks/AAPL/snapshot");
}

#[test]
fn orders_path_with_and_without_status() {
    assert_eq!(orders_path(None), "/v2/orders");
    assert_eq!(orders_path(Some("open")), "/v2/orders?status=open");
}

#[test]
fn queries_hold_what_was_given_in_order() {
    assert!(assets_query(None, None).is_empty());
    assert_eq!(
        assets_query(Some("active"), None),
        vec![pair("status", "active")]
    );
    assert_eq!(
        assets_query(None, Some("us_equity")),
        vec![pair("asset_class", "us_equity")]
    );
    assert_eq!(
        assets_query(Some("active"), Some("us_equity")),
        vec![pair("status", "active"), pair("asset_class", "us_equity")]
    );
    assert!(calendar_query(None, None).is_empty());
    assert_eq!(
        calendar_query(Some("2024-06-01"), Some("2024-06-15")),
        vec![pair("start", "2024-06-01"), pair("end", "2024-06-15")]
    );
    assert_eq!(
        calendar_query(None, Some("2024-06-15")),
        vec![pair("end", "2024-06-15")]
    );
}

#[test]
fn bars_path_with_defaults() {
    assert_eq!(
        bars_path("AAPL", "2024-06-01", "2024-06-15", "1Day", None, None, None),
        "/v2/stocks/AAPL/bars?start=2024-06-01&end=2024-06-15&timeframe=1Day&adjustment=split&feed=iex&limit=10000"
    );
}

#[test]
fn bars_path_with_wishes() {
    assert_eq!(
        bars_path(
            "TSLA",
            "2024-01-01",
            "2024-01-02",
            "5Min",
            Some("sip"),
            Some("raw"),
            Some(50)
        ),
        "/v2/stocks/TSLA/bars?start=2024-01-01&end=2024-01-02&timeframe=5Min&adjustment=raw&feed=sip&limit=50"
    );
    assert!(
        bars_path("A", "s", "e", "t", None, None, Some(u32::MAX)).ends_with("&limit=4294967295")
    );
    assert!(bars_path("A", "s", "e", "t", None, None, Some(0)).ends_with("&limit=0"));
}

#[test]
fn trades_path_with_and_without_wishes() {
    assert_eq!(
        trades_path("AAPL", "2024-06-01", "2024-06-15", None, None),
        "/v2/stocks/AAPL/trades?start=2024-06-01&end=2024-06-15&feed=iex&limit=10000"
    );
    assert_eq!(
        trades_path("AAPL", "2024-06-01", "2024-06-15", Some("sip"), Some(1)),
        "/v2/stocks/AAPL/trades?start=2024-06-01&end=2024-06-15&feed=sip&limit=1"
    );
}

#[test]
fn page_path_adds_the_token() {
    assert_eq!(page_path("/v2/x?limit=1", None), "/v2/x?limit=1");
    assert_eq!(
        page_path("/v2/x?limit=1", Some("page2")),
        "/v2/x?limit=1&page_token=page2"
    );
}

#[test]
fn order_request_holds_its_arguments() {
    let order = AlpacaOrderRequest::new(
        "AAPL",
        1,
        "buy",
        "limit",
        "gtc",
        Some(Decimal::new(15050, 2)),
        true,
    );
    assert_eq!(order.symbol, "AAPL");
    assert_eq!(order.qty, 1);
    assert_eq!(order.side, "buy");
    assert_eq!(order.order_type, "limit");
    assert_eq!(order.time_in_force, "gtc");
    assert_eq!(order.limit_price, Some(Decimal::new(15050, 2)));
    assert!(order.extended_hours);

    let market = AlpacaOrderRequest::new("TSLA", 5, "buy", "market", "day", None, false);
    assert_eq!(market.symbol, "TSLA");
    assert!(market.limit_price.is_none());
    assert!(!market.extended_hours);
}

#[test]
fn replace_request_holds_its_arguments() {
    let change = AlpacaReplaceOrderRequest::new(Some(10), Some(Decimal::new(200, 0)), None);
    assert_eq!(change.qty, Some(10));
    assert_eq!(change.limit_price, Some(Decimal::new(200, 0)));
    assert!(change.time_in_force.is_none());
    let change = AlpacaReplaceOrderRequest::new(None, None, Some("day"));
    assert!(change.qty.is_none());
    assert_eq!(change.time_in_force.as_deref(), Some("day"));
}
