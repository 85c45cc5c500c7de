//! Records that travel between the client and the API.

use rust_decimal::Decimal;
use vstd::prelude::*;
use vstd::string::*;

verus! {

/// `rust_decimal::Decimal`: a price, carried through as it is.
#[verifier::external_type_specification]
#[verifier::external_body]
pub struct ExDecimal(rust_decimal::Decimal);

/// An open position, as the API reports it. Amounts are decimal numerals.
#[derive(Debug, Clone)]
pub struct AlpacaPositionResponse {
    pub asset_id: String,
    pub symbol: String,
    pub exchange: String,
    pub asset_class: String,
    pub qty: String,
    pub avg_entry_price: String,
    pub side: String,
    pub market_value: Option<String>,
    pub cost_basis: String,
    pub unrealized_pl: Option<String>,
    pub unrealized_plpc: Option<String>,
    pub unrealized_intraday_pl: Option<String>,
    pub unrealized_intraday_plpc: Option<String>,
    pub current_price: Option<String>,
    pub lastday_price: Option<String>,
    pub change_today: Option<String>,
    pub qty_available: Option<String>,
}

/// An asset, as the API reports it.
#[derive(Debug, Clone)]
pub struct AlpacaAssetResponse {
    pub id: String,
    pub asset_class: String,
    pub exchange: String,
    pub symbol: String,
    pub name: Option<String>,
    pub status: String,
    pub tradable: bool,
    pub marginable: bool,
    pub shortable: bool,
    pub easy_to_borrow: bool,
    pub fractionable: bool,
    pub maintenance_margin_requirement: Option<String>,
}

/// The body of a request that places an order.
#[derive(Debug, Clone)]
pub struct AlpacaOrderRequest {
    pub symbol: String,
    pub qty: i32,
    pub side: String,
    pub order_type: String,
    pub time_in_force: String,
    /// The limit price; it is left out of the body where there is none.
    pub limit_price: Option<Decimal>,
    pub extended_hours: bool,
}

impl AlpacaOrderRequest {
    /// The order that the arguments describe.
    pub fn new(
        symbol: &str,
        qty: i32,
        side: &str,
        order_type: &str,
        time_in_force: &str,
        limit_price: Option<Decimal>,
        extended_hours: bool,
    ) -> (order: Self)
        ensures
            order.symbol@ == symbol@,
            order.qty == qty,
            order.side@ == side@,
            order.order_type@ == order_type@,
            order.time_in_force@ == time_in_force@,
            order.limit_price == limit_price,
            order.extended_hours == extended_hours,
    {
        AlpacaOrderRequest {
            symbol: symbol.to_owned(),
            qty,
            side: side.to_owned(),
            order_type: order_type.to_owned(),
            time_in_force: time_in_force.to_owned(),
            limit_price,
            extended_hours,
        }
    }
}

/// The body of a request that changes an order. What is `None` stays as
/// it is and is left out of the body.
#[derive(Debug, Clone)]
pub struct AlpacaReplaceOrderRequest {
    pub qty: Option<i32>,
    pub limit_price: Option<Decimal>,
    pub time_in_force: Option<String>,
}

impl AlpacaReplaceOrderRequest {
    /// The change that the arguments describe.
    pub fn new(qty: Option<i32>, limit_price: Option<Decimal>, time_in_force: Option<&str>) -> (change:
        Self)
        ensures
            change.qty == qty,
            change.limit_price == limit_price,
            match time_in_force {
                Some(wanted) => change.time_in_force matches Some(text) && text@ == wanted@,
                None => change.time_in_force is None,
            },
    {
        let time_in_force = match time_in_force {
            Some(wanted) => Some(wanted.to_owned()),
            None => None,
        };
        AlpacaReplaceOrderRequest { qty, limit_price, time_in_force }
    }
}

} // verus!
