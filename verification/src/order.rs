//! Orders: what a user asks for, and what the service reports back.

use crate::decimal::{plain_text, Decimal, Fraction};
use crate::id::OrderId;
use crate::text::same_text;
use vstd::prelude::*;

verus! {

/// Which way an order trades.
#[derive(Clone, Copy, Debug, PartialEq, Eq, Structural)]
pub enum Side {
    /// Buy an asset.
    Buy,
    /// Sell an asset.
    Sell,
}

/// How an order is executed. It is never given by the user: the prices that
/// come with an order decide it.
#[derive(Clone, Copy, Debug, PartialEq, Eq, Structural)]
pub enum OrderType {
    /// At the market's price.
    Market,
    /// At the limit price or better.
    Limit,
    /// At the market's price, once the stop price is reached.
    Stop,
    /// At the limit price or better, once the stop price is reached.
    StopLimit,
}

/// How long an order stays valid.
#[derive(Clone, Copy, Debug, PartialEq, Eq, Structural)]
pub enum TimeInForce {
    /// For the trading day.
    Day,
    /// Until it is canceled.
    UntilCanceled,
}

/// What is said of a token that names no side.
pub open spec fn invalid_side_text(token: Seq<char>) -> Seq<char> {
    token + " is not a valid side specification (use 'buy' or 'sell')"@
}

impl Side {
    /// The lowercase label of a side.
    pub open spec fn label(self) -> Seq<char> {
        match self {
            Side::Buy => "buy"@,
            Side::Sell => "sell"@,
        }
    }

    /// The side that a token names: `buy` or `sell`, in lower case.
    pub open spec fn named_by(token: Seq<char>) -> Option<Side> {
        if token == "buy"@ {
            Some(Side::Buy)
        } else if token == "sell"@ {
            Some(Side::Sell)
        } else {
            None
        }
    }

    /// Reads a side from its token. Any token but `buy` and `sell` is refused
    /// with a message that names it.
    pub fn from_str(side: &str) -> (parsed: Result<Side, String>)
        ensures
            match parsed {
                Ok(read) => Side::named_by(side@) == Some(read),
                Err(message) => Side::named_by(side@) is None && message@ == invalid_side_text(
                    side@,
                ),
            },
    {
        if same_text(side, "buy") {
            Ok(Side::Buy)
        } else if same_text(side, "sell") {
            Ok(Side::Sell)
        } else {
            let mut message: String = side.to_owned();
            message.append(" is not a valid side specification (use 'buy' or 'sell')");
            Err(message)
        }
    }

    /// The label under which a side is listed.
    pub fn as_str(self) -> (label: &'static str)
        ensures
            label@ == self.label(),
    {
        match self {
            Side::Buy => "buy",
            Side::Sell => "sell",
        }
    }
}

impl OrderType {
    /// The type of an order with or without a limit price and with or without
    /// a stop price.
    pub open spec fn inferred(limit: bool, stop: bool) -> OrderType {
        match (limit, stop) {
            (true, true) => OrderType::StopLimit,
            (true, false) => OrderType::Limit,
            (false, true) => OrderType::Stop,
            (false, false) => OrderType::Market,
        }
    }

    /// Infers the type of an order from the prices that come with it. Each
    /// of the four pairs gives one type, and each type comes from one pair.
    pub fn infer(limit: bool, stop: bool) -> (inferred: OrderType)
        ensures
            inferred == OrderType::inferred(limit, stop),
            inferred == OrderType::StopLimit <==> limit && stop,
            inferred == OrderType::Limit <==> limit && !stop,
            inferred == OrderType::Stop <==> !limit && stop,
            inferred == OrderType::Market <==> !limit && !stop,
    {
        match (limit, stop) {
            (true, true) => OrderType::StopLimit,
            (true, false) => OrderType::Limit,
            (false, true) => OrderType::Stop,
            (false, false) => OrderType::Market,
        }
    }
}

impl TimeInForce {
    /// How long an order stays valid that is, or is not, for today only.
    pub open spec fn chosen(today: bool) -> TimeInForce {
        if today {
            TimeInForce::Day
        } else {
            TimeInForce::UntilCanceled
        }
    }

    /// An order for today only is valid for the day, any other until it is
    /// canceled.
    pub fn from_today(today: bool) -> (chosen: TimeInForce)
        ensures
            chosen == TimeInForce::chosen(today),
            chosen == TimeInForce::Day <==> today,
            chosen == TimeInForce::UntilCanceled <==> !today,
    {
        if today {
            TimeInForce::Day
        } else {
            TimeInForce::UntilCanceled
        }
    }
}

/// A request to submit an order.
#[derive(Clone, Debug)]
pub struct OrderRequest {
    /// The ticker of the asset, taken as it is given.
    pub symbol: String,
    /// The quantity to trade.
    pub quantity: u64,
    /// Which way to trade.
    pub side: Side,
    /// How to execute the order.
    pub type_: OrderType,
    /// How long the order stays valid.
    pub time_in_force: TimeInForce,
    /// The limit price, if any.
    pub limit_price: Option<Decimal>,
    /// The stop price, if any.
    pub stop_price: Option<Decimal>,
}

impl OrderRequest {
    /// Builds the request for what a user asks: symbol, quantity, side and
    /// prices are taken as they are, the type follows from the prices, and
    /// the time in force from `today`.
    pub fn new(
        side: Side,
        symbol: String,
        quantity: u64,
        limit_price: Option<Decimal>,
        stop_price: Option<Decimal>,
        today: bool,
    ) -> (request: OrderRequest)
        ensures
            request.symbol == symbol,
            request.quantity == quantity,
            request.side == side,
            request.type_ == OrderType::inferred(limit_price is Some, stop_price is Some),
            request.time_in_force == TimeInForce::chosen(today),
            request.limit_price == limit_price,
            request.stop_price == stop_price,
    {
        let type_ = OrderType::infer(limit_price.is_some(), stop_price.is_some());
        let time_in_force = TimeInForce::from_today(today);
        OrderRequest { symbol, quantity, side, type_, time_in_force, limit_price, stop_price }
    }
}

/// The value of a price that may be absent.
pub open spec fn price_view(price: Option<Decimal>) -> Option<Fraction> {
    match price {
        Some(amount) => Some(amount@),
        None => None,
    }
}

/// What is listed of an order's prices: the stop price before the limit
/// price, each with the currency behind it; nothing where there is neither.
pub open spec fn price_text(
    limit: Option<Fraction>,
    stop: Option<Fraction>,
    currency: Seq<char>,
) -> Seq<char> {
    match (limit, stop) {
        (Some(limit), Some(stop)) => "stop @ "@ + plain_text(stop) + " "@ + currency
            + ", limit @ "@ + plain_text(limit) + " "@ + currency,
        (Some(limit), None) => "limit @ "@ + plain_text(limit) + " "@ + currency,
        (None, Some(stop)) => "stop @ "@ + plain_text(stop) + " "@ + currency,
        (None, None) => Seq::empty(),
    }
}

/// What an [`Order`] holds.
pub struct OrderView {
    pub id: Seq<u8>,
    pub symbol: Seq<char>,
    pub side: Side,
    pub type_: OrderType,
    pub quantity: Fraction,
    pub limit_price: Option<Fraction>,
    pub stop_price: Option<Fraction>,
}

/// An order as the service reports it. Its type is the one that its prices
/// call for.
#[derive(Debug)]
pub struct Order {
    id: OrderId,
    symbol: String,
    side: Side,
    type_: OrderType,
    quantity: Decimal,
    limit_price: Option<Decimal>,
    stop_price: Option<Decimal>,
}

impl View for Order {
    type V = OrderView;

    closed spec fn view(&self) -> OrderView {
        OrderView {
            id: self.id@,
            symbol: self.symbol@,
            side: self.side,
            type_: self.type_,
            quantity: self.quantity@,
            limit_price: price_view(self.limit_price),
            stop_price: price_view(self.stop_price),
        }
    }
}

impl Order {
    #[verifier::type_invariant]
    spec fn prices_match_type(self) -> bool {
        self.type_ == OrderType::inferred(self.limit_price is Some, self.stop_price is Some)
    }

    /// An order of the given type with the given prices, where the prices are
    /// those that the type calls for: none for a market order, the limit
    /// price alone for a limit order, the stop price alone for a stop order,
    /// both for a stop-limit order. `None` for any other combination.
    pub fn new(
        id: OrderId,
        symbol: String,
        side: Side,
        type_: OrderType,
        quantity: Decimal,
        limit_price: Option<Decimal>,
        stop_price: Option<Decimal>,
    ) -> (made: Option<Order>)
        ensures
            made is Some <==> type_ == OrderType::inferred(limit_price is Some, stop_price is Some),
            made matches Some(order) ==> order@ == (OrderView {
                id: id@,
                symbol: symbol@,
                side,
                type_,
                quantity: quantity@,
                limit_price: price_view(limit_price),
                stop_price: price_view(stop_price),
            }),
    {
        let expected = OrderType::infer(limit_price.is_some(), stop_price.is_some());
        if type_ == expected {
            Some(Order { id, symbol, side, type_, quantity, limit_price, stop_price })
        } else {
            None
        }
    }

    /// The order's identifier.
    pub fn id(&self) -> (id: OrderId)
        ensures
            id@ == self@.id,
    {
        self.id
    }

    /// The ticker of the asset.
    pub fn symbol(&self) -> (symbol: &str)
        ensures
            symbol@ == self@.symbol,
    {
        self.symbol.as_str()
    }

    /// Which way the order trades.
    pub fn side(&self) -> (side: Side)
        ensures
            side == self@.side,
    {
        self.side
    }

    /// How the order is executed: as its prices call for.
    pub fn order_type(&self) -> (type_: OrderType)
        ensures
            type_ == self@.type_,
            type_ == OrderType::inferred(self@.limit_price is Some, self@.stop_price is Some),
    {
        proof {
            use_type_invariant(self);
        }
        self.type_
    }

    /// The quantity to trade.
    pub fn quantity(&self) -> (quantity: &Decimal)
        ensures
            quantity@ == self@.quantity,
    {
        &self.quantity
    }

    /// What is listed of the order's prices, in the given currency.
    pub fn price_description(&self, currency: &str) -> (text: String)
        ensures
            text@ == price_text(self@.limit_price, self@.stop_price, currency@),
    {
        let mut text = String::new();
        match (&self.limit_price, &self.stop_price) {
            (Some(limit), Some(stop)) => {
                text.append("stop @ ");
                text.append(stop.to_text().as_str());
                text.append(" ");
                text.append(currency);
                text.append(", limit @ ");
                text.append(limit.to_text().as_str());
                text.append(" ");
                text.append(currency);
            },
            (Some(limit), None) => {
                text.append("limit @ ");
                text.append(limit.to_text().as_str());
                text.append(" ");
                text.append(currency);
            },
            (None, Some(stop)) => {
                text.append("stop @ ");
                text.append(stop.to_text().as_str());
                text.append(" ");
                text.append(currency);
            },
            (None, None) => {},
        }
        text
    }
}

impl Clone for Order {
    fn clone(&self) -> (copy: Order)
        ensures
            copy == *self,
    {
        proof {
            use_type_invariant(self);
        }
        Order {
            id: self.id,
            symbol: self.symbol.clone(),
            side: self.side,
            type_: self.type_,
            quantity: self.quantity.clone(),
            limit_price: self.limit_price.clone(),
            stop_price: self.stop_price.clone(),
        }
    }
}

} // verus!
