//! Market data of the derivatives segment.

use crate::codec::{
    array_of, decode_each, flag_in, list_in, optional_decimal_view, present, required_decimal,
    required_decimal_in, required_flag, required_member, required_text, required_u64, text_in,
    u64_in, viewed, viewed_each, views, Wire,
};
use crate::decimal::{Decimal, DecimalView};
use crate::error::DecodeError;
use crate::json::{read_as, Json};
use crate::model::{Asks, AsksView, Bids, BidsView};
use crate::vocabulary::{
    required_side_text, required_status_text, side_text_in, status_text_in,
};
use vstd::prelude::*;

verus! {

/// The depth of an order book at one moment. The levels are kept as the
/// message lists them; a crossed book is no error.
#[derive(Debug, Clone, PartialEq)]
pub struct OrderBook {
    pub last_update_id: u64,
    pub event_time: u64,
    pub trade_order_time: u64,
    pub bids: Vec<Bids>,
    pub asks: Vec<Asks>,
}

/// What an `OrderBook` holds, as mathematical values.
pub struct OrderBookView {
    pub last_update_id: u64,
    pub event_time: u64,
    pub trade_order_time: u64,
    pub bids: Seq<BidsView>,
    pub asks: Seq<AsksView>,
}

impl View for OrderBook {
    type V = OrderBookView;

    open spec fn view(&self) -> OrderBookView {
        OrderBookView {
            last_update_id: self.last_update_id,
            event_time: self.event_time,
            trade_order_time: self.trade_order_time,
            bids: views(self.bids@),
            asks: views(self.asks@),
        }
    }
}

impl OrderBook {
    /// What the object `j` decodes to under the naming convention `wire`: the
    /// fields are read in the order in which they are listed, and the first
    /// that fails gives the error.
    pub open spec fn decoded(j: Json, wire: Wire) -> Result<OrderBookView, DecodeError> {
        let last_update_id = u64_in(j.member(wire.name("lastUpdateId", "u")));
        let event_time = u64_in(j.member(wire.name("E", "E")));
        let trade_order_time = u64_in(j.member(wire.name("T", "T")));
        let bids = list_in(j.member(wire.name("bids", "b")), |v: Json| Bids::decoded(v));
        let asks = list_in(j.member(wire.name("asks", "a")), |v: Json| Asks::decoded(v));
        if !(j is Object) {
            Err(DecodeError::TypeMismatch)
        } else if last_update_id is Err {
            Err(last_update_id->Err_0)
        } else if event_time is Err {
            Err(event_time->Err_0)
        } else if trade_order_time is Err {
            Err(trade_order_time->Err_0)
        } else if bids is Err {
            Err(bids->Err_0)
        } else if asks is Err {
            Err(asks->Err_0)
        } else {
            Ok(
                OrderBookView {
                    last_update_id: last_update_id->Ok_0,
                    event_time: event_time->Ok_0,
                    trade_order_time: trade_order_time->Ok_0,
                    bids: bids->Ok_0,
                    asks: asks->Ok_0,
                },
            )
        }
    }

    /// Decodes the object `j`, whose fields are named as `wire` says.
    pub fn from_json(j: &Json, wire: Wire) -> (r: Result<OrderBook, DecodeError>)
        ensures
            viewed(r) == OrderBook::decoded(*j, wire),
    {
        if !j.is_object() {
            return Err(DecodeError::TypeMismatch);
        }
        let last_update_id = required_u64(j, wire.pick("lastUpdateId", "u"))?;
        let event_time = required_u64(j, wire.pick("E", "E"))?;
        let trade_order_time = required_u64(j, wire.pick("T", "T"))?;
        let bids = Bids::list_from(required_member(j, wire.pick("bids", "b"))?)?;
        let asks = Asks::list_from(required_member(j, wire.pick("asks", "a"))?)?;
        Ok(OrderBook { last_update_id, event_time, trade_order_time, bids, asks })
    }

    /// Reads the answer from its text and decodes it.
    pub fn from_text(text: &str) -> (r: Result<OrderBook, DecodeError>)
        ensures
            viewed(r) == read_as(text@, |j: Json| OrderBook::decoded(j, Wire::Rest)),
    {
        match Json::parse(text) {
            Ok(j) => OrderBook::from_json(&j, Wire::Rest),
            Err(e) => Err(e),
        }
    }
}

/// The statistics of a symbol over the last 24 hours.
#[derive(Debug, Clone, PartialEq)]
pub struct PriceStats {
    pub symbol: String,
    pub price_change: String,
    pub price_change_percent: String,
    pub weighted_avg_price: String,
    pub last_price: Decimal,
    pub open_price: Decimal,
    pub high_price: Decimal,
    pub low_price: Decimal,
    pub volume: Decimal,
    pub quote_volume: Decimal,
    pub last_qty: Decimal,
    pub open_time: u64,
    pub close_time: u64,
    pub first_id: u64,
    pub last_id: u64,
    pub count: u64,
}

/// What a `PriceStats` holds, as mathematical values.
pub struct PriceStatsView {
    pub symbol: Seq<char>,
    pub price_change: Seq<char>,
    pub price_change_percent: Seq<char>,
    pub weighted_avg_price: Seq<char>,
    pub last_price: DecimalView,
    pub open_price: DecimalView,
    pub high_price: DecimalView,
    pub low_price: DecimalView,
    pub volume: DecimalView,
    pub quote_volume: DecimalView,
    pub last_qty: DecimalView,
    pub open_time: u64,
    pub close_time: u64,
    pub first_id: u64,
    pub last_id: u64,
    pub count: u64,
}

impl View for PriceStats {
    type V = PriceStatsView;

    open spec fn view(&self) -> PriceStatsView {
        PriceStatsView {
            symbol: self.symbol@,
            price_change: self.price_change@,
            price_change_percent: self.price_change_percent@,
            weighted_avg_price: self.weighted_avg_price@,
            last_price: self.last_price@,
            open_price: self.open_price@,
            high_price: self.high_price@,
            low_price: self.low_price@,
            volume: self.volume@,
            quote_volume: self.quote_volume@,
            last_qty: self.last_qty@,
            open_time: self.open_time,
            close_time: self.close_time,
            first_id: self.first_id,
            last_id: self.last_id,
            count: self.count,
        }
    }
}

impl PriceStatsView {
    /// Where trades were counted, the first of them has the lower number.
    pub open spec fn in_order(self) -> bool {
        self.count > 0 ==> self.first_id <= self.last_id
    }
}

impl PriceStats {
    /// Whether the numbers of the first and the last trade are in order.
    /// Decoding does not ask for it: it reads the shape only.
    pub fn is_in_order(&self) -> (r: bool)
        ensures
            r == self@.in_order(),
    {
        self.count == 0 || self.first_id <= self.last_id
    }

    /// What the object `j` decodes to: the fields are read in the order
    /// in which they are listed, and the first that fails gives the error.
    pub open spec fn decoded(j: Json) -> Result<PriceStatsView, DecodeError> {
        let symbol = text_in(j.member("symbol"@));
        let price_change = text_in(j.member("priceChange"@));
        let price_change_percent = text_in(j.member("priceChangePercent"@));
        let weighted_avg_price = text_in(j.member("weightedAvgPrice"@));
        let last_price = required_decimal_in(j.member("lastPrice"@));
        let open_price = required_decimal_in(j.member("openPrice"@));
        let high_price = required_decimal_in(j.member("highPrice"@));
        let low_price = required_decimal_in(j.member("lowPrice"@));
        let volume = required_decimal_in(j.member("volume"@));
        let quote_volume = required_decimal_in(j.member("quoteVolume"@));
        let last_qty = required_decimal_in(j.member("lastQty"@));
        let open_time = u64_in(j.member("openTime"@));
        let close_time = u64_in(j.member("closeTime"@));
        let first_id = u64_in(j.member("firstId"@));
        let last_id = u64_in(j.member("lastId"@));
        let count = u64_in(j.member("count"@));
        if !(j is Object) {
            Err(DecodeError::TypeMismatch)
        } else if symbol is Err {
            Err(symbol->Err_0)
        } else if price_change is Err {
            Err(price_change->Err_0)
        } else if price_change_percent is Err {
            Err(price_change_percent->Err_0)
        } else if weighted_avg_price is Err {
            Err(weighted_avg_price->Err_0)
        } else if last_price is Err {
            Err(last_price->Err_0)
        } else if open_price is Err {
            Err(open_price->Err_0)
        } else if high_price is Err {
            Err(high_price->Err_0)
        } else if low_price is Err {
            Err(low_price->Err_0)
        } else if volume is Err {
            Err(volume->Err_0)
        } else if quote_volume is Err {
            Err(quote_volume->Err_0)
        } else if last_qty is Err {
            Err(last_qty->Err_0)
        } else if open_time is Err {
            Err(open_time->Err_0)
        } else if close_time is Err {
            Err(close_time->Err_0)
        } else if first_id is Err {
            Err(first_id->Err_0)
        } else if last_id is Err {
            Err(last_id->Err_0)
        } else if count is Err {
            Err(count->Err_0)
        } else {
            Ok(
                PriceStatsView {
                    symbol: symbol->Ok_0,
                    price_change: price_change->Ok_0,
                    price_change_percent: price_change_percent->Ok_0,
                    weighted_avg_price: weighted_avg_price->Ok_0,
                    last_price: last_price->Ok_0,
                    open_price: open_price->Ok_0,
                    high_price: high_price->Ok_0,
                    low_price: low_price->Ok_0,
                    volume: volume->Ok_0,
                    quote_volume: quote_volume->Ok_0,
                    last_qty: last_qty->Ok_0,
                    open_time: open_time->Ok_0,
                    close_time: close_time->Ok_0,
                    first_id: first_id->Ok_0,
                    last_id: last_id->Ok_0,
                    count: count->Ok_0,
                },
            )
        }
    }

    /// Decodes the object `j`.
    pub fn from_json(j: &Json) -> (r: Result<PriceStats, DecodeError>)
        ensures
            viewed(r) == PriceStats::decoded(*j),
    {
        if !j.is_object() {
            return Err(DecodeError::TypeMismatch);
        }
        let symbol = required_text(j, "symbol")?;
        let price_change = required_text(j, "priceChange")?;
        let price_change_percent = required_text(j, "priceChangePercent")?;
        let weighted_avg_price = required_text(j, "weightedAvgPrice")?;
        let last_price = required_decimal(j, "lastPrice")?;
        let open_price = required_decimal(j, "openPrice")?;
        let high_price = required_decimal(j, "highPrice")?;
        let low_price = required_decimal(j, "lowPrice")?;
        let volume = required_decimal(j, "volume")?;
        let quote_volume = required_decimal(j, "quoteVolume")?;
        let last_qty = required_decimal(j, "lastQty")?;
        let open_time = required_u64(j, "openTime")?;
        let close_time = required_u64(j, "closeTime")?;
        let first_id = required_u64(j, "firstId")?;
        let last_id = required_u64(j, "lastId")?;
        let count = required_u64(j, "count")?;
        Ok(
            PriceStats {
                symbol,
                price_change,
                price_change_percent,
                weighted_avg_price,
                last_price,
                open_price,
                high_price,
                low_price,
                volume,
                quote_volume,
                last_qty,
                open_time,
                close_time,
                first_id,
                last_id,
                count,
            },
        )
    }

    /// Reads the answer from its text and decodes it.
    pub fn from_text(text: &str) -> (r: Result<PriceStats, DecodeError>)
        ensures
            viewed(r) == read_as(text@, |j: Json| PriceStats::decoded(j)),
    {
        match Json::parse(text) {
            Ok(j) => PriceStats::from_json(&j),
            Err(e) => Err(e),
        }
    }
}

/// The answer to a request for recent trades.
#[derive(Debug, Clone, PartialEq)]
pub enum Trades {
    AllTrades(Vec<Trade>),
}

/// What a `Trades` holds, as mathematical values.
pub enum TradesView {
    AllTrades(Seq<TradeView>),
}

impl View for Trades {
    type V = TradesView;

    open spec fn view(&self) -> TradesView {
        match self {
            Trades::AllTrades(items) => TradesView::AllTrades(views(items@)),
        }
    }
}

impl Trades {
    /// What the array `j` decodes to: its elements, in order.
    pub open spec fn decoded(j: Json) -> Result<TradesView, DecodeError> {
        match array_of(j, |v: Json| Trade::decoded(v, Wire::Rest)) {
            Ok(items) => Ok(TradesView::AllTrades(items)),
            Err(e) => Err(e),
        }
    }

    /// Decodes the array `j`.
    pub fn from_json(j: &Json) -> (r: Result<Trades, DecodeError>)
        ensures
            viewed(r) == Trades::decoded(*j),
    {
        match Trade::list_from(j, Wire::Rest) {
            Ok(items) => Ok(Trades::AllTrades(items)),
            Err(e) => Err(e),
        }
    }

    /// Reads the answer from its text and decodes it.
    pub fn from_text(text: &str) -> (r: Result<Trades, DecodeError>)
        ensures
            viewed(r) == read_as(text@, |j: Json| Trades::decoded(j)),
    {
        match Json::parse(text) {
            Ok(j) => Trades::from_json(&j),
            Err(e) => Err(e),
        }
    }
}

/// An executed trade.
#[derive(Debug, Clone, PartialEq)]
pub struct Trade {
    pub id: u64,
    pub is_buyer_maker: bool,
    pub price: Decimal,
    pub qty: Decimal,
    /// The quantity in the quote asset. A pushed trade does not carry it.
    pub quote_qty: Option<Decimal>,
    pub time: u64,
}

/// What a `Trade` holds, as mathematical values.
pub struct TradeView {
    pub id: u64,
    pub is_buyer_maker: bool,
    pub price: DecimalView,
    pub qty: DecimalView,
    pub quote_qty: Option<DecimalView>,
    pub time: u64,
}

impl View for Trade {
    type V = TradeView;

    open spec fn view(&self) -> TradeView {
        TradeView {
            id: self.id,
            is_buyer_maker: self.is_buyer_maker,
            price: self.price@,
            qty: self.qty@,
            quote_qty: optional_decimal_view(self.quote_qty),
            time: self.time,
        }
    }
}

impl TradeView {
    /// Neither the price nor a quantity is below zero.
    pub open spec fn non_negative(self) -> bool {
        &&& self.price.unscaled >= 0
        &&& self.qty.unscaled >= 0
        &&& self.quote_qty matches Some(q) ==> q.unscaled >= 0
    }
}

impl Trade {
    /// Whether neither the price nor a quantity is below zero.
    /// Decoding does not ask for it: it reads the shape only.
    pub fn is_non_negative(&self) -> (r: bool)
        ensures
            r == self@.non_negative(),
    {
        let quote_ok = match &self.quote_qty {
            Some(q) => !q.is_negative(),
            None => true,
        };
        !self.price.is_negative() && !self.qty.is_negative() && quote_ok
    }

    /// What the object `j` decodes to under the naming convention `wire`: the
    /// fields are read in the order in which they are listed, and the first
    /// that fails gives the error. An answer must hold the quote quantity; a
    /// pushed trade has none, whatever it holds.
    pub open spec fn decoded(j: Json, wire: Wire) -> Result<TradeView, DecodeError> {
        let id = u64_in(j.member(wire.name("id", "t")));
        let is_buyer_maker = flag_in(j.member(wire.name("isBuyerMaker", "m")));
        let price = required_decimal_in(j.member(wire.name("price", "p")));
        let qty = required_decimal_in(j.member(wire.name("qty", "q")));
        let quote_qty = match wire {
            Wire::Rest => present(required_decimal_in(j.member("quoteQty"@))),
            Wire::Stream => Ok(None),
        };
        let time = u64_in(j.member(wire.name("time", "T")));
        if !(j is Object) {
            Err(DecodeError::TypeMismatch)
        } else if id is Err {
            Err(id->Err_0)
        } else if is_buyer_maker is Err {
            Err(is_buyer_maker->Err_0)
        } else if price is Err {
            Err(price->Err_0)
        } else if qty is Err {
            Err(qty->Err_0)
        } else if quote_qty is Err {
            Err(quote_qty->Err_0)
        } else if time is Err {
            Err(time->Err_0)
        } else {
            Ok(
                TradeView {
                    id: id->Ok_0,
                    is_buyer_maker: is_buyer_maker->Ok_0,
                    price: price->Ok_0,
                    qty: qty->Ok_0,
                    quote_qty: quote_qty->Ok_0,
                    time: time->Ok_0,
                },
            )
        }
    }

    /// Decodes the object `j`, whose fields are named as `wire` says.
    pub fn from_json(j: &Json, wire: Wire) -> (r: Result<Trade, DecodeError>)
        ensures
            viewed(r) == Trade::decoded(*j, wire),
    {
        if !j.is_object() {
            return Err(DecodeError::TypeMismatch);
        }
        let id = required_u64(j, wire.pick("id", "t"))?;
        let is_buyer_maker = required_flag(j, wire.pick("isBuyerMaker", "m"))?;
        let price = required_decimal(j, wire.pick("price", "p"))?;
        let qty = required_decimal(j, wire.pick("qty", "q"))?;
        let quote_qty = match wire {
            Wire::Rest => Some(required_decimal(j, "quoteQty")?),
            Wire::Stream => None,
        };
        let time = required_u64(j, wire.pick("time", "T"))?;
        Ok(Trade { id, is_buyer_maker, price, qty, quote_qty, time })
    }

    /// Decodes the array `j`, element by element.
    pub fn list_from(j: &Json, wire: Wire) -> (r: Result<Vec<Trade>, DecodeError>)
        ensures
            viewed_each(r) == array_of(*j, |v: Json| Trade::decoded(v, wire)),
    {
        match j {
            Json::Array(items) => {
                let each = |v: &Json| -> (o: Result<Trade, DecodeError>)
                    ensures
                        viewed(o) == Trade::decoded(*v, wire),
                    { Trade::from_json(v, wire) };
                decode_each(items, each, Ghost(|v: Json| Trade::decoded(v, wire)))
            },
            _ => Err(DecodeError::TypeMismatch),
        }
    }
}

/// The answer to a request for aggregated trades.
#[derive(Debug, Clone, PartialEq)]
pub enum AggTrades {
    AllAggTrades(Vec<AggTrade>),
}

/// What an `AggTrades` holds, as mathematical values.
pub enum AggTradesView {
    AllAggTrades(Seq<AggTradeView>),
}

impl View for AggTrades {
    type V = AggTradesView;

    open spec fn view(&self) -> AggTradesView {
        match self {
            AggTrades::AllAggTrades(items) => AggTradesView::AllAggTrades(views(items@)),
        }
    }
}

impl AggTrades {
    /// What the array `j` decodes to: its elements, in order.
    pub open spec fn decoded(j: Json) -> Result<AggTradesView, DecodeError> {
        match array_of(j, |v: Json| AggTrade::decoded(v)) {
            Ok(items) => Ok(AggTradesView::AllAggTrades(items)),
            Err(e) => Err(e),
        }
    }

    /// Decodes the array `j`.
    pub fn from_json(j: &Json) -> (r: Result<AggTrades, DecodeError>)
        ensures
            viewed(r) == AggTrades::decoded(*j),
    {
        match AggTrade::list_from(j) {
            Ok(items) => Ok(AggTrades::AllAggTrades(items)),
            Err(e) => Err(e),
        }
    }

    /// Reads the answer from its text and decodes it.
    pub fn from_text(text: &str) -> (r: Result<AggTrades, DecodeError>)
        ensures
            viewed(r) == read_as(text@, |j: Json| AggTrades::decoded(j)),
    {
        match Json::parse(text) {
            Ok(j) => AggTrades::from_json(&j),
            Err(e) => Err(e),
        }
    }
}

/// Trades of one taker order at one price, summed up. Its fields have the
/// same short names in answers and in pushed messages.
#[derive(Debug, Clone, PartialEq)]
pub struct AggTrade {
    pub time: u64,
    pub agg_id: u64,
    pub first_id: u64,
    pub last_id: u64,
    pub maker: bool,
    pub price: Decimal,
    pub qty: Decimal,
}

/// What an `AggTrade` holds, as mathematical values.
pub struct AggTradeView {
    pub time: u64,
    pub agg_id: u64,
    pub first_id: u64,
    pub last_id: u64,
    pub maker: bool,
    pub price: DecimalView,
    pub qty: DecimalView,
}

impl View for AggTrade {
    type V = AggTradeView;

    open spec fn view(&self) -> AggTradeView {
        AggTradeView {
            time: self.time,
            agg_id: self.agg_id,
            first_id: self.first_id,
            last_id: self.last_id,
            maker: self.maker,
            price: self.price@,
            qty: self.qty@,
        }
    }
}

impl AggTradeView {
    /// Neither the price nor the quantity is below zero.
    pub open spec fn non_negative(self) -> bool {
        self.price.unscaled >= 0 && self.qty.unscaled >= 0
    }
}

impl AggTrade {
    /// Whether neither the price nor the quantity is below zero.
    /// Decoding does not ask for it: it reads the shape only.
    pub fn is_non_negative(&self) -> (r: bool)
        ensures
            r == self@.non_negative(),
    {
        !self.price.is_negative() && !self.qty.is_negative()
    }

    /// What the object `j` decodes to: the fields are read in the order
    /// in which they are listed, and the first that fails gives the error.
    pub open spec fn decoded(j: Json) -> Result<AggTradeView, DecodeError> {
        let time = u64_in(j.member("T"@));
        let agg_id = u64_in(j.member("a"@));
        let first_id = u64_in(j.member("f"@));
        let last_id = u64_in(j.member("l"@));
        let maker = flag_in(j.member("m"@));
        let price = required_decimal_in(j.member("p"@));
        let qty = required_decimal_in(j.member("q"@));
        if !(j is Object) {
            Err(DecodeError::TypeMismatch)
        } else if time is Err {
            Err(time->Err_0)
        } else if agg_id is Err {
            Err(agg_id->Err_0)
        } else if first_id is Err {
            Err(first_id->Err_0)
        } else if last_id is Err {
            Err(last_id->Err_0)
        } else if maker is Err {
            Err(maker->Err_0)
        } else if price is Err {
            Err(price->Err_0)
        } else if qty is Err {
            Err(qty->Err_0)
        } else {
            Ok(
                AggTradeView {
                    time: time->Ok_0,
                    agg_id: agg_id->Ok_0,
                    first_id: first_id->Ok_0,
                    last_id: last_id->Ok_0,
                    maker: maker->Ok_0,
                    price: price->Ok_0,
                    qty: qty->Ok_0,
                },
            )
        }
    }

    /// Decodes the object `j`.
    pub fn from_json(j: &Json) -> (r: Result<AggTrade, DecodeError>)
        ensures
            viewed(r) == AggTrade::decoded(*j),
    {
        if !j.is_object() {
            return Err(DecodeError::TypeMismatch);
        }
        let time = required_u64(j, "T")?;
        let agg_id = required_u64(j, "a")?;
        let first_id = required_u64(j, "f")?;
        let last_id = required_u64(j, "l")?;
        let maker = required_flag(j, "m")?;
        let price = required_decimal(j, "p")?;
        let qty = required_decimal(j, "q")?;
        Ok(AggTrade { time, agg_id, first_id, last_id, maker, price, qty })
    }

    /// Decodes the array `j`, element by element.
    pub fn list_from(j: &Json) -> (r: Result<Vec<AggTrade>, DecodeError>)
        ensures
            viewed_each(r) == array_of(*j, |v: Json| AggTrade::decoded(v)),
    {
        match j {
            Json::Array(items) => decode_each(
                items,
                AggTrade::from_json,
                Ghost(|v: Json| AggTrade::decoded(v)),
            ),
            _ => Err(DecodeError::TypeMismatch),
        }
    }
}

/// The answer to a request for the mark prices of all symbols.
#[derive(Debug, Clone, PartialEq)]
pub enum MarkPrices {
    AllMarkPrices(Vec<MarkPrice>),
}

/// What a `MarkPrices` holds, as mathematical values.
pub enum MarkPricesView {
    AllMarkPrices(Seq<MarkPriceView>),
}

impl View for MarkPrices {
    type V = MarkPricesView;

    open spec fn view(&self) -> MarkPricesView {
        match self {
            MarkPrices::AllMarkPrices(items) => MarkPricesView::AllMarkPrices(views(items@)),
        }
    }
}

impl MarkPrices {
    /// What the array `j` decodes to: its elements, in order.
    pub open spec fn decoded(j: Json) -> Result<MarkPricesView, DecodeError> {
        match array_of(j, |v: Json| MarkPrice::decoded(v, Wire::Rest)) {
            Ok(items) => Ok(MarkPricesView::AllMarkPrices(items)),
            Err(e) => Err(e),
        }
    }

    /// Decodes the array `j`.
    pub fn from_json(j: &Json) -> (r: Result<MarkPrices, DecodeError>)
        ensures
            viewed(r) == MarkPrices::decoded(*j),
    {
        match MarkPrice::list_from(j, Wire::Rest) {
            Ok(items) => Ok(MarkPrices::AllMarkPrices(items)),
            Err(e) => Err(e),
        }
    }

    /// Reads the answer from its text and decodes it.
    pub fn from_text(text: &str) -> (r: Result<MarkPrices, DecodeError>)
        ensures
            viewed(r) == read_as(text@, |j: Json| MarkPrices::decoded(j)),
    {
        match Json::parse(text) {
            Ok(j) => MarkPrices::from_json(&j),
            Err(e) => Err(e),
        }
    }
}

/// The mark price of a symbol and its funding.
#[derive(Debug, Clone, PartialEq)]
pub struct MarkPrice {
    pub symbol: String,
    pub mark_price: Decimal,
    pub last_funding_rate: Decimal,
    pub next_funding_time: u64,
    pub time: u64,
}

/// What a `MarkPrice` holds, as mathematical values.
pub struct MarkPriceView {
    pub symbol: Seq<char>,
    pub mark_price: DecimalView,
    pub last_funding_rate: DecimalView,
    pub next_funding_time: u64,
    pub time: u64,
}

impl View for MarkPrice {
    type V = MarkPriceView;

    open spec fn view(&self) -> MarkPriceView {
        MarkPriceView {
            symbol: self.symbol@,
            mark_price: self.mark_price@,
            last_funding_rate: self.last_funding_rate@,
            next_funding_time: self.next_funding_time,
            time: self.time,
        }
    }
}

impl MarkPrice {
    /// What the object `j` decodes to under the naming convention `wire`: the
    /// fields are read in the order in which they are listed, and the first
    /// that fails gives the error.
    pub open spec fn decoded(j: Json, wire: Wire) -> Result<MarkPriceView, DecodeError> {
        let symbol = text_in(j.member(wire.name("symbol", "s")));
        let mark_price = required_decimal_in(j.member(wire.name("markPrice", "p")));
        let last_funding_rate = required_decimal_in(j.member(wire.name("lastFundingRate", "r")));
        let next_funding_time = u64_in(j.member(wire.name("nextFundingTime", "T")));
        let time = u64_in(j.member(wire.name("time", "E")));
        if !(j is Object) {
            Err(DecodeError::TypeMismatch)
        } else if symbol is Err {
            Err(symbol->Err_0)
        } else if mark_price is Err {
            Err(mark_price->Err_0)
        } else if last_funding_rate is Err {
            Err(last_funding_rate->Err_0)
        } else if next_funding_time is Err {
            Err(next_funding_time->Err_0)
        } else if time is Err {
            Err(time->Err_0)
        } else {
            Ok(
                MarkPriceView {
                    symbol: symbol->Ok_0,
                    mark_price: mark_price->Ok_0,
                    last_funding_rate: last_funding_rate->Ok_0,
                    next_funding_time: next_funding_time->Ok_0,
                    time: time->Ok_0,
                },
            )
        }
    }

    /// Decodes the object `j`, whose fields are named as `wire` says.
    pub fn from_json(j: &Json, wire: Wire) -> (r: Result<MarkPrice, DecodeError>)
        ensures
            viewed(r) == MarkPrice::decoded(*j, wire),
    {
        if !j.is_object() {
            return Err(DecodeError::TypeMismatch);
        }
        let symbol = required_text(j, wire.pick("symbol", "s"))?;
        let mark_price = required_decimal(j, wire.pick("markPrice", "p"))?;
        let last_funding_rate = required_decimal(j, wire.pick("lastFundingRate", "r"))?;
        let next_funding_time = required_u64(j, wire.pick("nextFundingTime", "T"))?;
        let time = required_u64(j, wire.pick("time", "E"))?;
        Ok(MarkPrice { symbol, mark_price, last_funding_rate, next_funding_time, time })
    }

    /// Decodes the array `j`, element by element.
    pub fn list_from(j: &Json, wire: Wire) -> (r: Result<Vec<MarkPrice>, DecodeError>)
        ensures
            viewed_each(r) == array_of(*j, |v: Json| MarkPrice::decoded(v, wire)),
    {
        match j {
            Json::Array(items) => {
                let each = |v: &Json| -> (o: Result<MarkPrice, DecodeError>)
                    ensures
                        viewed(o) == MarkPrice::decoded(*v, wire),
                    { MarkPrice::from_json(v, wire) };
                decode_each(items, each, Ghost(|v: Json| MarkPrice::decoded(v, wire)))
            },
            _ => Err(DecodeError::TypeMismatch),
        }
    }

    /// Reads the answer from its text and decodes it.
    pub fn from_text(text: &str) -> (r: Result<MarkPrice, DecodeError>)
        ensures
            viewed(r) == read_as(text@, |j: Json| MarkPrice::decoded(j, Wire::Rest)),
    {
        match Json::parse(text) {
            Ok(j) => MarkPrice::from_json(&j, Wire::Rest),
            Err(e) => Err(e),
        }
    }
}

/// The answer to a request for liquidation orders.
#[derive(Debug, Clone, PartialEq)]
pub enum LiquidationOrders {
    AllLiquidationOrders(Vec<LiquidationOrder>),
}

/// What a `LiquidationOrders` holds, as mathematical values.
pub enum LiquidationOrdersView {
    AllLiquidationOrders(Seq<LiquidationOrderView>),
}

impl View for LiquidationOrders {
    type V = LiquidationOrdersView;

    open spec fn view(&self) -> LiquidationOrdersView {
        match self {
            LiquidationOrders::AllLiquidationOrders(items) => {
                LiquidationOrdersView::AllLiquidationOrders(views(items@))
            },
        }
    }
}

impl LiquidationOrders {
    /// What the array `j` decodes to: its elements, in order.
    pub open spec fn decoded(j: Json) -> Result<LiquidationOrdersView, DecodeError> {
        match array_of(j, |v: Json| LiquidationOrder::decoded(v, Wire::Rest)) {
            Ok(items) => Ok(LiquidationOrdersView::AllLiquidationOrders(items)),
            Err(e) => Err(e),
        }
    }

    /// Decodes the array `j`.
    pub fn from_json(j: &Json) -> (r: Result<LiquidationOrders, DecodeError>)
        ensures
            viewed(r) == LiquidationOrders::decoded(*j),
    {
        match LiquidationOrder::list_from(j, Wire::Rest) {
            Ok(items) => Ok(LiquidationOrders::AllLiquidationOrders(items)),
            Err(e) => Err(e),
        }
    }

    /// Reads the answer from its text and decodes it.
    pub fn from_text(text: &str) -> (r: Result<LiquidationOrders, DecodeError>)
        ensures
            viewed(r) == read_as(text@, |j: Json| LiquidationOrders::decoded(j)),
    {
        match Json::parse(text) {
            Ok(j) => LiquidationOrders::from_json(&j),
            Err(e) => Err(e),
        }
    }
}

/// An order by which a position was liquidated.
#[derive(Debug, Clone, PartialEq)]
pub struct LiquidationOrder {
    pub average_price: Decimal,
    pub executed_qty: Decimal,
    pub orig_qty: Decimal,
    pub price: Decimal,
    /// One of the tokens of an order side.
    pub side: String,
    /// One of the tokens of an order status.
    pub status: String,
    pub symbol: String,
    pub time: u64,
    pub time_in_force: String,
    pub order_type: String,
}

/// What a `LiquidationOrder` holds, as mathematical values.
pub struct LiquidationOrderView {
    pub average_price: DecimalView,
    pub executed_qty: DecimalView,
    pub orig_qty: DecimalView,
    pub price: DecimalView,
    pub side: Seq<char>,
    pub status: Seq<char>,
    pub symbol: Seq<char>,
    pub time: u64,
    pub time_in_force: Seq<char>,
    pub order_type: Seq<char>,
}

impl View for LiquidationOrder {
    type V = LiquidationOrderView;

    open spec fn view(&self) -> LiquidationOrderView {
        LiquidationOrderView {
            average_price: self.average_price@,
            executed_qty: self.executed_qty@,
            orig_qty: self.orig_qty@,
            price: self.price@,
            side: self.side@,
            status: self.status@,
            symbol: self.symbol@,
            time: self.time,
            time_in_force: self.time_in_force@,
            order_type: self.order_type@,
        }
    }
}

impl LiquidationOrder {
    /// What the object `j` decodes to under the naming convention `wire`: the
    /// fields are read in the order in which they are listed, and the first
    /// that fails gives the error.
    pub open spec fn decoded(j: Json, wire: Wire) -> Result<LiquidationOrderView, DecodeError> {
        let average_price = required_decimal_in(j.member(wire.name("averagePrice", "ap")));
        let executed_qty = required_decimal_in(j.member(wire.name("executedQty", "z")));
        let orig_qty = required_decimal_in(j.member(wire.name("origQty", "q")));
        let price = required_decimal_in(j.member(wire.name("price", "p")));
        let side = side_text_in(j.member(wire.name("side", "S")));
        let status = status_text_in(j.member(wire.name("status", "X")));
        let symbol = text_in(j.member(wire.name("symbol", "s")));
        let time = u64_in(j.member(wire.name("time", "T")));
        let time_in_force = text_in(j.member(wire.name("timeInForce", "f")));
        let order_type = text_in(j.member(wire.name("type", "o")));
        if !(j is Object) {
            Err(DecodeError::TypeMismatch)
        } else if average_price is Err {
            Err(average_price->Err_0)
        } else if executed_qty is Err {
            Err(executed_qty->Err_0)
        } else if orig_qty is Err {
            Err(orig_qty->Err_0)
        } else if price is Err {
            Err(price->Err_0)
        } else if side is Err {
            Err(side->Err_0)
        } else if status is Err {
            Err(status->Err_0)
        } else if symbol is Err {
            Err(symbol->Err_0)
        } else if time is Err {
            Err(time->Err_0)
        } else if time_in_force is Err {
            Err(time_in_force->Err_0)
        } else if order_type is Err {
            Err(order_type->Err_0)
        } else {
            Ok(
                LiquidationOrderView {
                    average_price: average_price->Ok_0,
                    executed_qty: executed_qty->Ok_0,
                    orig_qty: orig_qty->Ok_0,
                    price: price->Ok_0,
                    side: side->Ok_0,
                    status: status->Ok_0,
                    symbol: symbol->Ok_0,
                    time: time->Ok_0,
                    time_in_force: time_in_force->Ok_0,
                    order_type: order_type->Ok_0,
                },
            )
        }
    }

    /// Decodes the object `j`, whose fields are named as `wire` says.
    pub fn from_json(j: &Json, wire: Wire) -> (r: Result<LiquidationOrder, DecodeError>)
        ensures
            viewed(r) == LiquidationOrder::decoded(*j, wire),
    {
        if !j.is_object() {
            return Err(DecodeError::TypeMismatch);
        }
        let average_price = required_decimal(j, wire.pick("averagePrice", "ap"))?;
        let executed_qty = required_decimal(j, wire.pick("executedQty", "z"))?;
        let orig_qty = required_decimal(j, wire.pick("origQty", "q"))?;
        let price = required_decimal(j, wire.pick("price", "p"))?;
        let side = required_side_text(j, wire.pick("side", "S"))?;
        let status = required_status_text(j, wire.pick("status", "X"))?;
        let symbol = required_text(j, wire.pick("symbol", "s"))?;
        let time = required_u64(j, wire.pick("time", "T"))?;
        let time_in_force = required_text(j, wire.pick("timeInForce", "f"))?;
        let order_type = required_text(j, wire.pick("type", "o"))?;
        Ok(
            LiquidationOrder {
                average_price,
                executed_qty,
                orig_qty,
                price,
                side,
                status,
                symbol,
                time,
                time_in_force,
                order_type,
            },
        )
    }

    /// Decodes the array `j`, element by element.
    pub fn list_from(j: &Json, wire: Wire) -> (r: Result<Vec<LiquidationOrder>, DecodeError>)
        ensures
            viewed_each(r) == array_of(*j, |v: Json| LiquidationOrder::decoded(v, wire)),
    {
        match j {
            Json::Array(items) => {
                let each = |v: &Json| -> (o: Result<LiquidationOrder, DecodeError>)
                    ensures
                        viewed(o) == LiquidationOrder::decoded(*v, wire),
                    { LiquidationOrder::from_json(v, wire) };
                decode_each(items, each, Ghost(|v: Json| LiquidationOrder::decoded(v, wire)))
            },
            _ => Err(DecodeError::TypeMismatch),
        }
    }
}

/// The open interest of a symbol.
#[derive(Debug, Clone, PartialEq)]
pub struct OpenInterest {
    pub open_interest: Decimal,
    pub symbol: String,
}

/// What an `OpenInterest` holds, as mathematical values.
pub struct OpenInterestView {
    pub open_interest: DecimalView,
    pub symbol: Seq<char>,
}

impl View for OpenInterest {
    type V = OpenInterestView;

    open spec fn view(&self) -> OpenInterestView {
        OpenInterestView {
            open_interest: self.open_interest@,
            symbol: self.symbol@,
        }
    }
}

impl OpenInterest {
    /// What the object `j` decodes to under the naming convention `wire`: the
    /// fields are read in the order in which they are listed, and the first
    /// that fails gives the error.
    pub open spec fn decoded(j: Json, wire: Wire) -> Result<OpenInterestView, DecodeError> {
        let open_interest = required_decimal_in(j.member(wire.name("openInterest", "o")));
        let symbol = text_in(j.member(wire.name("symbol", "s")));
        if !(j is Object) {
            Err(DecodeError::TypeMismatch)
        } else if open_interest is Err {
            Err(open_interest->Err_0)
        } else if symbol is Err {
            Err(symbol->Err_0)
        } else {
            Ok(
                OpenInterestView {
                    open_interest: open_interest->Ok_0,
                    symbol: symbol->Ok_0,
                },
            )
        }
    }

    /// Decodes the object `j`, whose fields are named as `wire` says.
    pub fn from_json(j: &Json, wire: Wire) -> (r: Result<OpenInterest, DecodeError>)
        ensures
            viewed(r) == OpenInterest::decoded(*j, wire),
    {
        if !j.is_object() {
            return Err(DecodeError::TypeMismatch);
        }
        let open_interest = required_decimal(j, wire.pick("openInterest", "o"))?;
        let symbol = required_text(j, wire.pick("symbol", "s"))?;
        Ok(OpenInterest { open_interest, symbol })
    }

    /// Reads the answer from its text and decodes it.
    pub fn from_text(text: &str) -> (r: Result<OpenInterest, DecodeError>)
        ensures
            viewed(r) == read_as(text@, |j: Json| OpenInterest::decoded(j, Wire::Rest)),
    {
        match Json::parse(text) {
            Ok(j) => OpenInterest::from_json(&j, Wire::Rest),
            Err(e) => Err(e),
        }
    }
}

} // verus!
