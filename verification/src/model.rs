//! The shapes that both segments share, and those of the spot segment.

use crate::codec::{
    array_of, decimal_in, decode, decode_each, flag_in, item, item_at, list_in, optional_flag,
    optional_flag_in, optional_text, optional_text_in, optional_text_view, optional_u16,
    optional_u16_in, required_flag, required_member, required_text, required_u16, required_u64,
    text_in, text_list, text_of, u16_in, u64_in, u64_of, viewed, viewed_each, views,
};
use crate::decimal::{Decimal, DecimalView};
use crate::error::DecodeError;
use crate::json::{read_as, Json};
use crate::text::same_text;
use vstd::prelude::*;

verus! {

/// A limit on how often requests may be made.
#[derive(Debug, Clone, PartialEq)]
pub struct RateLimit {
    pub rate_limit_type: String,
    pub interval: String,
    pub interval_num: u16,
    pub limit: u64,
}

/// What a `RateLimit` holds, as mathematical values.
pub struct RateLimitView {
    pub rate_limit_type: Seq<char>,
    pub interval: Seq<char>,
    pub interval_num: u16,
    pub limit: u64,
}

impl View for RateLimit {
    type V = RateLimitView;

    open spec fn view(&self) -> RateLimitView {
        RateLimitView {
            rate_limit_type: self.rate_limit_type@,
            interval: self.interval@,
            interval_num: self.interval_num,
            limit: self.limit,
        }
    }
}

impl RateLimit {
    /// What the object `j` decodes to: the fields are read in the order
    /// in which they are listed, and the first that fails gives the error.
    pub open spec fn decoded(j: Json) -> Result<RateLimitView, DecodeError> {
        let rate_limit_type = text_in(j.member("rateLimitType"@));
        let interval = text_in(j.member("interval"@));
        let interval_num = u16_in(j.member("intervalNum"@));
        let limit = u64_in(j.member("limit"@));
        if !(j is Object) {
            Err(DecodeError::TypeMismatch)
        } else if rate_limit_type is Err {
            Err(rate_limit_type->Err_0)
        } else if interval is Err {
            Err(interval->Err_0)
        } else if interval_num is Err {
            Err(interval_num->Err_0)
        } else if limit is Err {
            Err(limit->Err_0)
        } else {
            Ok(
                RateLimitView {
                    rate_limit_type: rate_limit_type->Ok_0,
                    interval: interval->Ok_0,
                    interval_num: interval_num->Ok_0,
                    limit: limit->Ok_0,
                },
            )
        }
    }

    /// Decodes the object `j`.
    pub fn from_json(j: &Json) -> (r: Result<RateLimit, DecodeError>)
        ensures
            viewed(r) == RateLimit::decoded(*j),
    {
        if !j.is_object() {
            return Err(DecodeError::TypeMismatch);
        }
        let rate_limit_type = required_text(j, "rateLimitType")?;
        let interval = required_text(j, "interval")?;
        let interval_num = required_u16(j, "intervalNum")?;
        let limit = required_u64(j, "limit")?;
        Ok(RateLimit { rate_limit_type, interval, interval_num, limit })
    }

    /// Decodes the array `j`, element by element.
    pub fn list_from(j: &Json) -> (r: Result<Vec<RateLimit>, DecodeError>)
        ensures
            viewed_each(r) == array_of(*j, |v: Json| RateLimit::decoded(v)),
    {
        match j {
            Json::Array(items) => decode_each(
                items,
                RateLimit::from_json,
                Ghost(|v: Json| RateLimit::decoded(v)),
            ),
            _ => Err(DecodeError::TypeMismatch),
        }
    }
}

/// A trading rule of a symbol.
#[derive(Debug, Clone, PartialEq)]
pub enum Filters {
    PriceFilter {
        min_price: String,
        max_price: String,
        tick_size: String,
    },
    PercentPrice {
        multiplier_up: String,
        multiplier_down: String,
        multiplier_decimal: Option<String>,
    },
    LotSize {
        min_qty: String,
        max_qty: String,
        step_size: String,
    },
    MarketLotSize {
        min_qty: String,
        max_qty: String,
        step_size: String,
    },
    MinNotional {
        notional: Option<String>,
        min_notional: Option<String>,
        apply_to_market: Option<bool>,
    },
    MaxNumOrders {
        limit: Option<u16>,
    },
    MaxNumAlgoOrders {
        limit: Option<u16>,
    },
}

/// What a `Filters` holds, as mathematical values.
pub enum FiltersView {
    PriceFilter {
        min_price: Seq<char>,
        max_price: Seq<char>,
        tick_size: Seq<char>,
    },
    PercentPrice {
        multiplier_up: Seq<char>,
        multiplier_down: Seq<char>,
        multiplier_decimal: Option<Seq<char>>,
    },
    LotSize {
        min_qty: Seq<char>,
        max_qty: Seq<char>,
        step_size: Seq<char>,
    },
    MarketLotSize {
        min_qty: Seq<char>,
        max_qty: Seq<char>,
        step_size: Seq<char>,
    },
    MinNotional {
        notional: Option<Seq<char>>,
        min_notional: Option<Seq<char>>,
        apply_to_market: Option<bool>,
    },
    MaxNumOrders {
        limit: Option<u16>,
    },
    MaxNumAlgoOrders {
        limit: Option<u16>,
    },
}

impl View for Filters {
    type V = FiltersView;

    open spec fn view(&self) -> FiltersView {
        match self {
            Filters::PriceFilter { min_price, max_price, tick_size } => FiltersView::PriceFilter {
                min_price: min_price@,
                max_price: max_price@,
                tick_size: tick_size@,
            },
            Filters::PercentPrice {
                multiplier_up,
                multiplier_down,
                multiplier_decimal,
            } => FiltersView::PercentPrice {
                multiplier_up: multiplier_up@,
                multiplier_down: multiplier_down@,
                multiplier_decimal: optional_text_view(*multiplier_decimal),
            },
            Filters::LotSize { min_qty, max_qty, step_size } => FiltersView::LotSize {
                min_qty: min_qty@,
                max_qty: max_qty@,
                step_size: step_size@,
            },
            Filters::MarketLotSize { min_qty, max_qty, step_size } => FiltersView::MarketLotSize {
                min_qty: min_qty@,
                max_qty: max_qty@,
                step_size: step_size@,
            },
            Filters::MinNotional {
                notional,
                min_notional,
                apply_to_market,
            } => FiltersView::MinNotional {
                notional: optional_text_view(*notional),
                min_notional: optional_text_view(*min_notional),
                apply_to_market: *apply_to_market,
            },
            Filters::MaxNumOrders { limit } => FiltersView::MaxNumOrders {
                limit: *limit,
            },
            Filters::MaxNumAlgoOrders { limit } => FiltersView::MaxNumAlgoOrders {
                limit: *limit,
            },
        }
    }
}

impl Filters {
    /// What an object with the tag `PRICE_FILTER` decodes to.
    pub open spec fn decoded_price_filter(j: Json) -> Result<FiltersView, DecodeError> {
        let min_price = text_in(j.member("minPrice"@));
        let max_price = text_in(j.member("maxPrice"@));
        let tick_size = text_in(j.member("tickSize"@));
        if min_price is Err {
            Err(min_price->Err_0)
        } else if max_price is Err {
            Err(max_price->Err_0)
        } else if tick_size is Err {
            Err(tick_size->Err_0)
        } else {
            Ok(
                FiltersView::PriceFilter {
                    min_price: min_price->Ok_0,
                    max_price: max_price->Ok_0,
                    tick_size: tick_size->Ok_0,
                },
            )
        }
    }

    /// What an object with the tag `PERCENT_PRICE` decodes to.
    pub open spec fn decoded_percent_price(j: Json) -> Result<FiltersView, DecodeError> {
        let multiplier_up = text_in(j.member("multiplierUp"@));
        let multiplier_down = text_in(j.member("multiplierDown"@));
        let multiplier_decimal = optional_text_in(j.member("multiplierDecimal"@));
        if multiplier_up is Err {
            Err(multiplier_up->Err_0)
        } else if multiplier_down is Err {
            Err(multiplier_down->Err_0)
        } else if multiplier_decimal is Err {
            Err(multiplier_decimal->Err_0)
        } else {
            Ok(
                FiltersView::PercentPrice {
                    multiplier_up: multiplier_up->Ok_0,
                    multiplier_down: multiplier_down->Ok_0,
                    multiplier_decimal: multiplier_decimal->Ok_0,
                },
            )
        }
    }

    /// What an object with the tag `LOT_SIZE` decodes to.
    pub open spec fn decoded_lot_size(j: Json) -> Result<FiltersView, DecodeError> {
        let min_qty = text_in(j.member("minQty"@));
        let max_qty = text_in(j.member("maxQty"@));
        let step_size = text_in(j.member("stepSize"@));
        if min_qty is Err {
            Err(min_qty->Err_0)
        } else if max_qty is Err {
            Err(max_qty->Err_0)
        } else if step_size is Err {
            Err(step_size->Err_0)
        } else {
            Ok(
                FiltersView::LotSize {
                    min_qty: min_qty->Ok_0,
                    max_qty: max_qty->Ok_0,
                    step_size: step_size->Ok_0,
                },
            )
        }
    }

    /// What an object with the tag `MARKET_LOT_SIZE` decodes to.
    pub open spec fn decoded_market_lot_size(j: Json) -> Result<FiltersView, DecodeError> {
        let min_qty = text_in(j.member("minQty"@));
        let max_qty = text_in(j.member("maxQty"@));
        let step_size = text_in(j.member("stepSize"@));
        if min_qty is Err {
            Err(min_qty->Err_0)
        } else if max_qty is Err {
            Err(max_qty->Err_0)
        } else if step_size is Err {
            Err(step_size->Err_0)
        } else {
            Ok(
                FiltersView::MarketLotSize {
                    min_qty: min_qty->Ok_0,
                    max_qty: max_qty->Ok_0,
                    step_size: step_size->Ok_0,
                },
            )
        }
    }

    /// What an object with the tag `MIN_NOTIONAL` decodes to.
    pub open spec fn decoded_min_notional(j: Json) -> Result<FiltersView, DecodeError> {
        let notional = optional_text_in(j.member("notional"@));
        let min_notional = optional_text_in(j.member("minNotional"@));
        let apply_to_market = optional_flag_in(j.member("applyToMarket"@));
        if notional is Err {
            Err(notional->Err_0)
        } else if min_notional is Err {
            Err(min_notional->Err_0)
        } else if apply_to_market is Err {
            Err(apply_to_market->Err_0)
        } else {
            Ok(
                FiltersView::MinNotional {
                    notional: notional->Ok_0,
                    min_notional: min_notional->Ok_0,
                    apply_to_market: apply_to_market->Ok_0,
                },
            )
        }
    }

    /// What an object with the tag `MAX_NUM_ORDERS` decodes to.
    pub open spec fn decoded_max_num_orders(j: Json) -> Result<FiltersView, DecodeError> {
        let limit = optional_u16_in(j.member("limit"@));
        if limit is Err {
            Err(limit->Err_0)
        } else {
            Ok(
                FiltersView::MaxNumOrders {
                    limit: limit->Ok_0,
                },
            )
        }
    }

    /// What an object with the tag `MAX_NUM_ALGO_ORDERS` decodes to.
    pub open spec fn decoded_max_num_algo_orders(j: Json) -> Result<FiltersView, DecodeError> {
        let limit = optional_u16_in(j.member("limit"@));
        if limit is Err {
            Err(limit->Err_0)
        } else {
            Ok(
                FiltersView::MaxNumAlgoOrders {
                    limit: limit->Ok_0,
                },
            )
        }
    }

    /// What the object `j` decodes to: the field `filterType` names the variant,
    /// and a name that stands for none is refused.
    pub open spec fn decoded(j: Json) -> Result<FiltersView, DecodeError> {
        let tag = text_in(j.member("filterType"@));
        if !(j is Object) {
            Err(DecodeError::TypeMismatch)
        } else if tag is Err {
            Err(tag->Err_0)
        } else if tag->Ok_0 == "PRICE_FILTER"@ {
            Filters::decoded_price_filter(j)
        } else if tag->Ok_0 == "PERCENT_PRICE"@ {
            Filters::decoded_percent_price(j)
        } else if tag->Ok_0 == "LOT_SIZE"@ {
            Filters::decoded_lot_size(j)
        } else if tag->Ok_0 == "MARKET_LOT_SIZE"@ {
            Filters::decoded_market_lot_size(j)
        } else if tag->Ok_0 == "MIN_NOTIONAL"@ {
            Filters::decoded_min_notional(j)
        } else if tag->Ok_0 == "MAX_NUM_ORDERS"@ {
            Filters::decoded_max_num_orders(j)
        } else if tag->Ok_0 == "MAX_NUM_ALGO_ORDERS"@ {
            Filters::decoded_max_num_algo_orders(j)
        } else {
            Err(DecodeError::UnknownEnumValue)
        }
    }

    /// Decodes the object `j`.
    pub fn from_json(j: &Json) -> (r: Result<Filters, DecodeError>)
        ensures
            viewed(r) == Filters::decoded(*j),
    {
        if !j.is_object() {
            return Err(DecodeError::TypeMismatch);
        }
        let tag = required_text(j, "filterType")?;
        if same_text(tag.as_str(), "PRICE_FILTER") {
            let min_price = required_text(j, "minPrice")?;
            let max_price = required_text(j, "maxPrice")?;
            let tick_size = required_text(j, "tickSize")?;
            Ok(Filters::PriceFilter { min_price, max_price, tick_size })
        } else if same_text(tag.as_str(), "PERCENT_PRICE") {
            let multiplier_up = required_text(j, "multiplierUp")?;
            let multiplier_down = required_text(j, "multiplierDown")?;
            let multiplier_decimal = optional_text(j, "multiplierDecimal")?;
            Ok(Filters::PercentPrice { multiplier_up, multiplier_down, multiplier_decimal })
        } else if same_text(tag.as_str(), "LOT_SIZE") {
            let min_qty = required_text(j, "minQty")?;
            let max_qty = required_text(j, "maxQty")?;
            let step_size = required_text(j, "stepSize")?;
            Ok(Filters::LotSize { min_qty, max_qty, step_size })
        } else if same_text(tag.as_str(), "MARKET_LOT_SIZE") {
            let min_qty = required_text(j, "minQty")?;
            let max_qty = required_text(j, "maxQty")?;
            let step_size = required_text(j, "stepSize")?;
            Ok(Filters::MarketLotSize { min_qty, max_qty, step_size })
        } else if same_text(tag.as_str(), "MIN_NOTIONAL") {
            let notional = optional_text(j, "notional")?;
            let min_notional = optional_text(j, "minNotional")?;
            let apply_to_market = optional_flag(j, "applyToMarket")?;
            Ok(Filters::MinNotional { notional, min_notional, apply_to_market })
        } else if same_text(tag.as_str(), "MAX_NUM_ORDERS") {
            let limit = optional_u16(j, "limit")?;
            Ok(Filters::MaxNumOrders { limit })
        } else if same_text(tag.as_str(), "MAX_NUM_ALGO_ORDERS") {
            let limit = optional_u16(j, "limit")?;
            Ok(Filters::MaxNumAlgoOrders { limit })
        } else {
            Err(DecodeError::UnknownEnumValue)
        }
    }

    /// Decodes the array `j`, element by element.
    pub fn list_from(j: &Json) -> (r: Result<Vec<Filters>, DecodeError>)
        ensures
            viewed_each(r) == array_of(*j, |v: Json| Filters::decoded(v)),
    {
        match j {
            Json::Array(items) => decode_each(
                items,
                Filters::from_json,
                Ghost(|v: Json| Filters::decoded(v)),
            ),
            _ => Err(DecodeError::TypeMismatch),
        }
    }
}

/// A level on the buying side of an order book.
#[derive(Debug, Clone, PartialEq)]
pub struct Bids {
    pub price: Decimal,
    pub qty: Decimal,
}

/// What a `Bids` holds, as mathematical values.
pub struct BidsView {
    pub price: DecimalView,
    pub qty: DecimalView,
}

impl View for Bids {
    type V = BidsView;

    open spec fn view(&self) -> BidsView {
        BidsView { price: self.price@, qty: self.qty@ }
    }
}

impl Bids {
    /// What the array `j` decodes to: it must hold a price and a quantity
    /// and nothing else.
    pub open spec fn decoded(j: Json) -> Result<BidsView, DecodeError> {
        match j {
            Json::Array(items) => {
                let price = decimal_in(items@[0]);
                let qty = decimal_in(items@[1]);
                if items@.len() != 2 {
                    Err(DecodeError::TypeMismatch)
                } else if price is Err {
                    Err(price->Err_0)
                } else if qty is Err {
                    Err(qty->Err_0)
                } else {
                    Ok(BidsView { price: price->Ok_0, qty: qty->Ok_0 })
                }
            },
            _ => Err(DecodeError::TypeMismatch),
        }
    }

    /// Decodes the array `j`.
    pub fn from_json(j: &Json) -> (r: Result<Bids, DecodeError>)
        ensures
            viewed(r) == Bids::decoded(*j),
    {
        match j {
            Json::Array(items) => {
                if items.len() != 2 {
                    return Err(DecodeError::TypeMismatch);
                }
                let price = decode(&items[0])?;
                let qty = decode(&items[1])?;
                Ok(Bids { price, qty })
            },
            _ => Err(DecodeError::TypeMismatch),
        }
    }

    /// Decodes the array `j`, element by element.
    pub fn list_from(j: &Json) -> (r: Result<Vec<Bids>, DecodeError>)
        ensures
            viewed_each(r) == array_of(*j, |v: Json| Bids::decoded(v)),
    {
        match j {
            Json::Array(items) => decode_each(
                items,
                Bids::from_json,
                Ghost(|v: Json| Bids::decoded(v)),
            ),
            _ => Err(DecodeError::TypeMismatch),
        }
    }
}

/// A level on the selling side of an order book.
#[derive(Debug, Clone, PartialEq)]
pub struct Asks {
    pub price: Decimal,
    pub qty: Decimal,
}

/// What an `Asks` holds, as mathematical values.
pub struct AsksView {
    pub price: DecimalView,
    pub qty: DecimalView,
}

impl View for Asks {
    type V = AsksView;

    open spec fn view(&self) -> AsksView {
        AsksView { price: self.price@, qty: self.qty@ }
    }
}

impl Asks {
    /// What the array `j` decodes to: it must hold a price and a quantity
    /// and nothing else.
    pub open spec fn decoded(j: Json) -> Result<AsksView, DecodeError> {
        match j {
            Json::Array(items) => {
                let price = decimal_in(items@[0]);
                let qty = decimal_in(items@[1]);
                if items@.len() != 2 {
                    Err(DecodeError::TypeMismatch)
                } else if price is Err {
                    Err(price->Err_0)
                } else if qty is Err {
                    Err(qty->Err_0)
                } else {
                    Ok(AsksView { price: price->Ok_0, qty: qty->Ok_0 })
                }
            },
            _ => Err(DecodeError::TypeMismatch),
        }
    }

    /// Decodes the array `j`.
    pub fn from_json(j: &Json) -> (r: Result<Asks, DecodeError>)
        ensures
            viewed(r) == Asks::decoded(*j),
    {
        match j {
            Json::Array(items) => {
                if items.len() != 2 {
                    return Err(DecodeError::TypeMismatch);
                }
                let price = decode(&items[0])?;
                let qty = decode(&items[1])?;
                Ok(Asks { price, qty })
            },
            _ => Err(DecodeError::TypeMismatch),
        }
    }

    /// Decodes the array `j`, element by element.
    pub fn list_from(j: &Json) -> (r: Result<Vec<Asks>, DecodeError>)
        ensures
            viewed_each(r) == array_of(*j, |v: Json| Asks::decoded(v)),
    {
        match j {
            Json::Array(items) => decode_each(
                items,
                Asks::from_json,
                Ghost(|v: Json| Asks::decoded(v)),
            ),
            _ => Err(DecodeError::TypeMismatch),
        }
    }
}

/// The summary of one candle.
#[derive(Debug, Clone, PartialEq)]
pub struct KlineSummary {
    pub open_time: u64,
    pub open: String,
    pub high: String,
    pub low: String,
    pub close: String,
    pub volume: String,
    pub close_time: u64,
    pub quote_asset_volume: String,
    pub number_of_trades: u64,
    pub taker_buy_base_asset_volume: String,
    pub taker_buy_quote_asset_volume: String,
}

/// What a `KlineSummary` holds, as mathematical values.
pub struct KlineSummaryView {
    pub open_time: u64,
    pub open: Seq<char>,
    pub high: Seq<char>,
    pub low: Seq<char>,
    pub close: Seq<char>,
    pub volume: Seq<char>,
    pub close_time: u64,
    pub quote_asset_volume: Seq<char>,
    pub number_of_trades: u64,
    pub taker_buy_base_asset_volume: Seq<char>,
    pub taker_buy_quote_asset_volume: Seq<char>,
}

impl View for KlineSummary {
    type V = KlineSummaryView;

    open spec fn view(&self) -> KlineSummaryView {
        KlineSummaryView {
            open_time: self.open_time,
            open: self.open@,
            high: self.high@,
            low: self.low@,
            close: self.close@,
            volume: self.volume@,
            close_time: self.close_time,
            quote_asset_volume: self.quote_asset_volume@,
            number_of_trades: self.number_of_trades,
            taker_buy_base_asset_volume: self.taker_buy_base_asset_volume@,
            taker_buy_quote_asset_volume: self.taker_buy_quote_asset_volume@,
        }
    }
}

impl KlineSummary {
    /// What the object `j` decodes to: the fields are read in the order
    /// in which they are listed, and the first that fails gives the error.
    pub open spec fn decoded(j: Json) -> Result<KlineSummaryView, DecodeError> {
        let open_time = u64_in(j.member("t"@));
        let open = text_in(j.member("o"@));
        let high = text_in(j.member("h"@));
        let low = text_in(j.member("l"@));
        let close = text_in(j.member("c"@));
        let volume = text_in(j.member("v"@));
        let close_time = u64_in(j.member("T"@));
        let quote_asset_volume = text_in(j.member("q"@));
        let number_of_trades = u64_in(j.member("n"@));
        let taker_buy_base_asset_volume = text_in(j.member("V"@));
        let taker_buy_quote_asset_volume = text_in(j.member("Q"@));
        if !(j is Object) {
            Err(DecodeError::TypeMismatch)
        } else if open_time is Err {
            Err(open_time->Err_0)
        } else if open is Err {
            Err(open->Err_0)
        } else if high is Err {
            Err(high->Err_0)
        } else if low is Err {
            Err(low->Err_0)
        } else if close is Err {
            Err(close->Err_0)
        } else if volume is Err {
            Err(volume->Err_0)
        } else if close_time is Err {
            Err(close_time->Err_0)
        } else if quote_asset_volume is Err {
            Err(quote_asset_volume->Err_0)
        } else if number_of_trades is Err {
            Err(number_of_trades->Err_0)
        } else if taker_buy_base_asset_volume is Err {
            Err(taker_buy_base_asset_volume->Err_0)
        } else if taker_buy_quote_asset_volume is Err {
            Err(taker_buy_quote_asset_volume->Err_0)
        } else {
            Ok(
                KlineSummaryView {
                    open_time: open_time->Ok_0,
                    open: open->Ok_0,
                    high: high->Ok_0,
                    low: low->Ok_0,
                    close: close->Ok_0,
                    volume: volume->Ok_0,
                    close_time: close_time->Ok_0,
                    quote_asset_volume: quote_asset_volume->Ok_0,
                    number_of_trades: number_of_trades->Ok_0,
                    taker_buy_base_asset_volume: taker_buy_base_asset_volume->Ok_0,
                    taker_buy_quote_asset_volume: taker_buy_quote_asset_volume->Ok_0,
                },
            )
        }
    }

    /// Decodes the object `j`.
    pub fn from_json(j: &Json) -> (r: Result<KlineSummary, DecodeError>)
        ensures
            viewed(r) == KlineSummary::decoded(*j),
    {
        if !j.is_object() {
            return Err(DecodeError::TypeMismatch);
        }
        let open_time = required_u64(j, "t")?;
        let open = required_text(j, "o")?;
        let high = required_text(j, "h")?;
        let low = required_text(j, "l")?;
        let close = required_text(j, "c")?;
        let volume = required_text(j, "v")?;
        let close_time = required_u64(j, "T")?;
        let quote_asset_volume = required_text(j, "q")?;
        let number_of_trades = required_u64(j, "n")?;
        let taker_buy_base_asset_volume = required_text(j, "V")?;
        let taker_buy_quote_asset_volume = required_text(j, "Q")?;
        Ok(
            KlineSummary {
                open_time,
                open,
                high,
                low,
                close,
                volume,
                close_time,
                quote_asset_volume,
                number_of_trades,
                taker_buy_base_asset_volume,
                taker_buy_quote_asset_volume,
            },
        )
    }
    /// What the array `j` decodes to: a row holds the fields by position, in
    /// the order of their declaration, and may hold more behind them.
    pub open spec fn decoded_row(j: Json) -> Result<KlineSummaryView, DecodeError> {
        match j {
            Json::Array(items) => {
                let open_time = u64_in(item_at(items@, 0));
                let open = text_in(item_at(items@, 1));
                let high = text_in(item_at(items@, 2));
                let low = text_in(item_at(items@, 3));
                let close = text_in(item_at(items@, 4));
                let volume = text_in(item_at(items@, 5));
                let close_time = u64_in(item_at(items@, 6));
                let quote_asset_volume = text_in(item_at(items@, 7));
                let number_of_trades = u64_in(item_at(items@, 8));
                let taker_buy_base_asset_volume = text_in(item_at(items@, 9));
                let taker_buy_quote_asset_volume = text_in(item_at(items@, 10));
                if open_time is Err {
                    Err(open_time->Err_0)
                } else if open is Err {
                    Err(open->Err_0)
                } else if high is Err {
                    Err(high->Err_0)
                } else if low is Err {
                    Err(low->Err_0)
                } else if close is Err {
                    Err(close->Err_0)
                } else if volume is Err {
                    Err(volume->Err_0)
                } else if close_time is Err {
                    Err(close_time->Err_0)
                } else if quote_asset_volume is Err {
                    Err(quote_asset_volume->Err_0)
                } else if number_of_trades is Err {
                    Err(number_of_trades->Err_0)
                } else if taker_buy_base_asset_volume is Err {
                    Err(taker_buy_base_asset_volume->Err_0)
                } else if taker_buy_quote_asset_volume is Err {
                    Err(taker_buy_quote_asset_volume->Err_0)
                } else {
                    Ok(
                        KlineSummaryView {
                            open_time: open_time->Ok_0,
                            open: open->Ok_0,
                            high: high->Ok_0,
                            low: low->Ok_0,
                            close: close->Ok_0,
                            volume: volume->Ok_0,
                            close_time: close_time->Ok_0,
                            quote_asset_volume: quote_asset_volume->Ok_0,
                            number_of_trades: number_of_trades->Ok_0,
                            taker_buy_base_asset_volume: taker_buy_base_asset_volume->Ok_0,
                            taker_buy_quote_asset_volume: taker_buy_quote_asset_volume->Ok_0,
                        },
                    )
                }
            },
            _ => Err(DecodeError::TypeMismatch),
        }
    }

    /// Decodes the array `j`, a row of a candle table.
    pub fn from_row(j: &Json) -> (r: Result<KlineSummary, DecodeError>)
        ensures
            viewed(r) == KlineSummary::decoded_row(*j),
    {
        match j {
            Json::Array(items) => {
                let open_time = u64_of(item(items, 0))?;
                let open = text_of(item(items, 1))?;
                let high = text_of(item(items, 2))?;
                let low = text_of(item(items, 3))?;
                let close = text_of(item(items, 4))?;
                let volume = text_of(item(items, 5))?;
                let close_time = u64_of(item(items, 6))?;
                let quote_asset_volume = text_of(item(items, 7))?;
                let number_of_trades = u64_of(item(items, 8))?;
                let taker_buy_base_asset_volume = text_of(item(items, 9))?;
                let taker_buy_quote_asset_volume = text_of(item(items, 10))?;
                Ok(
                    KlineSummary {
                        open_time,
                        open,
                        high,
                        low,
                        close,
                        volume,
                        close_time,
                        quote_asset_volume,
                        number_of_trades,
                        taker_buy_base_asset_volume,
                        taker_buy_quote_asset_volume,
                    },
                )
            },
            _ => Err(DecodeError::TypeMismatch),
        }
    }
}

/// The candles of a symbol.
#[derive(Debug, Clone, PartialEq)]
pub enum KlineSummaries {
    AllKlineSummaries(Vec<KlineSummary>),
}

/// What a `KlineSummaries` holds, as mathematical values.
pub enum KlineSummariesView {
    AllKlineSummaries(Seq<KlineSummaryView>),
}

impl View for KlineSummaries {
    type V = KlineSummariesView;

    open spec fn view(&self) -> KlineSummariesView {
        match self {
            KlineSummaries::AllKlineSummaries(items) => KlineSummariesView::AllKlineSummaries(
                views(items@),
            ),
        }
    }
}

impl KlineSummaries {
    /// What the array `j` decodes to: its rows, in order.
    pub open spec fn decoded(j: Json) -> Result<KlineSummariesView, DecodeError> {
        match array_of(j, |v: Json| KlineSummary::decoded_row(v)) {
            Ok(items) => Ok(KlineSummariesView::AllKlineSummaries(items)),
            Err(e) => Err(e),
        }
    }

    /// Decodes the array `j`, a candle table.
    pub fn from_json(j: &Json) -> (r: Result<KlineSummaries, DecodeError>)
        ensures
            viewed(r) == KlineSummaries::decoded(*j),
    {
        match j {
            Json::Array(items) => {
                match decode_each(
                    items,
                    KlineSummary::from_row,
                    Ghost(|v: Json| KlineSummary::decoded_row(v)),
                ) {
                    Ok(rows) => Ok(KlineSummaries::AllKlineSummaries(rows)),
                    Err(e) => Err(e),
                }
            },
            _ => Err(DecodeError::TypeMismatch),
        }
    }

    /// Reads the answer from its text and decodes it.
    pub fn from_text(text: &str) -> (r: Result<KlineSummaries, DecodeError>)
        ensures
            viewed(r) == read_as(text@, |j: Json| KlineSummaries::decoded(j)),
    {
        match Json::parse(text) {
            Ok(j) => KlineSummaries::from_json(&j),
            Err(e) => Err(e),
        }
    }
}

/// The answer to opening a session of account messages: the key that names
/// the session.
#[derive(Debug, Clone, PartialEq)]
pub struct UserDataStream {
    pub listen_key: String,
}

/// What an `UserDataStream` holds, as mathematical values.
pub struct UserDataStreamView {
    pub listen_key: Seq<char>,
}

impl View for UserDataStream {
    type V = UserDataStreamView;

    open spec fn view(&self) -> UserDataStreamView {
        UserDataStreamView {
            listen_key: self.listen_key@,
        }
    }
}

impl UserDataStream {
    /// What the object `j` decodes to: the fields are read in the order
    /// in which they are listed, and the first that fails gives the error.
    pub open spec fn decoded(j: Json) -> Result<UserDataStreamView, DecodeError> {
        let listen_key = text_in(j.member("listenKey"@));
        if !(j is Object) {
            Err(DecodeError::TypeMismatch)
        } else if listen_key is Err {
            Err(listen_key->Err_0)
        } else {
            Ok(
                UserDataStreamView {
                    listen_key: listen_key->Ok_0,
                },
            )
        }
    }

    /// Decodes the object `j`.
    pub fn from_json(j: &Json) -> (r: Result<UserDataStream, DecodeError>)
        ensures
            viewed(r) == UserDataStream::decoded(*j),
    {
        if !j.is_object() {
            return Err(DecodeError::TypeMismatch);
        }
        let listen_key = required_text(j, "listenKey")?;
        Ok(UserDataStream { listen_key })
    }

    /// Reads the answer from its text and decodes it.
    pub fn from_text(text: &str) -> (r: Result<UserDataStream, DecodeError>)
        ensures
            viewed(r) == read_as(text@, |j: Json| UserDataStream::decoded(j)),
    {
        match Json::parse(text) {
            Ok(j) => UserDataStream::from_json(&j),
            Err(e) => Err(e),
        }
    }
}

/// The answer to a request that reports nothing but that it was carried out.
#[derive(Debug, Clone, PartialEq)]
pub struct Success {}

impl Success {
    /// What `j` decodes to: any object will do.
    pub open spec fn decoded(j: Json) -> Result<Success, DecodeError> {
        if j is Object {
            Ok(Success {  })
        } else {
            Err(DecodeError::TypeMismatch)
        }
    }

    /// Decodes the object `j`.
    pub fn from_json(j: &Json) -> (r: Result<Success, DecodeError>)
        ensures
            r == Success::decoded(*j),
    {
        if j.is_object() {
            Ok(Success {  })
        } else {
            Err(DecodeError::TypeMismatch)
        }
    }

    /// Reads the answer from its text and decodes it.
    pub fn from_text(text: &str) -> (r: Result<Success, DecodeError>)
        ensures
            r == read_as(text@, |j: Json| Success::decoded(j)),
    {
        match Json::parse(text) {
            Ok(j) => Success::from_json(&j),
            Err(e) => Err(e),
        }
    }
}

/// The trading rules of a symbol of the spot segment.
#[derive(Debug, Clone, PartialEq)]
pub struct Symbol {
    pub symbol: String,
    pub status: String,
    pub base_asset: String,
    pub base_asset_precision: u64,
    pub quote_asset: String,
    pub quote_precision: u64,
    pub order_types: Vec<String>,
    pub iceberg_allowed: bool,
    pub is_spot_trading_allowed: bool,
    pub is_margin_trading_allowed: bool,
    pub filters: Vec<Filters>,
}

/// What a `Symbol` holds, as mathematical values.
pub struct SymbolView {
    pub symbol: Seq<char>,
    pub status: Seq<char>,
    pub base_asset: Seq<char>,
    pub base_asset_precision: u64,
    pub quote_asset: Seq<char>,
    pub quote_precision: u64,
    pub order_types: Seq<Seq<char>>,
    pub iceberg_allowed: bool,
    pub is_spot_trading_allowed: bool,
    pub is_margin_trading_allowed: bool,
    pub filters: Seq<FiltersView>,
}

impl View for Symbol {
    type V = SymbolView;

    open spec fn view(&self) -> SymbolView {
        SymbolView {
            symbol: self.symbol@,
            status: self.status@,
            base_asset: self.base_asset@,
            base_asset_precision: self.base_asset_precision,
            quote_asset: self.quote_asset@,
            quote_precision: self.quote_precision,
            order_types: views(self.order_types@),
            iceberg_allowed: self.iceberg_allowed,
            is_spot_trading_allowed: self.is_spot_trading_allowed,
            is_margin_trading_allowed: self.is_margin_trading_allowed,
            filters: views(self.filters@),
        }
    }
}

impl Symbol {
    /// What the object `j` decodes to: the fields are read in the order
    /// in which they are listed, and the first that fails gives the error.
    pub open spec fn decoded(j: Json) -> Result<SymbolView, DecodeError> {
        let symbol = text_in(j.member("symbol"@));
        let status = text_in(j.member("status"@));
        let base_asset = text_in(j.member("baseAsset"@));
        let base_asset_precision = u64_in(j.member("baseAssetPrecision"@));
        let quote_asset = text_in(j.member("quoteAsset"@));
        let quote_precision = u64_in(j.member("quotePrecision"@));
        let order_types = list_in(j.member("orderTypes"@), |v: Json| text_in(Some(v)));
        let iceberg_allowed = flag_in(j.member("icebergAllowed"@));
        let is_spot_trading_allowed = flag_in(j.member("isSpotTradingAllowed"@));
        let is_margin_trading_allowed = flag_in(j.member("isMarginTradingAllowed"@));
        let filters = list_in(j.member("filters"@), |v: Json| Filters::decoded(v));
        if !(j is Object) {
            Err(DecodeError::TypeMismatch)
        } else if symbol is Err {
            Err(symbol->Err_0)
        } else if status is Err {
            Err(status->Err_0)
        } else if base_asset is Err {
            Err(base_asset->Err_0)
        } else if base_asset_precision is Err {
            Err(base_asset_precision->Err_0)
        } else if quote_asset is Err {
            Err(quote_asset->Err_0)
        } else if quote_precision is Err {
            Err(quote_precision->Err_0)
        } else if order_types is Err {
            Err(order_types->Err_0)
        } else if iceberg_allowed is Err {
            Err(iceberg_allowed->Err_0)
        } else if is_spot_trading_allowed is Err {
            Err(is_spot_trading_allowed->Err_0)
        } else if is_margin_trading_allowed is Err {
            Err(is_margin_trading_allowed->Err_0)
        } else if filters is Err {
            Err(filters->Err_0)
        } else {
            Ok(
                SymbolView {
                    symbol: symbol->Ok_0,
                    status: status->Ok_0,
                    base_asset: base_asset->Ok_0,
                    base_asset_precision: base_asset_precision->Ok_0,
                    quote_asset: quote_asset->Ok_0,
                    quote_precision: quote_precision->Ok_0,
                    order_types: order_types->Ok_0,
                    iceberg_allowed: iceberg_allowed->Ok_0,
                    is_spot_trading_allowed: is_spot_trading_allowed->Ok_0,
                    is_margin_trading_allowed: is_margin_trading_allowed->Ok_0,
                    filters: filters->Ok_0,
                },
            )
        }
    }

    /// Decodes the object `j`.
    pub fn from_json(j: &Json) -> (r: Result<Symbol, DecodeError>)
        ensures
            viewed(r) == Symbol::decoded(*j),
    {
        if !j.is_object() {
            return Err(DecodeError::TypeMismatch);
        }
        let symbol = required_text(j, "symbol")?;
        let status = required_text(j, "status")?;
        let base_asset = required_text(j, "baseAsset")?;
        let base_asset_precision = required_u64(j, "baseAssetPrecision")?;
        let quote_asset = required_text(j, "quoteAsset")?;
        let quote_precision = required_u64(j, "quotePrecision")?;
        let order_types = text_list(required_member(j, "orderTypes")?)?;
        let iceberg_allowed = required_flag(j, "icebergAllowed")?;
        let is_spot_trading_allowed = required_flag(j, "isSpotTradingAllowed")?;
        let is_margin_trading_allowed = required_flag(j, "isMarginTradingAllowed")?;
        let filters = Filters::list_from(required_member(j, "filters")?)?;
        Ok(
            Symbol {
                symbol,
                status,
                base_asset,
                base_asset_precision,
                quote_asset,
                quote_precision,
                order_types,
                iceberg_allowed,
                is_spot_trading_allowed,
                is_margin_trading_allowed,
                filters,
            },
        )
    }

    /// Decodes the array `j`, element by element.
    pub fn list_from(j: &Json) -> (r: Result<Vec<Symbol>, DecodeError>)
        ensures
            viewed_each(r) == array_of(*j, |v: Json| Symbol::decoded(v)),
    {
        match j {
            Json::Array(items) => decode_each(
                items,
                Symbol::from_json,
                Ghost(|v: Json| Symbol::decoded(v)),
            ),
            _ => Err(DecodeError::TypeMismatch),
        }
    }
}

/// The trading rules of the spot segment.
#[derive(Debug, Clone, PartialEq)]
pub struct ExchangeInformation {
    pub timezone: String,
    pub server_time: u64,
    pub rate_limits: Vec<RateLimit>,
    pub symbols: Vec<Symbol>,
}

/// What an `ExchangeInformation` holds, as mathematical values.
pub struct ExchangeInformationView {
    pub timezone: Seq<char>,
    pub server_time: u64,
    pub rate_limits: Seq<RateLimitView>,
    pub symbols: Seq<SymbolView>,
}

impl View for ExchangeInformation {
    type V = ExchangeInformationView;

    open spec fn view(&self) -> ExchangeInformationView {
        ExchangeInformationView {
            timezone: self.timezone@,
            server_time: self.server_time,
            rate_limits: views(self.rate_limits@),
            symbols: views(self.symbols@),
        }
    }
}

impl ExchangeInformation {
    /// What the object `j` decodes to: the fields are read in the order
    /// in which they are listed, and the first that fails gives the error.
    pub open spec fn decoded(j: Json) -> Result<ExchangeInformationView, DecodeError> {
        let timezone = text_in(j.member("timezone"@));
        let server_time = u64_in(j.member("serverTime"@));
        let rate_limits = list_in(j.member("rateLimits"@), |v: Json| RateLimit::decoded(v));
        let symbols = list_in(j.member("symbols"@), |v: Json| Symbol::decoded(v));
        if !(j is Object) {
            Err(DecodeError::TypeMismatch)
        } else if timezone is Err {
            Err(timezone->Err_0)
        } else if server_time is Err {
            Err(server_time->Err_0)
        } else if rate_limits is Err {
            Err(rate_limits->Err_0)
        } else if symbols is Err {
            Err(symbols->Err_0)
        } else {
            Ok(
                ExchangeInformationView {
                    timezone: timezone->Ok_0,
                    server_time: server_time->Ok_0,
                    rate_limits: rate_limits->Ok_0,
                    symbols: symbols->Ok_0,
                },
            )
        }
    }

    /// Decodes the object `j`.
    pub fn from_json(j: &Json) -> (r: Result<ExchangeInformation, DecodeError>)
        ensures
            viewed(r) == ExchangeInformation::decoded(*j),
    {
        if !j.is_object() {
            return Err(DecodeError::TypeMismatch);
        }
        let timezone = required_text(j, "timezone")?;
        let server_time = required_u64(j, "serverTime")?;
        let rate_limits = RateLimit::list_from(required_member(j, "rateLimits")?)?;
        let symbols = Symbol::list_from(required_member(j, "symbols")?)?;
        Ok(ExchangeInformation { timezone, server_time, rate_limits, symbols })
    }

    /// Reads the answer from its text and decodes it.
    pub fn from_text(text: &str) -> (r: Result<ExchangeInformation, DecodeError>)
        ensures
            viewed(r) == read_as(text@, |j: Json| ExchangeInformation::decoded(j)),
    {
        match Json::parse(text) {
            Ok(j) => ExchangeInformation::from_json(&j),
            Err(e) => Err(e),
        }
    }
}

} // verus!
