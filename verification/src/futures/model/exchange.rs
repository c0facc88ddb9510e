//! The trading rules of the derivatives segment.

use crate::codec::{
    array_of, decode_each, list_in, required_member, required_text, required_u16, required_u64,
    text_in, text_list, u16_in, u64_in, viewed, viewed_each, views,
};
use crate::error::DecodeError;
use crate::json::{read_as, Json};
use crate::model::{Filters, FiltersView, RateLimit, RateLimitView};
use vstd::prelude::*;

verus! {

/// The trading rules of the derivatives segment.
#[derive(Debug, Clone, PartialEq)]
pub struct ExchangeInformation {
    pub timezone: String,
    pub server_time: u64,
    pub rate_limits: Vec<RateLimit>,
    pub exchange_filters: Vec<String>,
    pub symbols: Vec<Symbol>,
}

/// What an `ExchangeInformation` holds, as mathematical values.
pub struct ExchangeInformationView {
    pub timezone: Seq<char>,
    pub server_time: u64,
    pub rate_limits: Seq<RateLimitView>,
    pub exchange_filters: Seq<Seq<char>>,
    pub symbols: Seq<SymbolView>,
}

impl View for ExchangeInformation {
    type V = ExchangeInformationView;

    open spec fn view(&self) -> ExchangeInformationView {
        ExchangeInformationView {
            timezone: self.timezone@,
            server_time: self.server_time,
            rate_limits: views(self.rate_limits@),
            exchange_filters: views(self.exchange_filters@),
            symbols: views(self.symbols@),
        }
    }
}

impl ExchangeInformation {
    /// What the object `j` decodes to: the fields are read in the order
    /// in which they are listed, and the first that fails gives the error.
    pub open spec fn decoded(j: Json) -> Result<ExchangeInformationView, DecodeError> {
        let timezone = text_in(j.member("timezone"@));
        let server_time = u64_in(j.member("serverTime"@));
        let rate_limits = list_in(j.member("rateLimits"@), |v: Json| RateLimit::decoded(v));
        let exchange_filters = list_in(j.member("exchangeFilters"@), |v: Json| text_in(Some(v)));
        let symbols = list_in(j.member("symbols"@), |v: Json| Symbol::decoded(v));
        if !(j is Object) {
            Err(DecodeError::TypeMismatch)
        } else if timezone is Err {
            Err(timezone->Err_0)
        } else if server_time is Err {
            Err(server_time->Err_0)
        } else if rate_limits is Err {
            Err(rate_limits->Err_0)
        } else if exchange_filters is Err {
            Err(exchange_filters->Err_0)
        } else if symbols is Err {
            Err(symbols->Err_0)
        } else {
            Ok(
                ExchangeInformationView {
                    timezone: timezone->Ok_0,
                    server_time: server_time->Ok_0,
                    rate_limits: rate_limits->Ok_0,
                    exchange_filters: exchange_filters->Ok_0,
                    symbols: symbols->Ok_0,
                },
            )
        }
    }

    /// Decodes the object `j`.
    pub fn from_json(j: &Json) -> (r: Result<ExchangeInformation, DecodeError>)
        ensures
            viewed(r) == ExchangeInformation::decoded(*j),
    {
        if !j.is_object() {
            return Err(DecodeError::TypeMismatch);
        }
        let timezone = required_text(j, "timezone")?;
        let server_time = required_u64(j, "serverTime")?;
        let rate_limits = RateLimit::list_from(required_member(j, "rateLimits")?)?;
        let exchange_filters = text_list(required_member(j, "exchangeFilters")?)?;
        let symbols = Symbol::list_from(required_member(j, "symbols")?)?;
        Ok(ExchangeInformation { timezone, server_time, rate_limits, exchange_filters, symbols })
    }

    /// Reads the answer from its text and decodes it.
    pub fn from_text(text: &str) -> (r: Result<ExchangeInformation, DecodeError>)
        ensures
            viewed(r) == read_as(text@, |j: Json| ExchangeInformation::decoded(j)),
    {
        match Json::parse(text) {
            Ok(j) => ExchangeInformation::from_json(&j),
            Err(e) => Err(e),
        }
    }
}

/// The trading rules of a symbol of the derivatives segment.
#[derive(Debug, Clone, PartialEq)]
pub struct Symbol {
    pub symbol: String,
    pub status: String,
    pub maint_margin_percent: String,
    pub required_margin_percent: String,
    pub base_asset: String,
    pub quote_asset: String,
    pub price_precision: u16,
    pub quantity_precision: u16,
    pub base_asset_precision: u64,
    pub quote_precision: u64,
    pub filters: Vec<Filters>,
    pub order_types: Vec<String>,
    pub time_in_force: Vec<String>,
}

/// What a `Symbol` holds, as mathematical values.
pub struct SymbolView {
    pub symbol: Seq<char>,
    pub status: Seq<char>,
    pub maint_margin_percent: Seq<char>,
    pub required_margin_percent: Seq<char>,
    pub base_asset: Seq<char>,
    pub quote_asset: Seq<char>,
    pub price_precision: u16,
    pub quantity_precision: u16,
    pub base_asset_precision: u64,
    pub quote_precision: u64,
    pub filters: Seq<FiltersView>,
    pub order_types: Seq<Seq<char>>,
    pub time_in_force: Seq<Seq<char>>,
}

impl View for Symbol {
    type V = SymbolView;

    open spec fn view(&self) -> SymbolView {
        SymbolView {
            symbol: self.symbol@,
            status: self.status@,
            maint_margin_percent: self.maint_margin_percent@,
            required_margin_percent: self.required_margin_percent@,
            base_asset: self.base_asset@,
            quote_asset: self.quote_asset@,
            price_precision: self.price_precision,
            quantity_precision: self.quantity_precision,
            base_asset_precision: self.base_asset_precision,
            quote_precision: self.quote_precision,
            filters: views(self.filters@),
            order_types: views(self.order_types@),
            time_in_force: views(self.time_in_force@),
        }
    }
}

impl Symbol {
    /// What the object `j` decodes to: the fields are read in the order
    /// in which they are listed, and the first that fails gives the error.
    pub open spec fn decoded(j: Json) -> Result<SymbolView, DecodeError> {
        let symbol = text_in(j.member("symbol"@));
        let status = text_in(j.member("status"@));
        let maint_margin_percent = text_in(j.member("maintMarginPercent"@));
        let required_margin_percent = text_in(j.member("requiredMarginPercent"@));
        let base_asset = text_in(j.member("baseAsset"@));
        let quote_asset = text_in(j.member("quoteAsset"@));
        let price_precision = u16_in(j.member("pricePrecision"@));
        let quantity_precision = u16_in(j.member("quantityPrecision"@));
        let base_asset_precision = u64_in(j.member("baseAssetPrecision"@));
        let quote_precision = u64_in(j.member("quotePrecision"@));
        let filters = list_in(j.member("filters"@), |v: Json| Filters::decoded(v));
        let order_types = list_in(j.member("orderTypes"@), |v: Json| text_in(Some(v)));
        let time_in_force = list_in(j.member("timeInForce"@), |v: Json| text_in(Some(v)));
        if !(j is Object) {
            Err(DecodeError::TypeMismatch)
        } else if symbol is Err {
            Err(symbol->Err_0)
        } else if status is Err {
            Err(status->Err_0)
        } else if maint_margin_percent is Err {
            Err(maint_margin_percent->Err_0)
        } else if required_margin_percent is Err {
            Err(required_margin_percent->Err_0)
        } else if base_asset is Err {
            Err(base_asset->Err_0)
        } else if quote_asset is Err {
            Err(quote_asset->Err_0)
        } else if price_precision is Err {
            Err(price_precision->Err_0)
        } else if quantity_precision is Err {
            Err(quantity_precision->Err_0)
        } else if base_asset_precision is Err {
            Err(base_asset_precision->Err_0)
        } else if quote_precision is Err {
            Err(quote_precision->Err_0)
        } else if filters is Err {
            Err(filters->Err_0)
        } else if order_types is Err {
            Err(order_types->Err_0)
        } else if time_in_force is Err {
            Err(time_in_force->Err_0)
        } else {
            Ok(
                SymbolView {
                    symbol: symbol->Ok_0,
                    status: status->Ok_0,
                    maint_margin_percent: maint_margin_percent->Ok_0,
                    required_margin_percent: required_margin_percent->Ok_0,
                    base_asset: base_asset->Ok_0,
                    quote_asset: quote_asset->Ok_0,
                    price_precision: price_precision->Ok_0,
                    quantity_precision: quantity_precision->Ok_0,
                    base_asset_precision: base_asset_precision->Ok_0,
                    quote_precision: quote_precision->Ok_0,
                    filters: filters->Ok_0,
                    order_types: order_types->Ok_0,
                    time_in_force: time_in_force->Ok_0,
                },
            )
        }
    }

    /// Decodes the object `j`.
    pub fn from_json(j: &Json) -> (r: Result<Symbol, DecodeError>)
        ensures
            viewed(r) == Symbol::decoded(*j),
    {
        if !j.is_object() {
            return Err(DecodeError::TypeMismatch);
        }
        let symbol = required_text(j, "symbol")?;
        let status = required_text(j, "status")?;
        let maint_margin_percent = required_text(j, "maintMarginPercent")?;
        let required_margin_percent = required_text(j, "requiredMarginPercent")?;
        let base_asset = required_text(j, "baseAsset")?;
        let quote_asset = required_text(j, "quoteAsset")?;
        let price_precision = required_u16(j, "pricePrecision")?;
        let quantity_precision = required_u16(j, "quantityPrecision")?;
        let base_asset_precision = required_u64(j, "baseAssetPrecision")?;
        let quote_precision = required_u64(j, "quotePrecision")?;
        let filters = Filters::list_from(required_member(j, "filters")?)?;
        let order_types = text_list(required_member(j, "orderTypes")?)?;
        let time_in_force = text_list(required_member(j, "timeInForce")?)?;
        Ok(
            Symbol {
                symbol,
                status,
                maint_margin_percent,
                required_margin_percent,
                base_asset,
                quote_asset,
                price_precision,
                quantity_precision,
                base_asset_precision,
                quote_precision,
                filters,
                order_types,
                time_in_force,
            },
        )
    }

    /// Decodes the array `j`, element by element.
    pub fn list_from(j: &Json) -> (r: Result<Vec<Symbol>, DecodeError>)
        ensures
            viewed_each(r) == array_of(*j, |v: Json| Symbol::decoded(v)),
    {
        match j {
            Json::Array(items) => decode_each(
                items,
                Symbol::from_json,
                Ghost(|v: Json| Symbol::decoded(v)),
            ),
            _ => Err(DecodeError::TypeMismatch),
        }
    }
}

} // verus!
