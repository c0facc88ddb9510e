//! The answers to requests about orders.

use crate::codec::{
    decimal_or_zero, decimal_or_zero_in, flag_in, required_decimal, required_decimal_in,
    required_flag, required_text, required_u64, required_u8, text_in, u64_in, u8_in, viewed,
};
use crate::decimal::{Decimal, DecimalView};
use crate::error::DecodeError;
use crate::json::{read_as, Json};
use crate::vocabulary::{
    required_side_text, required_status_text, side_text_in, status_text_in,
};
use vstd::prelude::*;

verus! {

/// The state of an order, as the answer to placing or querying it gives it.
/// The three fields that only some order types use are zero where the
/// answer leaves them out.
#[derive(Debug, Clone, PartialEq)]
pub struct Order {
    pub client_order_id: String,
    pub cum_qty: Decimal,
    pub cum_quote: Decimal,
    pub executed_qty: Decimal,
    pub order_id: u64,
    pub avg_price: Decimal,
    pub orig_qty: Decimal,
    pub price: Decimal,
    /// One of the tokens of an order side.
    pub side: String,
    pub reduce_only: bool,
    pub position_side: String,
    /// One of the tokens of an order status.
    pub status: String,
    /// Zero where the answer leaves it out.
    pub stop_price: Decimal,
    pub close_position: bool,
    pub symbol: String,
    pub time_in_force: String,
    pub order_type: String,
    pub orig_type: String,
    /// Zero where the answer leaves it out.
    pub activation_price: Decimal,
    /// Zero where the answer leaves it out.
    pub price_rate: Decimal,
    pub update_time: u64,
    pub working_type: String,
    pub price_protect: bool,
}

/// What an `Order` holds, as mathematical values.
pub struct OrderView {
    pub client_order_id: Seq<char>,
    pub cum_qty: DecimalView,
    pub cum_quote: DecimalView,
    pub executed_qty: DecimalView,
    pub order_id: u64,
    pub avg_price: DecimalView,
    pub orig_qty: DecimalView,
    pub price: DecimalView,
    pub side: Seq<char>,
    pub reduce_only: bool,
    pub position_side: Seq<char>,
    pub status: Seq<char>,
    pub stop_price: DecimalView,
    pub close_position: bool,
    pub symbol: Seq<char>,
    pub time_in_force: Seq<char>,
    pub order_type: Seq<char>,
    pub orig_type: Seq<char>,
    pub activation_price: DecimalView,
    pub price_rate: DecimalView,
    pub update_time: u64,
    pub working_type: Seq<char>,
    pub price_protect: bool,
}

impl View for Order {
    type V = OrderView;

    open spec fn view(&self) -> OrderView {
        OrderView {
            client_order_id: self.client_order_id@,
            cum_qty: self.cum_qty@,
            cum_quote: self.cum_quote@,
            executed_qty: self.executed_qty@,
            order_id: self.order_id,
            avg_price: self.avg_price@,
            orig_qty: self.orig_qty@,
            price: self.price@,
            side: self.side@,
            reduce_only: self.reduce_only,
            position_side: self.position_side@,
            status: self.status@,
            stop_price: self.stop_price@,
            close_position: self.close_position,
            symbol: self.symbol@,
            time_in_force: self.time_in_force@,
            order_type: self.order_type@,
            orig_type: self.orig_type@,
            activation_price: self.activation_price@,
            price_rate: self.price_rate@,
            update_time: self.update_time,
            working_type: self.working_type@,
            price_protect: self.price_protect,
        }
    }
}

impl Order {
    /// What the object `j` decodes to: the fields are read in the order
    /// in which they are listed, and the first that fails gives the error.
    pub open spec fn decoded(j: Json) -> Result<OrderView, DecodeError> {
        let client_order_id = text_in(j.member("clientOrderId"@));
        let cum_qty = required_decimal_in(j.member("cumQty"@));
        let cum_quote = required_decimal_in(j.member("cumQuote"@));
        let executed_qty = required_decimal_in(j.member("executedQty"@));
        let order_id = u64_in(j.member("orderId"@));
        let avg_price = required_decimal_in(j.member("avgPrice"@));
        let orig_qty = required_decimal_in(j.member("origQty"@));
        let price = required_decimal_in(j.member("price"@));
        let side = side_text_in(j.member("side"@));
        let reduce_only = flag_in(j.member("reduceOnly"@));
        let position_side = text_in(j.member("positionSide"@));
        let status = status_text_in(j.member("status"@));
        let stop_price = decimal_or_zero_in(j.member("stopPrice"@));
        let close_position = flag_in(j.member("closePosition"@));
        let symbol = text_in(j.member("symbol"@));
        let time_in_force = text_in(j.member("timeInForce"@));
        let order_type = text_in(j.member("type"@));
        let orig_type = text_in(j.member("origType"@));
        let activation_price = decimal_or_zero_in(j.member("activationPrice"@));
        let price_rate = decimal_or_zero_in(j.member("priceRate"@));
        let update_time = u64_in(j.member("updateTime"@));
        let working_type = text_in(j.member("workingType"@));
        let price_protect = flag_in(j.member("priceProtect"@));
        if !(j is Object) {
            Err(DecodeError::TypeMismatch)
        } else if client_order_id is Err {
            Err(client_order_id->Err_0)
        } else if cum_qty is Err {
            Err(cum_qty->Err_0)
        } else if cum_quote is Err {
            Err(cum_quote->Err_0)
        } else if executed_qty is Err {
            Err(executed_qty->Err_0)
        } else if order_id is Err {
            Err(order_id->Err_0)
        } else if avg_price is Err {
            Err(avg_price->Err_0)
        } else if orig_qty is Err {
            Err(orig_qty->Err_0)
        } else if price is Err {
            Err(price->Err_0)
        } else if side is Err {
            Err(side->Err_0)
        } else if reduce_only is Err {
            Err(reduce_only->Err_0)
        } else if position_side is Err {
            Err(position_side->Err_0)
        } else if status is Err {
            Err(status->Err_0)
        } else if stop_price is Err {
            Err(stop_price->Err_0)
        } else if close_position is Err {
            Err(close_position->Err_0)
        } else if symbol is Err {
            Err(symbol->Err_0)
        } else if time_in_force is Err {
            Err(time_in_force->Err_0)
        } else if order_type is Err {
            Err(order_type->Err_0)
        } else if orig_type is Err {
            Err(orig_type->Err_0)
        } else if activation_price is Err {
            Err(activation_price->Err_0)
        } else if price_rate is Err {
            Err(price_rate->Err_0)
        } else if update_time is Err {
            Err(update_time->Err_0)
        } else if working_type is Err {
            Err(working_type->Err_0)
        } else if price_protect is Err {
            Err(price_protect->Err_0)
        } else {
            Ok(
                OrderView {
                    client_order_id: client_order_id->Ok_0,
                    cum_qty: cum_qty->Ok_0,
                    cum_quote: cum_quote->Ok_0,
                    executed_qty: executed_qty->Ok_0,
                    order_id: order_id->Ok_0,
                    avg_price: avg_price->Ok_0,
                    orig_qty: orig_qty->Ok_0,
                    price: price->Ok_0,
                    side: side->Ok_0,
                    reduce_only: reduce_only->Ok_0,
                    position_side: position_side->Ok_0,
                    status: status->Ok_0,
                    stop_price: stop_price->Ok_0,
                    close_position: close_position->Ok_0,
                    symbol: symbol->Ok_0,
                    time_in_force: time_in_force->Ok_0,
                    order_type: order_type->Ok_0,
                    orig_type: orig_type->Ok_0,
                    activation_price: activation_price->Ok_0,
                    price_rate: price_rate->Ok_0,
                    update_time: update_time->Ok_0,
                    working_type: working_type->Ok_0,
                    price_protect: price_protect->Ok_0,
                },
            )
        }
    }

    /// Decodes the object `j`.
    pub fn from_json(j: &Json) -> (r: Result<Order, DecodeError>)
        ensures
            viewed(r) == Order::decoded(*j),
    {
        if !j.is_object() {
            return Err(DecodeError::TypeMismatch);
        }
        let client_order_id = required_text(j, "clientOrderId")?;
        let cum_qty = required_decimal(j, "cumQty")?;
        let cum_quote = required_decimal(j, "cumQuote")?;
        let executed_qty = required_decimal(j, "executedQty")?;
        let order_id = required_u64(j, "orderId")?;
        let avg_price = required_decimal(j, "avgPrice")?;
        let orig_qty = required_decimal(j, "origQty")?;
        let price = required_decimal(j, "price")?;
        let side = required_side_text(j, "side")?;
        let reduce_only = required_flag(j, "reduceOnly")?;
        let position_side = required_text(j, "positionSide")?;
        let status = required_status_text(j, "status")?;
        let stop_price = decimal_or_zero(j, "stopPrice")?;
        let close_position = required_flag(j, "closePosition")?;
        let symbol = required_text(j, "symbol")?;
        let time_in_force = required_text(j, "timeInForce")?;
        let order_type = required_text(j, "type")?;
        let orig_type = required_text(j, "origType")?;
        let activation_price = decimal_or_zero(j, "activationPrice")?;
        let price_rate = decimal_or_zero(j, "priceRate")?;
        let update_time = required_u64(j, "updateTime")?;
        let working_type = required_text(j, "workingType")?;
        let price_protect = required_flag(j, "priceProtect")?;
        Ok(
            Order {
                client_order_id,
                cum_qty,
                cum_quote,
                executed_qty,
                order_id,
                avg_price,
                orig_qty,
                price,
                side,
                reduce_only,
                position_side,
                status,
                stop_price,
                close_position,
                symbol,
                time_in_force,
                order_type,
                orig_type,
                activation_price,
                price_rate,
                update_time,
                working_type,
                price_protect,
            },
        )
    }

    /// The three fields that only some order types use are zero where the
    /// answer leaves them out, and their absence is no error.
    pub proof fn lemma_absent_fields_are_zero(j: Json)
        requires
            j.member("stopPrice"@) is None,
            j.member("activationPrice"@) is None,
            j.member("priceRate"@) is None,
        ensures
            decimal_or_zero_in(j.member("stopPrice"@)) is Ok,
            decimal_or_zero_in(j.member("activationPrice"@)) is Ok,
            decimal_or_zero_in(j.member("priceRate"@)) is Ok,
            Order::decoded(j) matches Ok(v) ==> {
                &&& v.stop_price == (DecimalView { unscaled: 0, scale: 0 })
                &&& v.activation_price == (DecimalView { unscaled: 0, scale: 0 })
                &&& v.price_rate == (DecimalView { unscaled: 0, scale: 0 })
            },
    {
    }

    /// Reads the answer from its text and decodes it.
    pub fn from_text(text: &str) -> (r: Result<Order, DecodeError>)
        ensures
            viewed(r) == read_as(text@, |j: Json| Order::decoded(j)),
    {
        match Json::parse(text) {
            Ok(j) => Order::from_json(&j),
            Err(e) => Err(e),
        }
    }
}

/// The answer to placing an order. The three fields that only some order
/// types use are zero where the answer leaves them out.
#[derive(Debug, Clone, PartialEq)]
pub struct Transaction {
    pub client_order_id: String,
    pub cum_qty: Decimal,
    pub cum_quote: Decimal,
    pub executed_qty: Decimal,
    pub order_id: u64,
    pub avg_price: Decimal,
    pub orig_qty: Decimal,
    pub reduce_only: bool,
    /// One of the tokens of an order side.
    pub side: String,
    pub position_side: String,
    /// One of the tokens of an order status.
    pub status: String,
    /// Zero where the answer leaves it out.
    pub stop_price: Decimal,
    pub close_position: bool,
    pub symbol: String,
    pub time_in_force: String,
    pub order_type: String,
    pub orig_type: String,
    /// Zero where the answer leaves it out.
    pub activate_price: Decimal,
    /// Zero where the answer leaves it out.
    pub price_rate: Decimal,
    pub update_time: u64,
    pub working_type: String,
    pub price_protect: bool,
}

/// What a `Transaction` holds, as mathematical values.
pub struct TransactionView {
    pub client_order_id: Seq<char>,
    pub cum_qty: DecimalView,
    pub cum_quote: DecimalView,
    pub executed_qty: DecimalView,
    pub order_id: u64,
    pub avg_price: DecimalView,
    pub orig_qty: DecimalView,
    pub reduce_only: bool,
    pub side: Seq<char>,
    pub position_side: Seq<char>,
    pub status: Seq<char>,
    pub stop_price: DecimalView,
    pub close_position: bool,
    pub symbol: Seq<char>,
    pub time_in_force: Seq<char>,
    pub order_type: Seq<char>,
    pub orig_type: Seq<char>,
    pub activate_price: DecimalView,
    pub price_rate: DecimalView,
    pub update_time: u64,
    pub working_type: Seq<char>,
    pub price_protect: bool,
}

impl View for Transaction {
    type V = TransactionView;

    open spec fn view(&self) -> TransactionView {
        TransactionView {
            client_order_id: self.client_order_id@,
            cum_qty: self.cum_qty@,
            cum_quote: self.cum_quote@,
            executed_qty: self.executed_qty@,
            order_id: self.order_id,
            avg_price: self.avg_price@,
            orig_qty: self.orig_qty@,
            reduce_only: self.reduce_only,
            side: self.side@,
            position_side: self.position_side@,
            status: self.status@,
            stop_price: self.stop_price@,
            close_position: self.close_position,
            symbol: self.symbol@,
            time_in_force: self.time_in_force@,
            order_type: self.order_type@,
            orig_type: self.orig_type@,
            activate_price: self.activate_price@,
            price_rate: self.price_rate@,
            update_time: self.update_time,
            working_type: self.working_type@,
            price_protect: self.price_protect,
        }
    }
}

impl Transaction {
    /// What the object `j` decodes to: the fields are read in the order
    /// in which they are listed, and the first that fails gives the error.
    pub open spec fn decoded(j: Json) -> Result<TransactionView, DecodeError> {
        let client_order_id = text_in(j.member("clientOrderId"@));
        let cum_qty = required_decimal_in(j.member("cumQty"@));
        let cum_quote = required_decimal_in(j.member("cumQuote"@));
        let executed_qty = required_decimal_in(j.member("executedQty"@));
        let order_id = u64_in(j.member("orderId"@));
        let avg_price = required_decimal_in(j.member("avgPrice"@));
        let orig_qty = required_decimal_in(j.member("origQty"@));
        let reduce_only = flag_in(j.member("reduceOnly"@));
        let side = side_text_in(j.member("side"@));
        let position_side = text_in(j.member("positionSide"@));
        let status = status_text_in(j.member("status"@));
        let stop_price = decimal_or_zero_in(j.member("stopPrice"@));
        let close_position = flag_in(j.member("closePosition"@));
        let symbol = text_in(j.member("symbol"@));
        let time_in_force = text_in(j.member("timeInForce"@));
        let order_type = text_in(j.member("type"@));
        let orig_type = text_in(j.member("origType"@));
        let activate_price = decimal_or_zero_in(j.member("activatePrice"@));
        let price_rate = decimal_or_zero_in(j.member("priceRate"@));
        let update_time = u64_in(j.member("updateTime"@));
        let working_type = text_in(j.member("workingType"@));
        let price_protect = flag_in(j.member("priceProtect"@));
        if !(j is Object) {
            Err(DecodeError::TypeMismatch)
        } else if client_order_id is Err {
            Err(client_order_id->Err_0)
        } else if cum_qty is Err {
            Err(cum_qty->Err_0)
        } else if cum_quote is Err {
            Err(cum_quote->Err_0)
        } else if executed_qty is Err {
            Err(executed_qty->Err_0)
        } else if order_id is Err {
            Err(order_id->Err_0)
        } else if avg_price is Err {
            Err(avg_price->Err_0)
        } else if orig_qty is Err {
            Err(orig_qty->Err_0)
        } else if reduce_only is Err {
            Err(reduce_only->Err_0)
        } else if side is Err {
            Err(side->Err_0)
        } else if position_side is Err {
            Err(position_side->Err_0)
        } else if status is Err {
            Err(status->Err_0)
        } else if stop_price is Err {
            Err(stop_price->Err_0)
        } else if close_position is Err {
            Err(close_position->Err_0)
        } else if symbol is Err {
            Err(symbol->Err_0)
        } else if time_in_force is Err {
            Err(time_in_force->Err_0)
        } else if order_type is Err {
            Err(order_type->Err_0)
        } else if orig_type is Err {
            Err(orig_type->Err_0)
        } else if activate_price is Err {
            Err(activate_price->Err_0)
        } else if price_rate is Err {
            Err(price_rate->Err_0)
        } else if update_time is Err {
            Err(update_time->Err_0)
        } else if working_type is Err {
            Err(working_type->Err_0)
        } else if price_protect is Err {
            Err(price_protect->Err_0)
        } else {
            Ok(
                TransactionView {
                    client_order_id: client_order_id->Ok_0,
                    cum_qty: cum_qty->Ok_0,
                    cum_quote: cum_quote->Ok_0,
                    executed_qty: executed_qty->Ok_0,
                    order_id: order_id->Ok_0,
                    avg_price: avg_price->Ok_0,
                    orig_qty: orig_qty->Ok_0,
                    reduce_only: reduce_only->Ok_0,
                    side: side->Ok_0,
                    position_side: position_side->Ok_0,
                    status: status->Ok_0,
                    stop_price: stop_price->Ok_0,
                    close_position: close_position->Ok_0,
                    symbol: symbol->Ok_0,
                    time_in_force: time_in_force->Ok_0,
                    order_type: order_type->Ok_0,
                    orig_type: orig_type->Ok_0,
                    activate_price: activate_price->Ok_0,
                    price_rate: price_rate->Ok_0,
                    update_time: update_time->Ok_0,
                    working_type: working_type->Ok_0,
                    price_protect: price_protect->Ok_0,
                },
            )
        }
    }

    /// Decodes the object `j`.
    pub fn from_json(j: &Json) -> (r: Result<Transaction, DecodeError>)
        ensures
            viewed(r) == Transaction::decoded(*j),
    {
        if !j.is_object() {
            return Err(DecodeError::TypeMismatch);
        }
        let client_order_id = required_text(j, "clientOrderId")?;
        let cum_qty = required_decimal(j, "cumQty")?;
        let cum_quote = required_decimal(j, "cumQuote")?;
        let executed_qty = required_decimal(j, "executedQty")?;
        let order_id = required_u64(j, "orderId")?;
        let avg_price = required_decimal(j, "avgPrice")?;
        let orig_qty = required_decimal(j, "origQty")?;
        let reduce_only = required_flag(j, "reduceOnly")?;
        let side = required_side_text(j, "side")?;
        let position_side = required_text(j, "positionSide")?;
        let status = required_status_text(j, "status")?;
        let stop_price = decimal_or_zero(j, "stopPrice")?;
        let close_position = required_flag(j, "closePosition")?;
        let symbol = required_text(j, "symbol")?;
        let time_in_force = required_text(j, "timeInForce")?;
        let order_type = required_text(j, "type")?;
        let orig_type = required_text(j, "origType")?;
        let activate_price = decimal_or_zero(j, "activatePrice")?;
        let price_rate = decimal_or_zero(j, "priceRate")?;
        let update_time = required_u64(j, "updateTime")?;
        let working_type = required_text(j, "workingType")?;
        let price_protect = required_flag(j, "priceProtect")?;
        Ok(
            Transaction {
                client_order_id,
                cum_qty,
                cum_quote,
                executed_qty,
                order_id,
                avg_price,
                orig_qty,
                reduce_only,
                side,
                position_side,
                status,
                stop_price,
                close_position,
                symbol,
                time_in_force,
                order_type,
                orig_type,
                activate_price,
                price_rate,
                update_time,
                working_type,
                price_protect,
            },
        )
    }

    /// The three fields that only some order types use are zero where the
    /// answer leaves them out, and their absence is no error.
    pub proof fn lemma_absent_fields_are_zero(j: Json)
        requires
            j.member("stopPrice"@) is None,
            j.member("activatePrice"@) is None,
            j.member("priceRate"@) is None,
        ensures
            decimal_or_zero_in(j.member("stopPrice"@)) is Ok,
            decimal_or_zero_in(j.member("activatePrice"@)) is Ok,
            decimal_or_zero_in(j.member("priceRate"@)) is Ok,
            Transaction::decoded(j) matches Ok(v) ==> {
                &&& v.stop_price == (DecimalView { unscaled: 0, scale: 0 })
                &&& v.activate_price == (DecimalView { unscaled: 0, scale: 0 })
                &&& v.price_rate == (DecimalView { unscaled: 0, scale: 0 })
            },
    {
    }

    /// Reads the answer from its text and decodes it.
    pub fn from_text(text: &str) -> (r: Result<Transaction, DecodeError>)
        ensures
            viewed(r) == read_as(text@, |j: Json| Transaction::decoded(j)),
    {
        match Json::parse(text) {
            Ok(j) => Transaction::from_json(&j),
            Err(e) => Err(e),
        }
    }
}

/// The answer to changing the leverage of a symbol.
#[derive(Debug, Clone, PartialEq)]
pub struct ChangeLeverageResponse {
    pub leverage: u8,
    pub max_notional_value: Decimal,
    pub symbol: String,
}

/// What a `ChangeLeverageResponse` holds, as mathematical values.
pub struct ChangeLeverageResponseView {
    pub leverage: u8,
    pub max_notional_value: DecimalView,
    pub symbol: Seq<char>,
}

impl View for ChangeLeverageResponse {
    type V = ChangeLeverageResponseView;

    open spec fn view(&self) -> ChangeLeverageResponseView {
        ChangeLeverageResponseView {
            leverage: self.leverage,
            max_notional_value: self.max_notional_value@,
            symbol: self.symbol@,
        }
    }
}

impl ChangeLeverageResponse {
    /// What the object `j` decodes to: the fields are read in the order
    /// in which they are listed, and the first that fails gives the error.
    pub open spec fn decoded(j: Json) -> Result<ChangeLeverageResponseView, DecodeError> {
        let leverage = u8_in(j.member("leverage"@));
        let max_notional_value = required_decimal_in(j.member("maxNotionalValue"@));
        let symbol = text_in(j.member("symbol"@));
        if !(j is Object) {
            Err(DecodeError::TypeMismatch)
        } else if leverage is Err {
            Err(leverage->Err_0)
        } else if max_notional_value is Err {
            Err(max_notional_value->Err_0)
        } else if symbol is Err {
            Err(symbol->Err_0)
        } else {
            Ok(
                ChangeLeverageResponseView {
                    leverage: leverage->Ok_0,
                    max_notional_value: max_notional_value->Ok_0,
                    symbol: symbol->Ok_0,
                },
            )
        }
    }

    /// Decodes the object `j`.
    pub fn from_json(j: &Json) -> (r: Result<ChangeLeverageResponse, DecodeError>)
        ensures
            viewed(r) == ChangeLeverageResponse::decoded(*j),
    {
        if !j.is_object() {
            return Err(DecodeError::TypeMismatch);
        }
        let leverage = required_u8(j, "leverage")?;
        let max_notional_value = required_decimal(j, "maxNotionalValue")?;
        let symbol = required_text(j, "symbol")?;
        Ok(ChangeLeverageResponse { leverage, max_notional_value, symbol })
    }

    /// Reads the answer from its text and decodes it.
    pub fn from_text(text: &str) -> (r: Result<ChangeLeverageResponse, DecodeError>)
        ensures
            viewed(r) == read_as(text@, |j: Json| ChangeLeverageResponse::decoded(j)),
    {
        match Json::parse(text) {
            Ok(j) => ChangeLeverageResponse::from_json(&j),
            Err(e) => Err(e),
        }
    }
}

} // verus!
