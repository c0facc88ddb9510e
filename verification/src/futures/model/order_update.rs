//! The pushed message that reports a transition of an order.

use crate::codec::{
    flag_in, nested_in, optional_text, optional_text_in, optional_text_view, required_flag,
    required_member, required_text, required_u64, text_in, u64_in, viewed,
};
use crate::error::DecodeError;
use crate::json::{read_as, Json};
use crate::text::same_text;
use crate::vocabulary::{required_status_text, status_text_in};
use vstd::prelude::*;

verus! {

/// The side of an order.
#[derive(Debug, Clone, Copy, PartialEq, Eq)]
pub enum OrderUpdateSide {
    Buy,
    Sell,
}

impl OrderUpdateSide {
    /// The token that stands for this value in a message.
    pub open spec fn token(self) -> Seq<char> {
        match self {
            OrderUpdateSide::Buy => "BUY"@,
            OrderUpdateSide::Sell => "SELL"@,
        }
    }

    /// The value that the token `t` stands for, if it stands for one.
    pub open spec fn of_token(t: Seq<char>) -> Option<OrderUpdateSide> {
        if t == "BUY"@ {
            Some(OrderUpdateSide::Buy)
        } else if t == "SELL"@ {
            Some(OrderUpdateSide::Sell)
        } else {
            None
        }
    }

    /// The side that a field holds: the field must be there and hold a string,
    /// and the string must be one of the tokens.
    pub open spec fn in_field(j: Option<Json>) -> Result<OrderUpdateSide, DecodeError> {
        match j {
            None => Err(DecodeError::MissingRequiredField),
            Some(Json::Text(s)) => match OrderUpdateSide::of_token(s@) {
                Some(v) => Ok(v),
                None => Err(DecodeError::UnknownEnumValue),
            },
            Some(_) => Err(DecodeError::TypeMismatch),
        }
    }

    /// The token that stands for this value in a message.
    pub fn name(self) -> (r: &'static str)
        ensures
            r@ == self.token(),
    {
        match self {
            OrderUpdateSide::Buy => "BUY",
            OrderUpdateSide::Sell => "SELL",
        }
    }

    /// Reads the value that the token `text` stands for.
    pub fn from_token(text: &str) -> (r: Result<OrderUpdateSide, DecodeError>)
        ensures
            r == match OrderUpdateSide::of_token(text@) {
                Some(v) => Ok::<OrderUpdateSide, DecodeError>(v),
                None => Err(DecodeError::UnknownEnumValue),
            },
    {
        if same_text(text, "BUY") {
            Ok(OrderUpdateSide::Buy)
        } else if same_text(text, "SELL") {
            Ok(OrderUpdateSide::Sell)
        } else {
            Err(DecodeError::UnknownEnumValue)
        }
    }

    /// A side field that holds a string outside the vocabulary is refused,
    /// whatever the string.
    pub proof fn lemma_unknown_side_is_refused(written: String)
        requires
            written@ != "BUY"@,
            written@ != "SELL"@,
        ensures
            OrderUpdateSide::in_field(Some(Json::Text(written))) == Err::<
                OrderUpdateSide,
                DecodeError,
            >(DecodeError::UnknownEnumValue),
    {
    }

    /// Each side is read back from its own token.
    pub proof fn lemma_token_round_trip(side: OrderUpdateSide)
        ensures
            OrderUpdateSide::of_token(side.token()) == Some(side),
    {
        reveal_strlit("BUY");
        reveal_strlit("SELL");
        assert("BUY"@.len() != "SELL"@.len());
    }

    /// Reads the value of the field `key` of `j`, which must be there.
    pub fn from_field(j: &Json, key: &str) -> (r: Result<OrderUpdateSide, DecodeError>)
        ensures
            r == OrderUpdateSide::in_field(j.member(key@)),
    {
        match j.get(key) {
            None => Err(DecodeError::MissingRequiredField),
            Some(Json::Text(s)) => OrderUpdateSide::from_token(s.as_str()),
            Some(_) => Err(DecodeError::TypeMismatch),
        }
    }
}

/// The state of an order after a transition.
#[derive(Debug, Clone, PartialEq)]
pub struct OrderUpdateData {
    pub symbol: String,
    pub client_order_id: String,
    pub side: OrderUpdateSide,
    pub order_type: String,
    pub time_in_force: String,
    pub original_quantity: String,
    pub original_price: String,
    pub average_price: String,
    pub stop_price: String,
    pub execution_type: String,
    /// One of the tokens of an order status.
    pub status: String,
    pub order_id: u64,
    pub last_filled_quantity: String,
    pub filled_accumulated_quantity: String,
    pub last_filled_price: String,
    /// The asset of the commission; absent where nothing was filled.
    pub commission_asset: Option<String>,
    /// The commission; absent where nothing was filled.
    pub commission: Option<String>,
    pub order_trade_time: u64,
    pub trade_id: u64,
    pub bids_notional: String,
    pub asks_notional: String,
    pub trade_maker_side: bool,
    pub reduce_only: bool,
    pub stop_price_working_type: String,
    pub original_order_type: String,
    pub position_side: String,
    pub close_all: bool,
    /// The activation price; only with a trailing stop.
    pub activation_price: Option<String>,
    /// The callback rate; only with a trailing stop.
    pub callback_rate: Option<String>,
    pub realized_profit: String,
}

/// What an `OrderUpdateData` holds, as mathematical values.
pub struct OrderUpdateDataView {
    pub symbol: Seq<char>,
    pub client_order_id: Seq<char>,
    pub side: OrderUpdateSide,
    pub order_type: Seq<char>,
    pub time_in_force: Seq<char>,
    pub original_quantity: Seq<char>,
    pub original_price: Seq<char>,
    pub average_price: Seq<char>,
    pub stop_price: Seq<char>,
    pub execution_type: Seq<char>,
    pub status: Seq<char>,
    pub order_id: u64,
    pub last_filled_quantity: Seq<char>,
    pub filled_accumulated_quantity: Seq<char>,
    pub last_filled_price: Seq<char>,
    pub commission_asset: Option<Seq<char>>,
    pub commission: Option<Seq<char>>,
    pub order_trade_time: u64,
    pub trade_id: u64,
    pub bids_notional: Seq<char>,
    pub asks_notional: Seq<char>,
    pub trade_maker_side: bool,
    pub reduce_only: bool,
    pub stop_price_working_type: Seq<char>,
    pub original_order_type: Seq<char>,
    pub position_side: Seq<char>,
    pub close_all: bool,
    pub activation_price: Option<Seq<char>>,
    pub callback_rate: Option<Seq<char>>,
    pub realized_profit: Seq<char>,
}

impl View for OrderUpdateData {
    type V = OrderUpdateDataView;

    open spec fn view(&self) -> OrderUpdateDataView {
        OrderUpdateDataView {
            symbol: self.symbol@,
            client_order_id: self.client_order_id@,
            side: self.side,
            order_type: self.order_type@,
            time_in_force: self.time_in_force@,
            original_quantity: self.original_quantity@,
            original_price: self.original_price@,
            average_price: self.average_price@,
            stop_price: self.stop_price@,
            execution_type: self.execution_type@,
            status: self.status@,
            order_id: self.order_id,
            last_filled_quantity: self.last_filled_quantity@,
            filled_accumulated_quantity: self.filled_accumulated_quantity@,
            last_filled_price: self.last_filled_price@,
            commission_asset: optional_text_view(self.commission_asset),
            commission: optional_text_view(self.commission),
            order_trade_time: self.order_trade_time,
            trade_id: self.trade_id,
            bids_notional: self.bids_notional@,
            asks_notional: self.asks_notional@,
            trade_maker_side: self.trade_maker_side,
            reduce_only: self.reduce_only,
            stop_price_working_type: self.stop_price_working_type@,
            original_order_type: self.original_order_type@,
            position_side: self.position_side@,
            close_all: self.close_all,
            activation_price: optional_text_view(self.activation_price),
            callback_rate: optional_text_view(self.callback_rate),
            realized_profit: self.realized_profit@,
        }
    }
}

impl OrderUpdateData {
    /// What the object `j` decodes to: the fields are read in the order
    /// in which they are listed, and the first that fails gives the error.
    pub open spec fn decoded(j: Json) -> Result<OrderUpdateDataView, DecodeError> {
        let symbol = text_in(j.member("s"@));
        let client_order_id = text_in(j.member("c"@));
        let side = OrderUpdateSide::in_field(j.member("S"@));
        let order_type = text_in(j.member("o"@));
        let time_in_force = text_in(j.member("f"@));
        let original_quantity = text_in(j.member("q"@));
        let original_price = text_in(j.member("p"@));
        let average_price = text_in(j.member("ap"@));
        let stop_price = text_in(j.member("sp"@));
        let execution_type = text_in(j.member("x"@));
        let status = status_text_in(j.member("X"@));
        let order_id = u64_in(j.member("i"@));
        let last_filled_quantity = text_in(j.member("l"@));
        let filled_accumulated_quantity = text_in(j.member("z"@));
        let last_filled_price = text_in(j.member("L"@));
        let commission_asset = optional_text_in(j.member("N"@));
        let commission = optional_text_in(j.member("n"@));
        let order_trade_time = u64_in(j.member("T"@));
        let trade_id = u64_in(j.member("t"@));
        let bids_notional = text_in(j.member("b"@));
        let asks_notional = text_in(j.member("a"@));
        let trade_maker_side = flag_in(j.member("m"@));
        let reduce_only = flag_in(j.member("R"@));
        let stop_price_working_type = text_in(j.member("wt"@));
        let original_order_type = text_in(j.member("ot"@));
        let position_side = text_in(j.member("ps"@));
        let close_all = flag_in(j.member("cp"@));
        let activation_price = optional_text_in(j.member("AP"@));
        let callback_rate = optional_text_in(j.member("cr"@));
        let realized_profit = text_in(j.member("rp"@));
        if !(j is Object) {
            Err(DecodeError::TypeMismatch)
        } else if symbol is Err {
            Err(symbol->Err_0)
        } else if client_order_id is Err {
            Err(client_order_id->Err_0)
        } else if side is Err {
            Err(side->Err_0)
        } else if order_type is Err {
            Err(order_type->Err_0)
        } else if time_in_force is Err {
            Err(time_in_force->Err_0)
        } else if original_quantity is Err {
            Err(original_quantity->Err_0)
        } else if original_price is Err {
            Err(original_price->Err_0)
        } else if average_price is Err {
            Err(average_price->Err_0)
        } else if stop_price is Err {
            Err(stop_price->Err_0)
        } else if execution_type is Err {
            Err(execution_type->Err_0)
        } else if status is Err {
            Err(status->Err_0)
        } else if order_id is Err {
            Err(order_id->Err_0)
        } else if last_filled_quantity is Err {
            Err(last_filled_quantity->Err_0)
        } else if filled_accumulated_quantity is Err {
            Err(filled_accumulated_quantity->Err_0)
        } else if last_filled_price is Err {
            Err(last_filled_price->Err_0)
        } else if commission_asset is Err {
            Err(commission_asset->Err_0)
        } else if commission is Err {
            Err(commission->Err_0)
        } else if order_trade_time is Err {
            Err(order_trade_time->Err_0)
        } else if trade_id is Err {
            Err(trade_id->Err_0)
        } else if bids_notional is Err {
            Err(bids_notional->Err_0)
        } else if asks_notional is Err {
            Err(asks_notional->Err_0)
        } else if trade_maker_side is Err {
            Err(trade_maker_side->Err_0)
        } else if reduce_only is Err {
            Err(reduce_only->Err_0)
        } else if stop_price_working_type is Err {
            Err(stop_price_working_type->Err_0)
        } else if original_order_type is Err {
            Err(original_order_type->Err_0)
        } else if position_side is Err {
            Err(position_side->Err_0)
        } else if close_all is Err {
            Err(close_all->Err_0)
        } else if activation_price is Err {
            Err(activation_price->Err_0)
        } else if callback_rate is Err {
            Err(callback_rate->Err_0)
        } else if realized_profit is Err {
            Err(realized_profit->Err_0)
        } else {
            Ok(
                OrderUpdateDataView {
                    symbol: symbol->Ok_0,
                    client_order_id: client_order_id->Ok_0,
                    side: side->Ok_0,
                    order_type: order_type->Ok_0,
                    time_in_force: time_in_force->Ok_0,
                    original_quantity: original_quantity->Ok_0,
                    original_price: original_price->Ok_0,
                    average_price: average_price->Ok_0,
                    stop_price: stop_price->Ok_0,
                    execution_type: execution_type->Ok_0,
                    status: status->Ok_0,
                    order_id: order_id->Ok_0,
                    last_filled_quantity: last_filled_quantity->Ok_0,
                    filled_accumulated_quantity: filled_accumulated_quantity->Ok_0,
                    last_filled_price: last_filled_price->Ok_0,
                    commission_asset: commission_asset->Ok_0,
                    commission: commission->Ok_0,
                    order_trade_time: order_trade_time->Ok_0,
                    trade_id: trade_id->Ok_0,
                    bids_notional: bids_notional->Ok_0,
                    asks_notional: asks_notional->Ok_0,
                    trade_maker_side: trade_maker_side->Ok_0,
                    reduce_only: reduce_only->Ok_0,
                    stop_price_working_type: stop_price_working_type->Ok_0,
                    original_order_type: original_order_type->Ok_0,
                    position_side: position_side->Ok_0,
                    close_all: close_all->Ok_0,
                    activation_price: activation_price->Ok_0,
                    callback_rate: callback_rate->Ok_0,
                    realized_profit: realized_profit->Ok_0,
                },
            )
        }
    }

    /// An update without the two commission fields has no commission and
    /// no commission asset. A field that holds `null` counts as left out.
    pub proof fn lemma_absent_commission_is_none(j: Json)
        requires
            j.member("N"@) is None || j.member("N"@) == Some(Json::Null),
            j.member("n"@) is None || j.member("n"@) == Some(Json::Null),
        ensures
            OrderUpdateData::decoded(j) matches Ok(v) ==> v.commission is None
                && v.commission_asset is None,
    {
    }

    /// An update has a commission exactly where the field holds a string,
    /// and is refused where the field holds anything but a string or
    /// `null`.
    pub proof fn lemma_commission_follows_the_field(j: Json)
        ensures
            OrderUpdateData::decoded(j) matches Ok(v) ==> {
                &&& v.commission is Some <==> text_in(j.member("n"@)) is Ok
                &&& v.commission_asset is Some <==> text_in(j.member("N"@)) is Ok
            },
            optional_text_in(j.member("n"@)) is Err ==> OrderUpdateData::decoded(j) is Err,
            optional_text_in(j.member("N"@)) is Err ==> OrderUpdateData::decoded(j) is Err,
    {
    }

    /// An update with the two commission fields has the commission and its
    /// asset as they are written.
    pub proof fn lemma_present_commission_is_kept(j: Json, asset: String, amount: String)
        requires
            j.member("N"@) == Some(Json::Text(asset)),
            j.member("n"@) == Some(Json::Text(amount)),
        ensures
            OrderUpdateData::decoded(j) matches Ok(v) ==> v.commission == Some(amount@)
                && v.commission_asset == Some(asset@),
    {
    }

    /// An update without the two fields of a trailing stop has neither an
    /// activation price nor a callback rate; with them, it has them as
    /// they are written.
    pub proof fn lemma_trailing_stop_fields(j: Json)
        ensures
            OrderUpdateData::decoded(j) matches Ok(v) ==> {
                &&& v.activation_price == optional_text_in(j.member("AP"@))->Ok_0
                &&& v.callback_rate == optional_text_in(j.member("cr"@))->Ok_0
                &&& (j.member("AP"@) is None ==> v.activation_price is None)
                &&& (j.member("cr"@) is None ==> v.callback_rate is None)
            },
    {
    }

    /// A field that the shape does not name is ignored: with it the update
    /// decodes to what it decodes to without it.
    pub proof fn lemma_unnamed_field_is_ignored(j: Json, more: Json, at: int, extra: (String, Json))
        requires
            more.extends(j, at, extra),
            extra.0@ != "s"@,
            extra.0@ != "c"@,
            extra.0@ != "S"@,
            extra.0@ != "o"@,
            extra.0@ != "f"@,
            extra.0@ != "q"@,
            extra.0@ != "p"@,
            extra.0@ != "ap"@,
            extra.0@ != "sp"@,
            extra.0@ != "x"@,
            extra.0@ != "X"@,
            extra.0@ != "i"@,
            extra.0@ != "l"@,
            extra.0@ != "z"@,
            extra.0@ != "L"@,
            extra.0@ != "N"@,
            extra.0@ != "n"@,
            extra.0@ != "T"@,
            extra.0@ != "t"@,
            extra.0@ != "b"@,
            extra.0@ != "a"@,
            extra.0@ != "m"@,
            extra.0@ != "R"@,
            extra.0@ != "wt"@,
            extra.0@ != "ot"@,
            extra.0@ != "ps"@,
            extra.0@ != "cp"@,
            extra.0@ != "AP"@,
            extra.0@ != "cr"@,
            extra.0@ != "rp"@,
        ensures
            OrderUpdateData::decoded(more) == OrderUpdateData::decoded(j),
    {
        more.lemma_member_ignores_other_names(j, at, extra, "s"@);
        more.lemma_member_ignores_other_names(j, at, extra, "c"@);
        more.lemma_member_ignores_other_names(j, at, extra, "S"@);
        more.lemma_member_ignores_other_names(j, at, extra, "o"@);
        more.lemma_member_ignores_other_names(j, at, extra, "f"@);
        more.lemma_member_ignores_other_names(j, at, extra, "q"@);
        more.lemma_member_ignores_other_names(j, at, extra, "p"@);
        more.lemma_member_ignores_other_names(j, at, extra, "ap"@);
        more.lemma_member_ignores_other_names(j, at, extra, "sp"@);
        more.lemma_member_ignores_other_names(j, at, extra, "x"@);
        more.lemma_member_ignores_other_names(j, at, extra, "X"@);
        more.lemma_member_ignores_other_names(j, at, extra, "i"@);
        more.lemma_member_ignores_other_names(j, at, extra, "l"@);
        more.lemma_member_ignores_other_names(j, at, extra, "z"@);
        more.lemma_member_ignores_other_names(j, at, extra, "L"@);
        more.lemma_member_ignores_other_names(j, at, extra, "N"@);
        more.lemma_member_ignores_other_names(j, at, extra, "n"@);
        more.lemma_member_ignores_other_names(j, at, extra, "T"@);
        more.lemma_member_ignores_other_names(j, at, extra, "t"@);
        more.lemma_member_ignores_other_names(j, at, extra, "b"@);
        more.lemma_member_ignores_other_names(j, at, extra, "a"@);
        more.lemma_member_ignores_other_names(j, at, extra, "m"@);
        more.lemma_member_ignores_other_names(j, at, extra, "R"@);
        more.lemma_member_ignores_other_names(j, at, extra, "wt"@);
        more.lemma_member_ignores_other_names(j, at, extra, "ot"@);
        more.lemma_member_ignores_other_names(j, at, extra, "ps"@);
        more.lemma_member_ignores_other_names(j, at, extra, "cp"@);
        more.lemma_member_ignores_other_names(j, at, extra, "AP"@);
        more.lemma_member_ignores_other_names(j, at, extra, "cr"@);
        more.lemma_member_ignores_other_names(j, at, extra, "rp"@);
    }

    /// Decodes the object `j`.
    pub fn from_json(j: &Json) -> (r: Result<OrderUpdateData, DecodeError>)
        ensures
            viewed(r) == OrderUpdateData::decoded(*j),
    {
        if !j.is_object() {
            return Err(DecodeError::TypeMismatch);
        }
        let symbol = required_text(j, "s")?;
        let client_order_id = required_text(j, "c")?;
        let side = OrderUpdateSide::from_field(j, "S")?;
        let order_type = required_text(j, "o")?;
        let time_in_force = required_text(j, "f")?;
        let original_quantity = required_text(j, "q")?;
        let original_price = required_text(j, "p")?;
        let average_price = required_text(j, "ap")?;
        let stop_price = required_text(j, "sp")?;
        let execution_type = required_text(j, "x")?;
        let status = required_status_text(j, "X")?;
        let order_id = required_u64(j, "i")?;
        let last_filled_quantity = required_text(j, "l")?;
        let filled_accumulated_quantity = required_text(j, "z")?;
        let last_filled_price = required_text(j, "L")?;
        let commission_asset = optional_text(j, "N")?;
        let commission = optional_text(j, "n")?;
        let order_trade_time = required_u64(j, "T")?;
        let trade_id = required_u64(j, "t")?;
        let bids_notional = required_text(j, "b")?;
        let asks_notional = required_text(j, "a")?;
        let trade_maker_side = required_flag(j, "m")?;
        let reduce_only = required_flag(j, "R")?;
        let stop_price_working_type = required_text(j, "wt")?;
        let original_order_type = required_text(j, "ot")?;
        let position_side = required_text(j, "ps")?;
        let close_all = required_flag(j, "cp")?;
        let activation_price = optional_text(j, "AP")?;
        let callback_rate = optional_text(j, "cr")?;
        let realized_profit = required_text(j, "rp")?;
        Ok(
            OrderUpdateData {
                symbol,
                client_order_id,
                side,
                order_type,
                time_in_force,
                original_quantity,
                original_price,
                average_price,
                stop_price,
                execution_type,
                status,
                order_id,
                last_filled_quantity,
                filled_accumulated_quantity,
                last_filled_price,
                commission_asset,
                commission,
                order_trade_time,
                trade_id,
                bids_notional,
                asks_notional,
                trade_maker_side,
                reduce_only,
                stop_price_working_type,
                original_order_type,
                position_side,
                close_all,
                activation_price,
                callback_rate,
                realized_profit,
            },
        )
    }
}

/// A pushed message that reports a transition of an order.
#[derive(Debug, Clone, PartialEq)]
pub struct OrderUpdateEvent {
    pub event_type: String,
    pub event_time: u64,
    /// The time of the transaction.
    pub transaction: u64,
    pub data: OrderUpdateData,
}

/// What an `OrderUpdateEvent` holds, as mathematical values.
pub struct OrderUpdateEventView {
    pub event_type: Seq<char>,
    pub event_time: u64,
    pub transaction: u64,
    pub data: OrderUpdateDataView,
}

impl View for OrderUpdateEvent {
    type V = OrderUpdateEventView;

    open spec fn view(&self) -> OrderUpdateEventView {
        OrderUpdateEventView {
            event_type: self.event_type@,
            event_time: self.event_time,
            transaction: self.transaction,
            data: self.data@,
        }
    }
}

impl OrderUpdateEvent {
    /// What the object `j` decodes to: the fields are read in the order
    /// in which they are listed, and the first that fails gives the error.
    pub open spec fn decoded(j: Json) -> Result<OrderUpdateEventView, DecodeError> {
        let event_type = text_in(j.member("e"@));
        let event_time = u64_in(j.member("E"@));
        let transaction = u64_in(j.member("T"@));
        let data = nested_in(j.member("o"@), |v: Json| OrderUpdateData::decoded(v));
        if !(j is Object) {
            Err(DecodeError::TypeMismatch)
        } else if event_type is Err {
            Err(event_type->Err_0)
        } else if event_time is Err {
            Err(event_time->Err_0)
        } else if transaction is Err {
            Err(transaction->Err_0)
        } else if data is Err {
            Err(data->Err_0)
        } else {
            Ok(
                OrderUpdateEventView {
                    event_type: event_type->Ok_0,
                    event_time: event_time->Ok_0,
                    transaction: transaction->Ok_0,
                    data: data->Ok_0,
                },
            )
        }
    }

    /// A field that the message does not name at its top is ignored: with it
    /// the message decodes to what it decodes to without it.
    pub proof fn lemma_unnamed_field_is_ignored(j: Json, more: Json, at: int, extra: (String, Json))
        requires
            more.extends(j, at, extra),
            extra.0@ != "e"@,
            extra.0@ != "E"@,
            extra.0@ != "T"@,
            extra.0@ != "o"@,
        ensures
            OrderUpdateEvent::decoded(more) == OrderUpdateEvent::decoded(j),
    {
        more.lemma_member_ignores_other_names(j, at, extra, "e"@);
        more.lemma_member_ignores_other_names(j, at, extra, "E"@);
        more.lemma_member_ignores_other_names(j, at, extra, "T"@);
        more.lemma_member_ignores_other_names(j, at, extra, "o"@);
    }

    /// Decodes the object `j`.
    pub fn from_json(j: &Json) -> (r: Result<OrderUpdateEvent, DecodeError>)
        ensures
            viewed(r) == OrderUpdateEvent::decoded(*j),
    {
        if !j.is_object() {
            return Err(DecodeError::TypeMismatch);
        }
        let event_type = required_text(j, "e")?;
        let event_time = required_u64(j, "E")?;
        let transaction = required_u64(j, "T")?;
        let data = OrderUpdateData::from_json(required_member(j, "o")?)?;
        Ok(OrderUpdateEvent { event_type, event_time, transaction, data })
    }

    /// Reads the message from its text and decodes it.
    pub fn from_text(text: &str) -> (r: Result<OrderUpdateEvent, DecodeError>)
        ensures
            viewed(r) == read_as(text@, |j: Json| OrderUpdateEvent::decoded(j)),
    {
        match Json::parse(text) {
            Ok(j) => OrderUpdateEvent::from_json(&j),
            Err(e) => Err(e),
        }
    }
}

} // verus!
