//! Pushed messages: which shape a message has, by its tag, and decoding it
//! into that shape.

use crate::codec::{nested_in, required_member, required_text, text_in, viewed, Wire};
use crate::error::DecodeError;
use crate::futures::model::account_update::{AccountUpdateEvent, AccountUpdateEventView};
use crate::futures::model::market::{
    AggTrade, AggTradeView, LiquidationOrder, LiquidationOrderView, MarkPrice, MarkPriceView,
    OpenInterest, OpenInterestView, OrderBook, OrderBookView, Trade, TradeView,
};
use crate::futures::model::order_update::{OrderUpdateEvent, OrderUpdateEventView};
use crate::json::{read_as, Json};
use crate::model::{KlineSummary, KlineSummaryView};
use crate::text::same_text;
use vstd::prelude::*;

verus! {

/// The kinds of pushed message that are decoded into a shape of their own.
#[derive(Debug, Clone, Copy, PartialEq, Eq)]
pub enum EventKind {
    AccountUpdate,
    OrderUpdate,
    MarkPrice,
    Liquidation,
    AggTrade,
    Trade,
    OpenInterest,
    Depth,
    Kline,
}

impl EventKind {
    /// The tag that a message of this kind carries in its field `e`.
    pub open spec fn token(self) -> Seq<char> {
        match self {
            EventKind::AccountUpdate => "ACCOUNT_UPDATE"@,
            EventKind::OrderUpdate => "ORDER_TRADE_UPDATE"@,
            EventKind::MarkPrice => "markPriceUpdate"@,
            EventKind::Liquidation => "forceOrder"@,
            EventKind::AggTrade => "aggTrade"@,
            EventKind::Trade => "trade"@,
            EventKind::OpenInterest => "openInterest"@,
            EventKind::Depth => "depthUpdate"@,
            EventKind::Kline => "kline"@,
        }
    }

    /// The kind that the tag `t` stands for, if it stands for one.
    pub open spec fn of_token(t: Seq<char>) -> Option<EventKind> {
        if t == "ACCOUNT_UPDATE"@ {
            Some(EventKind::AccountUpdate)
        } else if t == "ORDER_TRADE_UPDATE"@ {
            Some(EventKind::OrderUpdate)
        } else if t == "markPriceUpdate"@ {
            Some(EventKind::MarkPrice)
        } else if t == "forceOrder"@ {
            Some(EventKind::Liquidation)
        } else if t == "aggTrade"@ {
            Some(EventKind::AggTrade)
        } else if t == "trade"@ {
            Some(EventKind::Trade)
        } else if t == "openInterest"@ {
            Some(EventKind::OpenInterest)
        } else if t == "depthUpdate"@ {
            Some(EventKind::Depth)
        } else if t == "kline"@ {
            Some(EventKind::Kline)
        } else {
            None
        }
    }

    /// The tag that a message of this kind carries in its field `e`.
    pub fn name(self) -> (r: &'static str)
        ensures
            r@ == self.token(),
    {
        match self {
            EventKind::AccountUpdate => "ACCOUNT_UPDATE",
            EventKind::OrderUpdate => "ORDER_TRADE_UPDATE",
            EventKind::MarkPrice => "markPriceUpdate",
            EventKind::Liquidation => "forceOrder",
            EventKind::AggTrade => "aggTrade",
            EventKind::Trade => "trade",
            EventKind::OpenInterest => "openInterest",
            EventKind::Depth => "depthUpdate",
            EventKind::Kline => "kline",
        }
    }

    /// Each kind is found again under its own tag: no two kinds share one.
    pub proof fn lemma_token_round_trip(kind: EventKind)
        ensures
            EventKind::of_token(kind.token()) == Some(kind),
    {
        reveal_strlit("ACCOUNT_UPDATE");
        reveal_strlit("ORDER_TRADE_UPDATE");
        reveal_strlit("markPriceUpdate");
        reveal_strlit("forceOrder");
        reveal_strlit("aggTrade");
        reveal_strlit("trade");
        reveal_strlit("openInterest");
        reveal_strlit("depthUpdate");
        reveal_strlit("kline");
        assert("ACCOUNT_UPDATE"@.len() == 14 && "ORDER_TRADE_UPDATE"@.len() == 18);
        assert("markPriceUpdate"@.len() == 15 && "forceOrder"@.len() == 10);
        assert("aggTrade"@.len() == 8 && "openInterest"@.len() == 12);
        assert("depthUpdate"@.len() == 11);
        assert("trade"@.len() == 5 && "trade"@[0] == 't');
        assert("kline"@.len() == 5 && "kline"@[0] == 'k');
    }

    /// Looks the tag `text` up among the registered kinds.
    pub fn lookup(text: &str) -> (r: Option<EventKind>)
        ensures
            r == EventKind::of_token(text@),
    {
        if same_text(text, "ACCOUNT_UPDATE") {
            Some(EventKind::AccountUpdate)
        } else if same_text(text, "ORDER_TRADE_UPDATE") {
            Some(EventKind::OrderUpdate)
        } else if same_text(text, "markPriceUpdate") {
            Some(EventKind::MarkPrice)
        } else if same_text(text, "forceOrder") {
            Some(EventKind::Liquidation)
        } else if same_text(text, "aggTrade") {
            Some(EventKind::AggTrade)
        } else if same_text(text, "trade") {
            Some(EventKind::Trade)
        } else if same_text(text, "openInterest") {
            Some(EventKind::OpenInterest)
        } else if same_text(text, "depthUpdate") {
            Some(EventKind::Depth)
        } else if same_text(text, "kline") {
            Some(EventKind::Kline)
        } else {
            None
        }
    }
}

/// A pushed message, decoded. A message whose tag stands for no registered
/// kind is kept whole, as the document that it was read as: every member
/// and every value of it, not the characters of its text.
#[derive(Debug, Clone, PartialEq)]
pub enum Events {
    AccountUpdate(AccountUpdateEvent),
    OrderUpdate(OrderUpdateEvent),
    MarkPrice(MarkPrice),
    Liquidation(LiquidationOrder),
    AggTrade(AggTrade),
    Trade(Trade),
    OpenInterest(OpenInterest),
    Depth(OrderBook),
    Kline(KlineSummary),
    Unrecognized(Json),
}

/// What an `Events` holds, as mathematical values.
pub enum EventsView {
    AccountUpdate(AccountUpdateEventView),
    OrderUpdate(OrderUpdateEventView),
    MarkPrice(MarkPriceView),
    Liquidation(LiquidationOrderView),
    AggTrade(AggTradeView),
    Trade(TradeView),
    OpenInterest(OpenInterestView),
    Depth(OrderBookView),
    Kline(KlineSummaryView),
    Unrecognized(Json),
}

impl View for Events {
    type V = EventsView;

    open spec fn view(&self) -> EventsView {
        match self {
            Events::AccountUpdate(v) => EventsView::AccountUpdate(v@),
            Events::OrderUpdate(v) => EventsView::OrderUpdate(v@),
            Events::MarkPrice(v) => EventsView::MarkPrice(v@),
            Events::Liquidation(v) => EventsView::Liquidation(v@),
            Events::AggTrade(v) => EventsView::AggTrade(v@),
            Events::Trade(v) => EventsView::Trade(v@),
            Events::OpenInterest(v) => EventsView::OpenInterest(v@),
            Events::Depth(v) => EventsView::Depth(v@),
            Events::Kline(v) => EventsView::Kline(v@),
            Events::Unrecognized(j) => EventsView::Unrecognized(*j),
        }
    }
}

/// A decoded shape, or the error of decoding it, as an event.
pub open spec fn as_event<V>(r: Result<V, DecodeError>, wrap: spec_fn(V) -> EventsView) -> Result<
    EventsView,
    DecodeError,
> {
    match r {
        Ok(v) => Ok(wrap(v)),
        Err(e) => Err(e),
    }
}

impl Events {
    /// What the message `j` decodes to as a message of the kind `kind`.
    /// A liquidation order stands in the field `o` of its message and a
    /// candle in the field `k`; the other shapes are the message itself.
    pub open spec fn decoded_as(kind: EventKind, j: Json) -> Result<EventsView, DecodeError> {
        match kind {
            EventKind::AccountUpdate => as_event(
                AccountUpdateEvent::decoded(j),
                |v: AccountUpdateEventView| EventsView::AccountUpdate(v),
            ),
            EventKind::OrderUpdate => as_event(
                OrderUpdateEvent::decoded(j),
                |v: OrderUpdateEventView| EventsView::OrderUpdate(v),
            ),
            EventKind::MarkPrice => as_event(
                MarkPrice::decoded(j, Wire::Stream),
                |v: MarkPriceView| EventsView::MarkPrice(v),
            ),
            EventKind::Liquidation => as_event(
                nested_in(j.member("o"@), |v: Json| LiquidationOrder::decoded(v, Wire::Stream)),
                |v: LiquidationOrderView| EventsView::Liquidation(v),
            ),
            EventKind::AggTrade => as_event(
                AggTrade::decoded(j),
                |v: AggTradeView| EventsView::AggTrade(v),
            ),
            EventKind::Trade => as_event(
                Trade::decoded(j, Wire::Stream),
                |v: TradeView| EventsView::Trade(v),
            ),
            EventKind::OpenInterest => as_event(
                OpenInterest::decoded(j, Wire::Stream),
                |v: OpenInterestView| EventsView::OpenInterest(v),
            ),
            EventKind::Depth => as_event(
                OrderBook::decoded(j, Wire::Stream),
                |v: OrderBookView| EventsView::Depth(v),
            ),
            EventKind::Kline => as_event(
                nested_in(j.member("k"@), |v: Json| KlineSummary::decoded(v)),
                |v: KlineSummaryView| EventsView::Kline(v),
            ),
        }
    }

    /// What the message `j` decodes to. It must be an object with a string
    /// in its field `e`, the tag. A registered tag selects the shape that
    /// the message is decoded into; any other tag gives the message back
    /// whole, which is no error.
    pub open spec fn dispatched(j: Json) -> Result<EventsView, DecodeError> {
        let tag = text_in(j.member("e"@));
        if !(j is Object) {
            Err(DecodeError::TypeMismatch)
        } else if tag is Err {
            Err(tag->Err_0)
        } else {
            match EventKind::of_token(tag->Ok_0) {
                Some(kind) => Events::decoded_as(kind, j),
                None => Ok(EventsView::Unrecognized(j)),
            }
        }
    }

    /// Decodes the message `j` as a message of the kind `kind`.
    pub fn decode_as(kind: EventKind, j: &Json) -> (r: Result<Events, DecodeError>)
        ensures
            viewed(r) == Events::decoded_as(kind, *j),
    {
        match kind {
            EventKind::AccountUpdate => Ok(
                Events::AccountUpdate(AccountUpdateEvent::from_json(j)?),
            ),
            EventKind::OrderUpdate => Ok(Events::OrderUpdate(OrderUpdateEvent::from_json(j)?)),
            EventKind::MarkPrice => Ok(Events::MarkPrice(MarkPrice::from_json(j, Wire::Stream)?)),
            EventKind::Liquidation => Ok(
                Events::Liquidation(
                    LiquidationOrder::from_json(required_member(j, "o")?, Wire::Stream)?,
                ),
            ),
            EventKind::AggTrade => Ok(Events::AggTrade(AggTrade::from_json(j)?)),
            EventKind::Trade => Ok(Events::Trade(Trade::from_json(j, Wire::Stream)?)),
            EventKind::OpenInterest => Ok(
                Events::OpenInterest(OpenInterest::from_json(j, Wire::Stream)?),
            ),
            EventKind::Depth => Ok(Events::Depth(OrderBook::from_json(j, Wire::Stream)?)),
            EventKind::Kline => Ok(
                Events::Kline(KlineSummary::from_json(required_member(j, "k")?)?),
            ),
        }
    }

    /// Routes the message `j` by its tag and decodes it.
    pub fn dispatch(j: Json) -> (r: Result<Events, DecodeError>)
        ensures
            viewed(r) == Events::dispatched(j),
    {
        if !j.is_object() {
            return Err(DecodeError::TypeMismatch);
        }
        let tag = required_text(&j, "e")?;
        match EventKind::lookup(tag.as_str()) {
            Some(kind) => Events::decode_as(kind, &j),
            None => Ok(Events::Unrecognized(j)),
        }
    }

    /// Reads one pushed message from its text and decodes it. Nothing is
    /// kept from one message to the next. A message that is kept whole comes
    /// back as `Json::parse` reads it: the members of an object sorted by
    /// name, and of members with one name the last.
    pub fn decode(text: &str) -> (r: Result<Events, DecodeError>)
        ensures
            viewed(r) == read_as(text@, |j: Json| Events::dispatched(j)),
    {
        match Json::parse(text) {
            Ok(j) => Events::dispatch(j),
            Err(e) => Err(e),
        }
    }

    /// A message with a tag that stands for no registered kind decodes to
    /// itself, whatever else it holds.
    pub proof fn lemma_unknown_tag_is_kept(j: Json, tag: Seq<char>)
        requires
            j is Object,
            text_in(j.member("e"@)) == Ok::<Seq<char>, DecodeError>(tag),
            EventKind::of_token(tag) is None,
        ensures
            Events::dispatched(j) == Ok::<EventsView, DecodeError>(EventsView::Unrecognized(j)),
    {
    }
}

} // verus!
