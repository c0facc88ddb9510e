//! The messages of the derivatives segment.

pub mod account_update;
pub mod exchange;
pub mod market;
pub mod order_update;
pub mod orders;

pub use crate::model::{Asks, Bids, Filters, KlineSummaries, KlineSummary, RateLimit};
pub use account_update::{
    AccountBalanceUpdate, AccountPositionUpdate, AccountUpdateData, AccountUpdateEvent,
    AccountUpdateReason,
};
pub use exchange::{ExchangeInformation, Symbol};
pub use market::{
    AggTrade, AggTrades, LiquidationOrder, LiquidationOrders, MarkPrice, MarkPrices, OpenInterest,
    OrderBook, PriceStats, Trade, Trades,
};
pub use order_update::{OrderUpdateData, OrderUpdateEvent, OrderUpdateSide};
pub use orders::{ChangeLeverageResponse, Order, Transaction};
