//! The pushed message that reports a change of balances and positions.

use crate::codec::{
    array_of, decode_each, list_in, nested_in, required_member, required_text, required_u64,
    text_in, u64_in, viewed, viewed_each, views,
};
use crate::error::DecodeError;
use crate::json::{read_as, Json};
use crate::text::same_text;
use vstd::prelude::*;

verus! {

/// Why the account changed.
#[derive(Debug, Clone, Copy, PartialEq, Eq)]
pub enum AccountUpdateReason {
    Deposit,
    Withdraw,
    Order,
    FundingFee,
    WithdrawReject,
    Adjustment,
    InsuranceClear,
    AdminDeposit,
    AdminWithdraw,
    MarginTransfer,
    MarginTypeChange,
    AssetTransfer,
    OptionsPremiumFee,
    OptionsSettleProfit,
    AutoExchange,
}

impl AccountUpdateReason {
    /// The token that stands for this value in a message.
    pub open spec fn token(self) -> Seq<char> {
        match self {
            AccountUpdateReason::Deposit => "DEPOSIT"@,
            AccountUpdateReason::Withdraw => "WITHDRAW"@,
            AccountUpdateReason::Order => "ORDER"@,
            AccountUpdateReason::FundingFee => "FUNDING_FEE"@,
            AccountUpdateReason::WithdrawReject => "WITHDRAW_REJECT"@,
            AccountUpdateReason::Adjustment => "ADJUSTMENT"@,
            AccountUpdateReason::InsuranceClear => "INSURANCE_CLEAR"@,
            AccountUpdateReason::AdminDeposit => "ADMIN_DEPOSIT"@,
            AccountUpdateReason::AdminWithdraw => "ADMIN_WITHDRAW"@,
            AccountUpdateReason::MarginTransfer => "MARGIN_TRANSFER"@,
            AccountUpdateReason::MarginTypeChange => "MARGIN_TYPE_CHANGE"@,
            AccountUpdateReason::AssetTransfer => "ASSET_TRANSFER"@,
            AccountUpdateReason::OptionsPremiumFee => "OPTIONS_PREMIUM_FEE"@,
            AccountUpdateReason::OptionsSettleProfit => "OPTIONS_SETTLE_PROFIT"@,
            AccountUpdateReason::AutoExchange => "AUTO_EXCHANGE"@,
        }
    }

    /// The value that the token `t` stands for, if it stands for one.
    pub open spec fn of_token(t: Seq<char>) -> Option<AccountUpdateReason> {
        if t == "DEPOSIT"@ {
            Some(AccountUpdateReason::Deposit)
        } else if t == "WITHDRAW"@ {
            Some(AccountUpdateReason::Withdraw)
        } else if t == "ORDER"@ {
            Some(AccountUpdateReason::Order)
        } else if t == "FUNDING_FEE"@ {
            Some(AccountUpdateReason::FundingFee)
        } else if t == "WITHDRAW_REJECT"@ {
            Some(AccountUpdateReason::WithdrawReject)
        } else if t == "ADJUSTMENT"@ {
            Some(AccountUpdateReason::Adjustment)
        } else if t == "INSURANCE_CLEAR"@ {
            Some(AccountUpdateReason::InsuranceClear)
        } else if t == "ADMIN_DEPOSIT"@ {
            Some(AccountUpdateReason::AdminDeposit)
        } else if t == "ADMIN_WITHDRAW"@ {
            Some(AccountUpdateReason::AdminWithdraw)
        } else if t == "MARGIN_TRANSFER"@ {
            Some(AccountUpdateReason::MarginTransfer)
        } else if t == "MARGIN_TYPE_CHANGE"@ {
            Some(AccountUpdateReason::MarginTypeChange)
        } else if t == "ASSET_TRANSFER"@ {
            Some(AccountUpdateReason::AssetTransfer)
        } else if t == "OPTIONS_PREMIUM_FEE"@ {
            Some(AccountUpdateReason::OptionsPremiumFee)
        } else if t == "OPTIONS_SETTLE_PROFIT"@ {
            Some(AccountUpdateReason::OptionsSettleProfit)
        } else if t == "AUTO_EXCHANGE"@ {
            Some(AccountUpdateReason::AutoExchange)
        } else {
            None
        }
    }

    /// The reason that a field holds: the field must be there and hold a string,
    /// and the string must be one of the tokens.
    pub open spec fn in_field(j: Option<Json>) -> Result<AccountUpdateReason, DecodeError> {
        match j {
            None => Err(DecodeError::MissingRequiredField),
            Some(Json::Text(s)) => match AccountUpdateReason::of_token(s@) {
                Some(v) => Ok(v),
                None => Err(DecodeError::UnknownEnumValue),
            },
            Some(_) => Err(DecodeError::TypeMismatch),
        }
    }

    /// The token that stands for this value in a message.
    pub fn name(self) -> (r: &'static str)
        ensures
            r@ == self.token(),
    {
        match self {
            AccountUpdateReason::Deposit => "DEPOSIT",
            AccountUpdateReason::Withdraw => "WITHDRAW",
            AccountUpdateReason::Order => "ORDER",
            AccountUpdateReason::FundingFee => "FUNDING_FEE",
            AccountUpdateReason::WithdrawReject => "WITHDRAW_REJECT",
            AccountUpdateReason::Adjustment => "ADJUSTMENT",
            AccountUpdateReason::InsuranceClear => "INSURANCE_CLEAR",
            AccountUpdateReason::AdminDeposit => "ADMIN_DEPOSIT",
            AccountUpdateReason::AdminWithdraw => "ADMIN_WITHDRAW",
            AccountUpdateReason::MarginTransfer => "MARGIN_TRANSFER",
            AccountUpdateReason::MarginTypeChange => "MARGIN_TYPE_CHANGE",
            AccountUpdateReason::AssetTransfer => "ASSET_TRANSFER",
            AccountUpdateReason::OptionsPremiumFee => "OPTIONS_PREMIUM_FEE",
            AccountUpdateReason::OptionsSettleProfit => "OPTIONS_SETTLE_PROFIT",
            AccountUpdateReason::AutoExchange => "AUTO_EXCHANGE",
        }
    }

    /// Reads the value that the token `text` stands for.
    pub fn from_token(text: &str) -> (r: Result<AccountUpdateReason, DecodeError>)
        ensures
            r == match AccountUpdateReason::of_token(text@) {
                Some(v) => Ok::<AccountUpdateReason, DecodeError>(v),
                None => Err(DecodeError::UnknownEnumValue),
            },
    {
        if same_text(text, "DEPOSIT") {
            Ok(AccountUpdateReason::Deposit)
        } else if same_text(text, "WITHDRAW") {
            Ok(AccountUpdateReason::Withdraw)
        } else if same_text(text, "ORDER") {
            Ok(AccountUpdateReason::Order)
        } else if same_text(text, "FUNDING_FEE") {
            Ok(AccountUpdateReason::FundingFee)
        } else if same_text(text, "WITHDRAW_REJECT") {
            Ok(AccountUpdateReason::WithdrawReject)
        } else if same_text(text, "ADJUSTMENT") {
            Ok(AccountUpdateReason::Adjustment)
        } else if same_text(text, "INSURANCE_CLEAR") {
            Ok(AccountUpdateReason::InsuranceClear)
        } else if same_text(text, "ADMIN_DEPOSIT") {
            Ok(AccountUpdateReason::AdminDeposit)
        } else if same_text(text, "ADMIN_WITHDRAW") {
            Ok(AccountUpdateReason::AdminWithdraw)
        } else if same_text(text, "MARGIN_TRANSFER") {
            Ok(AccountUpdateReason::MarginTransfer)
        } else if same_text(text, "MARGIN_TYPE_CHANGE") {
            Ok(AccountUpdateReason::MarginTypeChange)
        } else if same_text(text, "ASSET_TRANSFER") {
            Ok(AccountUpdateReason::AssetTransfer)
        } else if same_text(text, "OPTIONS_PREMIUM_FEE") {
            Ok(AccountUpdateReason::OptionsPremiumFee)
        } else if same_text(text, "OPTIONS_SETTLE_PROFIT") {
            Ok(AccountUpdateReason::OptionsSettleProfit)
        } else if same_text(text, "AUTO_EXCHANGE") {
            Ok(AccountUpdateReason::AutoExchange)
        } else {
            Err(DecodeError::UnknownEnumValue)
        }
    }

    /// Each reason is read back from its own token.
    pub proof fn lemma_token_round_trip(reason: AccountUpdateReason)
        ensures
            AccountUpdateReason::of_token(reason.token()) == Some(reason),
    {
        reveal_strlit("DEPOSIT");
        reveal_strlit("WITHDRAW");
        reveal_strlit("ORDER");
        reveal_strlit("FUNDING_FEE");
        reveal_strlit("WITHDRAW_REJECT");
        reveal_strlit("ADJUSTMENT");
        reveal_strlit("INSURANCE_CLEAR");
        reveal_strlit("ADMIN_DEPOSIT");
        reveal_strlit("ADMIN_WITHDRAW");
        reveal_strlit("MARGIN_TRANSFER");
        reveal_strlit("MARGIN_TYPE_CHANGE");
        reveal_strlit("ASSET_TRANSFER");
        reveal_strlit("OPTIONS_PREMIUM_FEE");
        reveal_strlit("OPTIONS_SETTLE_PROFIT");
        reveal_strlit("AUTO_EXCHANGE");
        assert("DEPOSIT"@.len() == 7 && "WITHDRAW"@.len() == 8 && "ORDER"@.len() == 5);
        assert("FUNDING_FEE"@.len() == 11 && "ADJUSTMENT"@.len() == 10);
        assert("MARGIN_TYPE_CHANGE"@.len() == 18 && "OPTIONS_PREMIUM_FEE"@.len() == 19);
        assert("OPTIONS_SETTLE_PROFIT"@.len() == 21);
        assert("WITHDRAW_REJECT"@.len() == 15 && "WITHDRAW_REJECT"@[0] == 'W');
        assert("INSURANCE_CLEAR"@.len() == 15 && "INSURANCE_CLEAR"@[0] == 'I');
        assert("MARGIN_TRANSFER"@.len() == 15 && "MARGIN_TRANSFER"@[0] == 'M');
        assert("ADMIN_WITHDRAW"@.len() == 14 && "ADMIN_WITHDRAW"@[1] == 'D');
        assert("ASSET_TRANSFER"@.len() == 14 && "ASSET_TRANSFER"@[1] == 'S');
        assert("ADMIN_DEPOSIT"@.len() == 13 && "ADMIN_DEPOSIT"@[1] == 'D');
        assert("AUTO_EXCHANGE"@.len() == 13 && "AUTO_EXCHANGE"@[1] == 'U');
    }

    /// Reads the value of the field `key` of `j`, which must be there.
    pub fn from_field(j: &Json, key: &str) -> (r: Result<AccountUpdateReason, DecodeError>)
        ensures
            r == AccountUpdateReason::in_field(j.member(key@)),
    {
        match j.get(key) {
            None => Err(DecodeError::MissingRequiredField),
            Some(Json::Text(s)) => AccountUpdateReason::from_token(s.as_str()),
            Some(_) => Err(DecodeError::TypeMismatch),
        }
    }
}

/// The change of the balance of one asset.
#[derive(Debug, Clone, PartialEq)]
pub struct AccountBalanceUpdate {
    pub asset: String,
    /// The wallet balance.
    pub balance: String,
    /// The cross wallet balance.
    pub cross_balance: String,
    /// The change of the balance, fees left out.
    pub balance_change: String,
}

/// What an `AccountBalanceUpdate` holds, as mathematical values.
pub struct AccountBalanceUpdateView {
    pub asset: Seq<char>,
    pub balance: Seq<char>,
    pub cross_balance: Seq<char>,
    pub balance_change: Seq<char>,
}

impl View for AccountBalanceUpdate {
    type V = AccountBalanceUpdateView;

    open spec fn view(&self) -> AccountBalanceUpdateView {
        AccountBalanceUpdateView {
            asset: self.asset@,
            balance: self.balance@,
            cross_balance: self.cross_balance@,
            balance_change: self.balance_change@,
        }
    }
}

impl AccountBalanceUpdate {
    /// What the object `j` decodes to: the fields are read in the order
    /// in which they are listed, and the first that fails gives the error.
    pub open spec fn decoded(j: Json) -> Result<AccountBalanceUpdateView, DecodeError> {
        let asset = text_in(j.member("a"@));
        let balance = text_in(j.member("wb"@));
        let cross_balance = text_in(j.member("cw"@));
        let balance_change = text_in(j.member("bc"@));
        if !(j is Object) {
            Err(DecodeError::TypeMismatch)
        } else if asset is Err {
            Err(asset->Err_0)
        } else if balance is Err {
            Err(balance->Err_0)
        } else if cross_balance is Err {
            Err(cross_balance->Err_0)
        } else if balance_change is Err {
            Err(balance_change->Err_0)
        } else {
            Ok(
                AccountBalanceUpdateView {
                    asset: asset->Ok_0,
                    balance: balance->Ok_0,
                    cross_balance: cross_balance->Ok_0,
                    balance_change: balance_change->Ok_0,
                },
            )
        }
    }

    /// A field that the shape does not name is ignored: with it the message
    /// decodes to what it decodes to without it.
    pub proof fn lemma_unnamed_field_is_ignored(j: Json, more: Json, at: int, extra: (String, Json))
        requires
            more.extends(j, at, extra),
            extra.0@ != "a"@,
            extra.0@ != "wb"@,
            extra.0@ != "cw"@,
            extra.0@ != "bc"@,
        ensures
            AccountBalanceUpdate::decoded(more) == AccountBalanceUpdate::decoded(j),
    {
        more.lemma_member_ignores_other_names(j, at, extra, "a"@);
        more.lemma_member_ignores_other_names(j, at, extra, "wb"@);
        more.lemma_member_ignores_other_names(j, at, extra, "cw"@);
        more.lemma_member_ignores_other_names(j, at, extra, "bc"@);
    }

    /// Decodes the object `j`.
    pub fn from_json(j: &Json) -> (r: Result<AccountBalanceUpdate, DecodeError>)
        ensures
            viewed(r) == AccountBalanceUpdate::decoded(*j),
    {
        if !j.is_object() {
            return Err(DecodeError::TypeMismatch);
        }
        let asset = required_text(j, "a")?;
        let balance = required_text(j, "wb")?;
        let cross_balance = required_text(j, "cw")?;
        let balance_change = required_text(j, "bc")?;
        Ok(AccountBalanceUpdate { asset, balance, cross_balance, balance_change })
    }

    /// Decodes the array `j`, element by element.
    pub fn list_from(j: &Json) -> (r: Result<Vec<AccountBalanceUpdate>, DecodeError>)
        ensures
            viewed_each(r) == array_of(*j, |v: Json| AccountBalanceUpdate::decoded(v)),
    {
        match j {
            Json::Array(items) => decode_each(
                items,
                AccountBalanceUpdate::from_json,
                Ghost(|v: Json| AccountBalanceUpdate::decoded(v)),
            ),
            _ => Err(DecodeError::TypeMismatch),
        }
    }
}

/// The state of one position.
#[derive(Debug, Clone, PartialEq)]
pub struct AccountPositionUpdate {
    pub symbol: String,
    pub position_amount: String,
    pub entry_price: String,
    /// The realized profit before fees, summed up.
    pub accumulated_realized: String,
    /// The unrealized profit.
    pub unrealized: String,
    pub margin_type: String,
    pub isolated_wallet: String,
    pub position_side: String,
}

/// What an `AccountPositionUpdate` holds, as mathematical values.
pub struct AccountPositionUpdateView {
    pub symbol: Seq<char>,
    pub position_amount: Seq<char>,
    pub entry_price: Seq<char>,
    pub accumulated_realized: Seq<char>,
    pub unrealized: Seq<char>,
    pub margin_type: Seq<char>,
    pub isolated_wallet: Seq<char>,
    pub position_side: Seq<char>,
}

impl View for AccountPositionUpdate {
    type V = AccountPositionUpdateView;

    open spec fn view(&self) -> AccountPositionUpdateView {
        AccountPositionUpdateView {
            symbol: self.symbol@,
            position_amount: self.position_amount@,
            entry_price: self.entry_price@,
            accumulated_realized: self.accumulated_realized@,
            unrealized: self.unrealized@,
            margin_type: self.margin_type@,
            isolated_wallet: self.isolated_wallet@,
            position_side: self.position_side@,
        }
    }
}

impl AccountPositionUpdate {
    /// What the object `j` decodes to: the fields are read in the order
    /// in which they are listed, and the first that fails gives the error.
    pub open spec fn decoded(j: Json) -> Result<AccountPositionUpdateView, DecodeError> {
        let symbol = text_in(j.member("s"@));
        let position_amount = text_in(j.member("pa"@));
        let entry_price = text_in(j.member("ep"@));
        let accumulated_realized = text_in(j.member("cr"@));
        let unrealized = text_in(j.member("up"@));
        let margin_type = text_in(j.member("mt"@));
        let isolated_wallet = text_in(j.member("iw"@));
        let position_side = text_in(j.member("ps"@));
        if !(j is Object) {
            Err(DecodeError::TypeMismatch)
        } else if symbol is Err {
            Err(symbol->Err_0)
        } else if position_amount is Err {
            Err(position_amount->Err_0)
        } else if entry_price is Err {
            Err(entry_price->Err_0)
        } else if accumulated_realized is Err {
            Err(accumulated_realized->Err_0)
        } else if unrealized is Err {
            Err(unrealized->Err_0)
        } else if margin_type is Err {
            Err(margin_type->Err_0)
        } else if isolated_wallet is Err {
            Err(isolated_wallet->Err_0)
        } else if position_side is Err {
            Err(position_side->Err_0)
        } else {
            Ok(
                AccountPositionUpdateView {
                    symbol: symbol->Ok_0,
                    position_amount: position_amount->Ok_0,
                    entry_price: entry_price->Ok_0,
                    accumulated_realized: accumulated_realized->Ok_0,
                    unrealized: unrealized->Ok_0,
                    margin_type: margin_type->Ok_0,
                    isolated_wallet: isolated_wallet->Ok_0,
                    position_side: position_side->Ok_0,
                },
            )
        }
    }

    /// Decodes the object `j`.
    pub fn from_json(j: &Json) -> (r: Result<AccountPositionUpdate, DecodeError>)
        ensures
            viewed(r) == AccountPositionUpdate::decoded(*j),
    {
        if !j.is_object() {
            return Err(DecodeError::TypeMismatch);
        }
        let symbol = required_text(j, "s")?;
        let position_amount = required_text(j, "pa")?;
        let entry_price = required_text(j, "ep")?;
        let accumulated_realized = required_text(j, "cr")?;
        let unrealized = required_text(j, "up")?;
        let margin_type = required_text(j, "mt")?;
        let isolated_wallet = required_text(j, "iw")?;
        let position_side = required_text(j, "ps")?;
        Ok(
            AccountPositionUpdate {
                symbol,
                position_amount,
                entry_price,
                accumulated_realized,
                unrealized,
                margin_type,
                isolated_wallet,
                position_side,
            },
        )
    }

    /// Decodes the array `j`, element by element.
    pub fn list_from(j: &Json) -> (r: Result<Vec<AccountPositionUpdate>, DecodeError>)
        ensures
            viewed_each(r) == array_of(*j, |v: Json| AccountPositionUpdate::decoded(v)),
    {
        match j {
            Json::Array(items) => decode_each(
                items,
                AccountPositionUpdate::from_json,
                Ghost(|v: Json| AccountPositionUpdate::decoded(v)),
            ),
            _ => Err(DecodeError::TypeMismatch),
        }
    }
}

/// What an account update reports: the balances and positions that changed,
/// in the order of the message.
#[derive(Debug, Clone, PartialEq)]
pub struct AccountUpdateData {
    pub reason: AccountUpdateReason,
    pub balance_updates: Vec<AccountBalanceUpdate>,
    pub position: Vec<AccountPositionUpdate>,
}

/// What an `AccountUpdateData` holds, as mathematical values.
pub struct AccountUpdateDataView {
    pub reason: AccountUpdateReason,
    pub balance_updates: Seq<AccountBalanceUpdateView>,
    pub position: Seq<AccountPositionUpdateView>,
}

impl View for AccountUpdateData {
    type V = AccountUpdateDataView;

    open spec fn view(&self) -> AccountUpdateDataView {
        AccountUpdateDataView {
            reason: self.reason,
            balance_updates: views(self.balance_updates@),
            position: views(self.position@),
        }
    }
}

impl AccountUpdateData {
    /// What the object `j` decodes to: the fields are read in the order
    /// in which they are listed, and the first that fails gives the error.
    pub open spec fn decoded(j: Json) -> Result<AccountUpdateDataView, DecodeError> {
        let reason = AccountUpdateReason::in_field(j.member("m"@));
        let balance_updates = list_in(j.member("B"@), |v: Json| AccountBalanceUpdate::decoded(v));
        let position = list_in(j.member("P"@), |v: Json| AccountPositionUpdate::decoded(v));
        if !(j is Object) {
            Err(DecodeError::TypeMismatch)
        } else if reason is Err {
            Err(reason->Err_0)
        } else if balance_updates is Err {
            Err(balance_updates->Err_0)
        } else if position is Err {
            Err(position->Err_0)
        } else {
            Ok(
                AccountUpdateDataView {
                    reason: reason->Ok_0,
                    balance_updates: balance_updates->Ok_0,
                    position: position->Ok_0,
                },
            )
        }
    }

    /// Decodes the object `j`.
    pub fn from_json(j: &Json) -> (r: Result<AccountUpdateData, DecodeError>)
        ensures
            viewed(r) == AccountUpdateData::decoded(*j),
    {
        if !j.is_object() {
            return Err(DecodeError::TypeMismatch);
        }
        let reason = AccountUpdateReason::from_field(j, "m")?;
        let balance_updates = AccountBalanceUpdate::list_from(required_member(j, "B")?)?;
        let position = AccountPositionUpdate::list_from(required_member(j, "P")?)?;
        Ok(AccountUpdateData { reason, balance_updates, position })
    }
}

/// A pushed message that reports a change of balances or positions.
#[derive(Debug, Clone, PartialEq)]
pub struct AccountUpdateEvent {
    pub event_type: String,
    pub event_time: u64,
    /// The time of the transaction.
    pub transaction: u64,
    pub data: AccountUpdateData,
}

/// What an `AccountUpdateEvent` holds, as mathematical values.
pub struct AccountUpdateEventView {
    pub event_type: Seq<char>,
    pub event_time: u64,
    pub transaction: u64,
    pub data: AccountUpdateDataView,
}

impl View for AccountUpdateEvent {
    type V = AccountUpdateEventView;

    open spec fn view(&self) -> AccountUpdateEventView {
        AccountUpdateEventView {
            event_type: self.event_type@,
            event_time: self.event_time,
            transaction: self.transaction,
            data: self.data@,
        }
    }
}

impl AccountUpdateEvent {
    /// What the object `j` decodes to: the fields are read in the order
    /// in which they are listed, and the first that fails gives the error.
    pub open spec fn decoded(j: Json) -> Result<AccountUpdateEventView, DecodeError> {
        let event_type = text_in(j.member("e"@));
        let event_time = u64_in(j.member("E"@));
        let transaction = u64_in(j.member("T"@));
        let data = nested_in(j.member("a"@), |v: Json| AccountUpdateData::decoded(v));
        if !(j is Object) {
            Err(DecodeError::TypeMismatch)
        } else if event_type is Err {
            Err(event_type->Err_0)
        } else if event_time is Err {
            Err(event_time->Err_0)
        } else if transaction is Err {
            Err(transaction->Err_0)
        } else if data is Err {
            Err(data->Err_0)
        } else {
            Ok(
                AccountUpdateEventView {
                    event_type: event_type->Ok_0,
                    event_time: event_time->Ok_0,
                    transaction: transaction->Ok_0,
                    data: data->Ok_0,
                },
            )
        }
    }

    /// A field that the message does not name at its top is ignored: with it
    /// the message decodes to what it decodes to without it.
    pub proof fn lemma_unnamed_field_is_ignored(j: Json, more: Json, at: int, extra: (String, Json))
        requires
            more.extends(j, at, extra),
            extra.0@ != "e"@,
            extra.0@ != "E"@,
            extra.0@ != "T"@,
            extra.0@ != "a"@,
        ensures
            AccountUpdateEvent::decoded(more) == AccountUpdateEvent::decoded(j),
    {
        more.lemma_member_ignores_other_names(j, at, extra, "e"@);
        more.lemma_member_ignores_other_names(j, at, extra, "E"@);
        more.lemma_member_ignores_other_names(j, at, extra, "T"@);
        more.lemma_member_ignores_other_names(j, at, extra, "a"@);
    }

    /// Decodes the object `j`.
    pub fn from_json(j: &Json) -> (r: Result<AccountUpdateEvent, DecodeError>)
        ensures
            viewed(r) == AccountUpdateEvent::decoded(*j),
    {
        if !j.is_object() {
            return Err(DecodeError::TypeMismatch);
        }
        let event_type = required_text(j, "e")?;
        let event_time = required_u64(j, "E")?;
        let transaction = required_u64(j, "T")?;
        let data = AccountUpdateData::from_json(required_member(j, "a")?)?;
        Ok(AccountUpdateEvent { event_type, event_time, transaction, data })
    }

    /// Reads the message from its text and decodes it.
    pub fn from_text(text: &str) -> (r: Result<AccountUpdateEvent, DecodeError>)
        ensures
            viewed(r) == read_as(text@, |j: Json| AccountUpdateEvent::decoded(j)),
    {
        match Json::parse(text) {
            Ok(j) => AccountUpdateEvent::from_json(&j),
            Err(e) => Err(e),
        }
    }
}

} // verus!
