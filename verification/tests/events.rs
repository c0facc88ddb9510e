use exchange_feed::codec::{decode, Wire};
use exchange_feed::decimal::Decimal;
use exchange_feed::error::DecodeError;
use exchange_feed::futures::model::{
    AccountUpdateEvent, AccountUpdateReason, AggTrade, KlineSummary, LiquidationOrder, MarkPrice,
    OpenInterest, OrderBook, OrderUpdateData, OrderUpdateEvent, OrderUpdateSide, Trade,
};
use exchange_feed::json::Json;
use exchange_feed::websockets::{EventKind, Events};

fn dec(s: &str) -> Decimal {
    Decimal::parse(s).unwrap()
}

const TRAILING: &str = r#"{ "e":"ORDER_TRADE_UPDATE", "E":1568879465651, "T":1568879465650,
  "o":{ "s":"BTCUSDT", "c":"TEST", "S":"SELL", "o":"TRAILING_STOP_MARKET", "f":"GTC", "q":"0.001",
    "p":"0", "ap":"0", "sp":"7103.04", "x":"NEW", "X":"NEW", "i":8886774, "l":"0", "z":"0", "L":"0",
    "N":"USDT", "n":"0", "T":1568879465651, "t":0, "b":"0", "a":"9.91", "m":false, "R":false,
    "wt":"CONTRACT_PRICE", "ot":"TRAILING_STOP_MARKET", "ps":"LONG", "cp":false, "AP":"7476.89",
    "cr":"5.0", "rp":"0" } }"#;

const FILLED: &str = r#"{"e":"ORDER_TRADE_UPDATE","T":1622143071600,"E":1622143071605,"o":{"s":"GRTUSDT","c":"web_TF7zjup9BmWWFluoSz6M","S":"BUY","o":"MARKET","f":"GTC","q":"10","p":"0","ap":"0.76867","sp":"0","x":"TRADE","X":"FILLED","i":1697440152,"l":"10","z":"10","L":"0.76867","n":"0.00307468","N":"USDT","T":1622143071600,"t":69281933,"b":"0","a":"0","m":false,"R":false,"wt":"CONTRACT_PRICE","ot":"MARKET","ps":"BOTH","cp":false,"rp":"0","pP":false,"si":0,"ss":0}}"#;

const CANCELED: &str = r#"{"e":"ORDER_TRADE_UPDATE","T":1622142325683,"E":1622142325687,"o":{"s":"DOTUSDT","c":"web_2F1nPfgmy53m5J4Hh9of","S":"BUY","o":"LIMIT","f":"GTC","q":"198.6","p":"23","ap":"0","sp":"0","x":"CANCELED","X":"CANCELED","i":5595810084,"l":"0","z":"0","L":"0","T":1622142325683,"t":0,"b":"0","a":"0","m":false,"R":false,"wt":"CONTRACT_PRICE","ot":"LIMIT","ps":"BOTH","cp":false,"rp":"0","pP":false,"si":0,"ss":0}}"#;

fn order_with(field: &str, value: &str) -> String {
    let mut doc = match Json::parse(CANCELED).unwrap() {
        Json::Object(entries) => entries,
        _ => unreachable!(),
    };
    for entry in doc.iter_mut() {
        if entry.0 == "o" {
            if let Json::Object(inner) = &mut entry.1 {
                inner.retain(|e| e.0 != field);
                if value != "" {
                    inner.push((field.to_string(), Json::parse(value).unwrap()));
                }
            }
        }
    }
    render(&Json::Object(doc))
}

fn render(j: &Json) -> String {
    match j {
        Json::Null => "null".to_string(),
        Json::Bool(b) => format!("{}", b),
        Json::Number(n) => n.clone(),
        Json::Text(s) => format!("{:?}", s),
        Json::Array(items) => {
            let parts: Vec<String> = items.iter().map(render).collect();
            format!("[{}]", parts.join(","))
        }
        Json::Object(entries) => {
            let parts: Vec<String> =
                entries.iter().map(|(k, v)| format!("{:?}:{}", k, render(v))).collect();
            format!("{{{}}}", parts.join(","))
        }
    }
}

#[test]
fn trailing_stop_update_end_to_end() {
    let event = OrderUpdateEvent::from_text(TRAILING).unwrap();
    assert_eq!(event.data.symbol, "BTCUSDT");
    assert_eq!(event.data.side, OrderUpdateSide::Sell);
    assert_eq!(event.data.status, "NEW");
    assert_eq!(event.data.order_id, 8886774);
    assert_eq!(event.data.activation_price, Some("7476.89".to_string()));
    assert_eq!(event.data.callback_rate, Some("5.0".to_string()));
    let activation = Decimal::parse(event.data.activation_price.as_ref().unwrap()).unwrap();
    let callback = Decimal::parse(event.data.callback_rate.as_ref().unwrap()).unwrap();
    assert_eq!(activation.encode(), "7476.89");
    assert_eq!(callback, dec("5"));
    assert_eq!(Events::decode(TRAILING), Ok(Events::OrderUpdate(event)));
}

#[test]
fn commission_is_absent_unless_filled() {
    let canceled = OrderUpdateEvent::from_text(CANCELED).unwrap();
    assert_eq!(canceled.data.commission, None);
    assert_eq!(canceled.data.commission_asset, None);
    let filled = OrderUpdateEvent::from_text(FILLED).unwrap();
    assert_eq!(filled.data.commission_asset, Some("USDT".to_string()));
    assert_eq!(filled.data.commission, Some("0.00307468".to_string()));
    assert_eq!(Decimal::parse(filled.data.commission.as_ref().unwrap()), Ok(dec("0.00307468")));
    let null = OrderUpdateEvent::from_text(&order_with("n", "null")).unwrap();
    assert_eq!(null.data.commission, None);
}

#[test]
fn side_is_strict() {
    assert_eq!(
        OrderUpdateEvent::from_text(&order_with("S", "\"SIDEWAYS\"")),
        Err(DecodeError::UnknownEnumValue)
    );
    assert_eq!(
        OrderUpdateEvent::from_text(&order_with("S", "\"SELL\"")).unwrap().data.side,
        OrderUpdateSide::Sell
    );
    assert_eq!(OrderUpdateSide::from_token("SIDEWAYS"), Err(DecodeError::UnknownEnumValue));
    assert_eq!(OrderUpdateSide::from_token("sell"), Err(DecodeError::UnknownEnumValue));
    assert_eq!(OrderUpdateSide::from_token("SELL"), Ok(OrderUpdateSide::Sell));
    assert_eq!(OrderUpdateSide::from_token("BUY"), Ok(OrderUpdateSide::Buy));
    assert_eq!(OrderUpdateSide::Buy.name(), "BUY");
    assert_eq!(OrderUpdateSide::Sell.name(), "SELL");
    assert_eq!(
        OrderUpdateEvent::from_text(&order_with("S", "1")),
        Err(DecodeError::TypeMismatch)
    );
    assert_eq!(
        OrderUpdateEvent::from_text(&order_with("S", "")),
        Err(DecodeError::MissingRequiredField)
    );
}

#[test]
fn status_is_strict() {
    assert_eq!(
        OrderUpdateEvent::from_text(&order_with("X", "\"PAUSED\"")),
        Err(DecodeError::UnknownEnumValue)
    );
    for status in [
        "NEW", "PARTIALLY_FILLED", "FILLED", "CANCELED", "REJECTED", "EXPIRED", "EXPIRED_IN_MATCH",
        "NEW_INSURANCE", "NEW_ADL",
    ] {
        let event = OrderUpdateEvent::from_text(&order_with("X", &format!("{:?}", status))).unwrap();
        assert_eq!(event.data.status, status);
    }
}

#[test]
fn reason_is_strict() {
    let all = [
        (AccountUpdateReason::Deposit, "DEPOSIT"),
        (AccountUpdateReason::Withdraw, "WITHDRAW"),
        (AccountUpdateReason::Order, "ORDER"),
        (AccountUpdateReason::FundingFee, "FUNDING_FEE"),
        (AccountUpdateReason::WithdrawReject, "WITHDRAW_REJECT"),
        (AccountUpdateReason::Adjustment, "ADJUSTMENT"),
        (AccountUpdateReason::InsuranceClear, "INSURANCE_CLEAR"),
        (AccountUpdateReason::AdminDeposit, "ADMIN_DEPOSIT"),
        (AccountUpdateReason::AdminWithdraw, "ADMIN_WITHDRAW"),
        (AccountUpdateReason::MarginTransfer, "MARGIN_TRANSFER"),
        (AccountUpdateReason::MarginTypeChange, "MARGIN_TYPE_CHANGE"),
        (AccountUpdateReason::AssetTransfer, "ASSET_TRANSFER"),
        (AccountUpdateReason::OptionsPremiumFee, "OPTIONS_PREMIUM_FEE"),
        (AccountUpdateReason::OptionsSettleProfit, "OPTIONS_SETTLE_PROFIT"),
        (AccountUpdateReason::AutoExchange, "AUTO_EXCHANGE"),
    ];
    for (reason, token) in all {
        assert_eq!(AccountUpdateReason::from_token(token), Ok(reason));
        assert_eq!(reason.name(), token);
        let text = format!(r#"{{"e":"ACCOUNT_UPDATE","E":1,"T":2,"a":{{"m":"{}","B":[],"P":[]}}}}"#, token);
        let event = AccountUpdateEvent::from_text(&text).unwrap();
        assert_eq!(event.data.reason, reason);
        assert!(event.data.balance_updates.is_empty());
        assert!(event.data.position.is_empty());
    }
    assert_eq!(AccountUpdateReason::from_token("Order"), Err(DecodeError::UnknownEnumValue));
    assert_eq!(
        AccountUpdateEvent::from_text(r#"{"e":"ACCOUNT_UPDATE","E":1,"T":2,"a":{"m":"GIFT","B":[],"P":[]}}"#),
        Err(DecodeError::UnknownEnumValue)
    );
}

#[test]
fn account_update_keeps_wire_order_and_values() {
    let text = r#"{"e":"ACCOUNT_UPDATE","E":1564745798939,"T":1564745798938,"a":{"m":"ORDER",
      "B":[{"a":"USDT","wb":"122624.12345678","cw":"100.12345678","bc":"50.12345678"},
           {"a":"BUSD","wb":"1.00000000","cw":"0.00000000","bc":"-49.12345678"}],
      "P":[{"s":"BTCUSDT","pa":"0","ep":"0.00000","cr":"200","up":"0","mt":"isolated","iw":"0.00000000","ps":"BOTH"},
           {"s":"BTCUSDT","pa":"20","ep":"6563.66500","cr":"0","up":"2850.21200","mt":"isolated","iw":"13200.70726908","ps":"LONG"},
           {"s":"BTCUSDT","pa":"-10","ep":"6563.86000","cr":"-45.04000000","up":"-1423.15600","mt":"isolated","iw":"6570.42511771","ps":"SHORT"}]}}"#;
    let event = AccountUpdateEvent::from_text(text).unwrap();
    assert_eq!(event.data.reason, AccountUpdateReason::Order);
    let assets: Vec<&str> = event.data.balance_updates.iter().map(|b| b.asset.as_str()).collect();
    assert_eq!(assets, vec!["USDT", "BUSD"]);
    let sides: Vec<&str> = event.data.position.iter().map(|p| p.position_side.as_str()).collect();
    assert_eq!(sides, vec!["BOTH", "LONG", "SHORT"]);
    let amounts: Vec<Decimal> = event
        .data
        .position
        .iter()
        .map(|p| Decimal::parse(&p.position_amount).unwrap())
        .collect();
    assert_eq!(amounts, vec![dec("0"), dec("20"), dec("-10")]);
    assert_eq!(Decimal::parse(&event.data.balance_updates[1].balance_change), Ok(dec("-49.12345678")));
    assert_eq!(Events::decode(text), Ok(Events::AccountUpdate(event)));
}

#[test]
fn unknown_tag_is_kept_whole() {
    let text = r#"{"e":"listenKeyExpired","E":1576653824250,"extra":[1,{"k":null}]}"#;
    let doc = Json::parse(text).unwrap();
    assert_eq!(Events::decode(text), Ok(Events::Unrecognized(doc.clone())));
    assert_eq!(Events::dispatch(doc.clone()), Ok(Events::Unrecognized(doc)));
    assert_eq!(
        Events::decode(r#"{"e":"account_update"}"#),
        Ok(Events::Unrecognized(Json::Object(vec![(
            "e".to_string(),
            Json::Text("account_update".to_string())
        )])))
    );
    assert_eq!(Events::decode(r#"{"e":""}"#).map(|e| matches!(e, Events::Unrecognized(_))), Ok(true));
    assert_eq!(EventKind::lookup("listenKeyExpired"), None);
}

#[test]
fn a_message_without_a_tag_is_an_error() {
    assert_eq!(Events::decode(r#"{"E":1}"#), Err(DecodeError::MissingRequiredField));
    assert_eq!(Events::decode(r#"{"e":5}"#), Err(DecodeError::TypeMismatch));
    assert_eq!(Events::decode(r#"{"e":null}"#), Err(DecodeError::TypeMismatch));
    assert_eq!(Events::decode(r#"[{"e":"trade"}]"#), Err(DecodeError::TypeMismatch));
    assert_eq!(Events::decode("7"), Err(DecodeError::TypeMismatch));
    assert_eq!(Events::decode(r#"{"e":"trade""#), Err(DecodeError::MalformedJson));
    assert_eq!(Events::decode(""), Err(DecodeError::MalformedJson));
}

#[test]
fn a_failed_message_leaves_the_next_untouched() {
    assert_eq!(Events::decode(r#"{"e":"ORDER_TRADE_UPDATE"}"#), Err(DecodeError::MissingRequiredField));
    let first = Events::decode(FILLED).unwrap();
    assert_eq!(Events::decode("{"), Err(DecodeError::MalformedJson));
    let second = Events::decode(FILLED).unwrap();
    assert_eq!(first, second);
}

#[test]
fn every_registered_tag_has_its_kind() {
    let all = [
        (EventKind::AccountUpdate, "ACCOUNT_UPDATE"),
        (EventKind::OrderUpdate, "ORDER_TRADE_UPDATE"),
        (EventKind::MarkPrice, "markPriceUpdate"),
        (EventKind::Liquidation, "forceOrder"),
        (EventKind::AggTrade, "aggTrade"),
        (EventKind::Trade, "trade"),
        (EventKind::OpenInterest, "openInterest"),
        (EventKind::Depth, "depthUpdate"),
        (EventKind::Kline, "kline"),
    ];
    for (kind, tag) in all {
        assert_eq!(EventKind::lookup(tag), Some(kind));
        assert_eq!(kind.name(), tag);
    }
}

#[test]
fn mark_price_tick() {
    let text = r#"{"e":"markPriceUpdate","E":1562305380000,"s":"BTCUSDT","p":"11794.15000000","i":"11784.62659091","P":"11784.25641265","r":"0.00038167","T":1562306400000}"#;
    let expected = MarkPrice {
        symbol: "BTCUSDT".to_string(),
        mark_price: dec("11794.15"),
        last_funding_rate: dec("0.00038167"),
        next_funding_time: 1562306400000,
        time: 1562305380000,
    };
    assert_eq!(Events::decode(text), Ok(Events::MarkPrice(expected.clone())));
    let rest = r#"{"symbol":"BTCUSDT","markPrice":"11794.15000000","lastFundingRate":0.00038167,"nextFundingTime":1562306400000,"time":1562305380000}"#;
    assert_eq!(MarkPrice::from_text(rest), Ok(expected));
    assert_eq!(
        MarkPrice::from_json(&Json::parse(rest).unwrap(), Wire::Stream),
        Err(DecodeError::MissingRequiredField)
    );
}

#[test]
fn liquidation_order_push() {
    let text = r#"{"e":"forceOrder","E":1568014460893,"o":{"s":"BTCUSDT","S":"SELL","o":"LIMIT","f":"IOC","q":"0.014","p":"9910","ap":"9910","X":"FILLED","l":"0.014","z":"0.014","T":1568014460893}}"#;
    let expected = LiquidationOrder {
        average_price: dec("9910"),
        executed_qty: dec("0.014"),
        orig_qty: dec("0.014"),
        price: dec("9910"),
        side: "SELL".to_string(),
        status: "FILLED".to_string(),
        symbol: "BTCUSDT".to_string(),
        time: 1568014460893,
        time_in_force: "IOC".to_string(),
        order_type: "LIMIT".to_string(),
    };
    assert_eq!(Events::decode(text), Ok(Events::Liquidation(expected)));
    assert_eq!(
        Events::decode(r#"{"e":"forceOrder","E":1568014460893}"#),
        Err(DecodeError::MissingRequiredField)
    );
    assert_eq!(
        Events::decode(r#"{"e":"forceOrder","o":"x"}"#),
        Err(DecodeError::TypeMismatch)
    );
    assert_eq!(
        Events::decode(&text.replace("\"S\":\"SELL\"", "\"S\":\"HOLD\"")),
        Err(DecodeError::UnknownEnumValue)
    );
    assert_eq!(
        Events::decode(&text.replace("\"X\":\"FILLED\"", "\"X\":\"GONE\"")),
        Err(DecodeError::UnknownEnumValue)
    );
}

#[test]
fn aggregated_trade_push() {
    let text = r#"{"e":"aggTrade","E":123456789,"s":"BTCUSDT","a":5933014,"p":"0.001","q":"100","f":100,"l":105,"T":123456785,"m":true}"#;
    let expected = AggTrade {
        time: 123456785,
        agg_id: 5933014,
        first_id: 100,
        last_id: 105,
        maker: true,
        price: dec("0.001"),
        qty: dec("100"),
    };
    assert_eq!(Events::decode(text), Ok(Events::AggTrade(expected)));
    assert_eq!(
        Events::decode(&text.replace("\"p\":\"0.001\"", "\"p\":\"one\"")),
        Err(DecodeError::MalformedNumber)
    );
    assert_eq!(
        Events::decode(&text.replace("\"p\":\"0.001\"", "\"p\":[]")),
        Err(DecodeError::TypeMismatch)
    );
}

#[test]
fn raw_trade_push() {
    let text = r#"{"e":"trade","E":123456789,"s":"BNBBTC","t":12345,"p":"0.001","q":"100","T":123456785,"m":true,"M":true}"#;
    let expected = Trade {
        id: 12345,
        is_buyer_maker: true,
        price: dec("0.001"),
        qty: dec("100"),
        quote_qty: None,
        time: 123456785,
    };
    assert_eq!(Events::decode(text), Ok(Events::Trade(expected.clone())));
    let with_more = text.replace("\"M\":true", "\"Q\":\"0.1\",\"quoteQty\":\"0.1\"");
    assert_eq!(Events::decode(&with_more), Ok(Events::Trade(expected)));
}

#[test]
fn open_interest_push() {
    let text = r#"{"e":"openInterest","E":1,"s":"BTCUSDT","o":"10659.509"}"#;
    let expected = OpenInterest { open_interest: dec("10659.509"), symbol: "BTCUSDT".to_string() };
    assert_eq!(Events::decode(text), Ok(Events::OpenInterest(expected.clone())));
    assert_eq!(
        OpenInterest::from_text(r#"{"openInterest":"10659.509","symbol":"BTCUSDT","time":1589437530011}"#),
        Ok(expected)
    );
}

#[test]
fn depth_update_push() {
    let text = r#"{"e":"depthUpdate","E":123456789,"T":123456788,"s":"BTCUSDT","U":157,"u":160,"pu":149,"b":[["0.0024","10"]],"a":[["0.0026","100"],["0.0027",5]]}"#;
    match Events::decode(text) {
        Ok(Events::Depth(book)) => {
            assert_eq!(book.last_update_id, 160);
            assert_eq!(book.event_time, 123456789);
            assert_eq!(book.trade_order_time, 123456788);
            assert_eq!(book.bids.len(), 1);
            assert_eq!(book.bids[0].price, dec("0.0024"));
            assert_eq!(book.bids[0].qty, dec("10"));
            assert_eq!(book.asks.len(), 2);
            assert_eq!(book.asks[1].price, dec("0.0027"));
            assert_eq!(book.asks[1].qty, dec("5"));
        }
        other => panic!("{:?}", other),
    }
    let crossed = r#"{"lastUpdateId":1,"E":2,"T":3,"bids":[["10","1"]],"asks":[["9","1"]]}"#;
    let book = OrderBook::from_text(crossed).unwrap();
    assert_eq!(book.bids[0].price, dec("10"));
    assert_eq!(book.asks[0].price, dec("9"));
}

#[test]
fn candle_push() {
    let text = r#"{"e":"kline","E":123456789,"s":"BTCUSDT","k":{"t":123400000,"T":123460000,"s":"BTCUSDT","i":"1m","f":100,"L":200,"o":"0.0010","c":"0.0020","h":"0.0025","l":"0.0015","v":"1000","n":100,"x":false,"q":"1.0000","V":"500","Q":"0.500","B":"123456"}}"#;
    let expected = KlineSummary {
        open_time: 123400000,
        open: "0.0010".to_string(),
        high: "0.0025".to_string(),
        low: "0.0015".to_string(),
        close: "0.0020".to_string(),
        volume: "1000".to_string(),
        close_time: 123460000,
        quote_asset_volume: "1.0000".to_string(),
        number_of_trades: 100,
        taker_buy_base_asset_volume: "500".to_string(),
        taker_buy_quote_asset_volume: "0.500".to_string(),
    };
    assert_eq!(Events::decode(text), Ok(Events::Kline(expected)));
}

#[test]
fn unmapped_fields_are_ignored() {
    let plain = OrderUpdateEvent::from_text(CANCELED).unwrap();
    let more = OrderUpdateEvent::from_text(&order_with("zz", r#"{"deep":[1,2,3]}"#)).unwrap();
    assert_eq!(plain, more);
}

#[test]
fn order_update_data_alone() {
    let doc = Json::parse(FILLED).unwrap();
    let inner = doc.get("o").unwrap();
    let data = OrderUpdateData::from_json(inner).unwrap();
    assert_eq!(data.trade_id, 69281933);
    assert_eq!(decode(&Json::Text(data.average_price.clone())), Ok(dec("0.76867")));
    assert_eq!(OrderUpdateData::from_json(&doc), Err(DecodeError::MissingRequiredField));
    assert_eq!(OrderUpdateData::from_json(&Json::Array(vec![])), Err(DecodeError::TypeMismatch));
}
