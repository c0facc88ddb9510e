use exchange_feed::api::{Futures, Spot, API};
use exchange_feed::decimal::Decimal;
use exchange_feed::error::DecodeError;
use exchange_feed::futures::model::{
    AggTrade, AggTrades, Asks, Bids, ChangeLeverageResponse, ExchangeInformation, Filters,
    KlineSummaries, KlineSummary, LiquidationOrders, MarkPrices, Order, OrderBook, PriceStats,
    RateLimit, Symbol, Trade, Trades, Transaction,
};
use exchange_feed::json::Json;
use exchange_feed::model::{Success, UserDataStream};
use exchange_feed::userstream::{SessionCall, UserStream, Verb};

fn dec(s: &str) -> Decimal {
    Decimal::parse(s).unwrap()
}

const ORDER: &str = r#"{"clientOrderId":"testOrder","cumQty":"0","cumQuote":"0","executedQty":"0",
  "orderId":22542179,"avgPrice":"0.00000","origQty":"10","price":"0","reduceOnly":false,"side":"BUY",
  "positionSide":"SHORT","status":"NEW","closePosition":false,"symbol":"BTCUSDT","timeInForce":"GTC",
  "type":"LIMIT","origType":"LIMIT","updateTime":1566818724722,"workingType":"CONTRACT_PRICE",
  "priceProtect":false}"#;

fn with(text: &str, extra: &str) -> String {
    let at = text.rfind('}').unwrap();
    format!("{},{}}}", &text[..at], extra)
}

#[test]
fn absent_trailing_stop_fields_are_zero() {
    let order = Order::from_text(ORDER).unwrap();
    assert_eq!(order.stop_price, Decimal::zero());
    assert_eq!(order.activation_price, Decimal::zero());
    assert_eq!(order.price_rate, Decimal::zero());
    assert_eq!(order.stop_price.encode(), "0");
    assert_eq!(order.order_id, 22542179);
    assert_eq!(order.orig_qty, dec("10"));
    assert_eq!(order.side, "BUY");
    assert_eq!(order.order_type, "LIMIT");
}

#[test]
fn present_trailing_stop_fields_are_decoded() {
    let text = with(ORDER, r#""stopPrice":"9300","activationPrice":9020.5,"priceRate":"0.3""#);
    let order = Order::from_text(&text).unwrap();
    assert_eq!(order.stop_price, dec("9300"));
    assert_eq!(order.activation_price, dec("9020.5"));
    assert_eq!(order.price_rate, dec("0.3"));
    assert_eq!(
        Order::from_text(&with(ORDER, r#""stopPrice":null"#)),
        Err(DecodeError::TypeMismatch)
    );
    assert_eq!(
        Order::from_text(&with(ORDER, r#""priceRate":"high""#)),
        Err(DecodeError::MalformedNumber)
    );
}

#[test]
fn order_errors_come_in_field_order() {
    assert_eq!(Order::from_text("{}"), Err(DecodeError::MissingRequiredField));
    assert_eq!(Order::from_text("[]"), Err(DecodeError::TypeMismatch));
    assert_eq!(Order::from_text("{"), Err(DecodeError::MalformedJson));
    let bad_side_and_status =
        ORDER.replace("\"side\":\"BUY\"", "\"side\":5").replace("\"status\":\"NEW\"", "\"status\":\"ODD\"");
    assert_eq!(Order::from_text(&bad_side_and_status), Err(DecodeError::TypeMismatch));
    let bad_status = ORDER.replace("\"status\":\"NEW\"", "\"status\":\"ODD\"");
    assert_eq!(Order::from_text(&bad_status), Err(DecodeError::UnknownEnumValue));
    let bad_qty_and_status = bad_status.replace("\"cumQty\":\"0\"", "\"cumQty\":\"nil\"");
    assert_eq!(Order::from_text(&bad_qty_and_status), Err(DecodeError::MalformedNumber));
}

#[test]
fn transaction_fields_that_are_left_out_are_zero() {
    let bare = Transaction::from_text(ORDER).unwrap();
    assert_eq!(bare.stop_price, Decimal::zero());
    assert_eq!(bare.activate_price, Decimal::zero());
    assert_eq!(bare.price_rate, Decimal::zero());
    assert_eq!(bare.order_type, "LIMIT");
    assert_eq!(bare.order_id, 22542179);
    let text = with(ORDER, r#""stopPrice":"9300""#);
    let tx = Transaction::from_text(&text).unwrap();
    assert_eq!(tx.stop_price, dec("9300"));
    assert_eq!(tx.activate_price, Decimal::zero());
    assert_eq!(tx.price_rate, Decimal::zero());
    let more = with(&text, r#""activatePrice":"9020","priceRate":0.3"#);
    let tx = Transaction::from_text(&more).unwrap();
    assert_eq!(tx.stop_price, dec("9300"));
    assert_eq!(tx.activate_price, dec("9020"));
    assert_eq!(tx.price_rate, dec("0.3"));
    assert_eq!(
        Transaction::from_text(&with(ORDER, r#""activatePrice":null"#)),
        Err(DecodeError::TypeMismatch)
    );
    assert_eq!(
        Transaction::from_text(&with(ORDER, r#""priceRate":"steep""#)),
        Err(DecodeError::MalformedNumber)
    );
}

#[test]
fn leverage_answer() {
    let r = ChangeLeverageResponse::from_text(
        r#"{"leverage":21,"maxNotionalValue":"1000000","symbol":"BTCUSDT"}"#,
    );
    assert_eq!(
        r,
        Ok(ChangeLeverageResponse {
            leverage: 21,
            max_notional_value: dec("1000000"),
            symbol: "BTCUSDT".to_string()
        })
    );
    assert_eq!(
        ChangeLeverageResponse::from_text(r#"{"leverage":256,"maxNotionalValue":"1","symbol":"B"}"#),
        Err(DecodeError::TypeMismatch)
    );
    assert_eq!(
        ChangeLeverageResponse::from_text(r#"{"leverage":255,"maxNotionalValue":1e6,"symbol":"B"}"#)
            .unwrap()
            .max_notional_value,
        dec("1000000")
    );
}

#[test]
fn exchange_information_of_the_derivatives_segment() {
    let text = r#"{"timezone":"UTC","serverTime":1565613908500,"futuresType":"U_MARGINED",
      "rateLimits":[{"interval":"MINUTE","intervalNum":1,"limit":2400,"rateLimitType":"REQUEST_WEIGHT"}],
      "exchangeFilters":[],
      "symbols":[{"symbol":"BLZUSDT","status":"TRADING","maintMarginPercent":"2.5000",
        "requiredMarginPercent":"5.0000","baseAsset":"BLZ","quoteAsset":"USDT","pricePrecision":5,
        "quantityPrecision":0,"baseAssetPrecision":8,"quotePrecision":8,
        "filters":[{"filterType":"PRICE_FILTER","maxPrice":"300","minPrice":"0.0001","tickSize":"0.0001"},
                   {"filterType":"LOT_SIZE","maxQty":"10000000","minQty":"1","stepSize":"1"},
                   {"filterType":"MARKET_LOT_SIZE","maxQty":"590119","minQty":"1","stepSize":"1"},
                   {"filterType":"MAX_NUM_ORDERS","limit":200},
                   {"filterType":"MAX_NUM_ALGO_ORDERS","limit":100},
                   {"filterType":"MIN_NOTIONAL","notional":"1"},
                   {"filterType":"PERCENT_PRICE","multiplierUp":"1.1500","multiplierDown":"0.8500","multiplierDecimal":"4"}],
        "orderTypes":["LIMIT","MARKET","STOP"],"timeInForce":["GTC","IOC","FOK","GTX"]}]}"#;
    let info = ExchangeInformation::from_text(text).unwrap();
    assert_eq!(info.timezone, "UTC");
    assert_eq!(info.server_time, 1565613908500);
    assert_eq!(
        info.rate_limits,
        vec![RateLimit {
            rate_limit_type: "REQUEST_WEIGHT".to_string(),
            interval: "MINUTE".to_string(),
            interval_num: 1,
            limit: 2400
        }]
    );
    assert!(info.exchange_filters.is_empty());
    assert_eq!(info.symbols.len(), 1);
    let s: &Symbol = &info.symbols[0];
    assert_eq!(s.symbol, "BLZUSDT");
    assert_eq!(s.maint_margin_percent, "2.5000");
    assert_eq!(s.required_margin_percent, "5.0000");
    assert_eq!(s.price_precision, 5);
    assert_eq!(s.quantity_precision, 0);
    assert_eq!(s.base_asset_precision, 8);
    assert_eq!(s.order_types, vec!["LIMIT", "MARKET", "STOP"]);
    assert_eq!(s.time_in_force, vec!["GTC", "IOC", "FOK", "GTX"]);
    assert_eq!(
        s.filters,
        vec![
            Filters::PriceFilter {
                min_price: "0.0001".to_string(),
                max_price: "300".to_string(),
                tick_size: "0.0001".to_string()
            },
            Filters::LotSize {
                min_qty: "1".to_string(),
                max_qty: "10000000".to_string(),
                step_size: "1".to_string()
            },
            Filters::MarketLotSize {
                min_qty: "1".to_string(),
                max_qty: "590119".to_string(),
                step_size: "1".to_string()
            },
            Filters::MaxNumOrders { limit: Some(200) },
            Filters::MaxNumAlgoOrders { limit: Some(100) },
            Filters::MinNotional {
                notional: Some("1".to_string()),
                min_notional: None,
                apply_to_market: None
            },
            Filters::PercentPrice {
                multiplier_up: "1.1500".to_string(),
                multiplier_down: "0.8500".to_string(),
                multiplier_decimal: Some("4".to_string())
            },
        ]
    );
}

#[test]
fn the_filter_list_may_be_empty_but_not_absent() {
    let symbol = r#"{"symbol":"B","status":"TRADING","maintMarginPercent":"2","requiredMarginPercent":"5",
        "baseAsset":"B","quoteAsset":"U","pricePrecision":5,"quantityPrecision":0,"baseAssetPrecision":8,
        "quotePrecision":8,"filters":[],"orderTypes":[],"timeInForce":[]}"#;
    let s = Symbol::from_json(&Json::parse(symbol).unwrap()).unwrap();
    assert!(s.filters.is_empty());
    let without = symbol.replace("\"filters\":[],", "");
    assert_eq!(
        Symbol::from_json(&Json::parse(&without).unwrap()),
        Err(DecodeError::MissingRequiredField)
    );
    let negative = symbol.replace("\"pricePrecision\":5", "\"pricePrecision\":-5");
    assert_eq!(Symbol::from_json(&Json::parse(&negative).unwrap()), Err(DecodeError::TypeMismatch));
    let wide = symbol.replace("\"pricePrecision\":5", "\"pricePrecision\":65536");
    assert_eq!(Symbol::from_json(&Json::parse(&wide).unwrap()), Err(DecodeError::TypeMismatch));
    let odd = symbol.replace("\"orderTypes\":[]", "\"orderTypes\":[\"LIMIT\",7]");
    assert_eq!(Symbol::from_json(&Json::parse(&odd).unwrap()), Err(DecodeError::TypeMismatch));
}

#[test]
fn an_unknown_filter_is_refused() {
    let f = Json::parse(r#"{"filterType":"MOON_PHASE","limit":3}"#).unwrap();
    assert_eq!(Filters::from_json(&f), Err(DecodeError::UnknownEnumValue));
    let f = Json::parse(r#"{"limit":3}"#).unwrap();
    assert_eq!(Filters::from_json(&f), Err(DecodeError::MissingRequiredField));
    let f = Json::parse(r#"{"filterType":"MAX_NUM_ORDERS"}"#).unwrap();
    assert_eq!(Filters::from_json(&f), Ok(Filters::MaxNumOrders { limit: None }));
    let f = Json::parse(r#"{"filterType":"MIN_NOTIONAL","minNotional":"5","applyToMarket":true}"#).unwrap();
    assert_eq!(
        Filters::from_json(&f),
        Ok(Filters::MinNotional {
            notional: None,
            min_notional: Some("5".to_string()),
            apply_to_market: Some(true)
        })
    );
    let f = Json::parse(r#"{"filterType":"LOT_SIZE","minQty":"1","maxQty":"2"}"#).unwrap();
    assert_eq!(Filters::from_json(&f), Err(DecodeError::MissingRequiredField));
}

#[test]
fn exchange_information_of_the_spot_segment() {
    let text = r#"{"timezone":"UTC","serverTime":1565246363776,"rateLimits":[],"exchangeFilters":[],
      "symbols":[{"symbol":"ETHBTC","status":"TRADING","baseAsset":"ETH","baseAssetPrecision":8,
        "quoteAsset":"BTC","quotePrecision":8,"orderTypes":["LIMIT","MARKET"],"icebergAllowed":true,
        "isSpotTradingAllowed":true,"isMarginTradingAllowed":false,
        "filters":[{"filterType":"LOT_SIZE","minQty":"0.001","maxQty":"100000","stepSize":"0.001"}]}]}"#;
    let info = exchange_feed::model::ExchangeInformation::from_text(text).unwrap();
    assert_eq!(info.symbols.len(), 1);
    let s: &exchange_feed::model::Symbol = &info.symbols[0];
    assert_eq!(s.symbol, "ETHBTC");
    assert_eq!(s.base_asset_precision, 8);
    assert!(s.iceberg_allowed);
    assert!(!s.is_margin_trading_allowed);
    assert_eq!(s.filters.len(), 1);
    assert_eq!(ExchangeInformation::from_text(text), Err(DecodeError::MissingRequiredField));
}

#[test]
fn order_book_snapshot() {
    let text = r#"{"lastUpdateId":1027024,"E":1589436922972,"T":1589436922959,
      "bids":[["4.00000000","431.00000000"],[3.9,"2"]],"asks":[["4.00000200","12.00000000"]]}"#;
    let book = OrderBook::from_text(text).unwrap();
    assert_eq!(
        book,
        OrderBook {
            last_update_id: 1027024,
            event_time: 1589436922972,
            trade_order_time: 1589436922959,
            bids: vec![
                Bids { price: dec("4"), qty: dec("431") },
                Bids { price: dec("3.9"), qty: dec("2") }
            ],
            asks: vec![Asks { price: dec("4.000002"), qty: dec("12") }],
        }
    );
    let empty = r#"{"lastUpdateId":1,"E":2,"T":3,"bids":[],"asks":[]}"#;
    assert!(OrderBook::from_text(empty).unwrap().bids.is_empty());
    for bad in [r#"["4"]"#, r#"["4","1","2"]"#, r#"{"price":"4","qty":"1"}"#, r#""4""#] {
        let text = format!(r#"{{"lastUpdateId":1,"E":2,"T":3,"bids":[{}],"asks":[]}}"#, bad);
        assert_eq!(OrderBook::from_text(&text), Err(DecodeError::TypeMismatch), "{}", bad);
    }
    let text = r#"{"lastUpdateId":1,"E":2,"T":3,"bids":[["4","x"]],"asks":[]}"#;
    assert_eq!(OrderBook::from_text(text), Err(DecodeError::MalformedNumber));
}

#[test]
fn price_statistics() {
    let text = r#"{"symbol":"BTCUSDT","priceChange":"-94.99999800","priceChangePercent":"-95.960",
      "weightedAvgPrice":"0.29628482","lastPrice":"4.00000200","lastQty":"200.00000000",
      "openPrice":"99.00000000","highPrice":"100.00000000","lowPrice":"0.10000000",
      "volume":"8913.30000000","quoteVolume":"15.30000000","openTime":1499783499040,
      "closeTime":1499869899040,"firstId":28385,"lastId":28460,"count":76}"#;
    let stats = PriceStats::from_text(text).unwrap();
    assert_eq!(stats.symbol, "BTCUSDT");
    assert_eq!(stats.price_change, "-94.99999800");
    assert_eq!(stats.last_price, dec("4.000002"));
    assert_eq!(stats.open_price, dec("99"));
    assert_eq!(stats.high_price, dec("100"));
    assert_eq!(stats.low_price, dec("0.1"));
    assert_eq!(stats.volume, dec("8913.3"));
    assert_eq!(stats.quote_volume, dec("15.3"));
    assert_eq!(stats.last_qty, dec("200"));
    assert_eq!((stats.first_id, stats.last_id, stats.count), (28385, 28460, 76));
    assert!(stats.first_id <= stats.last_id);
}

#[test]
fn trade_lists() {
    let text = r#"[{"id":28457,"price":"4.00000100","qty":"12.00000000","quoteQty":"48.00",
      "time":1499865549590,"isBuyerMaker":true}]"#;
    assert_eq!(
        Trades::from_text(text),
        Ok(Trades::AllTrades(vec![Trade {
            id: 28457,
            is_buyer_maker: true,
            price: dec("4.000001"),
            qty: dec("12"),
            quote_qty: Some(dec("48")),
            time: 1499865549590
        }]))
    );
    assert_eq!(Trades::from_text("[]"), Ok(Trades::AllTrades(vec![])));
    assert_eq!(Trades::from_text("{}"), Err(DecodeError::TypeMismatch));
    let without_quote = text.replace("\"quoteQty\":\"48.00\",", "");
    assert_eq!(Trades::from_text(&without_quote), Err(DecodeError::MissingRequiredField));
    let text = r#"[{"a":26129,"p":"0.01633102","q":"4.70443515","f":27781,"l":27781,"T":1498793709153,"m":true},
                   {"a":26130,"p":0.5,"q":"1","f":27782,"l":27790,"T":1498793709154,"m":false}]"#;
    match AggTrades::from_text(text).unwrap() {
        AggTrades::AllAggTrades(v) => {
            assert_eq!(v.len(), 2);
            assert_eq!(
                v[0],
                AggTrade {
                    time: 1498793709153,
                    agg_id: 26129,
                    first_id: 27781,
                    last_id: 27781,
                    maker: true,
                    price: dec("0.01633102"),
                    qty: dec("4.70443515")
                }
            );
            assert_eq!(v[1].price, dec("0.5"));
            assert!(!v[1].maker);
        }
    }
    let second_bad = text.replace("\"q\":\"1\"", "\"q\":true");
    assert_eq!(AggTrades::from_text(&second_bad), Err(DecodeError::TypeMismatch));
}

#[test]
fn mark_price_and_liquidation_lists() {
    let text = r#"[{"symbol":"BTCUSDT","markPrice":"11012.80409769","lastFundingRate":"-0.03750000",
      "nextFundingTime":1562569200000,"time":1562566020000}]"#;
    match MarkPrices::from_text(text).unwrap() {
        MarkPrices::AllMarkPrices(v) => {
            assert_eq!(v.len(), 1);
            assert_eq!(v[0].mark_price, dec("11012.80409769"));
            assert_eq!(v[0].last_funding_rate, dec("-0.0375"));
        }
    }
    let text = r#"[{"symbol":"BTCUSDT","price":"7918.33","origQty":"0.014","executedQty":"0.014",
      "averagePrice":"7918.33","status":"FILLED","timeInForce":"IOC","type":"LIMIT","side":"SELL",
      "time":1568014460893}]"#;
    match LiquidationOrders::from_text(text).unwrap() {
        LiquidationOrders::AllLiquidationOrders(v) => {
            assert_eq!(v.len(), 1);
            assert_eq!(v[0].average_price, dec("7918.33"));
            assert_eq!(v[0].side, "SELL");
            assert_eq!(v[0].order_type, "LIMIT");
        }
    }
    assert_eq!(
        LiquidationOrders::from_text(&text.replace("SELL", "SHORT")),
        Err(DecodeError::UnknownEnumValue)
    );
}

#[test]
fn candle_tables() {
    let text = r#"[[1499040000000,"0.01634790","0.80000000","0.01575800","0.01577100","148976.11427815",
      1499644799999,"2434.19055334",308,"1756.87402397","28.46694368","17928899.62484339"]]"#;
    assert_eq!(
        KlineSummaries::from_text(text),
        Ok(KlineSummaries::AllKlineSummaries(vec![KlineSummary {
            open_time: 1499040000000,
            open: "0.01634790".to_string(),
            high: "0.80000000".to_string(),
            low: "0.01575800".to_string(),
            close: "0.01577100".to_string(),
            volume: "148976.11427815".to_string(),
            close_time: 1499644799999,
            quote_asset_volume: "2434.19055334".to_string(),
            number_of_trades: 308,
            taker_buy_base_asset_volume: "1756.87402397".to_string(),
            taker_buy_quote_asset_volume: "28.46694368".to_string(),
        }]))
    );
    assert_eq!(KlineSummaries::from_text("[[1499040000000]]"), Err(DecodeError::MissingRequiredField));
    assert_eq!(KlineSummaries::from_text("[{}]"), Err(DecodeError::TypeMismatch));
    assert_eq!(KlineSummaries::from_text("[[\"1\"]]"), Err(DecodeError::TypeMismatch));
}

#[test]
fn session_answers() {
    assert_eq!(
        UserDataStream::from_text(r#"{"listenKey":"pqia91ma19a5s61cv6a81va65sdf19v8a65a1a5s61cv6a81va65sdf19v8a65a1"}"#),
        Ok(UserDataStream {
            listen_key: "pqia91ma19a5s61cv6a81va65sdf19v8a65a1a5s61cv6a81va65sdf19v8a65a1".to_string()
        })
    );
    assert_eq!(UserDataStream::from_text("{}"), Err(DecodeError::MissingRequiredField));
    assert_eq!(Success::from_text("{}"), Ok(Success {}));
    assert_eq!(Success::from_text("[]"), Err(DecodeError::TypeMismatch));
    assert_eq!(Success::from_text(""), Err(DecodeError::MalformedJson));
}

#[test]
fn session_requests() {
    let stream = UserStream { recv_window: 5000 };
    assert_eq!(
        stream.start(),
        SessionCall { verb: Verb::Post, api: API::Spot(Spot::UserDataStream), listen_key: None }
    );
    assert_eq!(
        stream.start_futures(),
        SessionCall { verb: Verb::Post, api: API::Futures(Futures::UserDataStream), listen_key: None }
    );
    assert_eq!(
        stream.keep_alive("abc"),
        SessionCall {
            verb: Verb::Put,
            api: API::Spot(Spot::UserDataStream),
            listen_key: Some("abc".to_string())
        }
    );
    assert_eq!(
        stream.keep_alive_futures("abc"),
        SessionCall {
            verb: Verb::Put,
            api: API::Futures(Futures::UserDataStream),
            listen_key: Some("abc".to_string())
        }
    );
    assert_eq!(
        stream.close("k1"),
        SessionCall {
            verb: Verb::Delete,
            api: API::Spot(Spot::UserDataStream),
            listen_key: Some("k1".to_string())
        }
    );
    assert_eq!(
        stream.close_futures(""),
        SessionCall {
            verb: Verb::Delete,
            api: API::Futures(Futures::UserDataStream),
            listen_key: Some("".to_string())
        }
    );
}

#[test]
fn what_decoding_does_not_ask_for_can_be_asked() {
    let trade = |price: &str| Trade {
        id: 1,
        is_buyer_maker: false,
        price: dec(price),
        qty: dec("2"),
        quote_qty: None,
        time: 3,
    };
    assert!(trade("0").is_non_negative());
    assert!(trade("0.5").is_non_negative());
    assert!(!trade("-0.5").is_non_negative());
    let mut quoted = trade("1");
    quoted.quote_qty = Some(dec("2"));
    assert!(quoted.is_non_negative());
    quoted.quote_qty = Some(dec("-2"));
    assert!(!quoted.is_non_negative());
    let agg = |qty: &str| AggTrade {
        time: 1,
        agg_id: 2,
        first_id: 3,
        last_id: 3,
        maker: true,
        price: dec("1"),
        qty: dec(qty),
    };
    assert!(agg("1").is_non_negative());
    assert!(!agg("-1").is_non_negative());
    let text = r#"{"symbol":"B","priceChange":"0","priceChangePercent":"0","weightedAvgPrice":"0",
      "lastPrice":"1","lastQty":"1","openPrice":"1","highPrice":"1","lowPrice":"1","volume":"1",
      "quoteVolume":"1","openTime":1,"closeTime":2,"firstId":9,"lastId":3,"count":0}"#;
    let idle = PriceStats::from_text(text).unwrap();
    assert!(idle.is_in_order());
    let wrong = PriceStats::from_text(&text.replace("\"count\":0", "\"count\":4")).unwrap();
    assert!(!wrong.is_in_order());
    assert!(dec("-0.1").is_negative());
    assert!(!dec("0").is_negative());
    assert!(!dec("-0").is_negative());
    assert!(dec("-0.0").is_zero());
    assert!(!dec("0.001").is_zero());
    assert!(dec("1.0").same_value(&dec("1")));
    assert!(!dec("1.01").same_value(&dec("1.1")));
}
