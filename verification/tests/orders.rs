use ladder_app::order_forms::{
    bot_button_sends, bot_order_message, handle_script_signal, manual_order_message, manual_trade_message,
    order_preview, script_order_message, send_bot_order, send_manual_order, send_manual_trade, send_order,
    upper_names_side, SignalDecision, SignalRequest,
};
use ladder_app::orders::{
    clip_negative, market_button, order_price, order_size, panel_order, submit_market_button, submit_panel_order,
    OrderSide, PanelCmd, TradeKind, UiOrderType,
};

const ONE: i128 = 100_000_000;

#[test]
fn sides_and_kinds_have_names() {
    assert_eq!(OrderSide::Buy.as_str(), "Buy");
    assert_eq!(OrderSide::Sell.as_str(), "Sell");
    assert_eq!(TradeKind::Market.as_str(), "Market");
    assert_eq!(TradeKind::Limit.as_str(), "Limit");
    assert_eq!(UiOrderType::Market.label(), "Market");
    assert_eq!(UiOrderType::Limit.label(), "Limit");
}

#[test]
fn an_order_size_is_a_decimal() {
    assert_eq!(clip_negative(-3), 0);
    assert_eq!(clip_negative(3), 3);
    assert_eq!(order_size(150_000_000), ("1.50000000".to_string(), Some("1.50000000".to_string())));
    let (text, decimal) = order_size(-5);
    assert_eq!(text, "0.00000000");
    assert!(decimal.is_some());
    assert_eq!(order_price(-150_000_000), ("-1.5000".to_string(), Some("-1.5000".to_string())));
}

#[test]
fn the_panel_sends_its_order() {
    let s = panel_order("ETH-USD", OrderSide::Sell, TradeKind::Limit, ONE / 4, 4000 * ONE, 5 * ONE);
    let c = s.cmd.unwrap();
    assert_eq!(c.ticker, "ETH-USD");
    assert_eq!(c.side, OrderSide::Sell);
    assert_eq!(c.kind, TradeKind::Limit);
    assert_eq!(c.size, "0.25000000");
    assert_eq!((c.limit_price, c.leverage), (4000 * ONE, 5 * ONE));
    assert_eq!(s.message, "Sent Limit Sell ETH-USD size 0.25000000");
    let n = s.note.unwrap();
    assert_eq!((n.source.as_str(), n.side.as_str(), n.size_str.as_str()), ("gui_manual", "Sell", "0.25000000"));
}

#[test]
fn a_size_that_is_no_decimal_is_refused() {
    let s = submit_panel_order("ETH-USD", OrderSide::Buy, TradeKind::Market, "x", None, 0, 0);
    assert!(s.cmd.is_none() && s.note.is_none());
    assert_eq!(s.message, "Invalid size for order");
    let b = submit_market_button(UiOrderType::Market, OrderSide::Buy, "ETH-USD", "x", None, false, 0);
    assert!(b.cmd.is_none());
    assert_eq!(b.message, "Invalid size for BUY");
}

#[test]
fn the_market_buttons_send_market_orders() {
    let s = market_button(UiOrderType::Limit, OrderSide::Buy, "BTC-USD", ONE, true, 6_050_000_000_000);
    let c = s.cmd.unwrap();
    assert_eq!(c.kind, TradeKind::Market);
    assert_eq!((c.limit_price, c.leverage), (0, 0));
    assert_eq!(
        s.message,
        "[LMT(UI)] BUY BTC-USD size 1.00000000 (exec: MARKET; reduce_only=true, limit_price=60500 [UI only])"
    );
    let m = market_button(UiOrderType::Market, OrderSide::Sell, "BTC-USD", ONE, false, 0);
    assert_eq!(
        m.message,
        "[MKT] SELL BTC-USD size 1.00000000 (exec: MARKET; reduce_only=false, limit_price=n/a [UI only])"
    );
}

#[test]
fn the_two_kind_panel_needs_a_size() {
    for size in [0, -ONE] {
        let r = send_order("ETH-USD", OrderSide::Buy, TradeKind::Market, size, 0, ONE);
        assert!(r.cmd.is_none());
        assert_eq!(r.message, "Size cannot be zero");
    }
}

#[test]
fn the_two_kind_panel_needs_a_limit_price() {
    let r = send_order("ETH-USD", OrderSide::Buy, TradeKind::Limit, ONE, 0, ONE);
    assert!(r.cmd.is_none());
    assert_eq!(r.message, "Limit price must be > 0");
}

#[test]
fn the_two_kind_panel_sends_both_kinds() {
    let r = send_order("ETH-USD", OrderSide::Buy, TradeKind::Market, ONE, 0, 250_000_000);
    assert_eq!(r.message, "Sent MARKET Buy ETH-USD size 1.00000000x (lev 2.5x). Check terminal + trades CSV.");
    match r.cmd.unwrap() {
        PanelCmd::MarketOrder { ticker, side, size, leverage } => {
            assert_eq!((ticker.as_str(), side, size.as_str(), leverage), ("ETH-USD", OrderSide::Buy, "1.00000000", 250_000_000));
        }
        PanelCmd::LimitOrder { .. } => panic!("a market order was asked for"),
    }
    let l = send_order("ETH-USD", OrderSide::Sell, TradeKind::Limit, ONE, 400_012_345_678, ONE);
    assert_eq!(
        l.message,
        "Requested LIMIT Sell ETH-USD size 1.00000000 @ 4000.1235 (lev 1.0x). NOTE: Limit wiring is placeholder, see terminal."
    );
    match l.cmd.unwrap() {
        PanelCmd::LimitOrder { price, .. } => assert_eq!(price, "4000.1235"),
        PanelCmd::MarketOrder { .. } => panic!("a limit order was asked for"),
    }
}

#[test]
fn the_testnet_panel_sends_with_a_leverage_of_at_least_one() {
    let c = send_manual_order("ETH-USD", OrderSide::Buy, ONE / 2, 0).unwrap();
    assert_eq!(c.leverage, ONE);
    assert_eq!(c.size, "0.50000000");
    assert_eq!(send_manual_order("ETH-USD", OrderSide::Buy, 0, ONE).unwrap_err(), "Size must be > 0");
    assert_eq!(
        manual_order_message("ETH-USD", OrderSide::Buy, ONE / 2, 250_000_000, true),
        "Sent Buy ETH-USD size 0.50000000 lev 2.5 (see terminal)"
    );
    assert_eq!(manual_order_message("ETH-USD", OrderSide::Buy, ONE, ONE, false), "Trade channel full/busy");
}

#[test]
fn a_bot_order_needs_a_size() {
    assert_eq!(
        send_bot_order("ETH-USD", OrderSide::Sell, 0, ONE).unwrap_err(),
        "Bot size <= 0; nothing to send"
    );
    let c = send_bot_order("ETH-USD", OrderSide::Sell, ONE, 3 * ONE).unwrap();
    assert_eq!((c.side, c.leverage), (OrderSide::Sell, 3 * ONE));
    assert_eq!(
        bot_order_message("ETH-USD", OrderSide::Sell, ONE, 0, "why", true),
        "BOT Sell ETH-USD size 1.00000000 lev 1 (see terminal) :: why"
    );
    assert_eq!(
        bot_order_message("ETH-USD", OrderSide::Sell, ONE, 0, "why", false),
        "Trade channel full/busy for bot"
    );
}

#[test]
fn a_bot_button_follows_the_signal_in_any_case() {
    assert!(bot_button_sends("Strong buy", OrderSide::Buy, 1));
    assert!(bot_button_sends("sell_limit", OrderSide::Sell, 1));
    assert!(!bot_button_sends("sell", OrderSide::Buy, 1));
    assert!(!bot_button_sends("buy", OrderSide::Buy, 0));
    assert!(upper_names_side("A BUY", OrderSide::Buy, 1));
    assert!(!upper_names_side("a buy", OrderSide::Buy, 1));
}

#[test]
fn the_logging_panel_checks_its_order() {
    assert_eq!(send_manual_trade("ETH-USD", "buy", false, 0, 0, ONE).unwrap_err(), "Size must be > 0");
    assert_eq!(send_manual_trade("ETH-USD", "buy", true, ONE, 0, ONE).unwrap_err(), "Limit price must be > 0");
    let m = send_manual_trade("ETH-USD", "buy", false, ONE, 7, -ONE).unwrap();
    assert_eq!((m.price, m.leverage, m.source.as_str()), (None, 0, "manual"));
    assert_eq!(manual_trade_message(&m, true), "Manual buy ETH-USD size 1.000000 lev 0.0 (market)");
    let l = send_manual_trade("ETH-USD", "sell", true, ONE, 7 * ONE, 2 * ONE).unwrap();
    assert_eq!(l.price, Some(7 * ONE));
    assert_eq!(manual_trade_message(&l, true), "Manual sell ETH-USD size 1.000000 lev 2.0 (limit)");
    assert_eq!(manual_trade_message(&l, false), "Failed to send trade (channel full?)");
}

fn request(signal: Option<&str>, kind: Option<&str>, size: Option<i128>, price: Option<i128>) -> SignalRequest {
    SignalRequest {
        signal: signal.map(|s| s.to_string()),
        kind: kind.map(|s| s.to_string()),
        size,
        leverage: None,
        price,
    }
}

#[test]
fn a_missing_signal_is_quiet() {
    for s in [None, Some(""), Some("none")] {
        let d = handle_script_signal(&request(s, None, Some(ONE), None), "ETH-USD");
        assert!(matches!(d, SignalDecision::Quiet));
    }
}

#[test]
fn a_bad_signal_is_refused() {
    let cases = [
        (request(Some("hold"), None, Some(ONE), None), "Script: unknown signal 'hold'"),
        (request(Some("buy"), None, None, None), "Script: signal_size <= 0, not sending"),
        (request(Some("sell"), Some("limit"), Some(ONE), None), "Script: limit signal but price <= 0"),
        (request(Some("buy_limit"), None, Some(ONE), Some(0)), "Script: limit signal but price <= 0"),
    ];
    for (req, reason) in cases {
        match handle_script_signal(&req, "ETH-USD") {
            SignalDecision::Refused { info } => assert_eq!(info, reason),
            other => panic!("{other:?}"),
        }
    }
}

#[test]
fn a_good_signal_is_sent() {
    match handle_script_signal(&request(Some("sell_limit"), None, Some(ONE), Some(9)), "ETH-USD") {
        SignalDecision::Send { cmd, kind } => {
            assert_eq!((cmd.side.as_str(), cmd.price, cmd.leverage), ("sell", Some(9), ONE));
            assert_eq!(cmd.source, "script");
            assert_eq!(kind, "market");
            assert_eq!(
                script_order_message(&cmd, &kind, true),
                "Script sent sell ETH-USD size 1.000000 lev 1.0 (market)"
            );
            assert_eq!(
                script_order_message(&cmd, &kind, false),
                "Script: failed to send TradeCmd (channel full?)"
            );
        }
        other => panic!("{other:?}"),
    }
}

#[test]
fn the_preview_shows_notional_and_margin() {
    assert_eq!(
        order_preview(ONE / 2, 4000 * ONE, 5 * ONE),
        "Mid: 4000.00 | Notional \u{2248} 2000.0000 | Implied margin @ x5.0 \u{2248} 400.0000"
    );
    assert_eq!(
        order_preview(-ONE, 4000 * ONE, 0),
        "Mid: 4000.00 | Notional \u{2248} 0.0000 | Implied margin @ x1.0 \u{2248} 0.0000"
    );
}
