use ladder_app::orders::{OrderSide, PanelCmd, TradeCmd, TradeKind};
use ladder_app::top_bar::WindowKind;
use ladder_app::trade_panel::{PanelEvent, TradePanel, MAX_PRICE, MAX_SIZE};
use ladder_app::trader::{
    action_for, line_for, note_for, step, ticker_in, Job, TraderAction, TraderEvent, TraderState, TraderStyle, BLOCKS_AHEAD,
    CLIENT_ID, GUARD_PRICE,
};

const ONE: i128 = 100_000_000;

fn job(kind: TradeKind, limit_price: i128) -> Job {
    Job::from_trade(TradeCmd {
        ticker: "ETH-USD".to_string(),
        side: OrderSide::Buy,
        size: "0.5".to_string(),
        kind,
        limit_price,
        leverage: 250_000_000,
    })
}

fn failed() -> TraderEvent {
    TraderEvent::Failed { error: "why".to_string() }
}

const STYLES: [TraderStyle; 5] =
    [TraderStyle::Guarded, TraderStyle::Beside, TraderStyle::Bare, TraderStyle::Levered, TraderStyle::Plain];

#[test]
fn the_trader_starts_up_in_order() {
    for style in STYLES {
        let (s, _) = step(style, TraderState::Config, TraderEvent::Ready);
        assert!(matches!(action_for(style, &s), TraderAction::ReadPhrase));
        let (s, _) = step(style, s, TraderEvent::Phrase { raw: "  one \n two  ".to_string() });
        match action_for(style, &s) {
            TraderAction::OpenWallet { phrase } => assert_eq!(phrase, "one two"),
            other => panic!("{other:?}"),
        }
        let (s, _) = step(style, s, TraderEvent::Ready);
        assert!(matches!(action_for(style, &s), TraderAction::Connect));
        let (s, _) = step(style, s, TraderEvent::Ready);
        assert!(matches!(action_for(style, &s), TraderAction::SyncAccount));
        let (s, _) = step(style, s, TraderEvent::Ready);
        assert!(matches!(action_for(style, &s), TraderAction::DeriveSubaccount));
        let (s, _) = step(style, s, TraderEvent::Ready);
        assert!(matches!(action_for(style, &s), TraderAction::AwaitOrder));
        let (s, _) = step(style, s, TraderEvent::Closed);
        assert!(matches!(action_for(style, &s), TraderAction::Stop));
    }
}

#[test]
fn a_failure_during_the_start_stops_the_trader() {
    let wallet = || TraderState::Wallet { phrase: String::new() };
    let cases: Vec<(TraderStyle, TraderState, &str)> = vec![
        (TraderStyle::Guarded, TraderState::Config, "[trader] failed to load testnet.toml: why"),
        (TraderStyle::Beside, TraderState::Config, "[trader] failed to load ../client/tests/testnet.toml: why"),
        (TraderStyle::Bare, TraderState::Config, "[trader] Failed to load testnet.toml: why"),
        (TraderStyle::Bare, TraderState::Phrase, "[trader] DYDX_TESTNET_MNEMONIC not set; trading disabled"),
        (TraderStyle::Bare, wallet(), "[trader] invalid mnemonic: why"),
        (TraderStyle::Bare, TraderState::Node, "[trader] node connect failed: why"),
        (TraderStyle::Bare, TraderState::Account, "[trader] account sync failed: why"),
        (TraderStyle::Bare, TraderState::Subaccount, "[trader] subaccount derive failed: why"),
    ];
    for (style, state, line) in cases {
        let (s, o) = step(style, state, failed());
        assert_eq!(o.line.as_deref(), Some(line));
        assert!(matches!(s, TraderState::Stopped) && o.note.is_none());
    }
}

#[test]
fn a_stopped_trader_stays_stopped() {
    let (s, o) = step(TraderStyle::Bare, TraderState::Stopped, TraderEvent::Order { job: job(TradeKind::Market, 0) });
    assert!(matches!(s, TraderState::Stopped) && o.line.is_none() && o.note.is_none());
}

#[test]
fn an_order_goes_through() {
    let lines = [
        ("[trader] Market Buy ETH-USD size 0.5 (limit guard: 0)", "[trader] placed Buy ETH-USD size 0.5 tx=H", Some("trader")),
        ("[trader] Market Buy ETH-USD size 0.5 (limit guard: 0)", "[trader] placed Buy ETH-USD size 0.5 tx=H", Some("trader")),
        ("[trader] market Buy ETH-USD size 0.5", "[trader] placed Buy ETH-USD size 0.5 tx=H", Some("gui_live")),
        (
            "[trader] MARKET Buy ETH-USD size 0.5 lev 2.5x",
            "[trader] placed MARKET Buy ETH-USD size 0.5 lev 2.5x tx=H",
            Some("gui_live_market"),
        ),
        ("[trader] market Buy ETH-USD size 0.5 lev 2.5", "[trader] placed Buy ETH-USD size 0.5 lev 2.5 tx=H", None),
    ];
    for (style, (came, placed, source)) in STYLES.iter().zip(lines) {
        let (s, o) = step(*style, TraderState::Idle, TraderEvent::Order { job: job(TradeKind::Market, 0) });
        assert_eq!(o.line.as_deref(), Some(came));
        assert!(matches!(action_for(*style, &s), TraderAction::FetchMarket { ticker } if ticker == "ETH-USD"));
        let (s, _) = step(*style, s, TraderEvent::Ready);
        assert!(matches!(action_for(*style, &s), TraderAction::FetchHeight));
        let (s, _) = step(*style, s, TraderEvent::Ready);
        assert!(matches!(action_for(*style, &s), TraderAction::Build { .. }));
        let (s, _) = step(*style, s, TraderEvent::Ready);
        assert!(matches!(action_for(*style, &s), TraderAction::Place));
        let (s, o) = step(*style, s, TraderEvent::Placed { hash: "H".to_string() });
        assert_eq!(o.line.as_deref(), Some(placed));
        assert_eq!(o.note.as_ref().map(|n| n.source.as_str()), source);
        assert!(matches!(s, TraderState::Idle));
    }
}

#[test]
fn a_failed_order_leaves_no_row() {
    let j = || job(TradeKind::Market, 0);
    let cases = [
        (TraderState::Market { job: j() }, "[trader] market meta error for ETH-USD: why"),
        (TraderState::Height { job: j() }, "[trader] height error: why"),
        (TraderState::Built { job: j() }, "[trader] build order error: why"),
        (TraderState::Placing { job: j() }, "[trader] place_order error: why"),
    ];
    for (state, line) in cases {
        assert_eq!(line_for(TraderStyle::Guarded, &state, &failed()).as_deref(), Some(line));
        assert!(note_for(TraderStyle::Guarded, &state, &failed()).is_none());
        let (s, _) = step(TraderStyle::Guarded, state, failed());
        assert!(matches!(s, TraderState::Idle));
    }
}

#[test]
fn rows_go_to_the_log_of_their_market() {
    let order = TraderEvent::Order { job: job(TradeKind::Limit, ONE) };
    assert_eq!(ticker_in(&TraderState::Idle, &order).as_deref(), Some("ETH-USD"));
    let placing = TraderState::Placing { job: job(TradeKind::Market, 0) };
    let placed = TraderEvent::Placed { hash: "h".to_string() };
    assert!(note_for(TraderStyle::Bare, &placing, &placed).is_some());
    assert_eq!(ticker_in(&placing, &placed).as_deref(), Some("ETH-USD"));
    assert_eq!(ticker_in(&TraderState::Idle, &placed), None);
}

#[test]
fn orders_are_guarded() {
    let terms = |style: TraderStyle, price: i128| {
        match action_for(style, &TraderState::Built { job: job(TradeKind::Market, price) }) {
            TraderAction::Build { ticker, side, size, terms } => {
                assert_eq!((ticker.as_str(), side, size.as_str()), ("ETH-USD", OrderSide::Buy, "0.5"));
                terms
            }
            other => panic!("{other:?}"),
        }
    };
    let t = terms(TraderStyle::Guarded, 0);
    assert_eq!((t.guard, t.reduce_only, t.blocks_ahead, t.client_id), (None, false, BLOCKS_AHEAD, CLIENT_ID));
    assert_eq!(terms(TraderStyle::Guarded, ONE).guard, Some(GUARD_PRICE));
    assert_eq!(terms(TraderStyle::Bare, 0).guard, Some(GUARD_PRICE));
}

#[test]
fn limit_orders_of_the_two_kind_panel_are_only_noted() {
    let limit = Job::from_panel(PanelCmd::LimitOrder {
        ticker: "ETH-USD".to_string(),
        side: OrderSide::Sell,
        size: "0.5".to_string(),
        price: "4000.5".to_string(),
        leverage: ONE,
    });
    assert_eq!(limit.kind, TradeKind::Limit);
    let (s, o) = step(TraderStyle::Levered, TraderState::Idle, TraderEvent::Order { job: limit });
    assert!(matches!(s, TraderState::Idle));
    assert_eq!(o.line.as_deref(), Some("[trader] LIMIT (placeholder) Sell ETH-USD size 0.5 price 4000.5 lev 1.0x"));
    let n = o.note.unwrap();
    assert_eq!((n.source.as_str(), n.size_str.as_str()), ("gui_live_limit_placeholder", "size=0.5@4000.5"));
    let market = Job::from_panel(PanelCmd::MarketOrder {
        ticker: "ETH-USD".to_string(),
        side: OrderSide::Sell,
        size: "0.5".to_string(),
        leverage: ONE,
    });
    assert_eq!((market.kind, market.price.as_str()), (TradeKind::Market, ""));
}

#[test]
fn panels_keep_their_values_in_range() {
    let mut p = TradePanel::new(WindowKind::Feed);
    assert_eq!((p.size, p.leverage), (1_000_000, 5 * ONE));
    p.handle(WindowKind::Feed, &PanelEvent::Size { units: -1 });
    assert_eq!(p.sent_size(), 0);
    p.handle(WindowKind::Feed, &PanelEvent::Size { units: 2 * MAX_SIZE });
    assert_eq!(p.size, MAX_SIZE);
    p.handle(WindowKind::Feed, &PanelEvent::Leverage { factor: 0 });
    assert_eq!(p.leverage, ONE);
    p.handle(WindowKind::Feed, &PanelEvent::LimitPrice { price: 5 });
    assert_eq!(p.limit_price, 0);
    p.handle(WindowKind::Feed, &PanelEvent::Kind { kind: TradeKind::Limit });
    p.handle(WindowKind::Feed, &PanelEvent::LimitPrice { price: 2 * MAX_PRICE });
    assert_eq!(p.limit_price, MAX_PRICE);
    p.handle(WindowKind::Feed, &PanelEvent::ReduceOnly { on: true });
    assert!(p.reduce_only);
    p.handle(WindowKind::Feed, &PanelEvent::Side { side: OrderSide::Sell });
    assert_eq!(p.side, OrderSide::Buy);
}

#[test]
fn the_bot_panel_takes_over_the_bot_size() {
    let mut p = TradePanel::new(WindowKind::Bot);
    p.handle(WindowKind::Bot, &PanelEvent::Side { side: OrderSide::Sell });
    p.handle(WindowKind::Bot, &PanelEvent::UseBotSize { units: 7 });
    p.handle(WindowKind::Bot, &PanelEvent::UseBotSize { units: 0 });
    assert_eq!((p.side, p.size), (OrderSide::Sell, 7));
    let mut s = TradePanel::new(WindowKind::Script);
    assert_eq!(s.leverage, ONE);
    s.handle(WindowKind::Script, &PanelEvent::Leverage { factor: -1 });
    assert_eq!(s.leverage, 0);
}
