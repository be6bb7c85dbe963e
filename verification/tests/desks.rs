use ladder_app::bot::ScriptOutcome;
use ladder_app::clock::{TimeDisplayMode, TimeMode};
use ladder_app::desk::{newest_trades, AppCore, SHOWN_LEVELS, SHOWN_TRADES};
use ladder_app::events::{append_trade_csv, load_ticker_data, TickerData};
use ladder_app::ledger::START_BALANCE;
use ladder_app::orders::{OrderSide, TradeKind};
use ladder_app::scripts::{BOT_SCRIPT, DESK_SCRIPT};
use ladder_app::session::{last_label, range_label, ComboApp, Mode};
use ladder_app::start::build_engine;
use ladder_app::store::TickerStore;
use ladder_app::timeline::{TimePos, TimeRange};
use ladder_app::top_bar::WindowKind;

const ONE: i128 = 100_000_000;

fn lines(v: &[&str]) -> Vec<String> {
    v.iter().map(|s| s.to_string()).collect()
}

fn eth(last: u64) -> TickerData {
    let book = lines(&[
        "100,ETH-USD,delta,bid,4000,10",
        "110,ETH-USD,delta,ask,4000.5,1",
        &format!("{last},ETH-USD,delta,bid,3999,2"),
    ]);
    let trades = lines(&["105,ETH-USD,gui_manual,Buy,0.5"]);
    load_ticker_data("ETH-USD", &book, &trades).unwrap()
}

fn store() -> TickerStore {
    let mut s = TickerStore::new();
    s.insert(eth(200));
    s.insert(load_ticker_data("BTC-USD", &lines(&["50,BTC-USD,delta,bid,60000,1"]), &vec![]).unwrap());
    s
}

fn combo() -> ComboApp {
    ComboApp::new(store(), lines(&["ETH-USD", "BTC-USD", "SOL-USD"]), BOT_SCRIPT.to_string(), 1000)
}

fn desk() -> AppCore {
    AppCore::new(store(), lines(&["ETH-USD", "BTC-USD"]), DESK_SCRIPT.to_string(), 1000)
}

#[test]
fn the_bot_window_starts_live() {
    let a = combo();
    assert_eq!(a.current_ticker, "ETH-USD");
    assert_eq!((a.mode, a.time_mode), (Mode::Live, TimeDisplayMode::Local));
    assert_eq!(a.pos, TimePos { live_ts: 200, replay_ts: 200 });
    assert_eq!((a.reload_secs, a.trade_leverage, a.trade_size_units), (5 * ONE, 5 * ONE, 1_000_000));
    let empty = ComboApp::new(TickerStore::new(), vec![], String::new(), 7);
    assert_eq!(empty.current_ticker, "ETH-USD");
    assert_eq!(empty.pos, TimePos { live_ts: 7, replay_ts: 7 });
    assert!(empty.current_snap().is_none());
}

#[test]
fn a_frame_reloads_only_when_it_is_due() {
    let mut a = combo();
    a.frame(1004, Some(eth(300)));
    assert_eq!((a.pos.live_ts, a.last_reload_ts), (200, 1000));
    a.frame(1005, Some(eth(300)));
    assert_eq!((a.pos, a.last_reload_ts), (TimePos { live_ts: 300, replay_ts: 200 }, 1005));
    assert_eq!(a.ticker_range(), Some(TimeRange { min_ts: 100, max_ts: 300 }));
    a.frame(1010, None);
    assert_eq!((a.pos.live_ts, a.last_reload_ts), (300, 1010));
}

#[test]
fn another_market_is_shown_at_its_end() {
    let mut a = combo();
    a.select_ticker("BTC-USD");
    assert_eq!(a.pos, TimePos { live_ts: 50, replay_ts: 50 });
    a.select_ticker("SOL-USD");
    assert_eq!((a.current_ticker.as_str(), a.pos.live_ts), ("SOL-USD", 50));
    assert_eq!(a.ticker_range(), None);
}

#[test]
fn times_of_the_window_are_clamped() {
    let mut a = combo();
    a.pos = TimePos { live_ts: 1, replay_ts: 1 };
    a.clamp_ts_to_range();
    assert_eq!(a.pos, TimePos { live_ts: 200, replay_ts: 100 });
}

#[test]
fn both_modes_have_their_snapshot() {
    let mut a = combo();
    a.pos.replay_ts = 105;
    assert_eq!(a.current_snap_live().unwrap().bids.levels().len(), 2);
    let r = a.current_snap_replay().unwrap();
    assert_eq!((r.bids.levels().len(), r.asks.levels().len(), r.trades.len()), (1, 0, 1));
    a.mode = Mode::Replay;
    assert_eq!(a.current_snap().unwrap().asks.levels().len(), 0);
    a.mode = Mode::Live;
    assert_eq!(last_label(&a.current_snap().unwrap()), "Last mid: 4000.2500   Vol: 2.0000");
}

#[test]
fn the_panel_of_the_window_sends_its_order() {
    let mut a = combo();
    a.trade_side = OrderSide::Sell;
    let s = a.send_order();
    assert_eq!(s.cmd.unwrap().size, "0.01000000");
    assert_eq!(a.last_order_msg, "Sent Market Sell ETH-USD size 0.01000000");
}

#[test]
fn the_window_runs_its_bot() {
    let mut a = combo();
    assert!(!a.bot_is_shown());
    a.bot.auto_trade = true;
    let snap = a.current_snap().unwrap();
    let order = a.run_script(&build_engine(WindowKind::Bot), &snap, 1001).unwrap();
    assert_eq!((order.cmd.side, order.cmd.leverage), (OrderSide::Buy, 5 * ONE));
    assert!(a.bot_is_shown());
    a.trade_size_units = 7;
    a.use_bot_size();
    assert_eq!(a.trade_size_units, 1_000_000);
    a.bot.size = 0;
    a.trade_size_units = 7;
    a.use_bot_size();
    assert_eq!(a.trade_size_units, 7);
}

#[test]
fn the_window_has_a_grid() {
    let a = combo();
    for row in 0..6 {
        for cell in a.ui_grid(row, 900 * ONE, true) {
            assert!(cell.width > 0 && cell.width <= 900 * ONE);
        }
    }
}

#[test]
fn ranges_are_shown_as_text() {
    let r = TimeRange { min_ts: 5, max_ts: 9 };
    assert_eq!(range_label(TimeDisplayMode::Unix, &r), "Range: 5 \u{2192} 9");
}

#[test]
fn the_desk_starts_with_a_balance() {
    let d = desk();
    assert_eq!((d.ledger.balance_usdc, d.ledger.balance_pnl), (START_BALANCE, 0));
    assert_eq!((d.reload_secs, d.tf_secs, d.trade_leverage), (5, 60, ONE));
    assert_eq!(d.current_range(), Some(TimeRange { min_ts: 100, max_ts: 200 }));
}

#[test]
fn the_desk_selects_only_known_markets() {
    let mut d = desk();
    assert!(d.select_ticker("BTC-USD"));
    assert!(!d.select_ticker("DOGE-USD"));
    assert_eq!(d.current_ticker, "BTC-USD");
    assert_eq!(d.current_snapshot().unwrap().bids.levels().len(), 1);
}

#[test]
fn orders_of_the_desk_leave_receipts() {
    let mut d = desk();
    let o = d.send_manual_order(ONE, 3 * ONE, "sell", 5).unwrap();
    assert_eq!((o.cmd.side, o.cmd.kind, o.cmd.leverage), (OrderSide::Sell, TradeKind::Market, 3 * ONE));
    assert_eq!(o.note.source, "gui_manual");
    assert_eq!(d.order_message, "Sent Sell ETH-USD size 1.00000000");
    let b = d.send_manual_order(ONE, ONE, "SELL", 6).unwrap();
    assert_eq!(b.cmd.side, OrderSide::Buy);
    let c = d.send_order(ONE, "BUY", 7).unwrap();
    assert_eq!((c.cmd.side, c.cmd.leverage), (OrderSide::Buy, ONE));
    let e = d.send_order(ONE, "?", 8).unwrap();
    assert_eq!(e.cmd.side, OrderSide::Sell);
    let kinds: Vec<&str> = d.ledger.receipts.iter().map(|r| r.kind.as_str()).collect();
    assert_eq!(kinds, vec!["ManualMarket", "ManualMarket", "Manual", "Manual"]);
    assert_eq!((d.ledger.receipts[0].status.as_str(), d.ledger.receipts[0].comment.as_str()), ("submitted", "manual"));
}

#[test]
fn the_desk_simulates_transfers() {
    let mut d = desk();
    d.deposit(50 * ONE, 5);
    assert!(d.withdraw(-1050 * ONE, 6));
    assert_eq!(d.ledger.balance_usdc, 0);
    assert!(!d.withdraw(1, 7));
    assert_eq!(d.ledger.receipts.len(), 3);
}

#[test]
fn the_bot_of_the_desk_leaves_receipts() {
    let mut d = desk();
    d.bot.auto_trade = true;
    let snap = d.current_snapshot().unwrap();
    assert!(d.run_bot_script(&build_engine(WindowKind::Bot), &snap, 9).is_some());
    let r = &d.ledger.receipts[0];
    assert_eq!((r.kind.as_str(), r.side.as_str(), r.comment.as_str(), r.ts), ("BotAuto", "Buy", "Bid bubble detected", 9));
    assert!(d.run_bot_script(&build_engine(WindowKind::Bot), &snap, 10).is_none());
    assert_eq!(d.ledger.receipts.len(), 1);
    let failed = d.finish_bot_run(ScriptOutcome::Failed { error: "e".to_string() }, 11);
    assert!(failed.is_none());
    assert_eq!((d.bot.last_error.as_deref(), d.bot.last_run_ts), (Some("e"), 11));
}

#[test]
fn the_timer_of_the_desk_reloads_and_ticks() {
    let mut d = desk();
    assert!(!d.reload_is_due(1004));
    d.on_timer(1004, Some(eth(300)));
    assert_eq!((d.pos.live_ts, d.last_reload_ts), (200, 1000));
    d.on_timer(1005, Some(eth(300)));
    assert_eq!((d.pos.live_ts, d.last_reload_ts), (300, 1005));
    d.mode = Mode::Replay;
    d.pos.replay_ts = 150;
    d.on_timer(1006, None);
    assert_eq!(d.pos.replay_ts, 151);
    d.load_ticker(eth(400));
    assert_eq!(d.ticker_range().unwrap().max_ts, 400);
}

#[test]
fn the_window_of_the_desk_shows_its_market() {
    let mut d = desk();
    d.time_mode = TimeMode::Unix;
    d.mode = Mode::Replay;
    d.pos.replay_ts = 112;
    let (w, s) = d.update_ui_from_state().unwrap();
    assert_eq!((w.data_range.as_str(), w.current_time.as_str()), ("Range: 100 \u{2192} 200", "112"));
    assert_eq!((w.bids[0].price.as_str(), w.bids[0].size.as_str()), ("4000.00", "10.0000"));
    assert_eq!((w.asks.len(), w.recent_trades.len(), w.receipts.len()), (1, 1, 0));
    assert_eq!(w.metrics.mid, 400_025_000_000);
    assert_eq!(s.bids.levels().len(), 1);
    assert!(w.bids.len() <= SHOWN_LEVELS);
    d.current_ticker = "SOL-USD".to_string();
    assert!(d.update_ui_from_state().is_none());
}

#[test]
fn a_refresh_shows_the_desk_and_runs_its_bot() {
    let mut d = desk();
    d.time_mode = TimeMode::Unix;
    d.bot.auto_trade = true;
    let (w, order) = d.refresh(&build_engine(WindowKind::Bot), 9).unwrap();
    assert_eq!(w.current_time.as_str(), "200");
    assert_eq!(w.receipts.len(), 0);
    assert_eq!(order.unwrap().cmd.size.as_str(), "0.01000000");
    assert_eq!((d.ledger.receipts.len(), d.bot.last_run_ts), (1, 9));
    let (w, order) = d.refresh(&build_engine(WindowKind::Bot), 10).unwrap();
    assert!(order.is_none());
    assert_eq!(w.receipts.len(), 1);
    d.current_ticker = "SOL-USD".to_string();
    assert!(d.refresh(&build_engine(WindowKind::Bot), 11).is_none());
    assert_eq!(d.bot.last_run_ts, 10);
}

#[test]
fn the_newest_trades_come_first() {
    let rows: Vec<String> = (0..60u64).map(|i| append_trade_csv(i, "E", "s", "buy", "1")).collect();
    let t = load_ticker_data("E", &vec![], &rows).unwrap().trade_events;
    let shown = newest_trades(&t, SHOWN_TRADES);
    assert_eq!((shown.len(), shown[0].ts, shown[49].ts), (50, 59, 10));
    assert_eq!(newest_trades(&t, 100).len(), 60);
}
