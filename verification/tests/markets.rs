use ladder_app::book::Level;
use ladder_app::candle_agg::Candle;
use ladder_app::events::{
    append_book_csv, append_trade_csv, load_book_csv, load_ticker_data, load_trades_csv, sort_trades, TickerData,
    TradeCsvEvent,
};
use ladder_app::session::Mode;
use ladder_app::snapshot::{
    build_candles_from_book_events, compute_snapshot_for, compute_snapshots_for, empty_live_candles, live_series,
    replay_series, series_for_tf, tick_all,
};
use ladder_app::store::TickerStore;
use ladder_app::timeline::{reload_due, tick_live, LiveStep, TimePos, TimeRange};

const ONE: i128 = 100_000_000;

fn lines(v: &[&str]) -> Vec<String> {
    v.iter().map(|s| s.to_string()).collect()
}

fn market() -> TickerData {
    let book = lines(&[
        "100,ETH-USD,book_init,bid,10,2",
        "100,ETH-USD,book_init,ask,12,3",
        "130,ETH-USD,delta,BID,11,1",
        "170,ETH-USD,delta,ask,12,0",
        "171,ETH-USD,delta,ask,13,-4",
    ]);
    let trades = lines(&["160,ETH-USD,gui_manual,Buy,0.5", "90,ETH-USD,script,sell,1"]);
    load_ticker_data("ETH-USD", &book, &trades).unwrap()
}

#[test]
fn book_rows_are_read_leniently() {
    let rows = lines(&[
        "200,ETH-USD,delta,ask,5.5,1",
        "",
        "  100,\"ETH-USD\",delta,bid,5,2  ",
        "100,BTC-USD,delta,bid,5,2",
        "x,ETH-USD,delta,bid,5,2",
        "100,ETH-USD,delta,bid,five,2",
        "100,ETH-USD,delta,bid,5",
        "100,ETH-USD,delta,ask,6,1,more",
    ]);
    let got: Vec<(u64, String, i128, i128)> =
        load_book_csv(&rows, "ETH-USD").into_iter().map(|e| (e.ts, e.side, e.price, e.size)).collect();
    assert_eq!(
        got,
        vec![
            (100, "bid".to_string(), 5 * ONE, 2 * ONE),
            (100, "ask".to_string(), 6 * ONE, ONE),
            (200, "ask".to_string(), 550_000_000, ONE),
        ]
    );
}

#[test]
fn trade_rows_are_read_leniently() {
    let rows = lines(&["5,ETH-USD,a,buy,not a number", "4,ETH-USD,b,sell,1", "4,ETH-USD,c", "3,X,b,sell,1"]);
    let got: Vec<(u64, String)> = load_trades_csv(&rows, "ETH-USD").into_iter().map(|t| (t.ts, t.size_str)).collect();
    assert_eq!(got, vec![(4, "1".to_string()), (5, "not a number".to_string())]);
}

#[test]
fn rows_read_back_as_they_were_written() {
    let row = append_book_csv(7, "ETH-USD", "delta", "bid", 400_050_000_000, 25_000_000);
    assert_eq!(row, "7,ETH-USD,delta,bid,4000.5,0.25");
    let back = load_book_csv(&vec![row], "ETH-USD");
    assert_eq!((back[0].price, back[0].size, back[0].kind.as_str()), (400_050_000_000, 25_000_000, "delta"));
    let trade = append_trade_csv(9, "ETH-USD", "script", "buy", "0.1");
    assert_eq!(trade, "9,ETH-USD,script,buy,0.1");
    assert_eq!(load_trades_csv(&vec![trade], "ETH-USD")[0].source, "script");
    let unsized_trade = append_trade_csv(9, "ETH-USD", "script", "buy", "");
    assert_eq!(load_trades_csv(&vec![unsized_trade], "ETH-USD")[0].size_str, "");
}

#[test]
fn a_market_spans_its_events() {
    let d = market();
    assert_eq!((d.min_ts, d.max_ts), (90, 171));
    assert_eq!(d.book_events.len(), 5);
    assert_eq!(d.trade_events[0].ts, 90);
    assert!(load_ticker_data("BTC-USD", &vec![], &vec![]).is_none());
}

#[test]
fn trades_of_one_moment_keep_their_order() {
    let t = |ts: u64, s: &str| TradeCsvEvent {
        ts,
        ticker: "E".to_string(),
        source: s.to_string(),
        side: "b".to_string(),
        size_str: "1".to_string(),
    };
    let sorted = sort_trades(&vec![t(2, "a"), t(1, "b"), t(2, "c"), t(1, "d")]);
    let names: Vec<&str> = sorted.iter().map(|t| t.source.as_str()).collect();
    assert_eq!(names, vec!["b", "d", "a", "c"]);
}

#[test]
fn a_snapshot_is_the_market_at_one_time() {
    let d = market();
    let s = compute_snapshot_for(&d, 165, 60);
    assert_eq!(
        *s.bids.levels(),
        vec![Level { key: 100_000, size: 2 * ONE }, Level { key: 110_000, size: ONE }]
    );
    assert_eq!(*s.asks.levels(), vec![Level { key: 120_000, size: 3 * ONE }]);
    assert_eq!(
        s.candles,
        vec![
            Candle { t: 60, open: 11 * ONE, high: 11 * ONE, low: 11 * ONE, close: 11 * ONE, volume: 3 * ONE },
            Candle {
                t: 120,
                open: 1_150_000_000,
                high: 1_150_000_000,
                low: 1_150_000_000,
                close: 1_150_000_000,
                volume: ONE,
            },
        ]
    );
    assert_eq!((s.last_mid, s.last_vol), (1_150_000_000, ONE));
    assert_eq!(s.trades.len(), 2);
    assert_eq!(compute_snapshot_for(&d, 99, 60).trades.len(), 1);
}

#[test]
fn only_a_size_of_zero_removes_a_level() {
    let s = compute_snapshot_for(&market(), 171, 60);
    assert_eq!(*s.asks.levels(), vec![Level { key: 130_000, size: -4 * ONE }]);
    assert_eq!((s.last_mid, s.last_vol), (12 * ONE, 5 * ONE));
}

#[test]
fn a_snapshot_of_several_periods() {
    let d = market();
    let s = compute_snapshots_for(&d, 165, &vec![30, 60]);
    let times: Vec<u64> = s.candles_by_tf[0].series().iter().map(|c| c.t).collect();
    assert_eq!(times, vec![90, 120]);
    assert_eq!(s.last_mid, 1_150_000_000);
    let single = compute_snapshot_for(&d, 165, 60);
    assert_eq!(*s.candles_by_tf[1].series(), single.candles);
    let without_minute = compute_snapshots_for(&d, 165, &vec![30]);
    assert_eq!((without_minute.last_mid, without_minute.last_vol), (0, 0));
}

#[test]
fn only_the_newest_trades_are_shown() {
    let rows: Vec<String> = (0..250u64).map(|i| append_trade_csv(i, "E", "s", "buy", "1")).collect();
    let d = load_ticker_data("E", &vec![], &rows).unwrap();
    let s = compute_snapshot_for(&d, 1000, 60);
    assert_eq!(s.trades.len(), 200);
    assert_eq!(s.trades[0].ts, 50);
}

#[test]
fn candles_are_built_from_events() {
    let d = market();
    let (aggs, last) = build_candles_from_book_events(&d.book_events, &vec![60]);
    assert_eq!(last, 171);
    assert_eq!(*aggs[0].series(), compute_snapshot_for(&d, 171, 60).candles);
    assert_eq!(build_candles_from_book_events(&vec![], &vec![60]).1, 0);
}

#[test]
fn series_are_looked_up_by_period() {
    let mut aggs = empty_live_candles(&vec![30, 60]);
    tick_all(&mut aggs, 100, ONE, 1);
    tick_all(&mut aggs, 130, 2 * ONE, 1);
    assert_eq!(live_series(&aggs, 30).len(), 2);
    assert_eq!(live_series(&aggs, 7).len(), 0);
    assert_eq!(replay_series(&aggs, 7), live_series(&aggs, 60));
    assert_eq!(series_for_tf(&aggs, 30), live_series(&aggs, 30));
    let mut other = empty_live_candles(&vec![30, 60]);
    other[0].update(5, ONE, 0);
    assert_eq!(series_for_tf(&other, 60), live_series(&other, 30));
}

#[test]
fn the_store_keeps_one_entry_per_market() {
    let mut s = TickerStore::new();
    assert!(s.get("ETH-USD").is_none());
    assert_eq!(s.latest(), 0);
    s.insert(market());
    assert_eq!(s.range("ETH-USD"), Some(TimeRange { min_ts: 90, max_ts: 171 }));
    s.insert(load_ticker_data("ETH-USD", &lines(&["300,ETH-USD,delta,bid,1,1"]), &vec![]).unwrap());
    assert_eq!(s.range("ETH-USD"), Some(TimeRange { min_ts: 300, max_ts: 300 }));
    assert_eq!(s.latest(), 300);
    assert_eq!(s.range("BTC-USD"), None);
}

fn at(live_ts: u64, replay_ts: u64) -> TimePos {
    TimePos { live_ts, replay_ts }
}

const R: TimeRange = TimeRange { min_ts: 10, max_ts: 20 };

#[test]
fn times_are_kept_in_range() {
    let mut p = at(5, 5);
    p.clamp_ts_to_range(&R);
    assert_eq!(p, at(20, 10));
    p.clamp_ts_to_range(&R);
    assert_eq!(p, at(20, 10));
    let mut q = at(15, 25);
    q.clamp_ts_to_range(&R);
    assert_eq!(q, at(15, 20));
    let mut k = at(0, 7);
    k.ensure_replay_ts_in_known_range(&TimeRange { min_ts: 0, max_ts: 0 });
    assert_eq!(k, at(0, 7));
    k.ensure_replay_ts_in_known_range(&R);
    assert_eq!(k, at(0, 10));
}

#[test]
fn reloads_move_the_times() {
    let mut p = at(15, 25);
    p.reload_current_ticker(&R);
    assert_eq!(p, at(20, 20));
    let mut l = at(15, 12);
    l.maybe_reload_csvs(&R, Mode::Live);
    assert_eq!(l, at(20, 12));
    let mut r = at(15, 9);
    r.maybe_reload_csvs(&R, Mode::Replay);
    assert_eq!(r, at(15, 20));
    let mut n = at(0, 0);
    n.reload_csv_if_due(50, &None);
    assert_eq!(n, at(50, 50));
    n.reload_csv_if_due(60, &Some(R));
    assert_eq!(n, at(20, 20));
    let mut w = at(15, 12);
    w.reload_csv_if_due(60, &Some(R));
    assert_eq!(w, at(20, 12));
    n.refresh_from_csv(&R);
    assert_eq!(n, at(20, 10));
}

#[test]
fn live_times_follow_the_market() {
    let mut p = at(1, 30);
    p.follow_tail(&R);
    assert_eq!(p, at(20, 30));
    assert!(p.advance_live(21));
    assert!(!p.advance_live(21));
    assert_eq!(p.live_ts, 21);
    p.follow(&R, Mode::Live);
    assert_eq!(p, at(20, 20));
    p.tick(&R, Mode::Live);
    assert_eq!(p, at(20, 20));
}

#[test]
fn a_replay_goes_on_by_seconds() {
    let mut p = at(0, 18);
    p.tick(&R, Mode::Replay);
    assert_eq!(p.replay_ts, 19);
    p.tick(&R, Mode::Replay);
    p.tick(&R, Mode::Replay);
    assert_eq!(p.replay_ts, 20);
    p.replay_ts = 99;
    p.tick(&R, Mode::Replay);
    assert_eq!(p.replay_ts, 10);
    p.follow(&R, Mode::Replay);
    assert_eq!(p, at(0, 10));
}

#[test]
fn steps_cancel_and_stop_at_the_ends() {
    let mut p = at(0, 10);
    p.step_back(&R);
    assert_eq!(p.replay_ts, 10);
    p.step_forward(&R);
    p.step_back(&R);
    assert_eq!(p.replay_ts, 10);
    p.jump_to_end(&R);
    p.step_forward(&R);
    assert_eq!(p.replay_ts, 20);
    p.select_ticker(&None);
    assert_eq!(p.replay_ts, 20);
    p.select_ticker(&Some(TimeRange { min_ts: 1, max_ts: 2 }));
    assert_eq!(p, at(2, 2));
}

#[test]
fn the_shown_time_lies_in_the_range() {
    assert_eq!(at(0, 15).current_ts(&R, Mode::Live), 20);
    assert_eq!(at(0, 15).current_ts(&R, Mode::Replay), 15);
    assert_eq!(at(3, 0).current_ts(&R, Mode::Live), 10);
    assert_eq!(at(33, 0).current_ts(&R, Mode::Live), 20);
}

#[test]
fn reloads_are_due_after_the_interval() {
    assert!(reload_due(105, 100, 5 * ONE));
    assert!(!reload_due(104, 100, 5 * ONE));
    assert!(!reload_due(90, 100, 5 * ONE));
    assert!(reload_due(90, 100, 0));
    assert!(reload_due(101, 100, 50_000_000));
}

#[test]
fn the_live_snapshot_is_computed_when_events_come() {
    assert_eq!(tick_live(None, true, 5), LiveStep::Drop);
    assert_eq!(tick_live(Some(0), true, 0), LiveStep::Drop);
    assert_eq!(tick_live(Some(7), false, 7), LiveStep::Compute { ts: 7 });
    assert_eq!(tick_live(Some(7), true, 6), LiveStep::Compute { ts: 7 });
    assert_eq!(tick_live(Some(7), true, 7), LiveStep::Keep);
}
