use ladder_app::book::{BookState, Quote, Side};
use ladder_app::candle_agg::Candle;
use ladder_app::chart::{AxisRange, ChartSettings};
use ladder_app::clock::TimeDisplayMode;
use ladder_app::events::{append_trade_csv, load_ticker_data, load_trades_csv, TickerData};
use ladder_app::layout::LayoutSettings;
use ladder_app::panes::{
    bar_notes, book_pane, bot_status, bot_text, chart_heights, chart_pane, feed_widths, heading, heading_with,
    last_text, log_summary, no_candles_text, no_data_text, no_volume_text, panel_bot_text, panel_widths_for, script_status, summary,
    top_height, trade_lines, widths_for, PaneRatios, PaneWidths, RatioEvent,
};
use ladder_app::session::Mode;
use ladder_app::snapshot::empty_live_candles;
use ladder_app::start::{build_engine, default_tickers, engine_limits, start_ticker, start_times};
use ladder_app::store::TickerStore;
use ladder_app::timeline::{interval_over, TimePos, TimeRange};
use ladder_app::top_bar::{BarEvent, TopBar, WindowKind};
use ladder_app::windows::{replace_all, series_from_snap, snapshot_for_mode, take_all, update_snapshots};

const ONE: i128 = 100_000_000;
const R: TimeRange = TimeRange { min_ts: 10, max_ts: 20 };
const KINDS: [WindowKind; 9] = [
    WindowKind::Feed,
    WindowKind::Panel,
    WindowKind::Chart,
    WindowKind::Script,
    WindowKind::Object,
    WindowKind::Context,
    WindowKind::Wall,
    WindowKind::Grid,
    WindowKind::Bot,
];

fn data(ticker: &str, times: &[u64]) -> TickerData {
    let lines: Vec<String> = times
        .iter()
        .flat_map(|t| vec![format!("{t},{ticker},delta,bid,10,1"), format!("{t},{ticker},delta,ask,12,1")])
        .collect();
    load_ticker_data(ticker, &lines, &vec![]).unwrap()
}

fn store() -> TickerStore {
    let mut s = TickerStore::new();
    s.insert(data("BTC-USD", &[30, 40]));
    s.insert(data("ETH-USD", &[10, 20]));
    s
}

fn bar(kind: WindowKind) -> TopBar {
    TopBar::new(kind, &store(), &default_tickers(), 1000)
}

fn at(live_ts: u64, replay_ts: u64) -> TimePos {
    TimePos { live_ts, replay_ts }
}

#[test]
fn windows_start_with_their_market_and_times() {
    let tickers = default_tickers();
    assert_eq!(tickers, vec!["ETH-USD", "BTC-USD", "SOL-USD"]);
    for kind in KINDS {
        assert_eq!(bar(kind).ticker, "ETH-USD");
    }
    assert_eq!(bar(WindowKind::Feed).pos, at(20, 20));
    assert_eq!(bar(WindowKind::Panel).pos, at(1000, 20));
    assert_eq!(bar(WindowKind::Bot).pos, at(20, 20));
    assert_eq!(bar(WindowKind::Wall).pos, at(20, 20));
    assert_eq!(bar(WindowKind::Object).pos, at(40, 40));
    assert_eq!(bar(WindowKind::Grid).pos, at(40, 30));
    let empty = TickerStore::new();
    assert_eq!(start_times(WindowKind::Chart, &empty, &tickers, 7), at(0, 0));
    assert_eq!(start_times(WindowKind::Bot, &empty, &tickers, 7), at(7, 7));
    assert_eq!(start_times(WindowKind::Feed, &empty, &tickers, 7), at(7, 0));
    let mut btc = TickerStore::new();
    btc.insert(data("BTC-USD", &[30]));
    assert_eq!(start_ticker(WindowKind::Grid, &btc, &tickers), "BTC-USD");
    assert_eq!(start_ticker(WindowKind::Wall, &btc, &vec!["SOL-USD".to_string()]), "SOL-USD");
    assert_eq!(start_ticker(WindowKind::Script, &btc, &vec!["SOL-USD".to_string()]), "SOL-USD");
}

#[test]
fn windows_start_with_their_settings() {
    assert_eq!((bar(WindowKind::Script).chart.show_candles, bar(WindowKind::Script).reload_secs), (300, ONE));
    assert_eq!((bar(WindowKind::Bot).chart.show_candles, bar(WindowKind::Bot).reload_secs), (200, 5 * ONE));
    let grid = engine_limits(WindowKind::Grid);
    assert_eq!((grid.operations, grid.modules, grid.depth), (Some(200_000), Some(8), Some(32)));
    assert_eq!(engine_limits(WindowKind::Wall).operations, None);
}

#[test]
fn engines_have_the_limits_of_their_window() {
    let grid = build_engine(WindowKind::Grid);
    assert_eq!((grid.max_operations(), grid.max_modules()), (200_000, 8));
    assert_eq!((grid.max_expr_depth(), grid.max_function_expr_depth()), (32, 32));
    let bot = build_engine(WindowKind::Bot);
    assert_eq!((bot.max_operations(), bot.max_modules()), (200_000, usize::MAX));
    assert_eq!((bot.max_expr_depth(), bot.max_function_expr_depth()), (64, 64));
    assert_eq!(build_engine(WindowKind::Object).max_modules(), 0);
    let wall = build_engine(WindowKind::Wall);
    assert_eq!((wall.max_expr_depth(), wall.max_function_expr_depth(), wall.max_call_levels()), (64, 32, 4));
    assert_eq!((wall.max_string_size(), wall.max_array_size(), wall.max_map_size()), (10_000, 64, 64));
    assert!(wall.is_symbol_disabled("eval") && wall.is_symbol_disabled("import") && !wall.allow_anonymous_fn());
    assert_eq!(build_engine(WindowKind::Context).max_operations(), 200_000);
    assert!(build_engine(WindowKind::Script).eval::<()>("loop { }").is_err());
}

#[test]
fn histories_and_zooms_are_clamped() {
    for kind in KINDS {
        let mut b = bar(kind);
        let before = b.chart;
        b.handle(&BarEvent::History { candles: 1_000_000 }, &None);
        match kind.history() {
            Some((_, hi)) => assert_eq!(b.chart.show_candles, hi),
            None => assert_eq!(b.chart, before),
        }
        b.handle(&BarEvent::Zoom { factor: 0 }, &None);
        match kind.zoom() {
            Some((lo, _)) => assert_eq!(b.chart.x_zoom, lo),
            None => assert_eq!(b.chart.x_zoom, before.x_zoom),
        }
        let secs = b.reload_secs;
        b.handle(&BarEvent::Reload { secs: 0 }, &None);
        match kind.reload() {
            Some((lo, _)) => assert_eq!(b.reload_secs, lo),
            None => assert_eq!(b.reload_secs, secs),
        }
    }
}

#[test]
fn menus_offer_their_periods() {
    let mut b = bar(WindowKind::Script);
    b.handle(&BarEvent::Period { tf_secs: 180 }, &None);
    assert_eq!(b.chart.tf_secs, 180);
    b.handle(&BarEvent::Period { tf_secs: 77 }, &None);
    assert_eq!(b.chart.tf_secs, 180);
    let mut c = bar(WindowKind::Context);
    c.handle(&BarEvent::Period { tf_secs: 77 }, &None);
    assert_eq!(c.chart.tf_secs, 77);
    c.handle(&BarEvent::Period { tf_secs: 0 }, &None);
    assert_eq!(c.chart.tf_secs, 1);
    for kind in KINDS {
        if let Some(menu) = kind.menu() {
            assert!(menu.iter().all(|tf| *tf > 0) && menu.contains(&60));
        }
    }
}

#[test]
fn replay_controls_work_in_replay_only() {
    let mut b = bar(WindowKind::Bot);
    b.handle(&BarEvent::Back, &Some(R));
    assert_eq!(b.pos.replay_ts, 20);
    b.handle(&BarEvent::SelectMode { mode: Mode::Replay }, &Some(R));
    b.handle(&BarEvent::Back, &Some(R));
    assert_eq!(b.pos.replay_ts, 19);
    b.handle(&BarEvent::ReplayTo { ts: 1 }, &Some(R));
    assert_eq!(b.pos.replay_ts, 10);
    b.handle(&BarEvent::Back, &Some(R));
    assert_eq!(b.pos.replay_ts, 10);
    b.handle(&BarEvent::Forward, &Some(R));
    assert_eq!(b.pos.replay_ts, 11);
    b.handle(&BarEvent::Now, &Some(R));
    assert_eq!(b.pos.replay_ts, 20);
    b.handle(&BarEvent::Back, &None);
    assert_eq!(b.pos.replay_ts, 20);
}

#[test]
fn some_windows_clamp_before_a_step() {
    let mut b = bar(WindowKind::Object);
    b.mode = Mode::Replay;
    b.pos.replay_ts = 40;
    b.handle(&BarEvent::Back, &Some(R));
    assert_eq!(b.pos.replay_ts, 19);
    let mut p = bar(WindowKind::Bot);
    p.mode = Mode::Replay;
    p.pos.replay_ts = 40;
    p.handle(&BarEvent::Back, &Some(R));
    assert_eq!(p.pos.replay_ts, 39);
}

#[test]
fn another_market_moves_the_times() {
    let other = TimeRange { min_ts: 30, max_ts: 40 };
    let select = || BarEvent::SelectTicker { ticker: "BTC-USD".to_string(), range: Some(other) };
    let expected = [
        at(20, 40),
        at(1000, 40),
        at(40, 40),
        at(40, 40),
        at(40, 40),
        at(20, 20),
        at(40, 30),
        at(40, 30),
        at(40, 40),
    ];
    for (kind, pos) in KINDS.iter().zip(expected) {
        let mut b = bar(*kind);
        b.chart.x_zoom = 2 * ONE;
        b.handle(&select(), &Some(R));
        assert_eq!((b.ticker.as_str(), b.pos), ("BTC-USD", pos), "{kind:?}");
        assert_eq!(b.chart.x_zoom, if *kind == WindowKind::Chart { ONE } else { 2 * ONE });
    }
    let mut c = bar(WindowKind::Chart);
    c.handle(&BarEvent::SelectTicker { ticker: "SOL-USD".to_string(), range: None }, &Some(R));
    assert_eq!(c.pos, at(0, 0));
}

#[test]
fn scales_and_switches_follow_their_controls() {
    let mut b = bar(WindowKind::Bot);
    b.handle(&BarEvent::YMin { price: 5 }, &None);
    assert_eq!(b.chart.y_min, 0);
    b.handle(&BarEvent::AutoY { on: false }, &None);
    b.handle(&BarEvent::YMin { price: 5 }, &None);
    b.handle(&BarEvent::YMax { price: 6 }, &None);
    assert_eq!((b.chart.y_min, b.chart.y_max), (5, 6));
    b.handle(&BarEvent::ResetY, &None);
    assert!(b.chart.auto_y);
    b.handle(&BarEvent::ShowDepth { on: false }, &None);
    b.handle(&BarEvent::ShowLadders { on: false }, &None);
    b.handle(&BarEvent::ShowTrades { on: false }, &None);
    b.handle(&BarEvent::ShowVolume { on: false }, &None);
    assert!(!b.layout.show_depth && !b.layout.show_ladders && !b.layout.show_trades && !b.layout.show_volume);
    let mut w = bar(WindowKind::Wall);
    w.handle(&BarEvent::ShowDepth { on: false }, &None);
    w.handle(&BarEvent::AutoY { on: false }, &None);
    assert!(w.layout.show_depth && w.chart.auto_y);
    let mut f = bar(WindowKind::Feed);
    f.handle(&BarEvent::PanLeft, &None);
    assert_eq!(f.chart.x_pan_secs, -600 * ONE);
    f.handle(&BarEvent::CenterX, &None);
    assert_eq!(f.chart.x_pan_secs, 0);
    f.handle(&BarEvent::PanRight, &None);
    assert_eq!(f.chart.x_pan_secs, 600 * ONE);
    f.handle(&BarEvent::SelectTime { time_mode: TimeDisplayMode::Unix }, &None);
    assert_eq!(f.time_mode, TimeDisplayMode::Unix);
    assert!(WindowKind::Feed.has_pan() && WindowKind::Grid.has_center() && !WindowKind::Grid.has_reset());
    assert!(!WindowKind::Grid.has_switches());
}

#[test]
fn scrolls_zoom_the_range_of_prices() {
    for kind in KINDS {
        for volume in [false, true] {
            let mut b = bar(kind);
            b.chart.y_min = 90 * ONE;
            b.chart.y_max = 110 * ONE;
            b.handle(&BarEvent::Scroll { milli: 100_000, volume }, &None);
            let zoomed = (88 * ONE, 112 * ONE);
            let kept = (90 * ONE, 110 * ONE);
            assert_eq!((b.chart.y_min, b.chart.y_max), if kind.has_scroll(volume) { zoomed } else { kept });
            assert_eq!(b.chart.auto_y, !kind.has_scroll(volume));
        }
    }
    assert!(WindowKind::Script.has_scroll(false) && !WindowKind::Script.has_scroll(true));
    assert!(WindowKind::Bot.has_scroll(true) && !WindowKind::Wall.has_scroll(false));
}

#[test]
fn the_grid_goes_to_the_newest_events() {
    let mut g = bar(WindowKind::Grid);
    g.handle(&BarEvent::Latest, &Some(R));
    assert_eq!(g.pos, at(20, 30));
    g.mode = Mode::Replay;
    g.pos.live_ts = 5;
    g.handle(&BarEvent::Latest, &Some(R));
    assert_eq!(g.pos.live_ts, 5);
}

#[test]
fn a_live_feed_makes_candles() {
    let mut b = bar(WindowKind::Feed);
    let mut candles = empty_live_candles(&vec![30, 60]);
    let mut book = BookState::new();
    b.tick_live(&book, &mut candles, 100);
    assert_eq!((b.pos, candles[0].series().len()), (at(100, 20), 0));
    book.apply_initial(&vec![Quote { price: 10 * ONE, size: ONE }], &vec![Quote { price: 12 * ONE, size: ONE }]);
    b.tick_live(&book, &mut candles, 130);
    assert_eq!(b.pos.live_ts, 130);
    assert_eq!((candles[1].series()[0].t, candles[1].series()[0].close, candles[1].series()[0].volume), (120, 11 * ONE, 0));
}

#[test]
fn script_panels_say_how_the_script_went() {
    let lines = |kind: WindowKind, error: &str, info: &str, signal: &str, comment: &str| -> Vec<(bool, String)> {
        script_status(kind, error, info, signal, ONE, comment).into_iter().map(|l| (l.alarm, l.text)).collect()
    };
    let plain = |t: &str| (false, t.to_string());
    let alarm = |t: &str| (true, t.to_string());
    assert_eq!(lines(WindowKind::Script, "e", "i", "", ""), vec![alarm("Script error: e"), plain("i")]);
    assert_eq!(lines(WindowKind::Object, "", "", "buy", ""), vec![plain("Last bot signal: buy  size 1.000000")]);
    assert_eq!(lines(WindowKind::Context, "e", "", "buy", ""), vec![alarm("Script error: e")]);
    assert_eq!(
        lines(WindowKind::Wall, "", "", "FLAT", "idle"),
        vec![plain("Bot signal: FLAT, size: 1.000000"), plain("Bot comment: idle")]
    );
    assert_eq!(lines(WindowKind::Grid, "e", "i", "", ""), vec![alarm("Error: e")]);
    assert_eq!(
        lines(WindowKind::Grid, "", "i", "x", "c"),
        vec![plain("i"), plain("Bot signal: x | size: 1.0000"), plain("Comment: c")]
    );
    assert_eq!(lines(WindowKind::Bot, "e", "", "buy", ""), vec![alarm("e")]);
    assert_eq!(lines(WindowKind::Bot, "", "", "buy", "c"), vec![plain("Last signal: buy size 1.0000  c")]);
    assert_eq!(lines(WindowKind::Feed, "e", "i", "buy", "c"), vec![]);
    assert_eq!(bot_status("buy", ONE, "c", true), vec!["Signal: buy  size 1.0000", "Comment: c", "Auto-trade: ON"]);
    assert_eq!(bot_status("buy", ONE, "c", false)[2], "Auto-trade: OFF");
    assert_eq!(bar_notes(WindowKind::Wall, "FLAT", ONE, 0, 0), vec!["Bot:", "FLAT (size 1.000000)"]);
    assert_eq!(bar_notes(WindowKind::Grid, "", 0, ONE, ONE), vec!["Mid: 1.00", "Last vol: 1.0000"]);
    assert_eq!(panel_bot_text("buy", ONE, "c").as_deref(), Some("Bot: buy size 1.000000  c"));
    assert_eq!(panel_bot_text("", ONE, "c"), None);
}

#[test]
fn the_summary_counts_the_events() {
    let s = store();
    assert_eq!(
        log_summary("ETH-USD", s.get("ETH-USD"), TimeDisplayMode::Unix),
        vec!["Ticker: ETH-USD", "CSV range: 10 \u{2192} 20", "Book events: 4", "Trade events: 0"]
    );
    assert_eq!(log_summary("SOL-USD", s.get("SOL-USD"), TimeDisplayMode::Unix), vec!["No ticker data loaded."]);
}

#[test]
fn bars_say_what_they_show() {
    let mut b = bar(WindowKind::Feed);
    b.time_mode = TimeDisplayMode::Unix;
    let l = b.labels(&Some(R));
    assert_eq!(l.ticker, "Ticker: ETH-USD");
    assert_eq!(l.range, "Replay range: 10 \u{2192} 20");
    assert_eq!((l.replay.as_str(), l.time.as_str()), ("Replay ts: 20", "Live ts: 20"));
    let mut bot = bar(WindowKind::Bot);
    bot.time_mode = TimeDisplayMode::Unix;
    assert_eq!(bot.labels(&Some(R)).time, "Live @ 20");
    bot.mode = Mode::Replay;
    bot.pos.replay_ts = 12;
    assert_eq!(bot.labels(&Some(R)).time, "Replay @ 12");
    assert_eq!(bar(WindowKind::Script).labels(&None).missing, "No CSV data for this ticker yet (check daemon).");
    assert_eq!(bar(WindowKind::Grid).labels(&None).missing, "No CSV data for this ticker yet.");
    let mut o = bar(WindowKind::Object);
    o.time_mode = TimeDisplayMode::Unix;
    o.pos.live_ts = 99;
    assert_eq!(o.labels(&Some(R)).time, "Current ts: 20");
    assert_eq!(o.current_ts(&R), 20);
    assert_eq!((o.labels(&Some(R)).slider.as_str(), o.labels(&Some(R)).slider_time.as_str()), ("", ""));
    o.mode = Mode::Replay;
    o.pos.replay_ts = 99;
    assert_eq!((o.labels(&Some(R)).slider.as_str(), o.labels(&Some(R)).slider_time.as_str()), ("Replay time:", "20"));
    assert_eq!(o.labels(&None).no_replay, "Replay: no data.");
    let mut g = bar(WindowKind::Grid);
    g.time_mode = TimeDisplayMode::Unix;
    assert_eq!((g.labels(&Some(R)).slider.as_str(), g.labels(&Some(R)).slider_time.as_str()), ("Live ts:", "40"));
    g.mode = Mode::Replay;
    assert_eq!((g.labels(&Some(R)).slider.as_str(), g.labels(&Some(R)).slider_time.as_str()), ("Replay ts:", "30"));
    assert_eq!(bar(WindowKind::Bot).labels(&None).missing, "");
}

#[test]
fn reloads_and_frames_move_the_times() {
    let cases = [
        (WindowKind::Feed, at(5, 5)),
        (WindowKind::Script, at(20, 10)),
        (WindowKind::Object, at(20, 20)),
        (WindowKind::Context, at(20, 10)),
        (WindowKind::Wall, at(20, 10)),
        (WindowKind::Bot, at(20, 20)),
    ];
    for (kind, pos) in cases {
        let mut b = bar(kind);
        b.pos = at(5, 5);
        b.after_reload(40, &Some(R));
        assert_eq!(b.pos, pos, "{kind:?}");
    }
    let mut w = bar(WindowKind::Wall);
    w.pos = at(0, 0);
    w.after_reload(40, &None);
    assert_eq!(w.pos, at(40, 40));
    w.pos = at(15, 12);
    w.after_reload(40, &Some(R));
    assert_eq!(w.pos, at(20, 12));
    w.pos = at(15, 12);
    w.handle(&BarEvent::SelectTicker { ticker: "BTC-USD".to_string(), range: Some(R) }, &None);
    assert_eq!(w.pos, at(20, 12));
    let frames = [
        (WindowKind::Context, Mode::Live, at(20, 20)),
        (WindowKind::Script, Mode::Live, at(20, 5)),
        (WindowKind::Grid, Mode::Live, at(20, 5)),
        (WindowKind::Bot, Mode::Live, at(5, 5)),
        (WindowKind::Script, Mode::Replay, at(5, 10)),
        (WindowKind::Bot, Mode::Replay, at(5, 5)),
    ];
    for (kind, mode, pos) in frames {
        let mut b = bar(kind);
        b.mode = mode;
        b.pos = at(5, 5);
        b.frame(&Some(R));
        assert_eq!(b.pos, pos, "{kind:?}");
        b.frame(&Some(R));
        assert_eq!(b.pos, pos);
        b.frame(&None);
        assert_eq!(b.pos, pos);
    }
}

#[test]
fn the_last_reading_of_a_market_counts() {
    let mut s = store();
    take_all(&mut s, vec![data("ETH-USD", &[50]), data("SOL-USD", &[60]), data("ETH-USD", &[70])]);
    assert_eq!(s.range("ETH-USD"), Some(TimeRange { min_ts: 70, max_ts: 70 }));
    assert_eq!(s.range("BTC-USD"), Some(TimeRange { min_ts: 30, max_ts: 40 }));
    assert_eq!(s.latest(), 70);
}

#[test]
fn the_wall_window_forgets_what_is_gone() {
    let mut s = store();
    assert!(!replace_all(&mut s, vec![]));
    assert_eq!(s.range("BTC-USD"), Some(TimeRange { min_ts: 30, max_ts: 40 }));
    assert!(replace_all(&mut s, vec![data("ETH-USD", &[50, 70])]));
    assert_eq!(s.range("ETH-USD"), Some(TimeRange { min_ts: 50, max_ts: 70 }));
    assert_eq!(s.range("BTC-USD"), None);
}

#[test]
fn windows_take_over_their_logs() {
    for (kind, btc) in [(WindowKind::Wall, false), (WindowKind::Object, true), (WindowKind::Grid, true)] {
        let mut s = store();
        let mut b = bar(kind);
        b.ticker = "ETH-USD".to_string();
        b.pos = at(20, 20);
        b.take_logs(&mut s, vec![data("ETH-USD", &[20, 55])]);
        b.frame(&s.range("ETH-USD"));
        assert_eq!((b.pos.live_ts, s.range("BTC-USD").is_some()), (55, btc), "{kind:?}");
    }
    let mut s = store();
    let mut w = bar(WindowKind::Wall);
    w.pos = at(3, 3);
    w.take_logs(&mut s, vec![]);
    assert_eq!((w.pos, s.range("BTC-USD").is_some()), (at(3, 3), true));
}

#[test]
fn live_mode_reaches_the_newest_row() {
    let grown = [20, 35, 55];
    for kind in [WindowKind::Chart, WindowKind::Script, WindowKind::Object, WindowKind::Context, WindowKind::Wall, WindowKind::Grid] {
        let mut s = store();
        let mut b = bar(kind);
        b.ticker = "ETH-USD".to_string();
        for elapsed in [0, ONE / 10, 100 * ONE, ONE / 10] {
            let read = if b.reload_is_due(elapsed) { Some(vec![data("ETH-USD", &grown)]) } else { None };
            b.next_frame(&mut s, read);
        }
        assert_eq!((b.pos.live_ts, s.range("ETH-USD").unwrap().max_ts), (55, 55), "{kind:?}");
        let snap = snapshot_for_mode(&s, "ETH-USD", &b.pos, b.mode, &vec![60]).unwrap();
        let at_end = snapshot_for_mode(&s, "ETH-USD", &at(55, 55), Mode::Live, &vec![60]).unwrap();
        assert_eq!((snap.last_mid, snap.last_vol), (at_end.last_mid, at_end.last_vol));
    }
    let mut w = bar(WindowKind::Wall);
    let mut s = store();
    let before = w.pos;
    w.next_frame(&mut s, Some(vec![]));
    assert_eq!((w.pos, s.range("BTC-USD").is_some()), (before, true));
}

#[test]
fn logs_are_read_again_once_the_interval_is_over() {
    assert!(interval_over(2 * ONE, 2 * ONE) && !interval_over(2 * ONE - 1, 2 * ONE));
    let mut g = bar(WindowKind::Grid);
    assert!(g.reload_is_due(5 * ONE) && !g.reload_is_due(5 * ONE - 1));
    g.mode = Mode::Replay;
    assert!(!g.reload_is_due(5 * ONE));
    let mut w = bar(WindowKind::Wall);
    w.mode = Mode::Replay;
    assert!(w.reload_is_due(2 * ONE));
}

#[test]
fn snapshots_are_taken_at_both_times() {
    let (live, replay) = update_snapshots(&store(), "ETH-USD", &at(20, 5), &vec![30, 60]);
    assert_eq!(live.unwrap().bids.levels().len(), 1);
    assert_eq!(replay.unwrap().bids.levels().len(), 0);
    assert!(update_snapshots(&store(), "SOL-USD", &at(20, 5), &vec![60]).0.is_none());
    let s = snapshot_for_mode(&store(), "ETH-USD", &at(20, 5), Mode::Replay, &vec![60]).unwrap();
    assert_eq!(s.bids.levels().len(), 0);
    let l = snapshot_for_mode(&store(), "ETH-USD", &at(20, 5), Mode::Live, &vec![1, 60]).unwrap();
    assert_eq!(series_from_snap(&l, 60).len(), 1);
    assert_eq!(series_from_snap(&l, 7).len(), 2);
}

fn side(levels: &[(i64, i128)]) -> Side {
    let mut s = Side::new();
    for (k, v) in levels {
        s.set(*k, *v);
    }
    s
}

#[test]
fn books_are_shown_with_depth_and_ladders() {
    let levels: Vec<(i64, i128)> = (1..=50).map(|k| (k * 10_000, ONE)).collect();
    for (kind, n, width) in [
        (WindowKind::Chart, 30, 8),
        (WindowKind::Script, 25, 9),
        (WindowKind::Context, 20, 10),
        (WindowKind::Grid, 40, 8),
        (WindowKind::Bot, 20, 8),
    ] {
        let p = book_pane(kind, &side(&levels), &side(&levels));
        assert_eq!((p.bids.len(), p.asks.len(), p.bids[0].size.len()), (n, n, width));
        assert_eq!((p.bid_depth.len(), p.bid_depth[49].cumulative), (50, 50 * ONE));
        assert_eq!((p.bids[0].price.trim(), p.asks[0].price.trim()), ("50.00", "1.00"));
    }
}

#[test]
fn trades_are_listed() {
    let rows: Vec<String> = (1..=3u64).map(|t| append_trade_csv(t, "E", "script", "buy", "0.5")).collect();
    let trades = load_trades_csv(&rows, "E");
    let l = trade_lines(WindowKind::Bot, &trades, TimeDisplayMode::Unix);
    assert_eq!(l.iter().map(|t| t.time.as_str()).collect::<Vec<&str>>(), vec!["3", "2", "1"]);
    assert_eq!((l[0].side.as_str(), l[0].size.as_str(), l[0].source.as_str()), ("buy", "0.5", "script"));
    assert_eq!(trade_lines(WindowKind::Grid, &trades, TimeDisplayMode::Unix)[0].time, "1");
}

#[test]
fn windows_have_headings() {
    let p = at(7, 5);
    let h = |kind: WindowKind, mode: Mode| heading(kind, mode, "E", TimeDisplayMode::Unix, &p);
    assert_eq!(h(WindowKind::Feed, Mode::Live), "LIVE E");
    assert_eq!(h(WindowKind::Feed, Mode::Replay), "REPLAY E @ 5");
    assert_eq!(h(WindowKind::Chart, Mode::Live), "LIVE (from daemon CSVs) E");
    assert_eq!(h(WindowKind::Object, Mode::Replay), "REPLAY mode \u{2014} E");
    assert_eq!(h(WindowKind::Context, Mode::Live), "LIVE E @ 7");
    assert_eq!(heading_with(WindowKind::Wall, Mode::Replay, "E", "t"), "REPLAY E @ t");
    assert_eq!(no_data_text(WindowKind::Bot, Mode::Live), "No snapshot yet.");
    assert_eq!(no_candles_text(WindowKind::Wall, Mode::Replay), "No candles yet (replay).");
    assert_eq!(no_volume_text(WindowKind::Grid, Mode::Live), "No candles for current TF (so no volume).");
    assert_eq!(no_volume_text(WindowKind::Wall, Mode::Live), "No candles yet (live).");
    for kind in KINDS {
        for mode in [Mode::Live, Mode::Replay] {
            assert!(!no_data_text(kind, mode).is_empty() && !no_candles_text(kind, mode).is_empty());
        }
    }
}

#[test]
fn windows_say_what_they_know() {
    assert_eq!(last_text(WindowKind::Chart, ONE, ONE), "Last mid: 1.0000   Last vol: 1.000000");
    assert_eq!(last_text(WindowKind::Bot, ONE, ONE), "Last mid: 1.0000   Vol: 1.0000");
    assert_eq!(last_text(WindowKind::Wall, ONE, ONE), "Last mid: 1.00   Last vol: 1.0000");
    let b = |kind: WindowKind, signal: &str| bot_text(kind, signal, ONE, "c");
    assert_eq!(b(WindowKind::Object, "buy").as_deref(), Some("Bot signal: buy size 1.000000"));
    assert_eq!(b(WindowKind::Object, ""), None);
    assert_eq!(b(WindowKind::Context, "buy").as_deref(), Some("Bot signal: buy size 1.000000  c"));
    assert_eq!(b(WindowKind::Wall, "FLAT").as_deref(), Some("Bot signal: FLAT, size: 1.000000"));
    assert_eq!(b(WindowKind::Grid, "x").as_deref(), Some("Bot signal: x | size: 1.0000"));
    assert_eq!(b(WindowKind::Bot, "none"), None);
    assert_eq!(b(WindowKind::Bot, "buy").as_deref(), Some("Bot: buy size 1.0000  (c)"));
    assert_eq!(b(WindowKind::Feed, "buy"), None);
    assert_eq!(
        summary(&side(&[(100_000, ONE)]), &side(&[]), 2 * ONE, 3 * ONE),
        vec!["Best bid: 10.0000", "Best ask: 0.0000", "Mid: 2.0000", "Last vol (1m): 3.0000"]
    );
}

fn series() -> Vec<Candle> {
    (0..3u64)
        .map(|i| Candle { t: 600 + 60 * i, open: 100 * ONE, high: 110 * ONE, low: 90 * ONE, close: 105 * ONE, volume: ONE })
        .collect()
}

#[test]
fn charts_are_drawn() {
    let mut c = ChartSettings { show_candles: 2, ..ChartSettings::default() };
    let p = chart_pane(WindowKind::Grid, Mode::Live, &mut c, &series(), ONE, 725).unwrap();
    assert_eq!((p.candles.len(), p.shapes.len(), p.cursor), (2, 2, Some(725 * ONE)));
    assert_eq!(p.y, AxisRange { min: 89 * ONE, max: 111 * ONE });
    assert_eq!(p.x, AxisRange { min: 690 * ONE, max: 810 * ONE });
    assert_eq!((c.y_min, c.y_max, p.volume_top), (89 * ONE, 111 * ONE, 110_000_000));
    let o = chart_pane(WindowKind::Object, Mode::Live, &mut c, &series(), ONE, 725).unwrap();
    assert_eq!((o.x, o.cursor), (AxisRange { min: 660 * ONE, max: 780 * ONE }, Some(750 * ONE)));
    c.x_zoom = 2 * ONE;
    let w = chart_pane(WindowKind::Wall, Mode::Live, &mut c, &series(), ONE, 725).unwrap();
    assert_eq!(w.x, AxisRange { min: 690 * ONE, max: 810 * ONE });
    let r = chart_pane(WindowKind::Chart, Mode::Replay, &mut c, &series(), ONE, 725).unwrap();
    assert_eq!(r.cursor, Some(750 * ONE));
    let b = chart_pane(WindowKind::Bot, Mode::Live, &mut c, &series(), ONE, 725).unwrap();
    assert_eq!(b.cursor, None);
    assert!(chart_pane(WindowKind::Bot, Mode::Live, &mut c, &vec![], ONE, 725).is_none());
}

#[test]
fn panes_share_the_space() {
    let on = LayoutSettings::default();
    let alone = LayoutSettings { show_ladders: false, show_trades: false, ..on };
    assert_eq!(widths_for(WindowKind::Bot, 1000, &on), PaneWidths { depth: 450, ladders: 550, trading: 0 });
    assert_eq!(widths_for(WindowKind::Object, 1000, &alone), PaneWidths { depth: 1000, ladders: 0, trading: 0 });
    assert_eq!(widths_for(WindowKind::Bot, 1000, &alone), PaneWidths { depth: 450, ladders: 0, trading: 0 });
    assert_eq!(panel_widths_for(1000, true, true, true), PaneWidths { depth: 350, ladders: 250, trading: 400 });
    assert_eq!(panel_widths_for(1000, false, false, true).trading, 1000);
    assert_eq!(panel_widths_for(1000, true, false, false).trading, 0);
    let off = LayoutSettings { show_depth: false, ..alone };
    assert_eq!(widths_for(WindowKind::Context, 1000, &off), PaneWidths { depth: 0, ladders: 600, trading: 0 });
    assert_eq!(widths_for(WindowKind::Panel, 1000, &off), PaneWidths { depth: 450, ladders: 550, trading: 0 });
    assert_eq!(widths_for(WindowKind::Wall, 1000, &on), PaneWidths { depth: 500, ladders: 500, trading: 0 });
    let mut r = PaneRatios::default();
    r.handle(&RatioEvent::BodyWidth { ratio: 2 * ONE });
    r.handle(&RatioEvent::LaddersHeight { ratio: 0 });
    assert_eq!((r.body_width, r.ladders_height), (ONE, 20_000_000));
    assert_eq!(top_height(WindowKind::Feed, 1000, true, r.ladders_height), 200);
    assert_eq!(top_height(WindowKind::Chart, 1000 * ONE, true, 0), 350 * ONE);
    assert_eq!(top_height(WindowKind::Chart, 1000 * ONE, false, 0), 150 * ONE);
    assert_eq!(top_height(WindowKind::Script, 1000, true, 0), 450);
    r.handle(&RatioEvent::DepthWidth { ratio: 45_000_000 });
    r.handle(&RatioEvent::VolumeHeight { ratio: 30_000_000 });
    assert_eq!(feed_widths(1000, &r), (450, 550));
    assert_eq!(chart_heights(WindowKind::Feed, 1000, true, r.volume_height), (700, 300));
    assert_eq!(chart_heights(WindowKind::Feed, 1000, true, ONE), (200, 800));
    assert_eq!(chart_heights(WindowKind::Chart, 1000, false, 0), (950, 0));
    assert_eq!(chart_heights(WindowKind::Object, 1000, false, 0), (1000, 0));
    assert_eq!(chart_heights(WindowKind::Bot, 1000, false, 0), (700, 0));
    assert_eq!(chart_heights(WindowKind::Grid, 1000, true, 0), (700, 300));
}
