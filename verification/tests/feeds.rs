use ladder_app::book::{Level, Quote};
use ladder_app::candle_agg::CandleAgg;
use ladder_app::events::load_ticker_data;
use ladder_app::live::{live_step, LiveEvent, LiveOutput, LiveState, LiveStyle};
use ladder_app::recorder::{
    book_file, candle_file, feed_action, level_notes, trade_file, FeedEvent, FeedMessage, Recorder, RecorderKind,
    RETRY_SECS,
};
use ladder_app::snapshot::compute_snapshot_for;

const ONE: i128 = 100_000_000;

fn q(price: i128, size: i128) -> Quote {
    Quote { price: price * ONE, size: size * ONE }
}

fn opening() -> FeedMessage {
    FeedMessage::Initial { bids: vec![q(10, 2)], asks: vec![q(12, 3)] }
}

#[test]
fn recorders_have_their_periods() {
    assert_eq!(RecorderKind::Short.periods(), vec![30, 60, 180, 300]);
    assert_eq!(RecorderKind::Full.periods().len(), 18);
    assert_eq!(Recorder::new(RecorderKind::Full).lanes.len(), 18);
}

#[test]
fn messages_change_the_book_and_are_written_down() {
    let mut r = Recorder::new(RecorderKind::Short);
    let first = r.on_message(&opening(), 100);
    let lines: Vec<String> = first.levels.iter().map(|n| n.line(100, "ETH-USD")).collect();
    assert_eq!(lines, vec!["100,ETH-USD,book_init,bid,10,2", "100,ETH-USD,book_init,ask,12,3"]);
    let second = r.on_message(&FeedMessage::Update { bids: Some(vec![q(10, 0), q(11, 1)]), asks: None }, 130);
    let lines: Vec<String> = second.levels.iter().map(|n| n.line(130, "ETH-USD")).collect();
    assert_eq!(lines, vec!["130,ETH-USD,delta,bid,10,0", "130,ETH-USD,delta,bid,11,1"]);
    assert_eq!(*r.book.bids.levels(), vec![Level { key: 110_000, size: ONE }]);
    assert_eq!(r.book.mid(), Some(1_150_000_000));
}

#[test]
fn complete_candles_are_written_down_once() {
    let at = |low: i128, high: i128| FeedMessage::Initial { bids: vec![q(low, 1)], asks: vec![q(high, 1)] };
    let mut r = Recorder::new(RecorderKind::Short);
    assert_eq!(r.on_message(&opening(), 100).candles.len(), 0);
    assert_eq!(r.on_message(&at(10, 16), 101).candles.len(), 0);
    assert_eq!(r.on_message(&at(8, 10), 110).candles.len(), 0);
    let later = r.on_message(&at(20, 22), 121);
    let periods: Vec<u64> = later.candles.iter().map(|c| c.tf_secs).collect();
    assert_eq!(periods, vec![30, 60]);
    assert_eq!(later.candles[0].line(RecorderKind::Short, "ETH-USD"), "90,ETH-USD,30,11,13,9,9,0");
    assert_eq!(later.candles[0].line(RecorderKind::Full, "ETH-USD"), "90,30,11,13,9,9,0");
    assert_eq!(r.on_message(&opening(), 122).candles.len(), 0);
    let lines: Vec<String> =
        r.on_message(&opening(), 301).candles.iter().map(|c| c.line(RecorderKind::Short, "E")).collect();
    let minute = "120,E,60,21,21,11,11,0".to_string();
    assert_eq!(lines, vec!["120,E,30,21,21,11,11,0".to_string(), minute, "0,E,180,11,21,9,11,0".to_string(),
        "0,E,300,11,21,9,11,0".to_string()]);
    assert_eq!(r.on_message(&opening(), 200).candles.len(), 0);
}

#[test]
fn a_one_sided_book_makes_no_candles() {
    let mut r = Recorder::new(RecorderKind::Full);
    let got = r.on_message(&FeedMessage::Initial { bids: vec![q(10, 2)], asks: vec![] }, 100);
    assert_eq!((got.levels.len(), got.candles.len()), (1, 0));
}

#[test]
fn a_recorded_candle_reads_back() {
    let mut r = Recorder::new(RecorderKind::Full);
    r.on_message(&opening(), 100);
    let got = r.on_message(&opening(), 160);
    let minute = got.candles.iter().find(|c| c.tf_secs == 60).unwrap();
    let mut agg = CandleAgg::new(60);
    agg.load_from_csv(&vec![minute.line(RecorderKind::Full, "ETH-USD")]);
    assert_eq!(*agg.series(), vec![minute.candle]);
}

#[test]
fn a_recording_replays() {
    let mut r = Recorder::new(RecorderKind::Short);
    let messages = [
        opening(),
        FeedMessage::Update { bids: Some(vec![q(11, 1)]), asks: Some(vec![q(12, 0), q(13, 4)]) },
        FeedMessage::Update { bids: Some(vec![q(10, 0)]), asks: None },
    ];
    let mut log: Vec<String> = Vec::new();
    for (i, m) in messages.iter().enumerate() {
        let ts = 100 + i as u64;
        for n in r.on_message(m, ts).levels {
            log.push(n.line(ts, "ETH-USD"));
        }
    }
    let data = load_ticker_data("ETH-USD", &log, &vec![]).unwrap();
    let s = compute_snapshot_for(&data, 1000, 60);
    assert_eq!(s.bids.levels(), r.book.bids.levels());
    assert_eq!(s.asks.levels(), r.book.asks.levels());
}

#[test]
fn files_are_named_after_their_market() {
    assert_eq!(book_file("ETH-USD"), "orderbook_ETH-USD.csv");
    assert_eq!(trade_file("ETH-USD"), "trades_ETH-USD.csv");
    assert_eq!(candle_file("ETH-USD", 60), "candles_ETH-USD_60.csv");
}

#[test]
fn a_feed_is_asked_for_again_after_a_while() {
    let refused = FeedEvent::Refused { error: "no".to_string() };
    let cases = [
        (RecorderKind::Full, &FeedEvent::Asking, "[daemon] starting feed for E", 0),
        (RecorderKind::Short, &FeedEvent::Asking, "[daemon] subscribing orders for E", 0),
        (RecorderKind::Full, &refused, "[daemon] orders feed error for E: no", RETRY_SECS),
        (RecorderKind::Short, &refused, "[daemon] orders feed error for E: no; retrying in 5s", RETRY_SECS),
        (RecorderKind::Full, &FeedEvent::Ended, "[daemon] feed for E ended, reconnecting in 5s...", RETRY_SECS),
        (RecorderKind::Short, &FeedEvent::Ended, "[daemon] feed ended for E; reconnecting in 5s...", RETRY_SECS),
    ];
    for (kind, event, line, wait) in cases {
        let a = feed_action(kind, "E", event);
        assert_eq!((a.line.as_str(), a.wait_secs), (line, wait));
    }
}

fn step(style: LiveStyle, s: LiveState, e: LiveEvent) -> (LiveState, LiveOutput) {
    live_step(style, s, e, "ETH-USD")
}

#[test]
fn the_live_feed_opens_and_shows_its_book() {
    let (s, o) = step(LiveStyle::Marked, LiveState::Config, LiveEvent::Ready);
    assert_eq!(o.line.as_deref(), Some("[live] Subscribing orders feed for ETH-USD"));
    let (s, o) = step(LiveStyle::Marked, s, LiveEvent::Ready);
    assert!(o.line.is_none() && o.shown.is_none());
    let (s, o) = step(LiveStyle::Marked, s, LiveEvent::Message { msg: opening(), changed: false });
    assert_eq!(o.levels.len(), 2);
    assert_eq!(o.shown.unwrap().mid(), Some(11 * ONE));
    match &s {
        LiveState::Open { ticker, book } => assert_eq!((ticker.as_str(), book.mid()), ("ETH-USD", Some(11 * ONE))),
        other => panic!("{other:?}"),
    }
    let (s, o) = live_step(LiveStyle::Marked, s, LiveEvent::Message { msg: opening(), changed: true }, "BTC-USD");
    assert!(o.shown.is_some());
    assert_eq!(o.line.as_deref(), Some("[live] Subscribing orders feed for BTC-USD"));
    assert!(matches!(&s, LiveState::Asking { ticker } if ticker == "BTC-USD"));
    let (s, _) = step(LiveStyle::Marked, s, LiveEvent::Ready);
    let (s, o) = step(LiveStyle::Unmarked, s, LiveEvent::Ended);
    assert_eq!(o.line.as_deref(), Some("Subscribing live feed for ETH-USD"));
    assert!(matches!(s, LiveState::Asking { .. }));
}

#[test]
fn a_refused_live_feed_stops() {
    let failed = || LiveEvent::Failed { error: "no".to_string() };
    let (s, o) = step(LiveStyle::Unmarked, LiveState::Config, failed());
    assert_eq!(o.line.as_deref(), Some("Failed to load testnet.toml: no"));
    assert!(matches!(s, LiveState::Stopped));
    let asking = || LiveState::Asking { ticker: "E".to_string() };
    let (s, o) = step(LiveStyle::Unmarked, asking(), failed());
    assert_eq!(o.line.as_deref(), Some("orders feed error for E: no"));
    assert!(matches!(s, LiveState::Stopped));
    let (_, o) = step(LiveStyle::Marked, asking(), failed());
    assert_eq!(o.line.as_deref(), Some("[live] orders feed error for E: no"));
    let (s, o) = step(LiveStyle::Marked, LiveState::Stopped, LiveEvent::Ready);
    assert!(matches!(s, LiveState::Stopped) && o.line.is_none());
}

#[test]
fn every_level_of_a_message_is_noted() {
    let n = level_notes(&FeedMessage::Update { bids: None, asks: Some(vec![q(1, 0), q(2, 5)]) });
    assert_eq!(n.len(), 2);
    assert!(n.iter().all(|x| !x.bid && !x.initial));
}
