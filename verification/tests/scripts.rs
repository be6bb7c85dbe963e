use ladder_app::book::Side;
use ladder_app::bot::{read_bot_from_scope, Bot, ScriptOutcome};
use ladder_app::chart::ChartSettings;
use ladder_app::events::{load_ticker_data, TickerData};
use ladder_app::layout::LayoutSettings;
use ladder_app::metrics::compute_bubble_metrics;
use ladder_app::order_forms::SignalDecision;
use ladder_app::orders::{OrderSide, TradeKind};
use ladder_app::script_rules::{
    first_scope, inputs_from, read_signal, two_sided_prices, ContextWindow, GridWindow, Knobs, MarketInputs,
    ObjectWindow, ScriptWindow,
};
use ladder_app::scripts::{
    default_rhai_script, default_script_text, BOT_SCRIPT, DESK_SCRIPT, GRID_EXAMPLE, GRID_SCRIPT, OBJECT_SCRIPT,
    SINGLE_SCRIPT, WINDOW_SCRIPT,
};
use ladder_app::session::Mode;
use ladder_app::snapshot::{compute_snapshot_for, compute_snapshots_for, MultiSnapshot, Snapshot};
use ladder_app::start::build_engine;
use ladder_app::theme::{ThemeChoice, UiTheme};
use ladder_app::top_bar::WindowKind;

const ONE: i128 = 100_000_000;

fn data(rows: &[&str]) -> TickerData {
    let lines: Vec<String> = rows.iter().map(|r| format!("100,ETH-USD,delta,{r}")).collect();
    load_ticker_data("ETH-USD", &lines, &vec![]).unwrap()
}

fn snap(rows: &[&str]) -> Snapshot {
    compute_snapshot_for(&data(rows), 1000, 60)
}

fn multi(rows: &[&str]) -> MultiSnapshot {
    compute_snapshots_for(&data(rows), 1000, &vec![30, 60])
}

const BID_HEAVY: [&str; 2] = ["bid,4000,10", "ask,4000.5,1"];
const ASK_HEAVY: [&str; 2] = ["bid,4000,1", "ask,4000.5,10"];

fn run(bot: &mut Bot, script: &str, s: &Snapshot, now: u64) -> Option<ladder_app::bot::BotOrder> {
    bot.run_script(&build_engine(WindowKind::Bot), script, s, "ETH-USD", Mode::Live, 60, 200, 2 * ONE, now)
}

#[test]
fn bot_script_buys_on_a_bid_bubble() {
    let mut bot = Bot::new();
    assert!(run(&mut bot, BOT_SCRIPT, &snap(&BID_HEAVY), 5).is_none());
    assert_eq!((bot.signal.as_str(), bot.size, bot.comment.as_str()), ("buy", 1_000_000, "Bid bubble detected"));
    assert_eq!((bot.last_run_ts, bot.last_error.is_none()), (5, true));
}

#[test]
fn bot_script_sells_on_an_ask_bubble() {
    for script in [BOT_SCRIPT, DESK_SCRIPT] {
        let mut bot = Bot::new();
        run(&mut bot, script, &snap(&ASK_HEAVY), 5);
        assert_eq!((bot.signal.as_str(), bot.comment.as_str()), ("sell", "Ask bubble detected"));
    }
}

#[test]
fn bot_script_rests_without_a_bubble() {
    let mut bot = Bot::new();
    run(&mut bot, BOT_SCRIPT, &snap(&["bid,4000,1", "ask,4000.5,1"]), 5);
    assert_eq!((bot.signal.as_str(), bot.size), ("none", 0));
    run(&mut bot, BOT_SCRIPT, &snap(&["bid,4000,10", "ask,4100,1"]), 5);
    assert_eq!(bot.signal, "none");
}

#[test]
fn the_bot_sends_a_signal_once() {
    let mut bot = Bot::new();
    bot.auto_trade = true;
    let order = run(&mut bot, BOT_SCRIPT, &snap(&BID_HEAVY), 5).unwrap();
    assert_eq!(order.cmd.side, OrderSide::Buy);
    assert_eq!(order.cmd.kind, TradeKind::Market);
    assert_eq!((order.cmd.size.as_str(), order.cmd.leverage), ("0.01000000", 2 * ONE));
    assert_eq!((order.note.source.as_str(), order.note.side.as_str()), ("bot_auto", "Buy"));
    assert_eq!(bot.order_msg, "[BOT] auto Buy ETH-USD size 0.01000000");
    assert!(run(&mut bot, BOT_SCRIPT, &snap(&BID_HEAVY), 6).is_none());
    assert!(run(&mut bot, BOT_SCRIPT, &snap(&ASK_HEAVY), 7).is_some());
    assert!(run(&mut bot, BOT_SCRIPT, &snap(&BID_HEAVY), 8).is_some());
}

#[test]
fn a_failed_script_keeps_the_bot() {
    let mut bot = Bot::new();
    bot.auto_trade = true;
    run(&mut bot, "bot_signal = \"buy\"; bot_size = 1.0;", &snap(&BID_HEAVY), 1);
    assert!(run(&mut bot, "bot_signal = \"sell\"; no_such_function();", &snap(&BID_HEAVY), 2).is_none());
    assert!(bot.last_error.as_ref().unwrap().contains("no_such_function"));
    assert_eq!((bot.signal.as_str(), bot.size, bot.last_run_ts), ("buy", ONE, 2));
    assert!(run(&mut bot, "let x = ;", &snap(&BID_HEAVY), 3).is_none());
    assert!(bot.last_error.is_some());
}

#[test]
fn outputs_of_another_type_are_none() {
    let mut bot = Bot::new();
    run(&mut bot, "bot_signal = 5; bot_size = \"x\"; bot_comment = 1.5;", &snap(&BID_HEAVY), 1);
    assert_eq!((bot.signal.as_str(), bot.size, bot.comment.as_str()), ("none", 0, ""));
    run(&mut bot, "bot_signal = \"sell\"; bot_size = -2.0;", &snap(&BID_HEAVY), 1);
    assert_eq!((bot.signal.as_str(), bot.size), ("sell", 0));
}

#[test]
fn scripts_neither_block_nor_panic() {
    let mut bot = Bot::new();
    for sleeps in ["sleep(9223372036854775807);", "sleep(1000000000000000000000.0);", "Fn(\"sleep\").call(100000);"] {
        run(&mut bot, &format!("{sleeps} bot_comment = \"awake\";"), &snap(&BID_HEAVY), 1);
        assert_eq!((bot.last_error.as_deref(), bot.comment.as_str()), (None, "awake"), "{sleeps}");
        bot.comment = String::new();
    }
    for refused in [
        "[].pad(4611686018427387904, [1, 2, 3]);",
        "let s = \"a\"; s.pad(5, \"\");",
        "[2, 1].sort();",
        "[2, 1].sort_desc();",
        "[2, 1].order();",
        "[2, 1].order_desc();",
    ] {
        run(&mut bot, refused, &snap(&BID_HEAVY), 1);
        assert!(bot.last_error.as_ref().unwrap().contains("function not available"), "{refused}");
    }
    run(&mut bot, "fn by_size(x, y) { x - y } let a = [2, 1]; a.sort(Fn(\"by_size\")); bot_size = a[0].to_float();", &snap(&BID_HEAVY), 1);
    assert_eq!((bot.last_error.as_deref(), bot.size), (None, ONE));
}

#[test]
fn scripts_do_not_nest_without_a_bound() {
    let mut bot = Bot::new();
    let deep = format!("fn f(n) {{ if n == 0 {{ 1 }} else {{ {}f(n - 1){} }} }} f(3)", "max(1, ".repeat(25), ")".repeat(25));
    for script in [
        "let s = \"eval(s)\"; eval(s)",
        "let s = \"1\"; call(Fn(\"eval\"), s)",
        "import \"bot\" as b;",
        "let f = Fn(\"abs\"); loop { f = f.curry(f); }",
        "let x = 1; loop { let y = x; x = || y; }",
        "fn f() { f() } f()",
        "let a = []; loop { a = [a]; }",
        "let a = []; loop { let b = []; b.push(a); a = b; }",
        "let a = #{}; loop { a = #{ x: a }; }",
        "let a = #{}; loop { let b = #{}; b.x = a; a = b; }",
        "let s = \"x\"; loop { s += s; }",
        "let a = [1]; loop { a += a; }",
        "blob(9223372036854775807)",
        "loop { }",
    ] {
        run(&mut bot, script, &snap(&BID_HEAVY), 1);
        assert!(bot.last_error.is_some(), "{script}");
    }
    run(&mut bot, &format!("{deep}; let a = []; for i in 0..60 {{ a = [a]; }} bot_comment = `${{a == a}}`;"), &snap(&BID_HEAVY), 1);
    assert_eq!((bot.last_error.as_deref(), bot.comment.as_str()), (None, "true"));
}

#[test]
fn scripts_see_their_inputs() {
    let mut bot = Bot::new();
    run(
        &mut bot,
        "bot_comment = `${ticker} ${mode} ${best_bid} ${best_ask} ${mid} ${spread} ${tf_secs} ${history_candles}`;",
        &snap(&BID_HEAVY),
        1,
    );
    assert_eq!(bot.comment, "ETH-USD live 4000.0 4000.5 4000.25 0.5 60 200");
}

#[test]
fn the_scope_of_the_bot_is_fed_and_read() {
    let s = snap(&BID_HEAVY);
    let m = compute_bubble_metrics(&s.bids, &s.asks);
    let mut scope = rhai::Scope::new();
    let bot = Bot::new();
    bot.feed_scope_from_snapshot(&mut scope, &m, "ETH-USD", Mode::Replay, 60, 200);
    assert_eq!(scope.get_value::<f64>("bid_liquidity_near"), Some(10.0));
    assert_eq!(scope.get_value::<String>("mode"), Some("replay".to_string()));
    match read_bot_from_scope(&scope) {
        ScriptOutcome::Done { signal, size, comment } => {
            assert_eq!((signal, size, comment), (Some("none".to_string()), Some(0), Some(String::new())));
        }
        ScriptOutcome::Failed { error } => panic!("{error}"),
    }
}

#[test]
fn a_single_run_does_not_trade() {
    let engine = build_engine(WindowKind::Bot);
    let mut bot = Bot::new();
    bot.auto_trade = true;
    bot.run_script_once(&engine, SINGLE_SCRIPT, &snap(&BID_HEAVY), "ETH-USD");
    assert_eq!((bot.signal.as_str(), bot.last_executed.as_str()), ("buy", "none"));
    bot.run_script_once(&engine, "oops(", &snap(&BID_HEAVY), "ETH-USD");
    assert_eq!((bot.signal.as_str(), bot.size), ("none", 0));
    assert!(bot.last_error.is_some());
    bot.run_script_once(&engine, "bot_comment = mode;", &snap(&BID_HEAVY), "ETH-USD");
    assert!(bot.last_error.is_some());
}

fn knobs() -> Knobs {
    Knobs { chart: ChartSettings::default(), layout: LayoutSettings::default(), reload_secs: 5 * ONE }
}

fn market(close: i128) -> MarketInputs {
    MarketInputs { close, spread: ONE, ..MarketInputs::default() }
}

fn window() -> ScriptWindow {
    ScriptWindow { knobs: knobs(), theme: UiTheme::Classic, error: None }
}

#[test]
fn the_first_window_script_trades_breakouts() {
    let engine = build_engine(WindowKind::Script);
    let mut scope = first_scope();
    let mut w = window();
    let d = w.run_script(&engine, &mut scope, WINDOW_SCRIPT, Mode::Live, "ETH-USD", 9, &market(4600 * ONE));
    match d.unwrap() {
        SignalDecision::Send { cmd, kind } => {
            assert_eq!((cmd.side.as_str(), cmd.size, cmd.leverage), ("buy", 1_000_000, 3 * ONE));
            assert_eq!((cmd.price, kind.as_str()), (None, "market"));
        }
        other => panic!("{other:?}"),
    }
    assert_eq!(scope.get_value::<String>("signal"), Some("none".to_string()));
    assert_eq!((w.knobs.chart.show_candles, w.theme), (300, UiTheme::Dark));
    let quiet = w.run_script(&engine, &mut scope, WINDOW_SCRIPT, Mode::Replay, "ETH-USD", 9, &market(4600 * ONE));
    assert!(matches!(quiet, Some(SignalDecision::Quiet)));
    let sell = w.run_script(&engine, &mut scope, WINDOW_SCRIPT, Mode::Live, "ETH-USD", 9, &market(4000 * ONE));
    assert!(matches!(sell, Some(SignalDecision::Send { cmd, .. }) if cmd.side == "sell"));
}

#[test]
fn window_scripts_are_kept_in_bounds() {
    let engine = build_engine(WindowKind::Script);
    let mut scope = first_scope();
    let mut w = window();
    w.run_script(
        &engine,
        &mut scope,
        "tf = 0; history = 9999; reload_secs = 0.0; theme = \"neon\"; show_depth = false; y_min = 1.5;",
        Mode::Live,
        "ETH-USD",
        9,
        &market(0),
    );
    assert_eq!((w.knobs.chart.tf_secs, w.knobs.chart.show_candles), (1, 2000));
    assert_eq!((w.knobs.reload_secs, w.theme), (10_000_000, UiTheme::Neon));
    assert_eq!((w.knobs.layout.show_depth, w.knobs.chart.y_min), (false, 150_000_000));
    w.set_theme_from_name("pastel");
    assert_eq!(w.theme, UiTheme::Pastel);
}

#[test]
fn a_failed_window_script_changes_nothing_but_the_error() {
    let engine = build_engine(WindowKind::Script);
    let mut scope = first_scope();
    let mut w = window();
    let d = w.run_script(&engine, &mut scope, "tf = 30; boom();", Mode::Live, "ETH-USD", 9, &market(0));
    assert!(d.is_none());
    assert!(w.error.is_some());
    assert_eq!(w.knobs, knobs());
    let refused =
        w.run_script(&engine, &mut scope, "signal = \"hold\";", Mode::Live, "ETH-USD", 9, &market(0)).unwrap();
    assert!(matches!(refused, SignalDecision::Refused { info } if info == "Script: unknown signal 'hold'"));
    assert!(w.error.is_none());
}

#[test]
fn a_scope_keeps_what_scripts_left() {
    let engine = build_engine(WindowKind::Script);
    let mut scope = first_scope();
    let mut w = window();
    w.run_script(&engine, &mut scope, "let seen = 7;", Mode::Live, "ETH-USD", 9, &market(0));
    w.run_script(&engine, &mut scope, "history = seen + 13;", Mode::Live, "ETH-USD", 9, &market(0));
    assert_eq!(w.knobs.chart.show_candles, 20);
    let req = read_signal(&scope);
    assert_eq!((req.signal.as_deref(), req.leverage), (Some("none"), Some(ONE)));
}

#[test]
fn scripts_see_the_market() {
    let s = multi(&["bid,10,1", "ask,12,3"]);
    let m = inputs_from(&s, 30);
    assert_eq!((m.close, m.volume, m.bid, m.ask, m.mid, m.spread), (11 * ONE, 3 * ONE, 10 * ONE, 12 * ONE, 11 * ONE, 2 * ONE));
    let one_sided = inputs_from(&multi(&["bid,10,1"]), 30);
    assert_eq!((one_sided.bid, one_sided.mid, one_sided.spread, one_sided.close), (10 * ONE, 0, 0, 0));
    assert_eq!(two_sided_prices(&s.bids, &s.asks), (11 * ONE, 10 * ONE, 12 * ONE));
    assert_eq!(two_sided_prices(&s.bids, &Side::new()), (0, 0, 0));
}

fn object_window() -> ObjectWindow {
    ObjectWindow {
        knobs: knobs(),
        theme: ThemeChoice::Dark,
        bot_signal: "old".to_string(),
        bot_size: 5,
        error: "old".to_string(),
    }
}

#[test]
fn an_object_is_taken_over() {
    let mut w = object_window();
    w.run_script(
        &build_engine(WindowKind::Object),
        "#{ tf: 100, history: 5, auto_y: false, y_min: 3, y_max: 4.5, reload_secs: 1000.0, theme: \"OCEAN\", bot_signal: 5, bot_size: 2 }",
        &multi(&BID_HEAVY),
        Mode::Live,
        "ETH-USD",
    );
    assert_eq!(w.error, "");
    assert_eq!((w.knobs.chart.tf_secs, w.knobs.chart.show_candles, w.knobs.chart.auto_y), (180, 10, false));
    assert_eq!((w.knobs.chart.y_min, w.knobs.chart.y_max), (3 * ONE, 450_000_000));
    assert_eq!((w.knobs.reload_secs, w.theme), (300 * ONE, ThemeChoice::Ocean));
    assert_eq!((w.bot_signal.as_str(), w.bot_size), ("5", 2 * ONE));
}

#[test]
fn an_object_without_fields_changes_nothing() {
    let mut w = object_window();
    w.run_script(&build_engine(WindowKind::Object), "#{ theme: \"fire\" }", &multi(&BID_HEAVY), Mode::Live, "ETH-USD");
    assert_eq!(w.knobs, knobs());
    assert_eq!((w.theme, w.bot_signal.as_str(), w.bot_size), (ThemeChoice::Dark, "old", 5));
}

#[test]
fn a_script_without_an_object_fails() {
    let mut w = object_window();
    w.run_script(&build_engine(WindowKind::Object), "41 + 1", &multi(&BID_HEAVY), Mode::Live, "ETH-USD");
    assert!(!w.error.is_empty() && w.error != "old");
    assert_eq!((w.knobs, w.bot_signal.as_str()), (knobs(), "old"));
}

#[test]
fn the_first_object_script_runs() {
    let mut w = object_window();
    w.run_script(&build_engine(WindowKind::Object), OBJECT_SCRIPT, &multi(&BID_HEAVY), Mode::Live, "ETH-USD");
    assert_eq!(w.error, "");
    assert_eq!((w.bot_signal.as_str(), w.bot_size, w.knobs.chart.show_candles), ("", 0, 200));
    let scope = w.object_scope(ONE, 2 * ONE, 3 * ONE, Mode::Replay, "ETH-USD");
    assert_eq!(scope.get_value::<f64>("last_volume"), Some(2.0));
    assert_eq!(scope.get_value::<String>("bot_signal_prev"), Some(String::new()));
}

fn context_window() -> ContextWindow {
    ContextWindow {
        knobs: knobs(),
        bot_signal: "old".to_string(),
        bot_size: 5,
        bot_comment: "note".to_string(),
        error: "old".to_string(),
    }
}

#[test]
fn the_first_context_script_buys_above_its_level() {
    let mut w = context_window();
    w.run_script(&build_engine(WindowKind::Context), &default_script_text(), &snap(&BID_HEAVY), Mode::Live, "ETH-USD");
    assert_eq!(w.error, "");
    assert_eq!((w.bot_signal.as_str(), w.bot_size, w.bot_comment.as_str()), ("BUY", 1_000_000, "mid > 4000"));
    assert_eq!(w.knobs.reload_secs, 3 * ONE);
    w.run_script(&build_engine(WindowKind::Context), &default_script_text(), &snap(&BID_HEAVY), Mode::Replay, "ETH-USD");
    assert_eq!((w.bot_signal.as_str(), w.bot_size), ("FLAT", 0));
}

#[test]
fn a_blank_context_script_clears_the_error() {
    let mut w = context_window();
    w.run_script(&build_engine(WindowKind::Context), "  \n\t", &snap(&BID_HEAVY), Mode::Live, "ETH-USD");
    assert_eq!((w.error.as_str(), w.bot_signal.as_str()), ("", "old"));
}

#[test]
fn context_scripts_outside_the_bounds_change_nothing() {
    let mut w = context_window();
    w.run_script(
        &build_engine(WindowKind::Context),
        "tf = -5; history = 5001; reload_secs = 0.5; bot_size = -1.0;",
        &snap(&BID_HEAVY),
        Mode::Live,
        "ETH-USD",
    );
    assert_eq!(w.knobs, knobs());
    assert_eq!((w.bot_size, w.bot_comment.as_str()), (0, "note"));
    w.run_script(&build_engine(WindowKind::Context), "tf = 7; history = 5000; x()", &snap(&BID_HEAVY), Mode::Live, "ETH-USD");
    assert_eq!(w.knobs, knobs());
    assert!(!w.error.is_empty());
    w.run_script(&build_engine(WindowKind::Context), "tf = 7; history = 5000;", &snap(&BID_HEAVY), Mode::Live, "ETH-USD");
    assert_eq!((w.knobs.chart.tf_secs, w.knobs.chart.show_candles), (7, 5000));
}

#[test]
fn the_first_wall_script_finds_a_bid_wall() {
    let s = snap(&["bid,4000,10", "bid,3999,1", "bid,3998,1", "bid,3997,1", "ask,4000.5,1"]);
    let mut w = context_window();
    let engine = build_engine(WindowKind::Wall);
    let script = default_rhai_script();
    w.run_script_for_snap(&engine, &script, &s.bids, &s.asks, s.last_mid, s.last_vol, "live", "ETH-USD");
    assert_eq!(w.error, "");
    assert_eq!((w.bot_signal.as_str(), w.bot_size), ("BID_BUBBLE", 5_000_000));
    assert!(w.bot_comment.starts_with("BID bubble @ 4000.0"));
    w.run_script_for_snap(&engine, &script, &s.bids, &s.asks, s.last_mid, s.last_vol, "replay", "ETH-USD");
    assert_eq!((w.bot_signal.as_str(), w.bot_comment.as_str()), ("FLAT", "not live mode"));
    w.run_script_for_snap(&engine, &script, &Side::new(), &s.asks, s.last_mid, s.last_vol, "live", "ETH-USD");
    assert_eq!(w.bot_comment, "bad mid / best prices");
    w.run_script_for_snap(&engine, "reload_secs = 99.0;", &s.bids, &s.asks, 0, 0, "live", "ETH-USD");
    assert_eq!(w.knobs.reload_secs, 60 * ONE);
    w.run_script_for_snap(&engine, "reload_secs = 1.0; x()", &s.bids, &s.asks, 0, 0, "live", "ETH-USD");
    assert!(!w.error.is_empty());
    assert_eq!(w.knobs.reload_secs, 60 * ONE);
}

fn grid_window() -> GridWindow {
    GridWindow {
        chart: ChartSettings::default(),
        bot_signal: Some("old".to_string()),
        bot_size: 5,
        bot_comment: "note".to_string(),
        error: None,
        info: String::new(),
    }
}

#[test]
fn the_first_grid_script_finds_a_wide_spread() {
    for script in [GRID_SCRIPT, GRID_EXAMPLE] {
        let mut w = grid_window();
        w.run_script_engine(&build_engine(WindowKind::Grid), script, Some(&multi(&["bid,4000,1", "ask,4010,1"])));
        assert_eq!(w.error, None);
        assert_eq!((w.bot_signal.as_deref(), w.bot_size), (Some("bubble"), 1_000_000));
        assert_eq!(w.bot_comment, "Spread wider than 0.1%");
        assert_eq!((w.chart.tf_secs, w.chart.show_candles), (60, 300));
        assert!(w.info.starts_with("Script OK, map keys: "));
        assert!(w.info.contains("auto_y") && w.info.contains("signal"));
    }
}

#[test]
fn a_grid_script_resets_the_signal() {
    let mut w = grid_window();
    w.run_script_engine(&build_engine(WindowKind::Grid), "#{ signal: \"none\", tf: -3, history: 1 }", Some(&multi(&BID_HEAVY)));
    assert_eq!((w.bot_signal.as_deref(), w.bot_size, w.bot_comment.as_str()), (None, 0, ""));
    assert_eq!((w.chart.tf_secs, w.chart.show_candles, w.chart.auto_y), (60, 20, true));
    w.run_script_engine(&build_engine(WindowKind::Grid), "#{ y_min: 1.5, auto_y: true }", Some(&multi(&BID_HEAVY)));
    assert_eq!((w.chart.y_min, w.chart.auto_y), (150_000_000, false));
}

#[test]
fn other_results_of_grid_scripts_change_nothing() {
    let mut w = grid_window();
    w.run_script_engine(&build_engine(WindowKind::Grid), "5", Some(&multi(&BID_HEAVY)));
    assert_eq!(w.info, "Script ran but did not return a map; no changes applied");
    assert_eq!(w.bot_signal.as_deref(), Some("old"));
    w.run_script_engine(&build_engine(WindowKind::Grid), "x()", Some(&multi(&BID_HEAVY)));
    assert!(w.error.is_some());
    assert_eq!(w.bot_signal.as_deref(), Some("old"));
    w.run_script_engine(&build_engine(WindowKind::Grid), "5", None);
    assert_eq!(w.error.as_deref(), Some("No snapshot for script"));
}
