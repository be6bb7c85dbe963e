use ladder_app::candle_agg::Candle;
use ladder_app::chart::{candle_shape, visible_candles, volume_top, AxisRange, ChartSettings};
use ladder_app::clock::{
    format_ts, format_ts_local, format_unix_local, now_unix, pick_local, unix_seconds, TimeDisplayMode, TimeMode,
};
use ladder_app::layout::{
    cell_index, cell_widths, default_cells, default_rows, grid_cells, grid_ratio, layout_cells, row_height, CellKind,
    KindCell, LayoutSettings, Panel, RowConfig, RowEvent, RowLayout, RowSpanMode, GRID_COLS, GRID_ROWS,
};
use ladder_app::ledger::{Ledger, TradeReceipt, KEPT_RECEIPTS, START_BALANCE};
use ladder_app::session::{range_text, saturated, Mode};
use ladder_app::theme::{
    theme_colors, theme_from_id, AppearanceSettings, Rgb, Theme, ThemeChoice, ThemeId, ThemeKind, UiTheme,
};

const ONE: i128 = 100_000_000;

#[test]
fn unix_times_are_shown_as_digits() {
    assert_eq!(format_ts(TimeDisplayMode::Unix, 1_700_000_000), "1700000000");
    assert_eq!(TimeDisplayMode::Unix.label(), "Unix");
    assert_eq!(TimeDisplayMode::Local.label(), "Local");
}

#[test]
fn local_times_are_dates() {
    let expected = chrono::TimeZone::timestamp_opt(&chrono::Local, 1_700_000_000, 0)
        .single()
        .unwrap()
        .format("%Y-%m-%d %H:%M:%S")
        .to_string();
    assert_eq!(format_ts(TimeDisplayMode::Local, 1_700_000_000), expected);
    assert_eq!(format_unix_local(1_700_000_000), expected);
    assert!(expected.starts_with("2023-11-1"));
    assert_eq!(expected.len(), 19);
}

#[test]
fn a_time_beyond_the_calendar_is_shown_as_the_epoch() {
    assert_eq!(format_ts_local(u64::MAX / 2), format_ts_local(0));
    assert_eq!(pick_local(None, Some("e".to_string())), Some("e".to_string()));
    assert_eq!(pick_local(Some("m".to_string()), None), Some("m".to_string()));
}

#[test]
fn the_clock_counts_from_the_epoch() {
    assert_eq!(unix_seconds(None), 0);
    assert_eq!(unix_seconds(Some(5)), 5);
    assert!(now_unix() > 1_600_000_000);
}

#[test]
fn modes_have_names() {
    for m in [TimeMode::Local, TimeMode::Unix] {
        assert_eq!(TimeMode::from_str(m.as_str()), m);
    }
    assert_eq!(TimeMode::from_str("unix"), TimeMode::Local);
    assert_eq!(TimeMode::Unix.display(), TimeDisplayMode::Unix);
    for m in [Mode::Live, Mode::Replay] {
        assert_eq!(Mode::from_str(m.as_str()), m);
    }
    assert_eq!(Mode::from_str("?"), Mode::Live);
    assert_eq!(Mode::Live.script_name(), "live");
    assert_eq!(Mode::Replay.script_name(), "replay");
}

#[test]
fn small_texts_of_the_session() {
    assert_eq!(saturated(u64::MAX), i64::MAX);
    assert_eq!(saturated(7), 7);
    assert!(range_text("a", "b").contains("a") && range_text("a", "b").contains("b"));
}

#[test]
fn themes_have_names_and_colours() {
    assert_eq!(ThemeChoice::from_str("OCEAN"), Ok(ThemeChoice::Ocean));
    assert_eq!(ThemeChoice::from_str("fire"), Err(()));
    assert_eq!(ThemeChoice::Pastel.label(), "Pastel");
    assert_eq!(UiTheme::from_name("neon"), UiTheme::Neon);
    assert_eq!(UiTheme::from_name("Neon"), UiTheme::Classic);
    for t in [UiTheme::Classic, UiTheme::Dark, UiTheme::Neon, UiTheme::HighContrast, UiTheme::Pastel] {
        assert_eq!(UiTheme::from_name(t.name()), t);
    }
    assert_eq!(Theme::from_kind(ThemeKind::Dark).bg, Rgb { r: 15, g: 15, b: 20 });
    assert_eq!(ThemeKind::Matrix.label(), "Matrix");
    assert_ne!(theme_from_id(ThemeId::Dark), theme_from_id(ThemeId::Light));
    assert_ne!(theme_colors(ThemeChoice::Dark), theme_colors(ThemeChoice::Light));
    assert_eq!(AppearanceSettings::default().bull_color, Rgb { r: 0, g: 200, b: 0 });
}

fn candle(t: u64, low: i128, high: i128) -> Candle {
    Candle { t, open: low, high, low, close: high, volume: high }
}

#[test]
fn the_newest_candles_are_visible() {
    let s: Vec<Candle> = (0..5).map(|i| candle(i * 60, ONE, 2 * ONE)).collect();
    assert_eq!(visible_candles(&s, 2), s[3..].to_vec());
    assert_eq!(visible_candles(&s, 0), s[4..].to_vec());
    assert_eq!(visible_candles(&s, 50), s);
}

#[test]
fn the_range_of_prices_follows_the_candles() {
    let mut c = ChartSettings::default();
    let r = c.y_range(&vec![candle(0, 100 * ONE, 110 * ONE), candle(60, 90 * ONE, 105 * ONE)]);
    assert_eq!(r, AxisRange { min: 89 * ONE, max: 111 * ONE });
    assert_eq!((c.y_min, c.y_max), (89 * ONE, 111 * ONE));
    c.auto_y = false;
    c.y_min = 1;
    assert_eq!(c.y_range(&vec![candle(0, ONE, ONE)]), AxisRange { min: 1, max: 111 * ONE });
}

#[test]
fn the_range_of_time_surrounds_the_last_candle() {
    let mut c = ChartSettings { show_candles: 10, ..ChartSettings::default() };
    assert_eq!(c.x_range(600), AxisRange { min: 330 * ONE, max: 930 * ONE });
    c.x_zoom = 2 * ONE;
    assert_eq!(c.x_range(600), AxisRange { min: 480 * ONE, max: 780 * ONE });
    c.x_pan_secs = -ONE;
    assert_eq!(c.x_range(600), AxisRange { min: 479 * ONE, max: 779 * ONE });
    c.center_x();
    assert_eq!(c.x_pan_secs, 0);
}

#[test]
fn panning_moves_and_cancels() {
    let mut c = ChartSettings::default();
    c.pan_left();
    assert!(c.x_pan_secs < 0);
    c.pan_right();
    assert_eq!(c.x_pan_secs, 0);
}

#[test]
fn zooming_keeps_the_centre() {
    let mut c = ChartSettings { y_min: 90 * ONE, y_max: 110 * ONE, ..ChartSettings::default() };
    c.zoom_y(100_000);
    assert!(!c.auto_y);
    assert_eq!((c.y_min, c.y_max), (88 * ONE, 112 * ONE));
    c.zoom_y(-10_000_000);
    assert_eq!((c.y_min, c.y_max), (9_760_000_000, 10_240_000_000));
}

#[test]
fn a_candle_has_a_body_and_a_wick() {
    let c = Candle { t: 120, open: 5, high: 9, low: 1, close: 3, volume: 0 };
    let s = candle_shape(&c, 60, ONE / 2);
    assert_eq!((s.left, s.middle, s.right), (135 * ONE, 150 * ONE, 165 * ONE));
    assert_eq!((s.bottom, s.top, s.low, s.high, s.rising), (3, 5, 1, 9, false));
    assert_eq!(volume_top(&vec![candle(0, 1, 10 * ONE)]), 11 * ONE);
    assert_eq!(volume_top(&vec![]), 110);
}

#[test]
fn rows_are_divided() {
    let mut cfg = RowConfig::default();
    assert_eq!(cell_widths(&cfg, 900), (300, 300, 300));
    cfg.handle(&RowEvent::Ratio { big: 50_000_000 });
    assert_eq!(cfg.big_ratio, 66_000_000);
    cfg.handle(&RowEvent::Span { mode: RowSpanMode::Left2Right1 });
    assert_eq!(cell_widths(&cfg, 100 * ONE), (66 * ONE, 34 * ONE, 0));
    cfg.handle(&RowEvent::Ratio { big: 99_000_000 });
    assert_eq!(cfg.big_ratio, 80_000_000);
    cfg.handle(&RowEvent::Height { factor: 0 });
    assert_eq!(row_height(&cfg), 70 * ONE);
    cfg.span_mode = RowSpanMode::Left1Right2;
    assert_eq!(cell_widths(&cfg, 100 * ONE), (20 * ONE, 80 * ONE, 0));
    cfg.span_mode = RowSpanMode::Full;
    assert_eq!(cell_widths(&cfg, 5), (5, 0, 0));
}

#[test]
fn the_bot_window_shows_its_panels() {
    let cfg = RowConfig::default();
    let on = LayoutSettings::default();
    let off = LayoutSettings { show_depth: false, show_ladders: false, show_trades: false, show_volume: false };
    let panels = |row: usize, has: bool, l: &LayoutSettings| -> Vec<Panel> {
        grid_cells(row, &cfg, 900, has, l).iter().map(|c| c.panel).collect()
    };
    assert_eq!(panels(0, true, &on), vec![Panel::Chart]);
    assert_eq!(panels(0, false, &on), vec![Panel::NoSnapshot]);
    assert_eq!(panels(1, true, &on), vec![Panel::Depth, Panel::Ladders, Panel::Trading]);
    assert_eq!(panels(1, true, &off), vec![Panel::DepthHidden, Panel::LaddersHidden, Panel::Trading]);
    assert_eq!(panels(1, false, &on), vec![Panel::NoDepth, Panel::Trading]);
    assert_eq!(panels(2, true, &on), vec![Panel::Script, Panel::BotStatus, Panel::Trades]);
    assert_eq!(panels(2, true, &off), vec![Panel::Script, Panel::BotStatus, Panel::TradesHidden]);
    assert_eq!(panels(4, true, &on), vec![Panel::Free]);
    assert_eq!(panels(4, true, &on).len(), 1);
    let full = RowConfig { span_mode: RowSpanMode::Full, ..cfg };
    assert_eq!(grid_cells(1, &full, 900, true, &on).len(), 1);
}

#[test]
fn the_grid_window_places_its_cells() {
    assert_eq!(
        layout_cells(1, RowLayout::Two12, 60_000_000, 100 * ONE),
        vec![KindCell { col: 0, index: 3, width: 60 * ONE }, KindCell { col: 2, index: 5, width: 40 * ONE }]
    );
    assert_eq!(layout_cells(0, RowLayout::Three, ONE, 9).len(), 3);
    assert_eq!(layout_cells(5, RowLayout::One123, ONE, 9), vec![KindCell { col: 0, index: 15, width: 9 }]);
    assert_eq!(layout_cells(0, RowLayout::Two23, 60_000_000, 10)[1], KindCell { col: 2, index: 1, width: 6 });
    assert_eq!(grid_ratio(RowLayout::Two12, 5, ONE), 80_000_000);
    assert_eq!(grid_ratio(RowLayout::Three, 5, ONE), 5);
    assert_eq!(cell_index(5, 2), 17);
    assert_eq!(default_cells().len(), GRID_ROWS * GRID_COLS);
    assert_eq!(default_rows().len(), GRID_ROWS);
    assert_eq!(CellKind::all().len(), 8);
    assert_eq!(CellKind::LaddersTrades.label().is_empty(), false);
    assert_eq!(RowLayout::Three.label().is_empty(), false);
    assert_eq!(RowSpanMode::Full.label().is_empty(), false);
}

#[test]
fn deposits_and_withdrawals_cancel() {
    let mut l = Ledger::new();
    assert_eq!(l.balance_usdc, START_BALANCE);
    l.deposit(-5 * ONE, 1, "ETH-USD");
    assert_eq!(l.balance_usdc, START_BALANCE + 5 * ONE);
    assert!(l.withdraw(5 * ONE, 2, "ETH-USD"));
    assert_eq!(l.balance_usdc, START_BALANCE);
    assert!(!l.withdraw(2000 * ONE, 3, "ETH-USD"));
    assert_eq!(l.balance_usdc, START_BALANCE);
    let kinds: Vec<(String, String, String)> =
        l.shown().into_iter().map(|r| (r.kind, r.status, r.comment)).collect();
    let row = |a: &str, b: &str, c: &str| (a.to_string(), b.to_string(), c.to_string());
    assert_eq!(
        kinds,
        vec![
            row("WithdrawSim", "fail", "Insufficient sim balance"),
            row("WithdrawSim", "ok", "Sim withdraw"),
            row("DepositSim", "ok", "Sim deposit"),
        ]
    );
    assert_eq!(l.receipts[0].size, "5.00");
}

#[test]
fn only_the_newest_receipts_are_kept() {
    let mut l = Ledger::new();
    for ts in 0..350u64 {
        l.push_receipt(TradeReceipt {
            ts,
            ticker: "E".to_string(),
            side: "Buy".to_string(),
            kind: "Market".to_string(),
            size: "1".to_string(),
            status: "sent".to_string(),
            comment: String::new(),
        });
    }
    assert_eq!(l.receipts.len(), KEPT_RECEIPTS);
    assert_eq!(l.receipts[0].ts, 50);
    let shown = l.shown();
    assert_eq!((shown.len(), shown[0].ts, shown[199].ts), (200, 349, 150));
}
