//! What the panes of the windows show: headings, ladders, trades, charts and the space that
//! each one gets.

use crate::amount::{clamp_units, fixed_text, mul_amounts, sat_sub, Amount, ONE};
use crate::book::Side;
use crate::candle_agg::Candle;
use crate::chart::{candle_shape, visible_candles, volume_top, AxisRange, CandleShape, ChartSettings};
use crate::clock::{format_ts, TimeDisplayMode};
use crate::events::{TickerData, TradeCsvEvent};
use crate::layout::LayoutSettings;
use crate::metrics::{depth_points, ladder_rows, DepthPoint, LadderRow};
use crate::session::{last_words, Mode};
use crate::text::{cat, concat, u64_text, views};
use crate::timeline::TimePos;
use crate::top_bar::WindowKind;
use vstd::prelude::*;

verus! {

// ---------------------------------------------------------------------------
// The book

/// The book as it is shown: both depth curves and both ladders.
#[derive(Debug)]
pub struct BookPane {
    pub bid_depth: Vec<DepthPoint>,
    pub ask_depth: Vec<DepthPoint>,
    pub bids: Vec<LadderRow>,
    pub asks: Vec<LadderRow>,
}

/// How many levels a window lists, and how wide their sizes are.
pub open spec fn ladder_size(kind: WindowKind) -> (usize, usize) {
    match kind {
        WindowKind::Chart => (30, 8),
        WindowKind::Script => (25, 9),
        WindowKind::Context => (20, 10),
        WindowKind::Grid => (40, 8),
        _ => (20, 8),
    }
}

/// Whether a pane shows a book.
pub open spec fn is_book_pane(p: BookPane, kind: WindowKind, bids: crate::book::Sizes, asks: crate::book::Sizes) -> bool {
    let n = ladder_size(kind).0 as nat;
    let w = ladder_size(kind).1 as nat;
    &&& p.bid_depth@ == crate::metrics::depth_curve(crate::metrics::from_best(bids, true))
    &&& p.ask_depth@ == crate::metrics::depth_curve(crate::metrics::from_best(asks, false))
    &&& crate::metrics::is_ladder(p.bids@, crate::metrics::best_levels(bids, true, n), w)
    &&& crate::metrics::is_ladder(p.asks@, crate::metrics::best_levels(asks, false, n), w)
}

/// The book as a window shows it.
pub fn book_pane(kind: WindowKind, bids: &Side, asks: &Side) -> (r: BookPane)
    requires
        bids.wf(),
        asks.wf(),
    ensures
        is_book_pane(r, kind, bids@, asks@),
{
    let (n, w): (usize, usize) = match kind {
        WindowKind::Chart => (30, 8),
        WindowKind::Script => (25, 9),
        WindowKind::Context => (20, 10),
        WindowKind::Grid => (40, 8),
        _ => (20, 8),
    };
    BookPane {
        bid_depth: depth_points(bids, true),
        ask_depth: depth_points(asks, false),
        bids: ladder_rows(bids, true, n, w),
        asks: ladder_rows(asks, false, n, w),
    }
}

// ---------------------------------------------------------------------------
// The trades

/// A trade as it is listed.
#[derive(Debug)]
pub struct TradeLine {
    pub time: String,
    pub side: String,
    pub size: String,
    pub source: String,
}

/// Whether a line shows a trade.
pub open spec fn is_line_of(l: TradeLine, t: crate::events::TradeRow, mode: TimeDisplayMode) -> bool {
    &&& crate::clock::shows(mode, t.ts, l.time@)
    &&& l.side@ == t.side
    &&& l.size@ == t.size_str
    &&& l.source@ == t.source
}

/// The trades in the order in which a window lists them: the newest first, in the grid the
/// oldest first.
pub open spec fn listed(kind: WindowKind, t: Seq<crate::events::TradeRow>) -> Seq<crate::events::TradeRow> {
    if kind is Grid {
        t
    } else {
        t.reverse()
    }
}

/// The trades as a window lists them.
pub fn trade_lines(kind: WindowKind, trades: &Vec<TradeCsvEvent>, mode: TimeDisplayMode) -> (r: Vec<TradeLine>)
    ensures
        r@.len() == trades@.len(),
        forall|i: int|
            0 <= i < r@.len() ==> is_line_of(
                #[trigger] r@[i],
                listed(kind, crate::events::trade_rows(trades@))[i],
                mode,
            ),
{
    let n: usize = trades.len();
    let oldest_first: bool = matches!(kind, WindowKind::Grid);
    let ghost order = listed(kind, crate::events::trade_rows(trades@));
    let mut out: Vec<TradeLine> = Vec::new();
    let mut i: usize = 0;
    while i < n
        invariant
            i <= n,
            n == trades@.len(),
            oldest_first == (kind is Grid),
            order == listed(kind, crate::events::trade_rows(trades@)),
            out@.len() == i,
            forall|j: int| 0 <= j < i ==> is_line_of(#[trigger] out@[j], order[j], mode),
        decreases n - i,
    {
        let k: usize = if oldest_first {
            i
        } else {
            n - 1 - i
        };
        let t = &trades[k];
        assert(order[i as int] == t@);
        let line = TradeLine {
            time: format_ts(mode, t.ts),
            side: t.side.clone(),
            size: t.size_str.clone(),
            source: t.source.clone(),
        };
        out.push(line);
        i += 1;
    }
    out
}

// ---------------------------------------------------------------------------
// Words

pub open spec fn mode_word(mode: Mode) -> Seq<char> {
    match mode {
        Mode::Live => "LIVE"@,
        Mode::Replay => "REPLAY"@,
    }
}

/// The heading of a window, with the time as text.
pub open spec fn heading_text(kind: WindowKind, mode: Mode, ticker: Seq<char>, time: Seq<char>) -> Seq<char> {
    match kind {
        WindowKind::Object => concat(seq![mode_word(mode), " mode \u{2014} "@, ticker]),
        WindowKind::Context | WindowKind::Wall => concat(
            seq![mode_word(mode), " "@, ticker, " @ "@, time],
        ),
        WindowKind::Chart => match mode {
            Mode::Live => concat(seq!["LIVE (from daemon CSVs) "@, ticker]),
            Mode::Replay => concat(seq!["REPLAY "@, ticker, " @ "@, time]),
        },
        _ => match mode {
            Mode::Live => concat(seq!["LIVE "@, ticker]),
            Mode::Replay => concat(seq!["REPLAY "@, ticker, " @ "@, time]),
        },
    }
}

/// The heading of a window, with the time as text.
pub fn heading_with(kind: WindowKind, mode: Mode, ticker: &str, time: &str) -> (r: String)
    ensures
        r@ == heading_text(kind, mode, ticker@, time@),
{
    let word: &str = match mode {
        Mode::Live => "LIVE",
        Mode::Replay => "REPLAY",
    };
    match (kind, mode) {
        (WindowKind::Object, _) => {
            let parts: Vec<&str> = vec![word, " mode \u{2014} ", ticker];
            assert(views(parts@) =~= seq![word@, " mode \u{2014} "@, ticker@]);
            cat(&parts)
        },
        (WindowKind::Context | WindowKind::Wall, _) => {
            let parts: Vec<&str> = vec![word, " ", ticker, " @ ", time];
            assert(views(parts@) =~= seq![word@, " "@, ticker@, " @ "@, time@]);
            cat(&parts)
        },
        (WindowKind::Chart, Mode::Live) => {
            let parts: Vec<&str> = vec!["LIVE (from daemon CSVs) ", ticker];
            assert(views(parts@) =~= seq!["LIVE (from daemon CSVs) "@, ticker@]);
            cat(&parts)
        },
        (_, Mode::Live) => {
            let parts: Vec<&str> = vec!["LIVE ", ticker];
            assert(views(parts@) =~= seq!["LIVE "@, ticker@]);
            cat(&parts)
        },
        (_, Mode::Replay) => {
            let parts: Vec<&str> = vec!["REPLAY ", ticker, " @ ", time];
            assert(views(parts@) =~= seq!["REPLAY "@, ticker@, " @ "@, time@]);
            cat(&parts)
        },
    }
}

/// Whether a window may be headed so.
pub open spec fn heads(
    kind: WindowKind,
    mode: Mode,
    ticker: Seq<char>,
    time_mode: TimeDisplayMode,
    ts: u64,
    text: Seq<char>,
) -> bool {
    exists|t: Seq<char>| #[trigger]
        crate::clock::shows(time_mode, ts, t) && text == heading_text(kind, mode, ticker, t)
}

/// The heading of a window at its times.
pub fn heading(kind: WindowKind, mode: Mode, ticker: &str, time_mode: TimeDisplayMode, pos: &TimePos) -> (r: String)
    ensures
        heads(
            kind,
            mode,
            ticker@,
            time_mode,
            match mode {
                Mode::Live => pos.live_ts,
                Mode::Replay => pos.replay_ts,
            },
            r@,
        ),
{
    let ts: u64 = match mode {
        Mode::Live => pos.live_ts,
        Mode::Replay => pos.replay_ts,
    };
    let t: String = format_ts(time_mode, ts);
    heading_with(kind, mode, ticker, t.as_str())
}

/// What a window says where there is no snapshot.
pub open spec fn no_data_line(kind: WindowKind, mode: Mode) -> Seq<char> {
    match (kind, mode) {
        (WindowKind::Feed | WindowKind::Panel, _) => "No replay data for this ticker."@,
        (WindowKind::Chart, Mode::Live) => "No CSV data yet. Wait for data_daemon02 to write some lines."@,
        (WindowKind::Chart, Mode::Replay) => "No replay data for this ticker."@,
        (WindowKind::Script, Mode::Live) => "No live snapshot yet (no CSV or daemon just started)."@,
        (WindowKind::Script, Mode::Replay) => "No replay snapshot yet (no CSV?)."@,
        (WindowKind::Object, _) => "No data yet"@,
        (WindowKind::Context, _) =>
            "No data yet. Make sure the daemon is running and writing CSVs into ./data."@,
        (WindowKind::Wall, Mode::Live) => "No live snapshot for this ticker yet. Check CSV files."@,
        (WindowKind::Wall, Mode::Replay) => "No replay snapshot. Check CSV for this ticker."@,
        (WindowKind::Grid, _) => "No snapshot."@,
        (WindowKind::Bot, _) => "No snapshot yet."@,
    }
}

/// What a window says where there is no snapshot.
pub fn no_data_text(kind: WindowKind, mode: Mode) -> (r: &'static str)
    ensures
        r@ == no_data_line(kind, mode),
{
    match (kind, mode) {
        (WindowKind::Feed | WindowKind::Panel, _) => "No replay data for this ticker.",
        (WindowKind::Chart, Mode::Live) => "No CSV data yet. Wait for data_daemon02 to write some lines.",
        (WindowKind::Chart, Mode::Replay) => "No replay data for this ticker.",
        (WindowKind::Script, Mode::Live) => "No live snapshot yet (no CSV or daemon just started).",
        (WindowKind::Script, Mode::Replay) => "No replay snapshot yet (no CSV?).",
        (WindowKind::Object, _) => "No data yet",
        (WindowKind::Context, _) =>
            "No data yet. Make sure the daemon is running and writing CSVs into ./data.",
        (WindowKind::Wall, Mode::Live) => "No live snapshot for this ticker yet. Check CSV files.",
        (WindowKind::Wall, Mode::Replay) => "No replay snapshot. Check CSV for this ticker.",
        (WindowKind::Grid, _) => "No snapshot.",
        (WindowKind::Bot, _) => "No snapshot yet.",
    }
}

/// What a chart says where there is no candle.
pub open spec fn no_candles_line(kind: WindowKind, mode: Mode) -> Seq<char> {
    match (kind, mode) {
        (WindowKind::Feed | WindowKind::Panel, Mode::Live) => "No live candles yet (waiting for book mid)..."@,
        (WindowKind::Feed | WindowKind::Panel, Mode::Replay) => "No candles yet at this replay time."@,
        (WindowKind::Chart, Mode::Live) =>
            "No candles yet; waiting for daemon CSVs to accumulate enough book events."@,
        (WindowKind::Script, Mode::Live) => "No candles yet (waiting for CSV / daemon)..."@,
        (WindowKind::Context, Mode::Live) => "No candles yet (waiting for book history...)"@,
        (WindowKind::Chart | WindowKind::Script | WindowKind::Context, Mode::Replay) =>
            "No candles at this replay time."@,
        (WindowKind::Object, _) => "No candles yet for this view."@,
        (WindowKind::Wall, Mode::Live) => "No candles yet (live)."@,
        (WindowKind::Wall, Mode::Replay) => "No candles yet (replay)."@,
        (WindowKind::Grid, _) => "No candles for current TF."@,
        (WindowKind::Bot, _) => "No candles yet at this TF."@,
    }
}

/// What a chart says where there is no candle.
pub fn no_candles_text(kind: WindowKind, mode: Mode) -> (r: &'static str)
    ensures
        r@ == no_candles_line(kind, mode),
{
    match (kind, mode) {
        (WindowKind::Feed | WindowKind::Panel, Mode::Live) => "No live candles yet (waiting for book mid)...",
        (WindowKind::Feed | WindowKind::Panel, Mode::Replay) => "No candles yet at this replay time.",
        (WindowKind::Chart, Mode::Live) =>
            "No candles yet; waiting for daemon CSVs to accumulate enough book events.",
        (WindowKind::Script, Mode::Live) => "No candles yet (waiting for CSV / daemon)...",
        (WindowKind::Context, Mode::Live) => "No candles yet (waiting for book history...)",
        (WindowKind::Chart | WindowKind::Script | WindowKind::Context, Mode::Replay) =>
            "No candles at this replay time.",
        (WindowKind::Object, _) => "No candles yet for this view.",
        (WindowKind::Wall, Mode::Live) => "No candles yet (live).",
        (WindowKind::Wall, Mode::Replay) => "No candles yet (replay).",
        (WindowKind::Grid, _) => "No candles for current TF.",
        (WindowKind::Bot, _) => "No candles yet at this TF.",
    }
}

/// What a cell of volumes says where there is no candle.
pub open spec fn no_volume_line(kind: WindowKind, mode: Mode) -> Seq<char> {
    match kind {
        WindowKind::Grid => "No candles for current TF (so no volume)."@,
        _ => no_candles_line(kind, mode),
    }
}

/// What a cell of volumes says where there is no candle.
pub fn no_volume_text(kind: WindowKind, mode: Mode) -> (r: &'static str)
    ensures
        r@ == no_volume_line(kind, mode),
{
    match kind {
        WindowKind::Grid => "No candles for current TF (so no volume).",
        _ => no_candles_text(kind, mode),
    }
}

/// The last price and volume below a ladder: with how many decimals, and as the bot window
/// has it.
pub open spec fn last_line(kind: WindowKind, mid: Amount, vol: Amount) -> Seq<char> {
    if kind is Bot {
        crate::session::last_message(mid, vol)
    } else {
        let (m, v) = if kind is Chart {
            (4nat, 6nat)
        } else {
            (2nat, 4nat)
        };
        concat(
            seq![
                "Last mid: "@,
                crate::amount::fixed(mid as int, m),
                "   Last vol: "@,
                crate::amount::fixed(vol as int, v),
            ],
        )
    }
}

/// The last price and volume below a ladder.
pub fn last_text(kind: WindowKind, mid: Amount, vol: Amount) -> (r: String)
    ensures
        r@ == last_line(kind, mid, vol),
{
    if matches!(kind, WindowKind::Bot) {
        return last_words(mid, vol);
    }
    let wide: bool = matches!(kind, WindowKind::Chart);
    let m: String = if wide {
        fixed_text(mid, 4)
    } else {
        fixed_text(mid, 2)
    };
    let v: String = if wide {
        fixed_text(vol, 6)
    } else {
        fixed_text(vol, 4)
    };
    let parts: Vec<&str> = vec!["Last mid: ", m.as_str(), "   Last vol: ", v.as_str()];
    assert(views(parts@) =~= seq!["Last mid: "@, m@, "   Last vol: "@, v@]);
    cat(&parts)
}

/// What a window says about its bot.
pub open spec fn bot_line(kind: WindowKind, signal: Seq<char>, size: Amount, comment: Seq<char>) -> Option<Seq<char>> {
    let four = crate::amount::fixed(size as int, 4);
    let six = crate::amount::fixed(size as int, 6);
    match kind {
        WindowKind::Object => if signal.len() == 0 {
            None
        } else {
            Some(concat(seq!["Bot signal: "@, signal, " size "@, six]))
        },
        WindowKind::Context => if signal.len() == 0 {
            None
        } else {
            Some(concat(seq!["Bot signal: "@, signal, " size "@, six, "  "@, comment]))
        },
        WindowKind::Wall => Some(concat(seq!["Bot signal: "@, signal, ", size: "@, six])),
        WindowKind::Grid => Some(concat(seq!["Bot signal: "@, signal, " | size: "@, four])),
        WindowKind::Bot => if signal.len() == 0 || signal == "none"@ {
            None
        } else {
            Some(concat(seq!["Bot: "@, signal, " size "@, four, "  ("@, comment, ")"@]))
        },
        _ => None,
    }
}

/// What a window says about its bot.
pub fn bot_text(kind: WindowKind, signal: &str, size: Amount, comment: &str) -> (r: Option<String>)
    ensures
        crate::script_host::text_view(r) == bot_line(kind, signal@, size, comment@),
{
    let four: String = fixed_text(size, 4);
    let six: String = fixed_text(size, 6);
    match kind {
        WindowKind::Object => {
            if signal.is_empty() {
                return None;
            }
            let parts: Vec<&str> = vec!["Bot signal: ", signal, " size ", six.as_str()];
            assert(views(parts@) =~= seq!["Bot signal: "@, signal@, " size "@, six@]);
            Some(cat(&parts))
        },
        WindowKind::Context => {
            if signal.is_empty() {
                return None;
            }
            let parts: Vec<&str> = vec!["Bot signal: ", signal, " size ", six.as_str(), "  ", comment];
            assert(views(parts@) =~= seq!["Bot signal: "@, signal@, " size "@, six@, "  "@, comment@]);
            Some(cat(&parts))
        },
        WindowKind::Wall => {
            let parts: Vec<&str> = vec!["Bot signal: ", signal, ", size: ", six.as_str()];
            assert(views(parts@) =~= seq!["Bot signal: "@, signal@, ", size: "@, six@]);
            Some(cat(&parts))
        },
        WindowKind::Grid => {
            let parts: Vec<&str> = vec!["Bot signal: ", signal, " | size: ", four.as_str()];
            assert(views(parts@) =~= seq!["Bot signal: "@, signal@, " | size: "@, four@]);
            Some(cat(&parts))
        },
        WindowKind::Bot => {
            if signal.is_empty() || crate::text::same_text(signal, "none") {
                return None;
            }
            let parts: Vec<&str> = vec!["Bot: ", signal, " size ", four.as_str(), "  (", comment, ")"];
            assert(views(parts@) =~= seq!["Bot: "@, signal@, " size "@, four@, "  ("@, comment@, ")"@]);
            Some(cat(&parts))
        },
        _ => None,
    }
}

// ---------------------------------------------------------------------------
// The state of the script and of the bot

/// A line about the script; an alarm says that it failed.
#[derive(Debug)]
pub struct StatusLine {
    pub alarm: bool,
    pub text: String,
}

pub ghost struct StatusView {
    pub alarm: bool,
    pub text: Seq<char>,
}

impl View for StatusLine {
    type V = StatusView;

    open spec fn view(&self) -> StatusView {
        StatusView { alarm: self.alarm, text: self.text@ }
    }
}

pub open spec fn status_views(v: Seq<StatusLine>) -> Seq<StatusView> {
    v.map_values(|l: StatusLine| l@)
}

pub open spec fn plain_line(text: Seq<char>) -> StatusView {
    StatusView { alarm: false, text }
}

/// The line about an error, if there is one.
pub open spec fn alarm_lines(head: Seq<char>, error: Seq<char>) -> Seq<StatusView> {
    if error.len() == 0 {
        Seq::empty()
    } else {
        seq![StatusView { alarm: true, text: concat(seq![head, error]) }]
    }
}

/// What the script panel of a window says. An empty error, note or signal stands for none.
pub open spec fn status_of(
    kind: WindowKind,
    error: Seq<char>,
    info: Seq<char>,
    signal: Seq<char>,
    size: Amount,
    comment: Seq<char>,
) -> Seq<StatusView> {
    let four = crate::amount::fixed(size as int, 4);
    let six = crate::amount::fixed(size as int, 6);
    let noted = if info.len() == 0 {
        Seq::empty()
    } else {
        seq![plain_line(info)]
    };
    match kind {
        WindowKind::Script => alarm_lines("Script error: "@, error) + noted,
        WindowKind::Object => alarm_lines("Script error: "@, error) + (if signal.len() == 0 {
            Seq::empty()
        } else {
            seq![plain_line(concat(seq!["Last bot signal: "@, signal, "  size "@, six]))]
        }),
        WindowKind::Context => alarm_lines("Script error: "@, error),
        WindowKind::Wall => alarm_lines("Script error: "@, error) + seq![
            plain_line(concat(seq!["Bot signal: "@, signal, ", size: "@, six])),
            plain_line(concat(seq!["Bot comment: "@, comment])),
        ],
        WindowKind::Grid => (if error.len() > 0 {
            alarm_lines("Error: "@, error)
        } else {
            noted
        }) + (if signal.len() == 0 {
            Seq::empty()
        } else {
            seq![plain_line(concat(seq!["Bot signal: "@, signal, " | size: "@, four]))] + (if comment.len()
                == 0 {
                Seq::empty()
            } else {
                seq![plain_line(concat(seq!["Comment: "@, comment]))]
            })
        }),
        WindowKind::Bot => if error.len() > 0 {
            alarm_lines(""@, error)
        } else {
            seq![
                plain_line(
                    concat(seq!["Last signal: "@, signal, " size "@, four, "  "@, comment]),
                ),
            ]
        },
        _ => Seq::empty(),
    }
}

fn push_alarm(out: &mut Vec<StatusLine>, head: &str, error: &str)
    ensures
        status_views(final(out)@) == status_views(old(out)@) + alarm_lines(head@, error@),
{
    let ghost before = out@;
    if !error.is_empty() {
        let line = StatusLine { alarm: true, text: line_of(head, error) };
        out.push(line);
        assert(status_views(out@) =~= status_views(before) + seq![line@]);
    } else {
        assert(status_views(out@) =~= status_views(before) + Seq::<StatusView>::empty());
    }
}

fn push_line(out: &mut Vec<StatusLine>, parts: &Vec<&str>)
    ensures
        status_views(final(out)@) == status_views(old(out)@) + seq![plain_line(concat(views(parts@)))],
{
    let ghost before = out@;
    let line = StatusLine { alarm: false, text: cat(parts) };
    out.push(line);
    assert(status_views(out@) =~= status_views(before) + seq![line@]);
}

fn push_note(out: &mut Vec<StatusLine>, info: &str)
    ensures
        status_views(final(out)@) == status_views(old(out)@) + (if info@.len() == 0 {
            Seq::empty()
        } else {
            seq![plain_line(info@)]
        }),
{
    let ghost before = out@;
    if !info.is_empty() {
        let line = StatusLine { alarm: false, text: info.to_owned() };
        out.push(line);
        assert(status_views(out@) =~= status_views(before) + seq![line@]);
    } else {
        assert(status_views(out@) =~= status_views(before) + Seq::<StatusView>::empty());
    }
}

/// What the script panel of a window says.
pub fn script_status(kind: WindowKind, error: &str, info: &str, signal: &str, size: Amount, comment: &str) -> (r:
    Vec<StatusLine>)
    ensures
        status_views(r@) == status_of(kind, error@, info@, signal@, size, comment@),
{
    let four: String = fixed_text(size, 4);
    let six: String = fixed_text(size, 6);
    let mut out: Vec<StatusLine> = Vec::new();
    assert(status_views(out@) =~= Seq::<StatusView>::empty());
    match kind {
        WindowKind::Script => {
            push_alarm(&mut out, "Script error: ", error);
            push_note(&mut out, info);
        },
        WindowKind::Object => {
            push_alarm(&mut out, "Script error: ", error);
            if !signal.is_empty() {
                let parts: Vec<&str> = vec!["Last bot signal: ", signal, "  size ", six.as_str()];
                assert(views(parts@) =~= seq!["Last bot signal: "@, signal@, "  size "@, six@]);
                push_line(&mut out, &parts);
            }
        },
        WindowKind::Context => {
            push_alarm(&mut out, "Script error: ", error);
        },
        WindowKind::Wall => {
            push_alarm(&mut out, "Script error: ", error);
            let parts: Vec<&str> = vec!["Bot signal: ", signal, ", size: ", six.as_str()];
            assert(views(parts@) =~= seq!["Bot signal: "@, signal@, ", size: "@, six@]);
            push_line(&mut out, &parts);
            let note: Vec<&str> = vec!["Bot comment: ", comment];
            assert(views(note@) =~= seq!["Bot comment: "@, comment@]);
            push_line(&mut out, &note);
        },
        WindowKind::Grid => {
            if !error.is_empty() {
                push_alarm(&mut out, "Error: ", error);
            } else {
                push_note(&mut out, info);
            }
            if !signal.is_empty() {
                let parts: Vec<&str> = vec!["Bot signal: ", signal, " | size: ", four.as_str()];
                assert(views(parts@) =~= seq!["Bot signal: "@, signal@, " | size: "@, four@]);
                push_line(&mut out, &parts);
                if !comment.is_empty() {
                    let note: Vec<&str> = vec!["Comment: ", comment];
                    assert(views(note@) =~= seq!["Comment: "@, comment@]);
                    push_line(&mut out, &note);
                }
            }
        },
        WindowKind::Bot => {
            if !error.is_empty() {
                push_alarm(&mut out, "", error);
            } else {
                let parts: Vec<&str> = vec!["Last signal: ", signal, " size ", four.as_str(), "  ", comment];
                assert(views(parts@) =~= seq![
                    "Last signal: "@,
                    signal@,
                    " size "@,
                    four@,
                    "  "@,
                    comment@,
                ]);
                push_line(&mut out, &parts);
            }
        },
        _ => {},
    }
    assert(status_views(out@) =~= status_of(kind, error@, info@, signal@, size, comment@));
    out
}

/// The lines of the bot's own pane.
pub open spec fn bot_lines(signal: Seq<char>, size: Amount, comment: Seq<char>, auto: bool) -> Seq<Seq<char>> {
    seq![
        concat(seq!["Signal: "@, signal, "  size "@, crate::amount::fixed(size as int, 4)]),
        concat(seq!["Comment: "@, comment]),
        concat(
            seq![
                "Auto-trade: "@,
                if auto {
                    "ON"@
                } else {
                    "OFF"@
                },
            ],
        ),
    ]
}

/// The lines of the bot's own pane.
pub fn bot_status(signal: &str, size: Amount, comment: &str, auto: bool) -> (r: Vec<String>)
    ensures
        crate::text::texts(r@) == bot_lines(signal@, size, comment@, auto),
{
    let four: String = fixed_text(size, 4);
    let parts: Vec<&str> = vec!["Signal: ", signal, "  size ", four.as_str()];
    assert(views(parts@) =~= seq!["Signal: "@, signal@, "  size "@, four@]);
    let flag: &str = if auto {
        "ON"
    } else {
        "OFF"
    };
    let mut out: Vec<String> = Vec::new();
    out.push(cat(&parts));
    out.push(line_of("Comment: ", comment));
    out.push(line_of("Auto-trade: ", flag));
    assert(crate::text::texts(out@) =~= bot_lines(signal@, size, comment@, auto));
    out
}

/// What the bar of a window says about the bot or the last price, beside the market.
pub open spec fn bar_note_lines(kind: WindowKind, signal: Seq<char>, size: Amount, mid: Amount, vol: Amount) -> Seq<
    Seq<char>,
> {
    match kind {
        WindowKind::Wall => seq![
            "Bot:"@,
            concat(seq![signal, " (size "@, crate::amount::fixed(size as int, 6), ")"@]),
        ],
        WindowKind::Grid => seq![
            concat(seq!["Mid: "@, crate::amount::fixed(mid as int, 2)]),
            concat(seq!["Last vol: "@, crate::amount::fixed(vol as int, 4)]),
        ],
        _ => Seq::empty(),
    }
}

/// What the bar of a window says about the bot or the last price.
pub fn bar_notes(kind: WindowKind, signal: &str, size: Amount, mid: Amount, vol: Amount) -> (r: Vec<String>)
    ensures
        crate::text::texts(r@) == bar_note_lines(kind, signal@, size, mid, vol),
{
    let mut out: Vec<String> = Vec::new();
    match kind {
        WindowKind::Wall => {
            let six: String = fixed_text(size, 6);
            let parts: Vec<&str> = vec![signal, " (size ", six.as_str(), ")"];
            assert(views(parts@) =~= seq![signal@, " (size "@, six@, ")"@]);
            out.push("Bot:".to_owned());
            out.push(cat(&parts));
        },
        WindowKind::Grid => {
            let m: String = fixed_text(mid, 2);
            let v: String = fixed_text(vol, 4);
            out.push(line_of("Mid: ", m.as_str()));
            out.push(line_of("Last vol: ", v.as_str()));
        },
        _ => {},
    }
    assert(crate::text::texts(out@) =~= bar_note_lines(kind, signal@, size, mid, vol));
    out
}

/// What the testnet panel says about the bot, if it has a signal.
pub open spec fn panel_bot_line(signal: Seq<char>, size: Amount, comment: Seq<char>) -> Option<Seq<char>> {
    if signal.len() == 0 {
        None
    } else {
        Some(
            concat(
                seq!["Bot: "@, signal, " size "@, crate::amount::fixed(size as int, 6), "  "@, comment],
            ),
        )
    }
}

/// What the testnet panel says about the bot, if it has a signal.
pub fn panel_bot_text(signal: &str, size: Amount, comment: &str) -> (r: Option<String>)
    ensures
        crate::script_host::text_view(r) == panel_bot_line(signal@, size, comment@),
{
    if signal.is_empty() {
        return None;
    }
    let six: String = fixed_text(size, 6);
    let parts: Vec<&str> = vec!["Bot: ", signal, " size ", six.as_str(), "  ", comment];
    assert(views(parts@) =~= seq!["Bot: "@, signal@, " size "@, six@, "  "@, comment@]);
    Some(cat(&parts))
}

// ---------------------------------------------------------------------------
// The summary of the grid

/// The lines of the summary about the book.
pub open spec fn summary_lines(best_bid: int, best_ask: int, last_mid: Amount, last_vol: Amount) -> Seq<Seq<char>> {
    seq![
        concat(seq!["Best bid: "@, crate::amount::fixed(best_bid, 4)]),
        concat(seq!["Best ask: "@, crate::amount::fixed(best_ask, 4)]),
        concat(seq!["Mid: "@, crate::amount::fixed(last_mid as int, 4)]),
        concat(seq!["Last vol (1m): "@, crate::amount::fixed(last_vol as int, 4)]),
    ]
}

fn line_of(head: &str, value: &str) -> (r: String)
    ensures
        r@ == concat(seq![head@, value@]),
{
    let parts: Vec<&str> = vec![head, value];
    assert(views(parts@) =~= seq![head@, value@]);
    cat(&parts)
}

/// The lines of the summary about the book.
pub fn summary(bids: &Side, asks: &Side, last_mid: Amount, last_vol: Amount) -> (r: Vec<String>)
    requires
        bids.wf(),
        asks.wf(),
    ensures
        crate::text::texts(r@) == summary_lines(
            crate::metrics::best_price(bids@, true),
            crate::metrics::best_price(asks@, false),
            last_mid,
            last_vol,
        ),
{
    let m = crate::metrics::compute_bubble_metrics(bids, asks);
    let bid: String = fixed_text(m.best_bid, 4);
    let ask: String = fixed_text(m.best_ask, 4);
    let mid: String = fixed_text(last_mid, 4);
    let vol: String = fixed_text(last_vol, 4);
    let mut out: Vec<String> = Vec::new();
    out.push(line_of("Best bid: ", bid.as_str()));
    out.push(line_of("Best ask: ", ask.as_str()));
    out.push(line_of("Mid: ", mid.as_str()));
    out.push(line_of("Last vol (1m): ", vol.as_str()));
    assert(crate::text::texts(out@) =~= summary_lines(
        crate::metrics::best_price(bids@, true),
        crate::metrics::best_price(asks@, false),
        last_mid,
        last_vol,
    ));
    out
}

/// Whether the lines of the summary may speak so about the logs of a market.
pub open spec fn is_log_summary(
    lines: Seq<Seq<char>>,
    ticker: Seq<char>,
    data: Option<TickerData>,
    mode: TimeDisplayMode,
) -> bool {
    match data {
        None => lines == seq!["No ticker data loaded."@],
        Some(d) => {
            &&& lines.len() == 4
            &&& lines[0] == concat(seq!["Ticker: "@, ticker])
            &&& shows_log_range(mode, d.min_ts, d.max_ts, lines[1])
            &&& lines[2] == concat(
                seq!["Book events: "@, crate::text::nat_text(d.book_events@.len())],
            )
            &&& lines[3] == concat(
                seq!["Trade events: "@, crate::text::nat_text(d.trade_events@.len())],
            )
        },
    }
}

/// Whether the range of the logs may be shown so.
pub open spec fn shows_log_range(mode: TimeDisplayMode, first: u64, last: u64, text: Seq<char>) -> bool {
    exists|a: Seq<char>, b: Seq<char>|
        {
            &&& #[trigger] crate::clock::shows(mode, first, a)
            &&& #[trigger] crate::clock::shows(mode, last, b)
            &&& text == concat(seq!["CSV range: "@, a, " \u{2192} "@, b])
        }
}

fn log_range(mode: TimeDisplayMode, first: u64, last: u64) -> (r: String)
    ensures
        shows_log_range(mode, first, last, r@),
{
    let a: String = format_ts(mode, first);
    let b: String = format_ts(mode, last);
    let parts: Vec<&str> = vec!["CSV range: ", a.as_str(), " \u{2192} ", b.as_str()];
    assert(views(parts@) =~= seq!["CSV range: "@, a@, " \u{2192} "@, b@]);
    cat(&parts)
}

/// The lines of the summary about the logs of a market.
pub fn log_summary(ticker: &str, data: Option<&TickerData>, mode: TimeDisplayMode) -> (r: Vec<String>)
    ensures
        is_log_summary(
            crate::text::texts(r@),
            ticker@,
            match data {
                Some(d) => Some(*d),
                None => None,
            },
            mode,
        ),
{
    let mut out: Vec<String> = Vec::new();
    match data {
        Some(d) => {
            let books: String = u64_text(d.book_events.len() as u64);
            let trades: String = u64_text(d.trade_events.len() as u64);
            out.push(line_of("Ticker: ", ticker));
            out.push(log_range(mode, d.min_ts, d.max_ts));
            out.push(line_of("Book events: ", books.as_str()));
            out.push(line_of("Trade events: ", trades.as_str()));
        },
        None => {
            out.push("No ticker data loaded.".to_owned());
            assert(crate::text::texts(out@) =~= seq!["No ticker data loaded."@]);
        },
    }
    out
}

// ---------------------------------------------------------------------------
// The chart

/// A chart as it is drawn: both ranges, the candles, the top of the volume axis and where
/// the cursor stands.
#[derive(Debug)]
pub struct ChartPane {
    pub x: AxisRange,
    pub y: AxisRange,
    pub candles: Vec<Candle>,
    pub shapes: Vec<CandleShape>,
    pub volume_top: Amount,
    pub cursor: Option<Amount>,
}

/// The period that a window draws with: the object window knows four.
pub open spec fn drawn_period(kind: WindowKind, tf: u64) -> u64 {
    if kind is Object && tf != 30 && tf != 60 && tf != 180 && tf != 300 {
        60
    } else {
        tf
    }
}

/// The range of time that a window draws: around the newest candle, with the zoom and the
/// pan where the window has them; the object window draws just the visible candles.
pub open spec fn drawn_range(kind: WindowKind, c: ChartSettings, shown: Seq<Candle>) -> AxisRange {
    let tf = drawn_period(kind, c.tf_secs);
    match kind {
        WindowKind::Object => AxisRange {
            min: (shown[0].t * ONE) as Amount,
            max: (shown.last().t * ONE + tf * ONE) as Amount,
        },
        WindowKind::Context | WindowKind::Wall => crate::chart::time_range(
            ChartSettings { x_zoom: ONE, x_pan_secs: 0, ..c },
            shown.last().t,
        ),
        _ => crate::chart::time_range(c, shown.last().t),
    }
}

/// Where the cursor stands: at the time that is shown; in the object window, and while the
/// chart window replays, in the middle of the newest candle. The bot window has none.
pub open spec fn cursor_at(kind: WindowKind, mode: Mode, tf: u64, shown: Seq<Candle>, ts: u64) -> Option<Amount> {
    if kind is Bot {
        None
    } else if kind is Object || (kind is Chart && mode is Replay) {
        Some(crate::chart::middle_of(shown.last().t, tf) as Amount)
    } else {
        Some((ts * ONE) as Amount)
    }
}

pub open spec fn shapes_of(s: Seq<Candle>, tf: u64, body: Amount) -> Seq<CandleShape> {
    s.map_values(|c: Candle| crate::chart::shape_of(c, tf, body))
}

/// The range of prices that a chart draws.
pub open spec fn drawn_prices(c: ChartSettings, shown: Seq<Candle>) -> AxisRange {
    if c.auto_y {
        crate::chart::fitted(shown)
    } else {
        AxisRange { min: c.y_min, max: c.y_max }
    }
}

fn draw_shapes(s: &Vec<Candle>, tf: u64, body: Amount) -> (r: Vec<CandleShape>)
    ensures
        r@ == shapes_of(s@, tf, body),
{
    let n: usize = s.len();
    let mut out: Vec<CandleShape> = Vec::new();
    let mut i: usize = 0;
    while i < n
        invariant
            i <= n,
            n == s@.len(),
            out@ == shapes_of(s@.take(i as int), tf, body),
        decreases n - i,
    {
        out.push(candle_shape(&s[i], tf, body));
        i += 1;
        assert(out@ =~= shapes_of(s@.take(i as int), tf, body));
    }
    assert(s@.take(n as int) =~= s@);
    out
}

/// The chart of a series, if it holds a candle; the range of prices is remembered. `ts` is
/// the time that is shown.
pub fn chart_pane(
    kind: WindowKind,
    mode: Mode,
    chart: &mut ChartSettings,
    series: &Vec<Candle>,
    body: Amount,
    ts: u64,
) -> (r: Option<ChartPane>)
    ensures
        ({
            let shown = crate::chart::visible(series@, old(chart).show_candles as nat);
            let tf = drawn_period(kind, old(chart).tf_secs);
            if series@.len() == 0 {
                r is None && *final(chart) == *old(chart)
            } else {
                let y = drawn_prices(*old(chart), shown);
                &&& *final(chart) == (ChartSettings { y_min: y.min, y_max: y.max, ..*old(chart) })
                &&& r matches Some(p) && {
                    &&& p.y == y
                    &&& p.x == drawn_range(kind, *old(chart), shown)
                    &&& p.candles@ == shown
                    &&& p.shapes@ == shapes_of(shown, tf, body)
                    &&& p.volume_top == crate::chart::volume_axis(shown)
                    &&& p.cursor == cursor_at(kind, mode, tf, shown, ts)
                }
            }
        }),
{
    if series.len() == 0 {
        return None;
    }
    let candles: Vec<Candle> = visible_candles(series, chart.show_candles);
    proof {
        crate::chart::law_newest_candle_is_visible(series@, chart.show_candles as nat);
    }
    let n: usize = candles.len();
    let last_t: u64 = candles[n - 1].t;
    let tf: u64 = if matches!(kind, WindowKind::Object) && chart.tf_secs != 30 && chart.tf_secs != 60
        && chart.tf_secs != 180 && chart.tf_secs != 300 {
        60
    } else {
        chart.tf_secs
    };
    let x: AxisRange = match kind {
        WindowKind::Object => AxisRange {
            min: candles[0].t as i128 * 100_000_000,
            max: last_t as i128 * 100_000_000 + tf as i128 * 100_000_000,
        },
        WindowKind::Context | WindowKind::Wall => {
            let mut plain: ChartSettings = *chart;
            plain.x_zoom = ONE;
            plain.x_pan_secs = 0;
            plain.x_range(last_t)
        },
        _ => chart.x_range(last_t),
    };
    let y: AxisRange = chart.y_range(&candles);
    let cursor: Option<Amount> = match (kind, mode) {
        (WindowKind::Bot, _) => None,
        (WindowKind::Object, _) | (WindowKind::Chart, Mode::Replay) => Some(
            last_t as i128 * 100_000_000 + tf as i128 * 50_000_000,
        ),
        _ => Some(ts as i128 * 100_000_000),
    };
    let shapes: Vec<CandleShape> = draw_shapes(&candles, tf, body);
    let top: Amount = volume_top(&candles);
    Some(ChartPane { x, y, candles, shapes, volume_top: top, cursor })
}

// ---------------------------------------------------------------------------
// Space

/// `percent` hundredths of a length.
pub open spec fn share_of(total: Amount, percent: int) -> int {
    total * percent / 100
}

fn share(total: Amount, percent: i128) -> (r: Amount)
    requires
        total >= 0,
        0 <= percent <= 100,
    ensures
        r == share_of(total, percent as int),
        0 <= r <= total,
{
    let q: i128 = total / 100;
    let m: i128 = total % 100;
    proof {
        assert(0 <= q * percent <= q * 100) by (nonlinear_arith)
            requires
                0 <= q,
                0 <= percent <= 100,
        ;
        assert(0 <= m * percent <= m * 100) by (nonlinear_arith)
            requires
                0 <= m,
                0 <= percent <= 100,
        ;
        assert(total == q * 100 + m);
        assert(total * percent == (q * percent) * 100 + m * percent) by (nonlinear_arith)
            requires
                total == q * 100 + m,
        ;
        vstd::arithmetic::div_mod::lemma_hoist_over_denominator(m * percent, q * percent, 100);
    }
    q * percent + (m * percent) / 100
}

/// The space of the panes beside each other; one that is not shown gets none.
#[derive(Clone, Copy, Debug, PartialEq, Eq, Structural)]
pub struct PaneWidths {
    pub depth: Amount,
    pub ladders: Amount,
    pub trading: Amount,
}

pub open spec fn shown_share(on: bool, total: Amount, percent: int) -> int {
    if on {
        share_of(total, percent)
    } else {
        0
    }
}

/// The space of the panes of a window that shows its logs. In the object window a pane that
/// stands alone gets the whole width; the context window always keeps room for its ladders
/// and its panel; the two-kind panel shows both panes while it replays; in the script and in
/// the wall window the panes are columns of the same width.
pub open spec fn log_widths(kind: WindowKind, total: Amount, l: LayoutSettings) -> PaneWidths {
    let listed = l.show_ladders || l.show_trades;
    let (depth, ladders) = match kind {
        WindowKind::Object => (
            shown_share(
                l.show_depth,
                total,
                if listed {
                    45
                } else {
                    100
                },
            ),
            shown_share(
                listed,
                total,
                if l.show_depth {
                    55
                } else {
                    100
                },
            ),
        ),
        WindowKind::Context => (shown_share(l.show_depth, total, 40), share_of(total, 60)),
        WindowKind::Panel => (share_of(total, 45), share_of(total, 55)),
        WindowKind::Script | WindowKind::Wall => (share_of(total, 50), share_of(total, 50)),
        _ => (shown_share(l.show_depth, total, 45), shown_share(listed, total, 55)),
    };
    PaneWidths { depth: depth as Amount, ladders: ladders as Amount, trading: 0 }
}

/// The space of the panes of a window that shows its logs.
pub fn widths_for(kind: WindowKind, total: Amount, l: &LayoutSettings) -> (r: PaneWidths)
    requires
        total >= 0,
    ensures
        r == log_widths(kind, total, *l),
{
    let listed: bool = l.show_ladders || l.show_trades;
    let (depth, ladders): (Amount, Amount) = match kind {
        WindowKind::Object => (
            if !l.show_depth {
                0
            } else if listed {
                share(total, 45)
            } else {
                share(total, 100)
            },
            if !listed {
                0
            } else if l.show_depth {
                share(total, 55)
            } else {
                share(total, 100)
            },
        ),
        WindowKind::Context => (
            if l.show_depth {
                share(total, 40)
            } else {
                0
            },
            share(total, 60),
        ),
        WindowKind::Panel => (share(total, 45), share(total, 55)),
        WindowKind::Script | WindowKind::Wall => (share(total, 50), share(total, 50)),
        _ => (
            if l.show_depth {
                share(total, 45)
            } else {
                0
            },
            if listed {
                share(total, 55)
            } else {
                0
            },
        ),
    };
    PaneWidths { depth, ladders, trading: 0 }
}

/// The least height of the panes above the chart of the chart window.
pub const LEAST_HEIGHT: Amount = 15_000_000_000;

/// The height of the panes above the chart; windows that are grids have none.
pub open spec fn top_share(kind: WindowKind, total: Amount, show_depth: bool, ratio: Amount) -> int {
    match kind {
        WindowKind::Feed => crate::amount::product(total, ratio),
        WindowKind::Panel | WindowKind::Context => share_of(total, 35),
        WindowKind::Chart => {
            let h = shown_share(show_depth, total, 35);
            if h < LEAST_HEIGHT {
                LEAST_HEIGHT as int
            } else {
                h
            }
        },
        WindowKind::Script => share_of(total, 45),
        WindowKind::Object | WindowKind::Wall => share_of(total, 40),
        WindowKind::Grid | WindowKind::Bot => 0,
    }
}

/// The height of the panes above the chart. The ratio is the one of the feed window.
pub fn top_height(kind: WindowKind, total: Amount, show_depth: bool, ratio: Amount) -> (r: Amount)
    requires
        total >= 0,
    ensures
        r == top_share(kind, total, show_depth, ratio),
{
    match kind {
        WindowKind::Feed => mul_amounts(total, ratio),
        WindowKind::Panel | WindowKind::Context => share(total, 35),
        WindowKind::Chart => {
            let h: Amount = if show_depth {
                share(total, 35)
            } else {
                0
            };
            if h < LEAST_HEIGHT {
                LEAST_HEIGHT
            } else {
                h
            }
        },
        WindowKind::Script => share(total, 45),
        WindowKind::Object | WindowKind::Wall => share(total, 40),
        WindowKind::Grid | WindowKind::Bot => 0,
    }
}

/// The space of the panes of the two-kind panel: the trading panel takes what is left, but
/// at least three tenths.
pub open spec fn panel_widths(total: Amount, depth: bool, ladders: bool, trading: bool) -> PaneWidths {
    let d = shown_share(depth, total, 35);
    let l = shown_share(ladders, total, 25);
    let rest = total - (d + l);
    let least = share_of(total, 30);
    PaneWidths {
        depth: d as Amount,
        ladders: l as Amount,
        trading: (if !trading {
            0
        } else if rest < least {
            least
        } else {
            rest
        }) as Amount,
    }
}

/// The space of the panes of the two-kind panel.
pub fn panel_widths_for(total: Amount, depth: bool, ladders: bool, trading: bool) -> (r: PaneWidths)
    requires
        total >= 0,
    ensures
        r == panel_widths(total, depth, ladders, trading),
{
    let d: Amount = if depth {
        share(total, 35)
    } else {
        0
    };
    let l: Amount = if ladders {
        share(total, 25)
    } else {
        0
    };
    assert(d + l <= total);
    let rest: Amount = total - (d + l);
    let least: Amount = share(total, 30);
    PaneWidths {
        depth: d,
        ladders: l,
        trading: if !trading {
            0
        } else if rest < least {
            least
        } else {
            rest
        },
    }
}

/// The proportions of the feed window.
#[derive(Clone, Copy, Debug, PartialEq, Eq, Structural)]
pub struct PaneRatios {
    pub ladders_height: Amount,
    pub depth_width: Amount,
    pub volume_height: Amount,
    pub body_width: Amount,
}

impl Default for PaneRatios {
    fn default() -> (r: Self)
        ensures
            r.ladders_height == 35_000_000,
            r.depth_width == 45_000_000,
            r.volume_height == 30_000_000,
            r.body_width == 70_000_000,
    {
        PaneRatios {
            ladders_height: 35_000_000,
            depth_width: 45_000_000,
            volume_height: 30_000_000,
            body_width: 70_000_000,
        }
    }
}

/// What the user does with the proportions of the feed window.
#[derive(Clone, Copy, Debug, PartialEq, Eq, Structural)]
pub enum RatioEvent {
    LaddersHeight { ratio: Amount },
    DepthWidth { ratio: Amount },
    VolumeHeight { ratio: Amount },
    BodyWidth { ratio: Amount },
}

/// The proportions after a control: each one has its own range.
pub open spec fn ratios_after(p: PaneRatios, e: RatioEvent) -> PaneRatios {
    match e {
        RatioEvent::LaddersHeight { ratio } => PaneRatios {
            ladders_height: crate::amount::clamp_amount(ratio, 20_000_000, 60_000_000),
            ..p
        },
        RatioEvent::DepthWidth { ratio } => PaneRatios {
            depth_width: crate::amount::clamp_amount(ratio, 25_000_000, 70_000_000),
            ..p
        },
        RatioEvent::VolumeHeight { ratio } => PaneRatios {
            volume_height: crate::amount::clamp_amount(ratio, 15_000_000, 60_000_000),
            ..p
        },
        RatioEvent::BodyWidth { ratio } => PaneRatios {
            body_width: crate::amount::clamp_amount(ratio, 30_000_000, ONE),
            ..p
        },
    }
}

impl PaneRatios {
    /// Does what the user asked for.
    pub fn handle(&mut self, e: &RatioEvent)
        ensures
            *final(self) == ratios_after(*old(self), *e),
    {
        match e {
            RatioEvent::LaddersHeight { ratio } => {
                self.ladders_height = clamp_units(*ratio, 20_000_000, 60_000_000);
            },
            RatioEvent::DepthWidth { ratio } => {
                self.depth_width = clamp_units(*ratio, 25_000_000, 70_000_000);
            },
            RatioEvent::VolumeHeight { ratio } => {
                self.volume_height = clamp_units(*ratio, 15_000_000, 60_000_000);
            },
            RatioEvent::BodyWidth { ratio } => {
                self.body_width = clamp_units(*ratio, 30_000_000, ONE);
            },
        }
    }
}

/// The heights of the candles and of the volume below them.
pub open spec fn chart_split(kind: WindowKind, total: Amount, show_volume: bool, ratio: Amount) -> (int, int) {
    match kind {
        WindowKind::Feed => {
            let r = crate::amount::clamp_amount(ratio, 5_000_000, 80_000_000);
            (
                crate::amount::product(total, (ONE - r) as Amount),
                crate::amount::product(total, r),
            )
        },
        WindowKind::Chart => if show_volume {
            (share_of(total, 70), share_of(total, 30))
        } else {
            (share_of(total, 95), 0)
        },
        WindowKind::Object => if show_volume {
            (share_of(total, 70), share_of(total, 30))
        } else {
            (share_of(total, 100), 0)
        },
        WindowKind::Bot => (share_of(total, 70), shown_share(show_volume, total, 30)),
        _ => (share_of(total, 70), share_of(total, 30)),
    }
}

/// The heights of the candles and of the volume below them.
pub fn chart_heights(kind: WindowKind, total: Amount, show_volume: bool, ratio: Amount) -> (r: (Amount, Amount))
    requires
        total >= 0,
    ensures
        r.0 == chart_split(kind, total, show_volume, ratio).0,
        r.1 == chart_split(kind, total, show_volume, ratio).1,
{
    match kind {
        WindowKind::Feed => {
            let r: Amount = clamp_units(ratio, 5_000_000, 80_000_000);
            (mul_amounts(total, ONE - r), mul_amounts(total, r))
        },
        WindowKind::Chart => if show_volume {
            (share(total, 70), share(total, 30))
        } else {
            (share(total, 95), 0)
        },
        WindowKind::Object => if show_volume {
            (share(total, 70), share(total, 30))
        } else {
            (share(total, 100), 0)
        },
        WindowKind::Bot => if show_volume {
            (share(total, 70), share(total, 30))
        } else {
            (share(total, 70), 0)
        },
        _ => (share(total, 70), share(total, 30)),
    }
}

/// The panes of the feed window: the depth, and what is left beside it.
pub open spec fn feed_split(total: Amount, ratio: Amount) -> (int, int) {
    let left = crate::amount::product(total, ratio);
    (left, crate::amount::sat(total - left))
}

/// The panes of the feed window.
pub fn feed_widths(total: Amount, ratios: &PaneRatios) -> (r: (Amount, Amount))
    ensures
        r.0 == feed_split(total, ratios.depth_width).0,
        r.1 == feed_split(total, ratios.depth_width).1,
{
    let left: Amount = mul_amounts(total, ratios.depth_width);
    (left, sat_sub(total, left))
}

// ---------------------------------------------------------------------------
// Laws

/// Every candle that is drawn lies within the range of prices, while it follows the
/// candles.
pub proof fn law_drawn_candles_fit(c: ChartSettings, series: Seq<Candle>, i: int)
    requires
        c.auto_y,
        0 <= i < crate::chart::visible(series, c.show_candles as nat).len(),
    ensures
        ({
            let shown = crate::chart::visible(series, c.show_candles as nat);
            &&& drawn_prices(c, shown).min <= shown[i].low
            &&& shown[i].high <= drawn_prices(c, shown).max
        }),
{
    crate::chart::law_range_holds_every_price(crate::chart::visible(series, c.show_candles as nat), i);
}

/// The panes of a window never take more than its width.
pub proof fn law_panes_fit(kind: WindowKind, total: Amount, l: LayoutSettings)
    requires
        total >= 0,
    ensures
        log_widths(kind, total, l).depth + log_widths(kind, total, l).ladders <= total,
{
    assert(total * 45 / 100 + total * 55 / 100 <= total);
    assert(total * 40 / 100 + total * 60 / 100 <= total);
    assert(total * 50 / 100 + total * 50 / 100 <= total);
    assert(total * 100 / 100 == total);
}

/// A pane lists the bids from the highest price down and the asks from the lowest price up,
/// with their prices and sizes, and its depth curves count from there. Levels are given from
/// the lowest price to the highest.
pub proof fn law_a_pane_shows_the_book(
    p: BookPane,
    kind: WindowKind,
    bids: crate::book::Sizes,
    asks: crate::book::Sizes,
    b: Seq<crate::book::Level>,
    a: Seq<crate::book::Level>,
    i: int,
)
    requires
        is_book_pane(p, kind, bids, asks),
        crate::book::lists(b, bids),
        crate::book::lists(a, asks),
        crate::metrics::summable(b),
        crate::metrics::summable(a),
        0 <= i,
    ensures
        ({
            let n = ladder_size(kind).0;
            let w = ladder_size(kind).1 as nat;
            &&& p.bids@.len() == (if b.len() < n {
                b.len()
            } else {
                n as nat
            })
            &&& p.asks@.len() == (if a.len() < n {
                a.len()
            } else {
                n as nat
            })
            &&& i < p.bids@.len() ==> {
                let l = b[b.len() - 1 - i];
                &&& p.bids@[i].price@ == crate::metrics::right_aligned(crate::amount::fixed(l.key * 10_000, 2), 9)
                &&& p.bids@[i].size@ == crate::metrics::right_aligned(crate::amount::fixed(l.size as int, 4), w)
            }
            &&& i < p.asks@.len() ==> {
                &&& p.asks@[i].price@ == crate::metrics::right_aligned(crate::amount::fixed(a[i].key * 10_000, 2), 9)
                &&& p.asks@[i].size@ == crate::metrics::right_aligned(crate::amount::fixed(a[i].size as int, 4), w)
            }
            &&& i < b.len() ==> {
                &&& p.bid_depth@[i].price == b[b.len() - 1 - i].key * 10_000
                &&& p.bid_depth@[i].cumulative == crate::metrics::sum(b.skip(b.len() - 1 - i))
            }
            &&& i < a.len() ==> {
                &&& p.ask_depth@[i].price == a[i].key * 10_000
                &&& p.ask_depth@[i].cumulative == crate::metrics::sum(a.take(i + 1))
            }
        }),
{
    let n = ladder_size(kind).0 as nat;
    crate::metrics::law_levels_come_best_first(bids, b, true, n);
    crate::metrics::law_levels_come_best_first(asks, a, false, n);
    crate::metrics::lemma_ordered(b, bids);
    crate::metrics::lemma_ordered(a, asks);
    let f = crate::metrics::from_best(bids, true);
    if i < p.bids@.len() {
        assert(crate::metrics::is_row_of(p.bids@[i], f[i], ladder_size(kind).1 as nat));
    }
    if i < p.asks@.len() {
        assert(crate::metrics::is_row_of(p.asks@[i], a[i], ladder_size(kind).1 as nat));
    }
    if i < b.len() {
        assert(crate::metrics::summable(f)) by {
            assert forall|j: int| 0 <= j < f.len() implies 0 <= (#[trigger] f[j]).size
                <= 1_000_000_000_000_000_000_000_000_000_000 by {
                assert(f[j] == b[b.len() - 1 - j]);
            }
        }
        crate::metrics::law_depth_counts_from_the_best(f, i);
        assert(f.take(i + 1) =~= b.skip(b.len() - 1 - i).reverse());
        crate::metrics::lemma_sum_reversed(b.skip(b.len() - 1 - i));
    }
    if i < a.len() {
        crate::metrics::law_depth_counts_from_the_best(a, i);
    }
}

/// The newest trade comes first in every window but the grid, where it comes last.
pub proof fn law_the_newest_trade_comes_first(kind: WindowKind, t: Seq<crate::events::TradeRow>, i: int)
    requires
        0 <= i < t.len(),
    ensures
        listed(kind, t).len() == t.len(),
        kind is Grid ==> listed(kind, t)[i] == t[i],
        !(kind is Grid) ==> listed(kind, t)[i] == t[t.len() - 1 - i],
{
}

/// A range of prices that does not follow the candles is the one that was set.
pub proof fn law_a_set_range_is_drawn(c: ChartSettings, shown: Seq<Candle>)
    requires
        !c.auto_y,
    ensures
        drawn_prices(c, shown).min == c.y_min,
        drawn_prices(c, shown).max == c.y_max,
{
}

/// The newest candle lies in the middle of the range of time, where nothing was panned.
pub proof fn law_the_newest_candle_is_in_the_middle(kind: WindowKind, c: ChartSettings, shown: Seq<Candle>)
    requires
        kind !is Object,
        shown.len() > 0,
        c.x_pan_secs == 0,
        c.tf_secs * c.show_candles <= 1_000_000_000_000,
        crate::chart::TINY <= c.x_zoom,
    ensures
        drawn_range(kind, c, shown).min + drawn_range(kind, c, shown).max == (2 * shown[shown.len() - 1].t
            + c.tf_secs) * ONE,
{
    crate::chart::law_time_is_centred(c, shown.last().t);
    crate::chart::law_time_is_centred(ChartSettings { x_zoom: ONE, x_pan_secs: 0, ..c }, shown.last().t);
}

/// The object window draws from the first visible candle to the end of the newest one.
pub proof fn law_the_object_window_draws_what_is_visible(c: ChartSettings, shown: Seq<Candle>)
    requires
        shown.len() > 0,
        c.tf_secs == 30 || c.tf_secs == 60 || c.tf_secs == 180 || c.tf_secs == 300,
    ensures
        drawn_range(WindowKind::Object, c, shown).min == shown[0].t * ONE,
        drawn_range(WindowKind::Object, c, shown).max == (shown[shown.len() - 1].t + c.tf_secs) * ONE,
{
}

/// The cursor stands at the time that is shown, or in the middle of the newest candle.
pub proof fn law_the_cursor_shows_the_time(kind: WindowKind, mode: Mode, tf: u64, shown: Seq<Candle>, ts: u64)
    requires
        shown.len() > 0,
    ensures
        ({
            let at = cursor_at(kind, mode, tf, shown, ts);
            let newest = kind is Object || (kind is Chart && mode is Replay);
            &&& at is None <==> kind is Bot
            &&& at matches Some(x) ==> {
                &&& newest ==> 2 * x == (2 * shown[shown.len() - 1].t + tf) * ONE
                &&& !newest ==> x == ts * ONE
            }
        }),
{
    let t = shown[shown.len() - 1].t;
    assert(shown.last().t == t);
    assert(crate::chart::middle_of(t, tf) == t * 100_000_000 + tf * 50_000_000) by {
        assert(ONE as int / 2 == 50_000_000);
    }
    assert((2 * t + tf) * ONE == 2 * (t * 100_000_000) + tf * 100_000_000);
}

/// A pane that is hidden takes no space in the windows that give it up, and a volume that is
/// hidden none either; candles and volume never take more than there is.
pub proof fn law_hidden_panes_take_no_space(kind: WindowKind, total: Amount, l: LayoutSettings, ratio: Amount)
    requires
        0 <= total <= 1_000_000_000_000_000_000_000_000,
    ensures
        (kind is Object || kind is Context || kind is Chart || kind is Feed) && !l.show_depth ==> log_widths(
            kind,
            total,
            l,
        ).depth == 0,
        (kind is Object || kind is Chart || kind is Feed) && !l.show_ladders && !l.show_trades ==> log_widths(
            kind,
            total,
            l,
        ).ladders == 0,
        kind is Object && l.show_depth && !l.show_ladders && !l.show_trades ==> log_widths(kind, total, l).depth
            == total,
        (kind is Chart || kind is Object || kind is Bot) && !l.show_volume ==> chart_split(
            kind,
            total,
            l.show_volume,
            ratio,
        ).1 == 0,
        ({
            let h = chart_split(kind, total, l.show_volume, ratio);
            &&& 0 <= h.0 && 0 <= h.1
            &&& h.0 + h.1 <= total
            &&& !(kind is Feed) ==> 10 * h.0 >= 7 * total - 10
        }),
{
    assert(total * 100 / 100 == total);
    assert(total * 70 / 100 + total * 30 / 100 <= total);
    assert(10 * (total * 70 / 100) >= 7 * total - 10);
    if kind is Feed {
        let r = crate::amount::clamp_amount(ratio, 5_000_000, 80_000_000);
        let x = total * (100_000_000 - r);
        let y = total * r;
        assert(0 <= x && 0 <= y && x + y == total * 100_000_000) by (nonlinear_arith)
            requires
                x == total * (100_000_000 - r),
                y == total * r,
                0 <= total,
                5_000_000 <= r <= 80_000_000,
        ;
        assert(x <= total * 100_000_000 && y <= total * 100_000_000);
    }
}

/// The depth and what is left beside it fill the feed window.
pub proof fn law_the_feed_window_is_filled(total: Amount, ratio: Amount)
    requires
        0 <= total <= 1_000_000_000_000_000_000_000_000,
        0 <= ratio <= ONE,
    ensures
        feed_split(total, ratio).0 + feed_split(total, ratio).1 == total,
        feed_split(total, ratio).0 * ONE <= total * ratio < (feed_split(total, ratio).0 + 1) * ONE,
{
    let p = total * ratio;
    assert(0 <= p <= total * 100_000_000) by (nonlinear_arith)
        requires
            p == total * ratio,
            0 <= total,
            0 <= ratio <= 100_000_000,
    ;
}

/// Every heading names its market; in replay mode it shows the time too, but for the object
/// window, and so do the context and wall windows in live mode.
pub proof fn law_headings_name_their_market(kind: WindowKind, ticker: Seq<char>, time: Seq<char>)
    ensures
        crate::text::holds_part(heading_text(kind, Mode::Live, ticker, time), ticker),
        crate::text::holds_part(heading_text(kind, Mode::Replay, ticker, time), ticker),
        kind !is Object ==> crate::text::holds_part(heading_text(kind, Mode::Replay, ticker, time), time),
        kind is Context || kind is Wall ==> crate::text::holds_part(heading_text(kind, Mode::Live, ticker, time), time),
{
    let dash = " mode \u{2014} "@;
    crate::text::lemma_holds_part(seq![mode_word(Mode::Live), dash, ticker], 2);
    crate::text::lemma_holds_part(seq![mode_word(Mode::Replay), dash, ticker], 2);
    crate::text::lemma_holds_part(seq![mode_word(Mode::Live), " "@, ticker, " @ "@, time], 2);
    crate::text::lemma_holds_part(seq![mode_word(Mode::Live), " "@, ticker, " @ "@, time], 4);
    crate::text::lemma_holds_part(seq![mode_word(Mode::Replay), " "@, ticker, " @ "@, time], 2);
    crate::text::lemma_holds_part(seq![mode_word(Mode::Replay), " "@, ticker, " @ "@, time], 4);
    crate::text::lemma_holds_part(seq!["LIVE (from daemon CSVs) "@, ticker], 1);
    crate::text::lemma_holds_part(seq!["LIVE "@, ticker], 1);
    crate::text::lemma_holds_part(seq!["REPLAY "@, ticker, " @ "@, time], 1);
    crate::text::lemma_holds_part(seq!["REPLAY "@, ticker, " @ "@, time], 3);
}

} // verus!
