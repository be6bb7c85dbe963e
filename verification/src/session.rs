//! The state of the window: the mode, the market that is shown and the times of the live
//! and the replay view.

use crate::amount::{fixed_text, Amount, ONE};
use crate::bot::{Bot, BotOrder};
use crate::chart::ChartSettings;
use crate::clock::{format_ts, TimeDisplayMode};
use crate::events::TickerData;
use crate::layout::{default_rows, grid_cells, GridCell, LayoutSettings, RowConfig};
use crate::orders::{panel_order, OrderSide, Submission, TradeKind};
use crate::snapshot::{compute_snapshot_for, Snapshot};
use crate::store::TickerStore;
use crate::text::{cat, concat, same_text, views};
use crate::timeline::{reload_due, TimePos, TimeRange};
use vstd::prelude::*;

verus! {

/// Whether the window follows the market or replays it.
#[derive(Clone, Copy, Debug, PartialEq, Eq, Structural)]
pub enum Mode {
    Live,
    Replay,
}

impl Mode {
    pub open spec fn name_text(self) -> Seq<char> {
        match self {
            Mode::Live => "Live"@,
            Mode::Replay => "Replay"@,
        }
    }

    /// The mode of this name; every other text is the live mode.
    pub open spec fn named(s: Seq<char>) -> Mode {
        if s == "Replay"@ {
            Mode::Replay
        } else {
            Mode::Live
        }
    }

    pub fn from_str(s: &str) -> (r: Self)
        ensures
            r == Mode::named(s@),
    {
        if same_text(s, "Replay") {
            Mode::Replay
        } else {
            Mode::Live
        }
    }

    pub fn as_str(&self) -> (r: &'static str)
        ensures
            r@ == self.name_text(),
    {
        match self {
            Mode::Live => "Live",
            Mode::Replay => "Replay",
        }
    }

    pub open spec fn script_text(self) -> Seq<char> {
        match self {
            Mode::Live => "live"@,
            Mode::Replay => "replay"@,
        }
    }

    /// The mode as scripts know it.
    pub fn script_name(self) -> (r: &'static str)
        ensures
            r@ == self.script_text(),
    {
        match self {
            Mode::Live => "live",
            Mode::Replay => "replay",
        }
    }
}

/// The state of the bot window.
#[derive(Debug)]
pub struct ComboApp {
    pub store: TickerStore,
    pub tickers: Vec<String>,
    pub current_ticker: String,
    pub mode: Mode,
    pub time_mode: TimeDisplayMode,
    pub pos: TimePos,
    pub last_reload_ts: u64,
    pub reload_secs: Amount,
    pub chart: ChartSettings,
    pub layout: LayoutSettings,
    pub rows: Vec<RowConfig>,
    pub script_text: String,
    pub script_auto_run: bool,
    pub bot: Bot,
    pub trade_side: OrderSide,
    pub trade_kind: TradeKind,
    pub trade_size_units: Amount,
    pub trade_leverage: Amount,
    pub trade_limit_price: Amount,
    pub last_order_msg: String,
}

/// The market that is shown first: the first one of the list, or ETH-USD.
pub open spec fn first_ticker(tickers: Seq<String>) -> Seq<char> {
    if tickers.len() > 0 {
        tickers[0]@
    } else {
        "ETH-USD"@
    }
}

/// The times at the start: the end of the market, or now where it has no events.
pub open spec fn first_times(d: Option<TickerData>, now: u64) -> TimePos {
    match d {
        Some(d) => TimePos { live_ts: d.max_ts, replay_ts: d.max_ts },
        None => TimePos { live_ts: now, replay_ts: now },
    }
}

/// Whether a snapshot is the one of a market at a time.
pub open spec fn is_snapshot_of(s: Snapshot, d: TickerData, ts: u64, tf: u64) -> bool {
    &&& s.bids.wf()
    &&& s.asks.wf()
    &&& s.bids@ == crate::snapshot::sides_after(crate::snapshot::seen(d.book(), ts)).bids
    &&& s.asks@ == crate::snapshot::sides_after(crate::snapshot::seen(d.book(), ts)).asks
    &&& s.candles@ == crate::snapshot::candles_after(crate::snapshot::seen(d.book(), ts), tf)
    &&& crate::events::trade_rows(s.trades@) == crate::snapshot::shown_trades(d.trades(), ts)
    &&& s.last_mid == crate::snapshot::last_close(s.candles@)
    &&& s.last_vol == crate::snapshot::last_volume(s.candles@)
}

impl ComboApp {
    /// The markets are well-formed and candles have a period.
    pub open spec fn wf(&self) -> bool {
        &&& self.store.wf()
        &&& self.chart.tf_secs > 0
        &&& self.rows@.len() == crate::layout::GRID_ROWS
    }

    /// The data of the market that is shown.
    pub open spec fn current_data(&self) -> Option<TickerData> {
        self.store.data(self.current_ticker@)
    }

    /// The window at the start: live, at the end of the first market.
    pub fn new(store: TickerStore, tickers: Vec<String>, script_text: String, now: u64) -> (r: Self)
        requires
            store.wf(),
        ensures
            r.wf(),
            r.store == store,
            r.tickers == tickers,
            r.current_ticker@ == first_ticker(tickers@),
            r.mode == Mode::Live,
            r.time_mode == TimeDisplayMode::Local,
            r.pos == first_times(store.data(first_ticker(tickers@)), now),
            r.last_reload_ts == now,
            r.reload_secs == 5 * ONE,
            r.chart.show_candles == 200 && r.chart.auto_y && r.chart.tf_secs == 60,
            r.layout.show_depth && r.layout.show_ladders && r.layout.show_trades && r.layout.show_volume,
            r.rows@ == crate::layout::first_rows(),
            r.script_text@ == script_text@,
            r.script_auto_run,
            r.bot@ == crate::bot::idle_bot(),
            r.trade_side == OrderSide::Buy,
            r.trade_kind == TradeKind::Market,
            r.trade_size_units == 1_000_000,
            r.trade_leverage == 5 * ONE,
            r.trade_limit_price == 0,
            r.last_order_msg@ == Seq::<char>::empty(),
    {
        let current_ticker: String = if tickers.len() > 0 {
            tickers[0].clone()
        } else {
            "ETH-USD".to_owned()
        };
        let pos: TimePos = match store.range(current_ticker.as_str()) {
            Some(r) => TimePos { live_ts: r.max_ts, replay_ts: r.max_ts },
            None => TimePos { live_ts: now, replay_ts: now },
        };
        ComboApp {
            store,
            tickers,
            current_ticker,
            mode: Mode::Live,
            time_mode: TimeDisplayMode::Local,
            pos,
            last_reload_ts: now,
            reload_secs: 500_000_000,
            chart: ChartSettings::default(),
            layout: LayoutSettings::default(),
            rows: default_rows(),
            script_text,
            script_auto_run: true,
            bot: Bot::new(),
            trade_side: OrderSide::Buy,
            trade_kind: TradeKind::Market,
            trade_size_units: 1_000_000,
            trade_leverage: 500_000_000,
            trade_limit_price: 0,
            last_order_msg: String::new(),
        }
    }

    /// The range of the market that is shown.
    pub fn ticker_range(&self) -> (r: Option<TimeRange>)
        requires
            self.wf(),
        ensures
            r == crate::store::range_of(self.current_data()),
            r matches Some(t) ==> t.wf(),
    {
        self.store.range(self.current_ticker.as_str())
    }

    /// Keeps both times in the range of the market that is shown.
    pub fn clamp_ts_to_range(&mut self)
        requires
            old(self).wf(),
        ensures
            final(self).wf(),
            *final(self) == (match crate::store::range_of(old(self).current_data()) {
                Some(r) => ComboApp { pos: crate::timeline::in_range(old(self).pos, r), ..*old(self) },
                None => *old(self),
            }),
    {
        if let Some(r) = self.ticker_range() {
            self.pos.clamp_ts_to_range(&r);
        }
    }

    /// Takes over the logs of the market that is shown, read anew; nothing where they hold
    /// no event.
    pub fn reload_current_ticker(&mut self, loaded: Option<TickerData>)
        requires
            old(self).wf(),
            loaded matches Some(d) ==> d.wf() && d.ticker@ == old(self).current_ticker@,
        ensures
            final(self).wf(),
            match loaded {
                Some(d) => {
                    &&& *final(self) == (ComboApp {
                        store: final(self).store,
                        pos: crate::timeline::reloaded(
                            old(self).pos,
                            TimeRange { min_ts: d.min_ts, max_ts: d.max_ts },
                        ),
                        ..*old(self)
                    })
                    &&& final(self).current_data() == Some(d)
                    &&& forall|t: Seq<char>|
                        t != old(self).current_ticker@ ==> #[trigger] final(self).store.data(t)
                            == old(self).store.data(t)
                },
                None => *final(self) == *old(self),
            },
    {
        if let Some(d) = loaded {
            let r = TimeRange { min_ts: d.min_ts, max_ts: d.max_ts };
            self.pos.reload_current_ticker(&r);
            self.store.insert(d);
        }
    }

    /// Whether the logs are to be read again.
    pub fn reload_is_due(&self, now: u64) -> (r: bool)
        ensures
            r == crate::timeline::is_due(now, self.last_reload_ts, self.reload_secs),
    {
        reload_due(now, self.last_reload_ts, self.reload_secs)
    }

    /// One frame: where a reload is due the logs, read anew, are taken over and the times
    /// are kept in range.
    pub fn frame(&mut self, now: u64, loaded: Option<TickerData>)
        requires
            old(self).wf(),
            loaded matches Some(d) ==> d.wf() && d.ticker@ == old(self).current_ticker@,
        ensures
            final(self).wf(),
            !crate::timeline::is_due(now, old(self).last_reload_ts, old(self).reload_secs) ==> *final(self)
                == *old(self),
            crate::timeline::is_due(now, old(self).last_reload_ts, old(self).reload_secs) ==> {
                &&& *final(self) == (ComboApp {
                    store: final(self).store,
                    pos: final(self).pos,
                    last_reload_ts: now,
                    ..*old(self)
                })
                &&& final(self).current_data() == (if loaded is Some {
                    loaded
                } else {
                    old(self).current_data()
                })
                &&& forall|t: Seq<char>|
                    t != old(self).current_ticker@ ==> #[trigger] final(self).store.data(t) == old(
                        self,
                    ).store.data(t)
                &&& final(self).pos == (match crate::store::range_of(final(self).current_data()) {
                    Some(r) => crate::timeline::in_range(
                        if loaded is Some {
                            crate::timeline::reloaded(old(self).pos, r)
                        } else {
                            old(self).pos
                        },
                        r,
                    ),
                    None => old(self).pos,
                })
            },
    {
        if self.reload_is_due(now) {
            self.reload_current_ticker(loaded);
            self.clamp_ts_to_range();
            self.last_reload_ts = now;
        }
    }

    /// Shows another market, at its end.
    pub fn select_ticker(&mut self, ticker: &str)
        requires
            old(self).wf(),
        ensures
            final(self).wf(),
            final(self).current_ticker@ == ticker@,
            final(self).pos == (match crate::store::range_of(old(self).store.data(ticker@)) {
                Some(r) => TimePos { live_ts: r.max_ts, replay_ts: r.max_ts },
                None => old(self).pos,
            }),
            *final(self) == (ComboApp {
                current_ticker: final(self).current_ticker,
                pos: final(self).pos,
                ..*old(self)
            }),
    {
        self.current_ticker = ticker.to_owned();
        let r = self.ticker_range();
        self.pos.select_ticker(&r);
    }

    /// The market that is shown as it stands at its end.
    pub fn current_snap_live(&self) -> (r: Option<Snapshot>)
        requires
            self.wf(),
        ensures
            match self.current_data() {
                Some(d) => r matches Some(s) && is_snapshot_of(s, d, d.max_ts, self.chart.tf_secs),
                None => r is None,
            },
    {
        match self.store.get(self.current_ticker.as_str()) {
            Some(d) => Some(compute_snapshot_for(d, d.max_ts, self.chart.tf_secs)),
            None => None,
        }
    }

    /// The market that is shown as it stood at the replay time.
    pub fn current_snap_replay(&self) -> (r: Option<Snapshot>)
        requires
            self.wf(),
        ensures
            match self.current_data() {
                Some(d) => r matches Some(s) && is_snapshot_of(
                    s,
                    d,
                    self.pos.replay_ts,
                    self.chart.tf_secs,
                ),
                None => r is None,
            },
    {
        match self.store.get(self.current_ticker.as_str()) {
            Some(d) => Some(compute_snapshot_for(d, self.pos.replay_ts, self.chart.tf_secs)),
            None => None,
        }
    }

    /// The snapshot of the current mode.
    pub fn current_snap(&self) -> (r: Option<Snapshot>)
        requires
            self.wf(),
        ensures
            match self.current_data() {
                Some(d) => r matches Some(s) && is_snapshot_of(
                    s,
                    d,
                    match self.mode {
                        Mode::Live => d.max_ts,
                        Mode::Replay => self.pos.replay_ts,
                    },
                    self.chart.tf_secs,
                ),
                None => r is None,
            },
    {
        match self.mode {
            Mode::Live => self.current_snap_live(),
            Mode::Replay => self.current_snap_replay(),
        }
    }

    /// Runs the bot's script on a snapshot. Only the bot changes; whatever the script does,
    /// it ends as a run of the bot does for some outcome.
    pub fn run_script(&mut self, engine: &rhai::Engine, snap: &Snapshot, now: u64) -> (r: Option<BotOrder>)
        requires
            crate::script_host::tame(crate::script_host::limits_of(*engine)),
            old(self).wf(),
            snap.bids.wf(),
            snap.asks.wf(),
        ensures
            final(self).wf(),
            *final(self) == (ComboApp { bot: final(self).bot, ..*old(self) }),
            exists|o: crate::bot::OutcomeView| #[trigger]
                crate::bot::may_come_to(
                    crate::script_host::limits_of(*engine),
                    old(self).script_text@,
                    crate::bot::inputs_on(
                        old(self).bot@,
                        *snap,
                        old(self).current_ticker@,
                        old(self).mode,
                        script_int(old(self).chart.tf_secs),
                        script_int(old(self).chart.show_candles as u64),
                    ),
                    o,
                ) && final(self).bot@ == crate::bot::after_run(
                    old(self).bot@,
                    o,
                    old(self).current_ticker@,
                    now,
                ) && crate::bot::bot_order_view(r) == crate::bot::order_of_run(
                    old(self).bot@,
                    o,
                    old(self).current_ticker@,
                    old(self).trade_leverage,
                ) && (r matches Some(b) ==> b.note@ == crate::bot::auto_note(
                    crate::bot::ran(old(self).bot@, o),
                )),
    {
        let tf: i64 = saturated(self.chart.tf_secs);
        let history: i64 = saturated(self.chart.show_candles as u64);
        self.bot.run_script(
            engine,
            self.script_text.as_str(),
            snap,
            self.current_ticker.as_str(),
            self.mode,
            tf,
            history,
            self.trade_leverage,
            now,
        )
    }

    /// Sends the panel's order.
    pub fn send_order(&mut self) -> (r: Submission)
        ensures
            crate::orders::order_view(r.cmd) == Some(
                crate::orders::OrderView {
                    ticker: old(self).current_ticker@,
                    side: old(self).trade_side,
                    size: crate::orders::size_decimal(old(self).trade_size_units),
                    kind: old(self).trade_kind,
                    limit_price: old(self).trade_limit_price,
                    leverage: old(self).trade_leverage,
                },
            ),
            crate::orders::note_view(r.note) == Some(
                crate::orders::NoteView {
                    source: "gui_manual"@,
                    side: old(self).trade_side.text(),
                    size_str: crate::orders::size_text(old(self).trade_size_units),
                },
            ),
            r.message@ == crate::orders::panel_message(
                old(self).trade_kind,
                old(self).trade_side,
                old(self).current_ticker@,
                crate::orders::size_text(old(self).trade_size_units),
            ),
            final(self).last_order_msg@ == r.message@,
            *final(self) == (ComboApp { last_order_msg: final(self).last_order_msg, ..*old(self) }),
    {
        let r = panel_order(
            self.current_ticker.as_str(),
            self.trade_side,
            self.trade_kind,
            self.trade_size_units,
            self.trade_limit_price,
            self.trade_leverage,
        );
        self.last_order_msg = r.message.clone();
        r
    }

    /// Whether the panel shows the bot: it has a signal.
    pub fn bot_is_shown(&self) -> (r: bool)
        ensures
            r == (self.bot.signal@.len() > 0 && self.bot.signal@ != "none"@),
    {
        !self.bot.signal.as_str().is_empty() && !same_text(self.bot.signal.as_str(), "none")
    }

    /// Takes over the bot's size, if there is one.
    pub fn use_bot_size(&mut self)
        ensures
            *final(self) == (if old(self).bot.size > 0 {
                ComboApp { trade_size_units: old(self).bot.size, ..*old(self) }
            } else {
                *old(self)
            }),
    {
        if self.bot.size > 0 {
            self.trade_size_units = self.bot.size;
        }
    }

    /// The cells of a row of the window.
    pub fn ui_grid(&self, row: usize, total_width: Amount, has_snapshot: bool) -> (r: Vec<GridCell>)
        requires
            self.wf(),
            row < crate::layout::GRID_ROWS,
            total_width >= 0,
        ensures
            r@ == crate::layout::with_width(
                crate::layout::planned(
                    row as nat,
                    crate::layout::row_widths(self.rows@[row as int], total_width),
                    has_snapshot,
                    self.layout,
                ),
            ),
    {
        grid_cells(row, &self.rows[row], total_width, has_snapshot, &self.layout)
    }
}

/// A count as a script's integer, kept in range.
pub open spec fn script_int(n: u64) -> i64 {
    if n > i64::MAX {
        i64::MAX
    } else {
        n as i64
    }
}

/// A count as a script's integer.
pub fn saturated(n: u64) -> (r: i64)
    ensures
        r == script_int(n),
{
    if n > 0x7fff_ffff_ffff_ffff {
        i64::MAX
    } else {
        n as i64
    }
}

pub open spec fn range_message(min_text: Seq<char>, max_text: Seq<char>) -> Seq<char> {
    concat(seq!["Range: "@, min_text, " \u{2192} "@, max_text])
}

/// The text of a range whose ends are given as text.
pub fn range_text(min_text: &str, max_text: &str) -> (r: String)
    ensures
        r@ == range_message(min_text@, max_text@),
{
    let parts: Vec<&str> = vec!["Range: ", min_text, " \u{2192} ", max_text];
    assert(views(parts@) =~= seq!["Range: "@, min_text@, " \u{2192} "@, max_text@]);
    cat(&parts)
}

/// Whether a range of times may be shown so.
pub open spec fn shows_range(mode: TimeDisplayMode, r: TimeRange, text: Seq<char>) -> bool {
    exists|a: Seq<char>, b: Seq<char>|
        {
            &&& #[trigger] crate::clock::shows(mode, r.min_ts, a)
            &&& #[trigger] crate::clock::shows(mode, r.max_ts, b)
            &&& text == range_message(a, b)
        }
}

/// The text of a range of times.
pub fn range_label(mode: TimeDisplayMode, r: &TimeRange) -> (t: String)
    ensures
        shows_range(mode, *r, t@),
{
    let a: String = format_ts(mode, r.min_ts);
    let b: String = format_ts(mode, r.max_ts);
    range_text(a.as_str(), b.as_str())
}

pub open spec fn last_message(last_mid: Amount, last_vol: Amount) -> Seq<char> {
    concat(
        seq![
            "Last mid: "@,
            crate::amount::fixed(last_mid as int, 4),
            "   Vol: "@,
            crate::amount::fixed(last_vol as int, 4),
        ],
    )
}

/// The last price and volume of a snapshot as text.
pub fn last_label(snap: &Snapshot) -> (r: String)
    ensures
        r@ == last_message(snap.last_mid, snap.last_vol),
{
    last_words(snap.last_mid, snap.last_vol)
}

/// The last price and volume as text.
pub(crate) fn last_words(last_mid: Amount, last_vol: Amount) -> (r: String)
    ensures
        r@ == last_message(last_mid, last_vol),
{
    let mid: String = fixed_text(last_mid, 4);
    let vol: String = fixed_text(last_vol, 4);
    let parts: Vec<&str> = vec!["Last mid: ", mid.as_str(), "   Vol: ", vol.as_str()];
    assert(views(parts@) =~= seq!["Last mid: "@, mid@, "   Vol: "@, vol@]);
    cat(&parts)
}

// ---------------------------------------------------------------------------
// Laws

/// A mode reads back from its own name.
pub proof fn law_mode_reads_back(m: Mode)
    ensures
        Mode::named(m.name_text()) == m,
{
    reveal_strlit("Live");
    reveal_strlit("Replay");
    assert("Live"@.len() != "Replay"@.len());
}

/// A snapshot is fixed by its market, its time and its period: whoever computes it shows the
/// same book, candles and trades.
pub proof fn law_snapshots_agree(a: Snapshot, b: Snapshot, d: TickerData, ts: u64, tf: u64)
    requires
        is_snapshot_of(a, d, ts, tf),
        is_snapshot_of(b, d, ts, tf),
    ensures
        a.bids@ == b.bids@,
        a.asks@ == b.asks@,
        a.candles@ == b.candles@,
        crate::events::trade_rows(a.trades@) == crate::events::trade_rows(b.trades@),
        a.last_mid == b.last_mid,
        a.last_vol == b.last_vol,
{
}

/// The window starts at the end of its market, live and in replay, and now where the market
/// has no logs.
pub proof fn law_the_window_starts_at_the_end(d: TickerData, tickers: Seq<String>, now: u64)
    ensures
        first_times(Some(d), now).live_ts == d.max_ts,
        first_times(Some(d), now).replay_ts == d.max_ts,
        first_times(None, now).live_ts == now,
        first_times(None, now).replay_ts == now,
        tickers.len() > 0 ==> first_ticker(tickers) == tickers[0]@,
        first_ticker(Seq::empty()) == "ETH-USD"@,
{
}

/// A count that scripts can hold reaches them as it is, and a larger count is the largest that
/// they can hold.
pub proof fn law_counts_reach_scripts(n: u64)
    ensures
        n <= 0x7fff_ffff_ffff_ffff ==> script_int(n) == n,
        n > 0x7fff_ffff_ffff_ffff ==> script_int(n) == 0x7fff_ffff_ffff_ffff,
{
}

/// The range shows its beginning before its end, and the last figures the price before the
/// volume.
pub proof fn law_labels_show_their_figures(a: Seq<char>, b: Seq<char>, last_mid: Amount, last_vol: Amount)
    ensures
        range_message(a, b) == "Range: "@ + a + " \u{2192} "@ + b,
        last_message(last_mid, last_vol) == "Last mid: "@ + crate::amount::fixed(last_mid as int, 4) + "   Vol: "@
            + crate::amount::fixed(last_vol as int, 4),
{
    lemma_four("Range: "@, a, " \u{2192} "@, b);
    lemma_four(
        "Last mid: "@,
        crate::amount::fixed(last_mid as int, 4),
        "   Vol: "@,
        crate::amount::fixed(last_vol as int, 4),
    );
}

proof fn lemma_four(a: Seq<char>, b: Seq<char>, c: Seq<char>, d: Seq<char>)
    ensures
        concat(seq![a, b, c, d]) == a + b + c + d,
{
    let s = seq![a, b, c, d];
    crate::text::law_parts_stand_in_their_order(s, 3);
    assert(s.skip(4) =~= Seq::empty());
    assert(s.take(3).drop_last() =~= s.take(2));
    assert(s.take(2).drop_last() =~= s.take(1));
    assert(s.take(1).drop_last() =~= Seq::empty());
    assert(concat(s.take(1)) =~= a);
    assert(concat(s.take(2)) == concat(s.take(1)) + b);
    assert(concat(s.take(3)) == concat(s.take(2)) + c);
    assert(concat(s) =~= a + b + c + d);
}

} // verus!
