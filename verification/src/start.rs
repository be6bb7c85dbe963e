//! How the windows start: their market, their times, and the limits of their scripts.

use crate::amount::{Amount, ONE};
use crate::chart::ChartSettings;
use crate::clock::TimeDisplayMode;
use crate::layout::LayoutSettings;
use crate::script_host::{limit_modules, new_engine, tame_engine, MOST_OPERATIONS};
use crate::session::Mode;
use crate::store::TickerStore;
use crate::text::same_text;
use crate::timeline::{TimePos, TimeRange};
use crate::top_bar::{TopBar, WindowKind};
use vstd::prelude::*;

verus! {

/// The markets of every window.
pub fn default_tickers() -> (r: Vec<String>)
    ensures
        crate::text::texts(r@) == seq!["ETH-USD"@, "BTC-USD"@, "SOL-USD"@],
{
    let mut r: Vec<String> = Vec::new();
    r.push("ETH-USD".to_owned());
    r.push("BTC-USD".to_owned());
    r.push("SOL-USD".to_owned());
    assert(crate::text::texts(r@) =~= seq!["ETH-USD"@, "BTC-USD"@, "SOL-USD"@]);
    r
}

/// What a script may use; what is missing has the engine's own limit.
#[derive(Clone, Copy, Debug, PartialEq, Eq, Structural)]
pub struct EngineLimits {
    pub operations: Option<u64>,
    pub modules: Option<usize>,
    /// The depth of expressions, in functions too.
    pub depth: Option<usize>,
}

/// What the scripts of a window may use.
pub fn engine_limits(kind: WindowKind) -> (r: EngineLimits)
    ensures
        r.operations == (match kind {
            WindowKind::Script => Some(20_000u64),
            WindowKind::Grid => Some(200_000u64),
            _ => None,
        }),
        r.modules == (match kind {
            WindowKind::Object => Some(0usize),
            WindowKind::Grid => Some(8usize),
            _ => None,
        }),
        r.depth == (match kind {
            WindowKind::Grid => Some(32usize),
            WindowKind::Bot => Some(64usize),
            _ => None,
        }),
{
    match kind {
        WindowKind::Script => EngineLimits { operations: Some(20_000), modules: None, depth: None },
        WindowKind::Object => EngineLimits { operations: None, modules: Some(0), depth: None },
        WindowKind::Grid => EngineLimits { operations: Some(200_000), modules: Some(8), depth: Some(32) },
        WindowKind::Bot => EngineLimits { operations: None, modules: None, depth: Some(64) },
        _ => EngineLimits { operations: None, modules: None, depth: None },
    }
}

/// The script engine of a window, with the limits of the window. A window that asks for none
/// has the most operations, and expressions of the depth 64, in functions 32.
pub fn build_engine(kind: WindowKind) -> (r: rhai::Engine)
    ensures
        crate::script_host::tame(crate::script_host::limits_of(r)),
        crate::script_host::limits_of(r).operations == (match kind {
            WindowKind::Script => 20_000,
            _ => crate::script_host::MOST_OPERATIONS,
        }),
        crate::script_host::limits_of(r).modules == (match kind {
            WindowKind::Object => 0,
            WindowKind::Grid => 8,
            _ => usize::MAX,
        }),
        crate::script_host::limits_of(r).depth == (match kind {
            WindowKind::Grid => 32usize,
            _ => 64usize,
        }),
        crate::script_host::limits_of(r).function_depth == (match kind {
            WindowKind::Bot => 64usize,
            _ => 32usize,
        }),
{
    let limits: EngineLimits = engine_limits(kind);
    let mut engine = new_engine();
    let operations: u64 = match limits.operations {
        Some(n) => n,
        None => MOST_OPERATIONS,
    };
    match limits.depth {
        Some(n) => tame_engine(&mut engine, operations, n, n),
        None => tame_engine(&mut engine, operations, 64, 32),
    }
    match limits.modules {
        Some(n) => limit_modules(&mut engine, n),
        None => {},
    }
    engine
}

/// The first market of the list that has logs.
pub open spec fn first_logged(store: TickerStore, tickers: Seq<String>) -> Option<Seq<char>>
    decreases tickers.len(),
{
    if tickers.len() == 0 {
        None
    } else {
        match first_logged(store, tickers.drop_last()) {
            Some(t) => Some(t),
            None => if store.data(tickers.last()@) is Some {
                Some(tickers.last()@)
            } else {
                None
            },
        }
    }
}

/// The range of the last market of the list that has logs.
pub open spec fn last_logged(store: TickerStore, tickers: Seq<String>) -> Option<TimeRange>
    decreases tickers.len(),
{
    if tickers.len() == 0 {
        None
    } else {
        match crate::store::range_of(store.data(tickers.last()@)) {
            Some(r) => Some(r),
            None => last_logged(store, tickers.drop_last()),
        }
    }
}

pub open spec fn listed(tickers: Seq<String>, ticker: Seq<char>) -> bool {
    exists|i: int| 0 <= i < tickers.len() && (#[trigger] tickers[i])@ == ticker
}

/// The market that a window shows first.
pub open spec fn shown_first(kind: WindowKind, store: TickerStore, tickers: Seq<String>) -> Seq<char> {
    match kind {
        WindowKind::Script => if listed(tickers, "ETH-USD"@) {
            "ETH-USD"@
        } else {
            crate::session::first_ticker(tickers)
        },
        WindowKind::Wall | WindowKind::Bot => crate::session::first_ticker(tickers),
        WindowKind::Grid => match first_logged(store, tickers) {
            Some(t) => t,
            None => "ETH-USD"@,
        },
        _ => "ETH-USD"@,
    }
}

/// The times that a window starts with.
pub open spec fn starts_at(kind: WindowKind, store: TickerStore, tickers: Seq<String>, now: u64) -> TimePos {
    let data = store.data(shown_first(kind, store, tickers));
    let range = crate::store::range_of(data);
    match kind {
        WindowKind::Feed => match data {
            Some(d) => TimePos {
                live_ts: if d.book_events@.len() > 0 {
                    d.book_events@.last().ts
                } else {
                    0
                },
                replay_ts: d.max_ts,
            },
            None => TimePos { live_ts: now, replay_ts: 0 },
        },
        WindowKind::Panel => TimePos {
            live_ts: now,
            replay_ts: match range {
                Some(r) => r.max_ts,
                None => 0,
            },
        },
        WindowKind::Chart | WindowKind::Script => match range {
            Some(r) => TimePos { live_ts: r.max_ts, replay_ts: r.max_ts },
            None => TimePos { live_ts: 0, replay_ts: 0 },
        },
        WindowKind::Object => match last_logged(store, tickers) {
            Some(r) => TimePos { live_ts: r.max_ts, replay_ts: r.max_ts },
            None => TimePos { live_ts: now, replay_ts: now },
        },
        WindowKind::Context | WindowKind::Bot => match range {
            Some(r) => TimePos { live_ts: r.max_ts, replay_ts: r.max_ts },
            None => TimePos { live_ts: now, replay_ts: now },
        },
        WindowKind::Wall => {
            let p = TimePos { live_ts: store.all_max_ts(), replay_ts: store.all_max_ts() };
            match range {
                Some(r) => crate::timeline::in_range(p, r),
                None => p,
            }
        },
        WindowKind::Grid => match last_logged(store, tickers) {
            Some(r) => TimePos { live_ts: r.max_ts, replay_ts: r.min_ts },
            None => TimePos { live_ts: now, replay_ts: now },
        },
    }
}

/// How many candles a window shows first.
pub open spec fn first_history(kind: WindowKind) -> usize {
    match kind {
        WindowKind::Script | WindowKind::Context => 300,
        _ => 200,
    }
}

/// The reload interval that a window starts with.
pub open spec fn first_interval(kind: WindowKind) -> Amount {
    match kind {
        WindowKind::Chart | WindowKind::Script => 100_000_000,
        WindowKind::Wall => 200_000_000,
        WindowKind::Context => 300_000_000,
        _ => 500_000_000,
    }
}

fn find_first(store: &TickerStore, tickers: &Vec<String>) -> (r: Option<String>)
    requires
        store.wf(),
    ensures
        crate::script_host::text_view(r) == first_logged(*store, tickers@),
{
    let n: usize = tickers.len();
    let mut i: usize = 0;
    assert(tickers@.take(0) =~= Seq::empty());
    while i < n
        invariant
            i <= n,
            n == tickers@.len(),
            store.wf(),
            first_logged(*store, tickers@.take(i as int)) is None,
        decreases n - i,
    {
        proof {
            assert(tickers@.take(i + 1).drop_last() =~= tickers@.take(i as int));
        }
        if store.get(tickers[i].as_str()).is_some() {
            proof {
                lemma_first_stays(*store, tickers@, i as int + 1);
            }
            return Some(tickers[i].clone());
        }
        i += 1;
    }
    assert(tickers@.take(n as int) =~= tickers@);
    None
}

proof fn lemma_first_stays(store: TickerStore, tickers: Seq<String>, i: int)
    requires
        0 <= i <= tickers.len(),
        first_logged(store, tickers.take(i)) is Some,
    ensures
        first_logged(store, tickers) == first_logged(store, tickers.take(i)),
    decreases tickers.len() - i,
{
    if i == tickers.len() {
        assert(tickers.take(i) =~= tickers);
    } else {
        assert(tickers.take(i + 1).drop_last() =~= tickers.take(i));
        lemma_first_stays(store, tickers, i + 1);
    }
}

fn find_last(store: &TickerStore, tickers: &Vec<String>) -> (r: Option<TimeRange>)
    requires
        store.wf(),
    ensures
        r == last_logged(*store, tickers@),
{
    let n: usize = tickers.len();
    let mut found: Option<TimeRange> = None;
    let mut i: usize = 0;
    assert(tickers@.take(0) =~= Seq::empty());
    while i < n
        invariant
            i <= n,
            n == tickers@.len(),
            store.wf(),
            found == last_logged(*store, tickers@.take(i as int)),
        decreases n - i,
    {
        proof {
            assert(tickers@.take(i + 1).drop_last() =~= tickers@.take(i as int));
        }
        if let Some(r) = store.range(tickers[i].as_str()) {
            found = Some(r);
        }
        i += 1;
    }
    assert(tickers@.take(n as int) =~= tickers@);
    found
}

fn has_ticker(tickers: &Vec<String>, ticker: &str) -> (r: bool)
    ensures
        r == listed(tickers@, ticker@),
{
    let n: usize = tickers.len();
    let mut i: usize = 0;
    while i < n
        invariant
            i <= n,
            n == tickers@.len(),
            forall|j: int| 0 <= j < i ==> (#[trigger] tickers@[j])@ != ticker@,
        decreases n - i,
    {
        if same_text(tickers[i].as_str(), ticker) {
            return true;
        }
        i += 1;
    }
    false
}

fn head_or_eth(tickers: &Vec<String>) -> (r: String)
    ensures
        r@ == crate::session::first_ticker(tickers@),
{
    if tickers.len() > 0 {
        tickers[0].clone()
    } else {
        "ETH-USD".to_owned()
    }
}

/// The market that a window shows first.
pub fn start_ticker(kind: WindowKind, store: &TickerStore, tickers: &Vec<String>) -> (r: String)
    requires
        store.wf(),
    ensures
        r@ == shown_first(kind, *store, tickers@),
{
    match kind {
        WindowKind::Script => if has_ticker(tickers, "ETH-USD") {
            "ETH-USD".to_owned()
        } else {
            head_or_eth(tickers)
        },
        WindowKind::Wall | WindowKind::Bot => head_or_eth(tickers),
        WindowKind::Grid => match find_first(store, tickers) {
            Some(t) => t,
            None => "ETH-USD".to_owned(),
        },
        _ => "ETH-USD".to_owned(),
    }
}

/// The times that a window starts with.
pub fn start_times(kind: WindowKind, store: &TickerStore, tickers: &Vec<String>, now: u64) -> (r: TimePos)
    requires
        store.wf(),
    ensures
        r == starts_at(kind, *store, tickers@, now),
{
    let ticker: String = start_ticker(kind, store, tickers);
    let range: Option<TimeRange> = store.range(ticker.as_str());
    match kind {
        WindowKind::Feed => match store.get(ticker.as_str()) {
            Some(d) => {
                let n: usize = d.book_events.len();
                TimePos {
                    live_ts: if n > 0 {
                        d.book_events[n - 1].ts
                    } else {
                        0
                    },
                    replay_ts: d.max_ts,
                }
            },
            None => TimePos { live_ts: now, replay_ts: 0 },
        },
        WindowKind::Panel => TimePos {
            live_ts: now,
            replay_ts: match range {
                Some(r) => r.max_ts,
                None => 0,
            },
        },
        WindowKind::Chart | WindowKind::Script => match range {
            Some(r) => TimePos { live_ts: r.max_ts, replay_ts: r.max_ts },
            None => TimePos { live_ts: 0, replay_ts: 0 },
        },
        WindowKind::Object => match find_last(store, tickers) {
            Some(r) => TimePos { live_ts: r.max_ts, replay_ts: r.max_ts },
            None => TimePos { live_ts: now, replay_ts: now },
        },
        WindowKind::Context | WindowKind::Bot => match range {
            Some(r) => TimePos { live_ts: r.max_ts, replay_ts: r.max_ts },
            None => TimePos { live_ts: now, replay_ts: now },
        },
        WindowKind::Wall => {
            let latest: u64 = store.latest();
            let mut p = TimePos { live_ts: latest, replay_ts: latest };
            if let Some(r) = range {
                p.clamp_ts_to_range(&r);
            }
            p
        },
        WindowKind::Grid => match find_last(store, tickers) {
            Some(r) => TimePos { live_ts: r.max_ts, replay_ts: r.min_ts },
            None => TimePos { live_ts: now, replay_ts: now },
        },
    }
}

impl TopBar {
    /// The bar of a window at the start: live, in local time, with every panel.
    pub fn new(kind: WindowKind, store: &TickerStore, tickers: &Vec<String>, now: u64) -> (r: Self)
        requires
            store.wf(),
        ensures
            r.kind == kind,
            r.mode == Mode::Live,
            r.time_mode == TimeDisplayMode::Local,
            r.ticker@ == shown_first(kind, *store, tickers@),
            r.pos == starts_at(kind, *store, tickers@, now),
            r.chart == (ChartSettings {
                show_candles: first_history(kind),
                auto_y: true,
                y_min: 0,
                y_max: 0,
                x_zoom: ONE,
                x_pan_secs: 0,
                tf_secs: 60,
            }),
            r.layout.show_depth && r.layout.show_ladders && r.layout.show_trades && r.layout.show_volume,
            r.reload_secs == first_interval(kind),
    {
        let mut chart = ChartSettings::default();
        if matches!(kind, WindowKind::Script | WindowKind::Context) {
            chart.show_candles = 300;
        }
        let reload_secs: Amount = match kind {
            WindowKind::Chart | WindowKind::Script => 100_000_000,
            WindowKind::Wall => 200_000_000,
            WindowKind::Context => 300_000_000,
            _ => 500_000_000,
        };
        TopBar {
            kind,
            mode: Mode::Live,
            time_mode: TimeDisplayMode::Local,
            ticker: start_ticker(kind, store, tickers),
            pos: start_times(kind, store, tickers, now),
            chart,
            layout: LayoutSettings::default(),
            reload_secs,
        }
    }
}

// ---------------------------------------------------------------------------
// Laws

/// A window whose first market has logs starts its replay inside them, unless it takes the
/// times of the last market of the list.
pub proof fn law_windows_start_in_range(kind: WindowKind, store: TickerStore, tickers: Seq<String>, now: u64)
    requires
        store.wf(),
        kind !is Object,
        kind !is Grid,
        store.data(shown_first(kind, store, tickers)) is Some,
        store.data(shown_first(kind, store, tickers))->0.min_ts <= store.data(
            shown_first(kind, store, tickers),
        )->0.max_ts,
    ensures
        crate::store::range_of(store.data(shown_first(kind, store, tickers)))->0.holds(
            starts_at(kind, store, tickers, now).replay_ts,
        ),
{
}

/// The grid window shows the first market of the list that has logs; the wall window and the
/// bot window the first one at all; the script window ETH-USD where the list has it. All
/// other windows show ETH-USD, and so does every window without a list.
pub proof fn law_windows_show_a_market(store: TickerStore, tickers: Seq<String>, i: int)
    requires
        0 <= i < tickers.len(),
        store.data(tickers[i]@) is Some,
        forall|j: int| 0 <= j < i ==> store.data((#[trigger] tickers[j])@) is None,
    ensures
        shown_first(WindowKind::Grid, store, tickers) == tickers[i]@,
        shown_first(WindowKind::Wall, store, tickers) == tickers[0]@,
        shown_first(WindowKind::Bot, store, tickers) == tickers[0]@,
        shown_first(WindowKind::Script, store, tickers) == "ETH-USD"@ || shown_first(
            WindowKind::Script,
            store,
            tickers,
        ) == tickers[0]@,
        (exists|k: int| 0 <= k < tickers.len() && (#[trigger] tickers[k])@ == "ETH-USD"@) ==> shown_first(
            WindowKind::Script,
            store,
            tickers,
        ) == "ETH-USD"@,
        shown_first(WindowKind::Feed, store, tickers) == "ETH-USD"@,
        shown_first(WindowKind::Panel, store, tickers) == "ETH-USD"@,
        shown_first(WindowKind::Chart, store, tickers) == "ETH-USD"@,
        shown_first(WindowKind::Object, store, tickers) == "ETH-USD"@,
        shown_first(WindowKind::Context, store, tickers) == "ETH-USD"@,
        forall|kind: WindowKind| #[trigger] shown_first(kind, store, Seq::empty()) == "ETH-USD"@,
{
    lemma_first_logged(store, tickers, i);
}

proof fn lemma_first_logged(store: TickerStore, tickers: Seq<String>, i: int)
    requires
        0 <= i < tickers.len(),
        store.data(tickers[i]@) is Some,
        forall|j: int| 0 <= j < i ==> store.data((#[trigger] tickers[j])@) is None,
    ensures
        first_logged(store, tickers) == Some(tickers[i]@),
    decreases tickers.len(),
{
    let p = tickers.drop_last();
    if i < p.len() {
        assert(p[i] == tickers[i]);
        assert forall|j: int| 0 <= j < i implies store.data((#[trigger] p[j])@) is None by {
            assert(p[j] == tickers[j]);
        }
        lemma_first_logged(store, p, i);
    } else {
        assert forall|j: int| 0 <= j < p.len() implies store.data((#[trigger] p[j])@) is None by {
            assert(p[j] == tickers[j]);
        }
        lemma_none_logged(store, p);
    }
}

proof fn lemma_none_logged(store: TickerStore, tickers: Seq<String>)
    requires
        forall|j: int| 0 <= j < tickers.len() ==> store.data((#[trigger] tickers[j])@) is None,
    ensures
        first_logged(store, tickers) is None,
        last_logged(store, tickers) is None,
    decreases tickers.len(),
{
    if tickers.len() > 0 {
        let p = tickers.drop_last();
        assert forall|j: int| 0 <= j < p.len() implies store.data((#[trigger] p[j])@) is None by {
            assert(p[j] == tickers[j]);
        }
        assert(store.data(tickers[tickers.len() - 1]@) is None);
        lemma_none_logged(store, p);
    }
}

/// The object window and the grid window start at the end of the last market of the list that
/// has logs; the grid window replays from its beginning. Without logs they start now.
pub proof fn law_wide_windows_start_at_the_last_market(store: TickerStore, tickers: Seq<String>, i: int, now: u64)
    requires
        0 <= i < tickers.len(),
        store.data(tickers[i]@) is Some,
        forall|j: int| i < j < tickers.len() ==> store.data((#[trigger] tickers[j])@) is None,
    ensures
        ({
            let d = store.data(tickers[i]@)->0;
            &&& starts_at(WindowKind::Object, store, tickers, now).live_ts == d.max_ts
            &&& starts_at(WindowKind::Object, store, tickers, now).replay_ts == d.max_ts
            &&& starts_at(WindowKind::Grid, store, tickers, now).live_ts == d.max_ts
            &&& starts_at(WindowKind::Grid, store, tickers, now).replay_ts == d.min_ts
        }),
    decreases tickers.len(),
{
    lemma_last_logged(store, tickers, i);
}

proof fn lemma_last_logged(store: TickerStore, tickers: Seq<String>, i: int)
    requires
        0 <= i < tickers.len(),
        store.data(tickers[i]@) is Some,
        forall|j: int| i < j < tickers.len() ==> store.data((#[trigger] tickers[j])@) is None,
    ensures
        last_logged(store, tickers) == crate::store::range_of(store.data(tickers[i]@)),
    decreases tickers.len(),
{
    if i < tickers.len() - 1 {
        let p = tickers.drop_last();
        assert(store.data(tickers[tickers.len() - 1]@) is None);
        assert forall|j: int| i < j < p.len() implies store.data((#[trigger] p[j])@) is None by {
            assert(p[j] == tickers[j]);
        }
        lemma_last_logged(store, p, i);
    }
}

/// A window that shows a market with logs starts live at their end: the feed window at its
/// newest book event, the panel window now. It replays from the end too.
pub proof fn law_windows_start_at_the_newest_row(kind: WindowKind, store: TickerStore, tickers: Seq<String>, now: u64)
    requires
        store.wf(),
        store.data(shown_first(kind, store, tickers)) is Some,
        store.data(shown_first(kind, store, tickers))->0.wf(),
        kind !is Object && kind !is Grid,
    ensures
        ({
            let d = store.data(shown_first(kind, store, tickers))->0;
            let p = starts_at(kind, store, tickers, now);
            &&& p.replay_ts == d.max_ts
            &&& kind !is Feed && kind !is Panel ==> p.live_ts == d.max_ts
            &&& kind is Panel ==> p.live_ts == now
            &&& kind is Feed && d.book().len() > 0 ==> p.live_ts == d.book().last().ts
        }),
{
    let t = shown_first(kind, store, tickers);
    crate::store::law_the_latest_time_covers_every_market(store, t);
    let d = store.data(t)->0;
    if d.book_events@.len() > 0 {
        assert(d.book()[d.book().len() - 1] == d.book_events@[d.book_events@.len() - 1]@);
    }
}

/// A window whose market has no logs starts now or, where it waits for logs, at zero.
pub proof fn law_windows_without_logs_start_now(kind: WindowKind, store: TickerStore, tickers: Seq<String>, now: u64)
    requires
        forall|t: Seq<char>| #[trigger] store.data(t) is None,
    ensures
        ({
            let p = starts_at(kind, store, tickers, now);
            match kind {
                WindowKind::Feed | WindowKind::Panel => p.live_ts == now && p.replay_ts == 0,
                WindowKind::Chart | WindowKind::Script | WindowKind::Wall => p.live_ts == 0 && p.replay_ts == 0,
                WindowKind::Object | WindowKind::Context | WindowKind::Bot | WindowKind::Grid => p.live_ts == now
                    && p.replay_ts == now,
            }
        }),
{
    lemma_none_logged(store, tickers);
    crate::store::law_the_latest_time_covers_every_market(store, "ETH-USD"@);
}

} // verus!
