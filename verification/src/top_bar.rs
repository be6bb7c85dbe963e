//! The bar at the top of every window: what its controls do, and what it says.

use crate::amount::{clamp_units, Amount, ONE};
use crate::chart::ChartSettings;
use crate::clock::{format_ts, TimeDisplayMode};
use crate::layout::LayoutSettings;
use crate::session::Mode;
use crate::text::{cat, concat, views};
use crate::timeframe::{chart_tf_list, grid_tf_choices, panel_tf_choices, short_tfs, tf_choices, tf_opts};
use crate::timeline::{TimePos, TimeRange};
use vstd::prelude::*;

verus! {

/// The windows, by what they are for.
#[derive(Clone, Copy, Debug, PartialEq, Eq, Structural)]
pub enum WindowKind {
    /// The live feed with the market buttons.
    Feed,
    /// The live feed with the two-kind panel.
    Panel,
    /// The chart of the recorder's logs.
    Chart,
    /// Scripts that set variables and ask for orders.
    Script,
    /// Scripts that return an object.
    Object,
    /// Scripts that read a context.
    Context,
    /// Scripts that read the walls of the book.
    Wall,
    /// The grid of cells.
    Grid,
    /// The bot.
    Bot,
}

/// What the bar shows and sets.
#[derive(Debug)]
pub struct TopBar {
    pub kind: WindowKind,
    pub mode: Mode,
    pub time_mode: TimeDisplayMode,
    pub ticker: String,
    pub pos: TimePos,
    pub chart: ChartSettings,
    pub layout: LayoutSettings,
    pub reload_secs: Amount,
}

/// What the user does.
#[derive(Debug)]
pub enum BarEvent {
    SelectMode { mode: Mode },
    SelectTime { time_mode: TimeDisplayMode },
    /// Another market, with the range of its logs.
    SelectTicker { ticker: String, range: Option<TimeRange> },
    /// The replay slider.
    ReplayTo { ts: u64 },
    Back,
    Forward,
    Now,
    History { candles: usize },
    Zoom { factor: Amount },
    PanLeft,
    PanRight,
    CenterX,
    Period { tf_secs: u64 },
    AutoY { on: bool },
    YMin { price: Amount },
    YMax { price: Amount },
    ResetY,
    /// A scroll over the candles, or over the volume, in thousandths of a unit.
    Scroll { milli: i64, volume: bool },
    /// The newest events, while the window is live.
    Latest,
    ShowDepth { on: bool },
    ShowLadders { on: bool },
    ShowTrades { on: bool },
    ShowVolume { on: bool },
    Reload { secs: Amount },
}

pub ghost struct BarView {
    pub kind: WindowKind,
    pub mode: Mode,
    pub time_mode: TimeDisplayMode,
    pub ticker: Seq<char>,
    pub pos: TimePos,
    pub chart: ChartSettings,
    pub layout: LayoutSettings,
    pub reload_secs: Amount,
}

impl View for TopBar {
    type V = BarView;

    open spec fn view(&self) -> BarView {
        BarView {
            kind: self.kind,
            mode: self.mode,
            time_mode: self.time_mode,
            ticker: self.ticker@,
            pos: self.pos,
            chart: self.chart,
            layout: self.layout,
            reload_secs: self.reload_secs,
        }
    }
}

/// The smallest and the largest number of candles that a window offers.
pub open spec fn history_range(kind: WindowKind) -> Option<(usize, usize)> {
    match kind {
        WindowKind::Feed => Some((20, 1000)),
        WindowKind::Panel => Some((20, 600)),
        WindowKind::Chart => Some((20, 1200)),
        WindowKind::Script => Some((20, 600)),
        WindowKind::Object => Some((20, 1000)),
        WindowKind::Context => Some((20, 2000)),
        WindowKind::Wall => None,
        WindowKind::Grid => Some((20, 2000)),
        WindowKind::Bot => Some((10, 2000)),
    }
}

/// The smallest and the largest zoom that a window offers.
pub open spec fn zoom_range(kind: WindowKind) -> Option<(Amount, Amount)> {
    match kind {
        WindowKind::Feed | WindowKind::Panel | WindowKind::Script | WindowKind::Bot => Some(
            (25_000_000, 400_000_000),
        ),
        WindowKind::Chart | WindowKind::Grid => Some((25_000_000, 800_000_000)),
        _ => None,
    }
}

/// The shortest and the longest reload interval that a window offers.
pub open spec fn reload_range(kind: WindowKind) -> Option<(Amount, Amount)> {
    match kind {
        WindowKind::Object => Some((100_000_000, 30_000_000_000)),
        WindowKind::Context => Some((100_000_000, 60_000_000_000)),
        WindowKind::Bot => Some((100_000_000, 6_000_000_000)),
        _ => None,
    }
}

/// Whether a window has buttons that pan.
pub open spec fn pans(kind: WindowKind) -> bool {
    kind is Feed || kind is Panel || kind is Chart || kind is Script
}

/// Whether a window has a button that goes back to the newest candle.
pub open spec fn centers(kind: WindowKind) -> bool {
    pans(kind) || kind is Grid || kind is Bot
}

/// Whether a window has controls for the range of prices.
pub open spec fn scales(kind: WindowKind) -> bool {
    kind !is Wall
}

/// Whether a window has a button that lets the range of prices follow the candles again.
pub open spec fn resets(kind: WindowKind) -> bool {
    pans(kind) || kind is Bot
}

/// Whether a scroll over the candles, or over the volume, zooms a window's range of prices.
pub open spec fn scrolls(kind: WindowKind, volume: bool) -> bool {
    kind !is Wall && (volume ==> !(kind is Script || kind is Object || kind is Context))
}

/// Whether a window has switches for its panels.
pub open spec fn toggles(kind: WindowKind) -> bool {
    kind !is Feed && kind !is Wall && kind !is Grid
}

/// The periods of a window's menu; without a menu the period is typed in.
pub open spec fn menu_of(kind: WindowKind) -> Option<Seq<u64>> {
    match kind {
        WindowKind::Feed => Some(
            seq![1u64, 5u64, 10u64, 15u64, 30u64, 60u64, 120u64, 180u64, 300u64, 600u64, 900u64, 1800u64, 3600u64, 7200u64, 14400u64, 28800u64, 43200u64, 86400u64],
        ),
        WindowKind::Panel => Some(
            seq![1u64, 5u64, 15u64, 30u64, 60u64, 180u64, 300u64, 900u64, 1800u64, 3600u64, 14400u64, 86400u64],
        ),
        WindowKind::Chart => Some(
            seq![1u64, 5u64, 15u64, 30u64, 60u64, 120u64, 180u64, 300u64, 600u64, 900u64, 1800u64, 3600u64, 7200u64, 14400u64, 28800u64, 86400u64],
        ),
        WindowKind::Script | WindowKind::Object | WindowKind::Wall => Some(
            seq![30u64, 60u64, 180u64, 300u64],
        ),
        WindowKind::Context => None,
        WindowKind::Grid => Some(
            seq![1u64, 5u64, 15u64, 30u64, 60u64, 120u64, 300u64, 900u64, 1800u64, 3600u64, 7200u64, 14400u64, 28800u64, 86400u64],
        ),
        WindowKind::Bot => Some(
            seq![1u64, 5u64, 10u64, 15u64, 30u64, 60u64, 180u64, 300u64, 900u64, 1800u64, 3600u64, 14400u64, 86400u64],
        ),
    }
}

/// Whether the replay time is brought into range before a button moves it.
pub open spec fn clamps_first(kind: WindowKind) -> bool {
    kind is Script || kind is Object || kind is Context
}

/// The replay time that the buttons start from.
pub open spec fn replay_start(b: BarView, r: TimeRange) -> u64 {
    if clamps_first(b.kind) {
        crate::timeline::clamped(b.pos.replay_ts, r)
    } else {
        b.pos.replay_ts
    }
}

pub open spec fn replay_at(b: BarView, ts: u64) -> BarView {
    BarView { pos: TimePos { replay_ts: ts, ..b.pos }, ..b }
}

/// The bar after a replay control; without a range, or while the window is live, there
/// are none.
pub open spec fn replayed(b: BarView, e: BarEvent, range: Option<TimeRange>) -> BarView {
    match range {
        None => b,
        Some(r) => if b.mode is Live {
            b
        } else {
            match e {
                BarEvent::ReplayTo { ts } => replay_at(b, crate::timeline::clamped(ts, r)),
                BarEvent::Back => replay_at(b, crate::timeline::stepped_back(replay_start(b, r), r)),
                BarEvent::Forward => replay_at(b, crate::timeline::stepped_forward(replay_start(b, r), r)),
                _ => replay_at(b, r.max_ts),
            }
        },
    }
}

/// The times after another market was selected: what each window does about them.
pub open spec fn times_of(kind: WindowKind, p: TimePos, range: Option<TimeRange>) -> TimePos {
    match range {
        Some(r) => match kind {
            WindowKind::Feed | WindowKind::Panel => TimePos { replay_ts: r.max_ts, ..p },
            WindowKind::Context => p,
            WindowKind::Wall => crate::timeline::caught_up(p, r),
            WindowKind::Grid => TimePos { live_ts: r.max_ts, replay_ts: r.min_ts },
            _ => TimePos { live_ts: r.max_ts, replay_ts: r.max_ts },
        },
        None => if kind is Chart {
            TimePos { live_ts: 0, replay_ts: 0 }
        } else {
            p
        },
    }
}

/// The chart after another market was selected: the chart window forgets the scale of the
/// market before.
pub open spec fn chart_of(kind: WindowKind, c: ChartSettings) -> ChartSettings {
    if kind is Chart {
        ChartSettings { auto_y: true, x_pan_secs: 0, x_zoom: ONE, ..c }
    } else {
        c
    }
}

pub open spec fn clamp_usize(v: usize, lo: usize, hi: usize) -> usize {
    if v < lo {
        lo
    } else if v > hi {
        hi
    } else {
        v
    }
}

/// The chart after a control that changes only it.
pub open spec fn charted(kind: WindowKind, c: ChartSettings, e: BarEvent) -> ChartSettings {
    match e {
        BarEvent::History { candles } => match history_range(kind) {
            Some(h) => ChartSettings { show_candles: clamp_usize(candles, h.0, h.1), ..c },
            None => c,
        },
        BarEvent::Zoom { factor } => match zoom_range(kind) {
            Some(z) => ChartSettings {
                x_zoom: crate::amount::clamp_amount(factor, z.0, z.1),
                ..c
            },
            None => c,
        },
        BarEvent::PanLeft => if pans(kind) {
            ChartSettings {
                x_pan_secs: crate::amount::sat(c.x_pan_secs - c.tf_secs * 10 * ONE) as Amount,
                ..c
            }
        } else {
            c
        },
        BarEvent::PanRight => if pans(kind) {
            ChartSettings {
                x_pan_secs: crate::amount::sat(c.x_pan_secs + c.tf_secs * 10 * ONE) as Amount,
                ..c
            }
        } else {
            c
        },
        BarEvent::CenterX => if centers(kind) {
            ChartSettings { x_pan_secs: 0, ..c }
        } else {
            c
        },
        BarEvent::Period { tf_secs } => match menu_of(kind) {
            Some(menu) => if menu.contains(tf_secs) {
                ChartSettings { tf_secs, ..c }
            } else {
                c
            },
            None => ChartSettings {
                tf_secs: if tf_secs < 1 {
                    1
                } else if tf_secs > 86_400 {
                    86_400
                } else {
                    tf_secs
                },
                ..c
            },
        },
        BarEvent::AutoY { on } => if scales(kind) {
            ChartSettings { auto_y: on, ..c }
        } else {
            c
        },
        BarEvent::YMin { price } => if scales(kind) && !c.auto_y {
            ChartSettings { y_min: price, ..c }
        } else {
            c
        },
        BarEvent::YMax { price } => if scales(kind) && !c.auto_y {
            ChartSettings { y_max: price, ..c }
        } else {
            c
        },
        BarEvent::ResetY => if resets(kind) {
            ChartSettings { auto_y: true, ..c }
        } else {
            c
        },
        BarEvent::Scroll { milli, volume } => if scrolls(kind, volume) && milli != 0 {
            crate::chart::zoomed(c, milli)
        } else {
            c
        },
        _ => c,
    }
}

/// The panels after a switch.
pub open spec fn toggled(kind: WindowKind, l: LayoutSettings, e: BarEvent) -> LayoutSettings {
    if !toggles(kind) {
        l
    } else {
        match e {
            BarEvent::ShowDepth { on } => LayoutSettings { show_depth: on, ..l },
            BarEvent::ShowLadders { on } => LayoutSettings { show_ladders: on, ..l },
            BarEvent::ShowTrades { on } => LayoutSettings { show_trades: on, ..l },
            BarEvent::ShowVolume { on } => LayoutSettings { show_volume: on, ..l },
            _ => l,
        }
    }
}

/// The bar after the user did something, with the range of the market that is shown.
pub open spec fn after(b: BarView, e: BarEvent, range: Option<TimeRange>) -> BarView {
    match e {
        BarEvent::SelectMode { mode } => BarView {
            mode,
            pos: match range {
                Some(r) => if b.kind is Grid && mode is Replay {
                    TimePos { replay_ts: crate::timeline::clamped(b.pos.replay_ts, r), ..b.pos }
                } else {
                    b.pos
                },
                None => b.pos,
            },
            ..b
        },
        BarEvent::SelectTime { time_mode } => BarView { time_mode, ..b },
        BarEvent::SelectTicker { ticker, range } => BarView {
            ticker: ticker@,
            pos: times_of(b.kind, b.pos, range),
            chart: chart_of(b.kind, b.chart),
            ..b
        },
        BarEvent::ReplayTo { .. } | BarEvent::Back | BarEvent::Forward | BarEvent::Now => replayed(
            b,
            e,
            range,
        ),
        BarEvent::Latest => match range {
            Some(r) => if b.kind is Grid && b.mode is Live {
                BarView { pos: TimePos { live_ts: r.max_ts, ..b.pos }, ..b }
            } else {
                b
            },
            None => b,
        },
        BarEvent::Reload { secs } => match reload_range(b.kind) {
            Some(z) => BarView {
                reload_secs: crate::amount::clamp_amount(secs, z.0, z.1),
                ..b
            },
            None => b,
        },
        _ => BarView {
            chart: charted(b.kind, b.chart, e),
            layout: toggled(b.kind, b.layout, e),
            ..b
        },
    }
}

fn in_menu(menu: &Vec<u64>, tf: u64) -> (r: bool)
    ensures
        r == menu@.contains(tf),
{
    let n: usize = menu.len();
    let mut i: usize = 0;
    while i < n
        invariant
            i <= n,
            n == menu@.len(),
            forall|j: int| 0 <= j < i ==> menu@[j] != tf,
        decreases n - i,
    {
        if menu[i] == tf {
            return true;
        }
        i += 1;
    }
    false
}

impl WindowKind {
    /// The periods of the window's menu.
    pub fn menu(self) -> (r: Option<Vec<u64>>)
        ensures
            match r {
                Some(v) => menu_of(self) == Some(v@),
                None => menu_of(self) is None,
            },
    {
        match self {
            WindowKind::Feed => Some(tf_choices()),
            WindowKind::Panel => Some(panel_tf_choices()),
            WindowKind::Chart => Some(chart_tf_list()),
            WindowKind::Script | WindowKind::Object | WindowKind::Wall => Some(short_tfs()),
            WindowKind::Context => None,
            WindowKind::Grid => Some(grid_tf_choices()),
            WindowKind::Bot => Some(tf_opts()),
        }
    }

    /// The smallest and the largest number of candles that the window offers.
    pub fn history(self) -> (r: Option<(usize, usize)>)
        ensures
            r == history_range(self),
    {
        match self {
            WindowKind::Feed => Some((20, 1000)),
            WindowKind::Panel => Some((20, 600)),
            WindowKind::Chart => Some((20, 1200)),
            WindowKind::Script => Some((20, 600)),
            WindowKind::Object => Some((20, 1000)),
            WindowKind::Context => Some((20, 2000)),
            WindowKind::Wall => None,
            WindowKind::Grid => Some((20, 2000)),
            WindowKind::Bot => Some((10, 2000)),
        }
    }

    /// The smallest and the largest zoom that the window offers.
    pub fn zoom(self) -> (r: Option<(Amount, Amount)>)
        ensures
            r == zoom_range(self),
    {
        match self {
            WindowKind::Feed | WindowKind::Panel | WindowKind::Script | WindowKind::Bot => Some(
                (25_000_000, 400_000_000),
            ),
            WindowKind::Chart | WindowKind::Grid => Some((25_000_000, 800_000_000)),
            _ => None,
        }
    }

    /// The shortest and the longest reload interval that the window offers.
    pub fn reload(self) -> (r: Option<(Amount, Amount)>)
        ensures
            r == reload_range(self),
    {
        match self {
            WindowKind::Object => Some((100_000_000, 30_000_000_000)),
            WindowKind::Context => Some((100_000_000, 60_000_000_000)),
            WindowKind::Bot => Some((100_000_000, 6_000_000_000)),
            _ => None,
        }
    }

    /// Whether the window has buttons that pan.
    pub fn has_pan(self) -> (r: bool)
        ensures
            r == pans(self),
    {
        matches!(
            self,
            WindowKind::Feed | WindowKind::Panel | WindowKind::Chart | WindowKind::Script
        )
    }

    /// Whether the window has a button that goes back to the newest candle.
    pub fn has_center(self) -> (r: bool)
        ensures
            r == centers(self),
    {
        self.has_pan() || matches!(self, WindowKind::Grid | WindowKind::Bot)
    }

    /// Whether the window has a button that lets the range of prices follow the candles
    /// again.
    pub fn has_reset(self) -> (r: bool)
        ensures
            r == resets(self),
    {
        self.has_pan() || matches!(self, WindowKind::Bot)
    }

    /// Whether a scroll over the candles, or over the volume, zooms the range of prices.
    pub fn has_scroll(self, volume: bool) -> (r: bool)
        ensures
            r == scrolls(self, volume),
    {
        match self {
            WindowKind::Script | WindowKind::Object | WindowKind::Context => !volume,
            WindowKind::Wall => false,
            _ => true,
        }
    }

    /// Whether the window has switches for its panels.
    pub fn has_switches(self) -> (r: bool)
        ensures
            r == toggles(self),
    {
        !matches!(self, WindowKind::Feed | WindowKind::Wall | WindowKind::Grid)
    }
}

fn change_chart(kind: WindowKind, c: &ChartSettings, e: &BarEvent) -> (r: ChartSettings)
    ensures
        r == charted(kind, *c, *e),
{
    let mut chart: ChartSettings = *c;
    match e {
        BarEvent::History { candles } => {
            if let Some((lo, hi)) = kind.history() {
                chart.show_candles = if *candles < lo {
                    lo
                } else if *candles > hi {
                    hi
                } else {
                    *candles
                };
            }
        },
        BarEvent::Zoom { factor } => {
            if let Some((lo, hi)) = kind.zoom() {
                chart.x_zoom = clamp_units(*factor, lo, hi);
            }
        },
        BarEvent::PanLeft => {
            if kind.has_pan() {
                chart.pan_left();
            }
        },
        BarEvent::PanRight => {
            if kind.has_pan() {
                chart.pan_right();
            }
        },
        BarEvent::CenterX => {
            if kind.has_center() {
                chart.center_x();
            }
        },
        BarEvent::Period { tf_secs } => {
            match kind.menu() {
                Some(menu) => {
                    if in_menu(&menu, *tf_secs) {
                        chart.tf_secs = *tf_secs;
                    }
                },
                None => {
                    chart.tf_secs = if *tf_secs < 1 {
                        1
                    } else if *tf_secs > 86_400 {
                        86_400
                    } else {
                        *tf_secs
                    };
                },
            }
        },
        BarEvent::AutoY { on } => {
            if !matches!(kind, WindowKind::Wall) {
                chart.auto_y = *on;
            }
        },
        BarEvent::YMin { price } => {
            if !matches!(kind, WindowKind::Wall) && !chart.auto_y {
                chart.y_min = *price;
            }
        },
        BarEvent::YMax { price } => {
            if !matches!(kind, WindowKind::Wall) && !chart.auto_y {
                chart.y_max = *price;
            }
        },
        BarEvent::ResetY => {
            if kind.has_reset() {
                chart.auto_y = true;
            }
        },
        BarEvent::Scroll { milli, volume } => {
            if kind.has_scroll(*volume) {
                chart.zoom_y(*milli);
            }
        },
        _ => {},
    }
    chart
}

fn change_layout(kind: WindowKind, l: &LayoutSettings, e: &BarEvent) -> (r: LayoutSettings)
    ensures
        r == toggled(kind, *l, *e),
{
    let mut layout: LayoutSettings = *l;
    if kind.has_switches() {
        match e {
            BarEvent::ShowDepth { on } => {
                layout.show_depth = *on;
            },
            BarEvent::ShowLadders { on } => {
                layout.show_ladders = *on;
            },
            BarEvent::ShowTrades { on } => {
                layout.show_trades = *on;
            },
            BarEvent::ShowVolume { on } => {
                layout.show_volume = *on;
            },
            _ => {},
        }
    }
    layout
}

impl TopBar {
    fn replay(&mut self, e: &BarEvent, range: &Option<TimeRange>)
        requires
            range matches Some(r) ==> r.wf(),
        ensures
            final(self)@ == replayed(old(self)@, *e, *range),
    {
        if let Some(r) = range {
            if matches!(self.mode, Mode::Replay) {
                match e {
                    BarEvent::ReplayTo { ts } => {
                        self.pos.replay_ts = *ts;
                        self.pos.ensure_replay_ts_in_range(r);
                    },
                    BarEvent::Back => {
                        self.begin(r);
                        self.pos.step_back(r);
                    },
                    BarEvent::Forward => {
                        self.begin(r);
                        self.pos.step_forward(r);
                    },
                    _ => {
                        self.pos.jump_to_end(r);
                    },
                }
            }
        }
    }

    fn begin(&mut self, r: &TimeRange)
        requires
            r.wf(),
        ensures
            final(self)@ == replay_at(old(self)@, replay_start(old(self)@, *r)),
    {
        if matches!(self.kind, WindowKind::Script | WindowKind::Object | WindowKind::Context) {
            self.pos.ensure_replay_ts_in_range(r);
        }
    }

    fn select(&mut self, ticker: &str, range: &Option<TimeRange>)
        requires
            range matches Some(r) ==> r.wf(),
        ensures
            final(self)@ == (BarView {
                ticker: ticker@,
                pos: times_of(old(self).kind, old(self).pos, *range),
                chart: chart_of(old(self).kind, old(self).chart),
                ..old(self)@
            }),
    {
        self.ticker = ticker.to_owned();
        match range {
            Some(r) => match self.kind {
                WindowKind::Feed | WindowKind::Panel => {
                    self.pos.jump_to_end(r);
                },
                WindowKind::Context => {},
                WindowKind::Wall => {
                    self.pos.catch_up(r);
                },
                WindowKind::Grid => {
                    self.pos.refresh_from_csv(r);
                },
                _ => {
                    self.pos = TimePos { live_ts: r.max_ts, replay_ts: r.max_ts };
                },
            },
            None => {
                if matches!(self.kind, WindowKind::Chart) {
                    self.pos = TimePos { live_ts: 0, replay_ts: 0 };
                }
            },
        }
        if matches!(self.kind, WindowKind::Chart) {
            self.chart.auto_y = true;
            self.chart.x_pan_secs = 0;
            self.chart.x_zoom = ONE;
        }
    }

    /// Does what the user asked for. The range is the one of the market that is shown.
    pub fn handle(&mut self, e: &BarEvent, range: &Option<TimeRange>)
        requires
            range matches Some(r) ==> r.wf(),
            e matches BarEvent::SelectTicker { ticker, range } ==> (range matches Some(r) ==> r.wf()),
        ensures
            final(self)@ == after(old(self)@, *e, *range),
    {
        match e {
            BarEvent::SelectMode { mode } => {
                self.mode = *mode;
                if matches!(self.kind, WindowKind::Grid) && matches!(self.mode, Mode::Replay) {
                    if let Some(r) = range {
                        self.pos.ensure_replay_ts_in_range(r);
                    }
                }
            },
            BarEvent::SelectTime { time_mode } => {
                self.time_mode = *time_mode;
            },
            BarEvent::SelectTicker { ticker, range } => {
                self.select(ticker.as_str(), range);
            },
            BarEvent::ReplayTo { .. } | BarEvent::Back | BarEvent::Forward | BarEvent::Now => {
                self.replay(e, range);
            },
            BarEvent::Latest => {
                if matches!(self.kind, WindowKind::Grid) && matches!(self.mode, Mode::Live) {
                    if let Some(r) = range {
                        self.pos.live_ts = r.max_ts;
                    }
                }
            },
            BarEvent::Reload { secs } => {
                if let Some((lo, hi)) = self.kind.reload() {
                    self.reload_secs = clamp_units(*secs, lo, hi);
                }
            },
            _ => {
                self.chart = change_chart(self.kind, &self.chart, e);
                self.layout = change_layout(self.kind, &self.layout, e);
            },
        }
    }
}

// ---------------------------------------------------------------------------
// What the bar says

/// What the bar says about the market and its times. An empty text stands for nothing.
#[derive(Debug)]
pub struct BarLabels {
    pub ticker: String,
    pub range: String,
    pub replay: String,
    pub time: String,
    /// What stands beside the slider, and the time behind it.
    pub slider: String,
    pub slider_time: String,
    pub missing: String,
    pub no_replay: String,
}

pub open spec fn ticker_line(ticker: Seq<char>) -> Seq<char> {
    concat(seq!["Ticker: "@, ticker])
}

/// What stands before the range of the logs.
pub open spec fn range_head(kind: WindowKind) -> Seq<char> {
    match kind {
        WindowKind::Feed | WindowKind::Panel => "Replay range: "@,
        _ => "Range: "@,
    }
}

/// Whether the range of the logs may be shown so.
pub open spec fn shows_bar_range(kind: WindowKind, mode: TimeDisplayMode, r: TimeRange, text: Seq<char>) -> bool {
    exists|a: Seq<char>, b: Seq<char>|
        {
            &&& #[trigger] crate::clock::shows(mode, r.min_ts, a)
            &&& #[trigger] crate::clock::shows(mode, r.max_ts, b)
            &&& text == concat(seq![range_head(kind), a, " \u{2192} "@, b])
        }
}

/// The time that the object and the context window show; the object window keeps it in
/// range.
pub open spec fn current_time(b: BarView, r: TimeRange) -> u64 {
    let ts = match b.mode {
        Mode::Live => b.pos.live_ts,
        Mode::Replay => b.pos.replay_ts,
    };
    if b.kind is Object {
        crate::timeline::shown_ts(ts, r)
    } else {
        ts
    }
}

/// What stands before the time that is shown, and the time, if the window shows one.
pub open spec fn time_head(b: BarView, range: Option<TimeRange>) -> Option<(Seq<char>, u64)> {
    match b.kind {
        WindowKind::Feed | WindowKind::Panel => if b.mode is Live {
            Some(("Live ts: "@, b.pos.live_ts))
        } else {
            None
        },
        WindowKind::Chart => if b.mode is Live && b.pos.live_ts > 0 {
            Some(("Live ts (from CSV): "@, b.pos.live_ts))
        } else {
            None
        },
        WindowKind::Object | WindowKind::Context => match range {
            Some(r) => Some(("Current ts: "@, current_time(b, r))),
            None => None,
        },
        WindowKind::Bot => match range {
            Some(r) => match b.mode {
                Mode::Live => Some(("Live @ "@, r.max_ts)),
                Mode::Replay => Some(("Replay @ "@, b.pos.replay_ts)),
            },
            None => None,
        },
        WindowKind::Script | WindowKind::Wall | WindowKind::Grid => None,
    }
}

/// The replay time, where the window shows it beside the range in both modes.
pub open spec fn replay_head(b: BarView, range: Option<TimeRange>) -> Option<(Seq<char>, u64)> {
    if range is Some && (b.kind is Feed || b.kind is Panel) {
        Some(("Replay ts: "@, b.pos.replay_ts))
    } else {
        None
    }
}

/// What stands beside the slider and its buttons, and the time behind them.
pub open spec fn slider_head(b: BarView, range: Option<TimeRange>) -> Option<(Seq<char>, u64)> {
    match range {
        None => None,
        Some(r) => match b.mode {
            Mode::Replay => Some(
                (
                    if b.kind is Wall || b.kind is Grid {
                        "Replay ts:"@
                    } else {
                        "Replay time:"@
                    },
                    replay_start(b, r),
                ),
            ),
            Mode::Live => if b.kind is Grid {
                Some(("Live ts:"@, b.pos.live_ts))
            } else {
                None
            },
        },
    }
}

/// What is said in place of the slider where the market has no logs.
pub open spec fn no_replay_line(kind: WindowKind, mode: Mode) -> Seq<char> {
    if mode is Replay && (kind is Object || kind is Context) {
        "Replay: no data."@
    } else {
        ""@
    }
}

/// Whether a time may be shown so behind a text.
pub open spec fn shows_behind(mode: TimeDisplayMode, head: Seq<char>, ts: u64, text: Seq<char>) -> bool {
    exists|t: Seq<char>| #[trigger] crate::clock::shows(mode, ts, t) && text == concat(seq![head, t])
}

/// Whether the time of the bar may be shown so.
pub open spec fn shows_bar_time(mode: TimeDisplayMode, head: Option<(Seq<char>, u64)>, text: Seq<char>) -> bool {
    match head {
        Some(h) => shows_behind(mode, h.0, h.1, text),
        None => text == ""@,
    }
}

/// What is said where the market has no logs.
pub open spec fn missing_line(kind: WindowKind, mode: Mode) -> Seq<char> {
    match kind {
        WindowKind::Feed | WindowKind::Panel | WindowKind::Chart => if mode is Replay {
            "No replay CSV for this ticker."@
        } else {
            ""@
        },
        WindowKind::Script => "No CSV data for this ticker yet (check daemon)."@,
        WindowKind::Object | WindowKind::Context | WindowKind::Grid => "No CSV data for this ticker yet."@,
        WindowKind::Wall => ""@,
        WindowKind::Bot => if mode is Replay {
            "No data yet for this ticker."@
        } else {
            ""@
        },
    }
}

impl TopBar {
    /// The time that the object and the context window show.
    pub fn current_ts(&self, r: &TimeRange) -> (ts: u64)
        ensures
            ts == current_time(self@, *r),
    {
        if matches!(self.kind, WindowKind::Object) {
            self.pos.current_ts(r, self.mode)
        } else {
            match self.mode {
                Mode::Live => self.pos.live_ts,
                Mode::Replay => self.pos.replay_ts,
            }
        }
    }

    /// The time that the bar shows, with what stands before it.
    fn shown_time(&self, range: &Option<TimeRange>) -> (r: Option<(&'static str, u64)>)
        ensures
            match r {
                Some(t) => time_head(self@, *range) == Some((t.0@, t.1)),
                None => time_head(self@, *range) is None,
            },
    {
        match self.kind {
            WindowKind::Feed | WindowKind::Panel => match self.mode {
                Mode::Live => Some(("Live ts: ", self.pos.live_ts)),
                Mode::Replay => None,
            },
            WindowKind::Chart => match self.mode {
                Mode::Live => if self.pos.live_ts > 0 {
                    Some(("Live ts (from CSV): ", self.pos.live_ts))
                } else {
                    None
                },
                Mode::Replay => None,
            },
            WindowKind::Object | WindowKind::Context => match range {
                Some(r) => Some(("Current ts: ", self.current_ts(r))),
                None => None,
            },
            WindowKind::Bot => match range {
                Some(r) => match self.mode {
                    Mode::Live => Some(("Live @ ", r.max_ts)),
                    Mode::Replay => Some(("Replay @ ", self.pos.replay_ts)),
                },
                None => None,
            },
            WindowKind::Script | WindowKind::Wall | WindowKind::Grid => None,
        }
    }

    /// What stands beside the slider, and its time.
    fn slider_at(&self, range: &Option<TimeRange>) -> (r: Option<(&'static str, u64)>)
        requires
            range matches Some(r) ==> r.wf(),
        ensures
            match r {
                Some(t) => slider_head(self@, *range) == Some((t.0@, t.1)),
                None => slider_head(self@, *range) is None,
            },
    {
        match range {
            None => None,
            Some(r) => match self.mode {
                Mode::Replay => {
                    let head: &'static str = match self.kind {
                        WindowKind::Wall | WindowKind::Grid => "Replay ts:",
                        _ => "Replay time:",
                    };
                    let mut p: TimePos = self.pos;
                    if matches!(self.kind, WindowKind::Script | WindowKind::Object | WindowKind::Context) {
                        p.ensure_replay_ts_in_range(r);
                    }
                    Some((head, p.replay_ts))
                },
                Mode::Live => match self.kind {
                    WindowKind::Grid => Some(("Live ts:", self.pos.live_ts)),
                    _ => None,
                },
            },
        }
    }

    fn time_label(&self, shown: Option<(&'static str, u64)>) -> (r: String)
        ensures
            match shown {
                Some(t) => shows_behind(self.time_mode, t.0@, t.1, r@),
                None => r@ == ""@,
            },
    {
        match shown {
            Some((head, ts)) => {
                let t: String = format_ts(self.time_mode, ts);
                let parts: Vec<&str> = vec![head, t.as_str()];
                assert(views(parts@) =~= seq![head@, t@]);
                let label: String = cat(&parts);
                assert(crate::clock::shows(self.time_mode, ts, t@));
                assert(shows_behind(self.time_mode, head@, ts, label@));
                label
            },
            None => "".to_owned(),
        }
    }

    /// What the bar says about the market that is shown and its times.
    pub fn labels(&self, range: &Option<TimeRange>) -> (r: BarLabels)
        requires
            range matches Some(r) ==> r.wf(),
        ensures
            r.ticker@ == ticker_line(self.ticker@),
            match *range {
                Some(t) => {
                    &&& shows_bar_range(self.kind, self.time_mode, t, r.range@)
                    &&& r.missing@ == ""@
                    &&& r.no_replay@ == ""@
                },
                None => {
                    &&& r.range@ == ""@
                    &&& r.missing@ == missing_line(self.kind, self.mode)
                    &&& r.no_replay@ == no_replay_line(self.kind, self.mode)
                },
            },
            match slider_head(self@, *range) {
                Some(t) => r.slider@ == t.0 && crate::clock::shows(self.time_mode, t.1, r.slider_time@),
                None => r.slider@ == ""@ && r.slider_time@ == ""@,
            },
            shows_bar_time(self.time_mode, time_head(self@, *range), r.time@),
            shows_bar_time(self.time_mode, replay_head(self@, *range), r.replay@),
    {
        let parts: Vec<&str> = vec!["Ticker: ", self.ticker.as_str()];
        assert(views(parts@) =~= seq!["Ticker: "@, self.ticker@]);
        let ticker: String = cat(&parts);
        let time: String = self.time_label(self.shown_time(range));
        let beside: bool = range.is_some() && matches!(self.kind, WindowKind::Feed | WindowKind::Panel);
        let replay: String = self.time_label(
            if beside {
                Some(("Replay ts: ", self.pos.replay_ts))
            } else {
                None
            },
        );
        let (slider, slider_time): (String, String) = match self.slider_at(range) {
            Some((head, ts)) => (head.to_owned(), format_ts(self.time_mode, ts)),
            None => ("".to_owned(), "".to_owned()),
        };
        match range {
            Some(r) => {
                let a: String = format_ts(self.time_mode, r.min_ts);
                let b: String = format_ts(self.time_mode, r.max_ts);
                let head: &str = match self.kind {
                    WindowKind::Feed | WindowKind::Panel => "Replay range: ",
                    _ => "Range: ",
                };
                let parts: Vec<&str> = vec![head, a.as_str(), " \u{2192} ", b.as_str()];
                assert(views(parts@) =~= seq![head@, a@, " \u{2192} "@, b@]);
                BarLabels {
                    ticker,
                    range: cat(&parts),
                    replay,
                    time,
                    slider,
                    slider_time,
                    missing: "".to_owned(),
                    no_replay: "".to_owned(),
                }
            },
            None => {
                let missing: &str = match (self.kind, self.mode) {
                    (WindowKind::Feed | WindowKind::Panel | WindowKind::Chart, Mode::Replay) =>
                        "No replay CSV for this ticker.",
                    (WindowKind::Script, _) => "No CSV data for this ticker yet (check daemon).",
                    (WindowKind::Object | WindowKind::Context | WindowKind::Grid, _) =>
                        "No CSV data for this ticker yet.",
                    (WindowKind::Bot, Mode::Replay) => "No data yet for this ticker.",
                    _ => "",
                };
                let no_replay: &str = match (self.kind, self.mode) {
                    (WindowKind::Object | WindowKind::Context, Mode::Replay) => "Replay: no data.",
                    _ => "",
                };
                BarLabels {
                    ticker,
                    range: "".to_owned(),
                    replay,
                    time,
                    slider,
                    slider_time,
                    missing: missing.to_owned(),
                    no_replay: no_replay.to_owned(),
                }
            },
        }
    }
}

// ---------------------------------------------------------------------------
// Laws

/// Every period that a window offers is above zero.
pub proof fn law_menus_offer_periods(kind: WindowKind, i: int)
    ensures
        menu_of(kind) matches Some(menu) ==> (0 <= i < menu.len() ==> menu[i] > 0),
{
}

/// Whatever the user does, candles keep a period above zero.
pub proof fn law_controls_keep_a_period(b: BarView, e: BarEvent, range: Option<TimeRange>)
    requires
        b.chart.tf_secs > 0,
    ensures
        after(b, e, range).chart.tf_secs > 0,
{
    if let BarEvent::Period { tf_secs } = e {
        if let Some(menu) = menu_of(b.kind) {
            if menu.contains(tf_secs) {
                let i = choose|i: int| 0 <= i < menu.len() && menu[i] == tf_secs;
                law_menus_offer_periods(b.kind, i);
            }
        }
    }
}

/// A replay control never takes a replay time that is in range out of it.
pub proof fn law_replay_controls_stay_in_range(b: BarView, e: BarEvent, r: TimeRange)
    requires
        r.wf(),
        r.holds(b.pos.replay_ts),
        e is ReplayTo || e is Back || e is Forward || e is Now,
    ensures
        r.holds(after(b, e, Some(r)).pos.replay_ts),
{
}

/// A control of the chart or of the panels leaves the market, the mode and the times as
/// they are.
pub proof fn law_chart_controls_keep_the_times(b: BarView, e: BarEvent, range: Option<TimeRange>)
    requires
        !(e is SelectMode || e is SelectTime || e is SelectTicker || e is ReplayTo || e is Back
            || e is Forward || e is Now || e is Latest),
    ensures
        after(b, e, range).pos == b.pos,
        after(b, e, range).ticker == b.ticker,
        after(b, e, range).mode == b.mode,
        after(b, e, range).time_mode == b.time_mode,
{
}

/// After the range of prices was reset it follows the candles again, in every window that
/// has the button.
pub proof fn law_reset_follows_again(b: BarView, range: Option<TimeRange>)
    requires
        resets(b.kind),
    ensures
        after(b, BarEvent::ResetY, range).chart.auto_y,
{
}

/// A replay control takes the replay to the time that it names: to the one on the slider,
/// brought into the range, a second back or forward, or to the newest row. Nothing else
/// changes, and while the window is live nothing changes at all.
pub proof fn law_replay_controls_go_where_they_say(b: BarView, r: TimeRange, ts: u64)
    requires
        r.min_ts <= b.pos.replay_ts <= r.max_ts,
    ensures
        ({
            let to = after(b, BarEvent::ReplayTo { ts }, Some(r));
            let back = after(b, BarEvent::Back, Some(r));
            let forward = after(b, BarEvent::Forward, Some(r));
            let now = after(b, BarEvent::Now, Some(r));
            &&& b.mode is Live ==> to == b && back == b && forward == b && now == b
            &&& b.mode is Replay ==> {
                &&& r.min_ts <= ts <= r.max_ts ==> to.pos.replay_ts == ts
                &&& ts < r.min_ts ==> to.pos.replay_ts == r.min_ts
                &&& ts > r.max_ts ==> to.pos.replay_ts == r.max_ts
                &&& b.pos.replay_ts > r.min_ts ==> back.pos.replay_ts == b.pos.replay_ts - 1
                &&& b.pos.replay_ts < r.max_ts ==> forward.pos.replay_ts == b.pos.replay_ts + 1
                &&& now.pos.replay_ts == r.max_ts
            }
            &&& to == (BarView { pos: TimePos { replay_ts: to.pos.replay_ts, ..b.pos }, ..b })
            &&& back == (BarView { pos: TimePos { replay_ts: back.pos.replay_ts, ..b.pos }, ..b })
            &&& forward == (BarView { pos: TimePos { replay_ts: forward.pos.replay_ts, ..b.pos }, ..b })
            &&& now == (BarView { pos: TimePos { replay_ts: now.pos.replay_ts, ..b.pos }, ..b })
        }),
{
}

/// Selecting a mode, a time display or a market takes effect; a mode and a display change
/// nothing else, and a market takes no setting of the panels along.
pub proof fn law_selections_take_effect(
    b: BarView,
    mode: Mode,
    time_mode: TimeDisplayMode,
    ticker: String,
    range: Option<TimeRange>,
)
    ensures
        ({
            let m = after(b, BarEvent::SelectMode { mode }, range);
            let t = after(b, BarEvent::SelectTime { time_mode }, range);
            let k = after(b, BarEvent::SelectTicker { ticker, range }, range);
            &&& m.mode == mode && m == (BarView { mode, pos: m.pos, ..b })
            &&& m.pos.live_ts == b.pos.live_ts
            &&& b.kind !is Grid ==> m.pos == b.pos
            &&& t == (BarView { time_mode, ..b })
            &&& k.ticker == ticker@
            &&& k == (BarView { ticker: ticker@, pos: k.pos, chart: k.chart, ..b })
            &&& b.kind !is Chart ==> k.chart == b.chart
            &&& range matches Some(r) ==> {
                &&& !(b.kind is Feed || b.kind is Panel || b.kind is Context) ==> k.pos.live_ts == r.max_ts
                &&& (b.kind is Chart || b.kind is Script || b.kind is Object || b.kind is Bot || b.kind is Feed
                    || b.kind is Panel) ==> k.pos.replay_ts == r.max_ts
                &&& b.kind is Grid ==> k.pos.replay_ts == r.min_ts
            }
        }),
{
}

/// A switch of a panel shows or hides this panel and no other.
pub proof fn law_switches_move_their_panel(b: BarView, on: bool, range: Option<TimeRange>)
    requires
        b.kind !is Feed,
        b.kind !is Wall,
        b.kind !is Grid,
    ensures
        after(b, BarEvent::ShowDepth { on }, range) == (BarView {
            layout: LayoutSettings { show_depth: on, ..b.layout },
            ..b
        }),
        after(b, BarEvent::ShowLadders { on }, range) == (BarView {
            layout: LayoutSettings { show_ladders: on, ..b.layout },
            ..b
        }),
        after(b, BarEvent::ShowTrades { on }, range) == (BarView {
            layout: LayoutSettings { show_trades: on, ..b.layout },
            ..b
        }),
        after(b, BarEvent::ShowVolume { on }, range) == (BarView {
            layout: LayoutSettings { show_volume: on, ..b.layout },
            ..b
        }),
{
}

/// A control of the chart sets what it names: the number of candles and the zoom within the
/// bounds of the window, the period to one of the menu, the ends of the range of prices where
/// it is not automatic. No control touches another setting.
pub proof fn law_chart_controls_set_what_they_name(
    b: BarView,
    candles: usize,
    factor: Amount,
    tf: u64,
    on: bool,
    price: Amount,
    range: Option<TimeRange>,
)
    ensures
        ({
            let h = after(b, BarEvent::History { candles }, range);
            let z = after(b, BarEvent::Zoom { factor }, range);
            let p = after(b, BarEvent::Period { tf_secs: tf }, range);
            let a = after(b, BarEvent::AutoY { on }, range);
            let lo = after(b, BarEvent::YMin { price }, range);
            let hi = after(b, BarEvent::YMax { price }, range);
            &&& h == (BarView { chart: ChartSettings { show_candles: h.chart.show_candles, ..b.chart }, ..b })
            &&& history_range(b.kind) matches Some(x) ==> {
                &&& x.0 <= h.chart.show_candles <= x.1
                &&& x.0 <= candles <= x.1 ==> h.chart.show_candles == candles
            }
            &&& z == (BarView { chart: ChartSettings { x_zoom: z.chart.x_zoom, ..b.chart }, ..b })
            &&& zoom_range(b.kind) matches Some(x) ==> {
                &&& x.0 <= z.chart.x_zoom <= x.1
                &&& x.0 <= factor <= x.1 ==> z.chart.x_zoom == factor
            }
            &&& p == (BarView { chart: ChartSettings { tf_secs: p.chart.tf_secs, ..b.chart }, ..b })
            &&& menu_of(b.kind) matches Some(m) ==> (m.contains(tf) ==> p.chart.tf_secs == tf) && (!m.contains(tf)
                ==> p == b)
            &&& menu_of(b.kind) is None ==> 1 <= p.chart.tf_secs <= 86_400 && (1 <= tf <= 86_400 ==> p.chart.tf_secs
                == tf)
            &&& b.kind !is Wall ==> a == (BarView { chart: ChartSettings { auto_y: on, ..b.chart }, ..b })
            &&& b.kind !is Wall && !b.chart.auto_y ==> lo == (BarView {
                chart: ChartSettings { y_min: price, ..b.chart },
                ..b
            }) && hi == (BarView { chart: ChartSettings { y_max: price, ..b.chart }, ..b })
            &&& b.chart.auto_y ==> lo == b && hi == b
        }),
{
}

/// A pan moves the chart as the chart's own pan does, and the centre button undoes every pan.
pub proof fn law_pans_can_be_centred(b: BarView, range: Option<TimeRange>)
    requires
        b.kind is Feed || b.kind is Panel || b.kind is Chart || b.kind is Script,
    ensures
        after(b, BarEvent::PanLeft, range).chart == crate::chart::panned_left(b.chart),
        after(b, BarEvent::PanRight, range).chart == crate::chart::panned_right(b.chart),
        after(b, BarEvent::CenterX, range) == (BarView { chart: ChartSettings { x_pan_secs: 0, ..b.chart }, ..b }),
        after(after(b, BarEvent::PanLeft, range), BarEvent::CenterX, range) == after(b, BarEvent::CenterX, range),
        after(after(b, BarEvent::PanRight, range), BarEvent::CenterX, range) == after(b, BarEvent::CenterX, range),
{
}

/// The reload interval is the chosen one, within the bounds of the window.
pub proof fn law_intervals_are_taken(b: BarView, secs: Amount, range: Option<TimeRange>)
    ensures
        ({
            let r = after(b, BarEvent::Reload { secs }, range);
            &&& r == (BarView { reload_secs: r.reload_secs, ..b })
            &&& reload_range(b.kind) matches Some(x) ==> x.0 <= r.reload_secs <= x.1 && (x.0 <= secs <= x.1
                ==> r.reload_secs == secs)
            &&& reload_range(b.kind) is None ==> r == b
        }),
{
}

} // verus!
