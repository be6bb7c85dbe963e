//! What scripts may change of a window: the chart, the panels, the reload interval, the
//! theme and the bot.

use crate::amount::{clamp_units, Amount, ONE};
use crate::book::Side;
use crate::candle_agg::{Candle, CandleAgg};
use crate::chart::ChartSettings;
use crate::layout::LayoutSettings;
use crate::metrics::{compute_bubbles, BubbleInfo};
use crate::order_forms::{handle_script_signal, SignalDecision, SignalRequest};
use crate::script_host::{eval_object, eval_unit, eval_value, get_amount, get_flag, get_int, get_text, map_get_amount, map_get_bool, map_get_float, map_get_int, map_get_string, map_get_text, new_object, new_scope, object_keys, put_amount, put_flag, put_int, put_text, set_amount, set_flag, set_int, set_object, set_text, ObjectMap, RunEnd, ScriptValue};
use crate::session::{saturated, Mode};
use crate::snapshot::{replay_series, MultiSnapshot, Snapshot};
use crate::text::{cat, concat, same_text, trim, views, Strip};
use crate::theme::{ThemeChoice, UiTheme};
use vstd::prelude::*;

verus! {

/// The variables of a script by name.
pub type Values = Map<Seq<char>, ScriptValue>;

/// What every kind of script may change.
#[derive(Clone, Copy, Debug, PartialEq, Eq, Structural)]
pub struct Knobs {
    pub chart: ChartSettings,
    pub layout: LayoutSettings,
    pub reload_secs: Amount,
}

pub open spec fn clamp_int(v: i64, lo: i64, hi: i64) -> i64 {
    if v < lo {
        lo
    } else if v > hi {
        hi
    } else {
        v
    }
}

fn clamp_i64(v: i64, lo: i64, hi: i64) -> (r: i64)
    ensures
        r == clamp_int(v, lo, hi),
{
    if v < lo {
        lo
    } else if v > hi {
        hi
    } else {
        v
    }
}

/// A count from a script that is known to be positive, kept in range.
pub open spec fn count_of(v: i64) -> usize {
    if v > usize::MAX {
        usize::MAX
    } else {
        v as usize
    }
}

fn to_count(v: i64) -> (r: usize)
    requires
        v >= 0,
    ensures
        r == count_of(v),
{
    if v as u64 > usize::MAX as u64 {
        usize::MAX
    } else {
        v as usize
    }
}

pub open spec fn flag_or(v: Values, name: Seq<char>, default: bool) -> bool {
    match crate::script_host::flag_in(v, name) {
        Some(b) => b,
        None => default,
    }
}

pub open spec fn amount_or(v: Values, name: Seq<char>, default: Amount) -> Amount {
    match crate::script_host::amount_in(v, name) {
        Some(a) => a,
        None => default,
    }
}

pub open spec fn text_or(v: Values, name: Seq<char>, default: Seq<char>) -> Seq<char> {
    match crate::script_host::text_in(v, name) {
        Some(t) => t,
        None => default,
    }
}

/// The panels after a script: those that it names are as it says.
pub open spec fn panels_after(l: LayoutSettings, v: Values) -> LayoutSettings {
    LayoutSettings {
        show_depth: flag_or(v, "show_depth"@, l.show_depth),
        show_ladders: flag_or(v, "show_ladders"@, l.show_ladders),
        show_trades: flag_or(v, "show_trades"@, l.show_trades),
        show_volume: flag_or(v, "show_volume"@, l.show_volume),
    }
}

fn flag_from(scope: &rhai::Scope<'static>, name: &str, default: bool) -> (r: bool)
    ensures
        r == flag_or(crate::script_host::scope_values(*scope), name@, default),
{
    match get_flag(scope, name) {
        Some(b) => b,
        None => default,
    }
}

fn amount_from(scope: &rhai::Scope<'static>, name: &str, default: Amount) -> (r: Amount)
    ensures
        r == amount_or(crate::script_host::scope_values(*scope), name@, default),
{
    match get_amount(scope, name) {
        Some(a) => a,
        None => default,
    }
}

fn panels_from(scope: &rhai::Scope<'static>, l: &LayoutSettings) -> (r: LayoutSettings)
    ensures
        r == panels_after(*l, crate::script_host::scope_values(*scope)),
{
    LayoutSettings {
        show_depth: flag_from(scope, "show_depth", l.show_depth),
        show_ladders: flag_from(scope, "show_ladders", l.show_ladders),
        show_trades: flag_from(scope, "show_trades", l.show_trades),
        show_volume: flag_from(scope, "show_volume", l.show_volume),
    }
}

// ---------------------------------------------------------------------------
// The script window: scripts set its knobs and ask for orders

/// The state of the script window.
#[derive(Debug)]
pub struct ScriptWindow {
    pub knobs: Knobs,
    pub theme: UiTheme,
    pub error: Option<String>,
}

/// The knobs after a script of the script window: the period between a second and a day,
/// the history between 10 and 2000 candles, the reload interval between a tenth of a
/// second and a minute.
pub open spec fn window_knobs(k: Knobs, v: Values) -> Knobs {
    Knobs {
        chart: ChartSettings {
            tf_secs: match crate::script_host::int_in(v, "tf"@) {
                Some(tf) => clamp_int(tf, 1, 86_400) as u64,
                None => k.chart.tf_secs,
            },
            show_candles: match crate::script_host::int_in(v, "history"@) {
                Some(h) => clamp_int(h, 10, 2_000) as usize,
                None => k.chart.show_candles,
            },
            auto_y: flag_or(v, "auto_y"@, k.chart.auto_y),
            y_min: amount_or(v, "y_min"@, k.chart.y_min),
            y_max: amount_or(v, "y_max"@, k.chart.y_max),
            ..k.chart
        },
        layout: panels_after(k.layout, v),
        reload_secs: match crate::script_host::amount_in(v, "reload_secs"@) {
            Some(a) => crate::amount::clamp_amount(a, 10_000_000, 6_000_000_000),
            None => k.reload_secs,
        },
    }
}

/// The theme after a script of the script window.
pub open spec fn window_theme(t: UiTheme, v: Values) -> UiTheme {
    match crate::script_host::text_in(v, "theme"@) {
        Some(name) => UiTheme::named(name),
        None => t,
    }
}

/// What a script's variables ask for.
pub open spec fn request_in(v: Values) -> crate::order_forms::RequestView {
    crate::order_forms::RequestView {
        signal: crate::script_host::text_in(v, "signal"@),
        kind: crate::script_host::text_in(v, "signal_kind"@),
        size: crate::script_host::amount_in(v, "signal_size"@),
        leverage: crate::script_host::amount_in(v, "signal_leverage"@),
        price: crate::script_host::amount_in(v, "signal_price"@),
    }
}

/// The last candle and the best prices, as scripts see them.
#[derive(Clone, Copy, Debug, PartialEq, Eq, Structural)]
pub struct MarketInputs {
    pub open: Amount,
    pub high: Amount,
    pub low: Amount,
    pub close: Amount,
    pub volume: Amount,
    pub bid: Amount,
    pub ask: Amount,
    pub mid: Amount,
    pub spread: Amount,
}

pub open spec fn shown_series(aggs: Seq<CandleAgg>, tf: u64) -> Seq<Candle> {
    match crate::snapshot::series_of(aggs, tf) {
        Some(s) => s,
        None => match crate::snapshot::series_of(aggs, crate::snapshot::ONE_MINUTE) {
            Some(s) => s,
            None => Seq::empty(),
        },
    }
}

/// What scripts see of a market: zeros where there is nothing. The middle falls back to the
/// last one.
pub open spec fn market_inputs(
    series: Seq<Candle>,
    bids: crate::book::Sizes,
    asks: crate::book::Sizes,
    last_mid: Amount,
) -> MarketInputs {
    let bid = crate::metrics::best_price(bids, true);
    let ask = crate::metrics::best_price(asks, false);
    let both = bid > 0 && ask > 0;
    let c = if series.len() > 0 {
        series.last()
    } else {
        Candle { t: 0, open: 0, high: 0, low: 0, close: 0, volume: 0 }
    };
    MarketInputs {
        open: c.open,
        high: c.high,
        low: c.low,
        close: c.close,
        volume: c.volume,
        bid: bid as Amount,
        ask: ask as Amount,
        mid: (if both {
            (bid + ask) / 2
        } else if last_mid > 0 {
            last_mid as int
        } else {
            0
        }) as Amount,
        spread: (if both {
            ask - bid
        } else {
            0
        }) as Amount,
    }
}

/// What scripts see of a market that has no snapshot yet.
pub open spec fn no_market() -> MarketInputs {
    MarketInputs { open: 0, high: 0, low: 0, close: 0, volume: 0, bid: 0, ask: 0, mid: 0, spread: 0 }
}

impl Default for MarketInputs {
    fn default() -> (r: Self)
        ensures
            r == no_market(),
    {
        MarketInputs { open: 0, high: 0, low: 0, close: 0, volume: 0, bid: 0, ask: 0, mid: 0, spread: 0 }
    }
}

/// What scripts see of a snapshot.
pub fn inputs_from(snap: &MultiSnapshot, tf: u64) -> (r: MarketInputs)
    requires
        snap.bids.wf(),
        snap.asks.wf(),
    ensures
        r == market_inputs(
            shown_series(snap.candles_by_tf@, tf),
            snap.bids@,
            snap.asks@,
            snap.last_mid,
        ),
{
    let series: Vec<Candle> = replay_series(&snap.candles_by_tf, tf);
    let n: usize = series.len();
    let c: Candle = if n > 0 {
        series[n - 1]
    } else {
        Candle { t: 0, open: 0, high: 0, low: 0, close: 0, volume: 0 }
    };
    let m = crate::metrics::compute_bubble_metrics(&snap.bids, &snap.asks);
    let both: bool = m.best_bid > 0 && m.best_ask > 0;
    MarketInputs {
        open: c.open,
        high: c.high,
        low: c.low,
        close: c.close,
        volume: c.volume,
        bid: m.best_bid,
        ask: m.best_ask,
        mid: if both {
            m.mid
        } else if snap.last_mid > 0 {
            snap.last_mid
        } else {
            0
        },
        spread: m.spread,
    }
}

/// The variables of the script window, on top of those that the script kept.
pub open spec fn window_inputs(
    v: Values,
    k: Knobs,
    theme: UiTheme,
    mode: Mode,
    ticker: Seq<char>,
    now_ts: u64,
    m: MarketInputs,
) -> Values {
    v
        .insert("tf"@, ScriptValue::Int(crate::session::script_int(k.chart.tf_secs)))
        .insert("history"@, ScriptValue::Int(crate::session::script_int(k.chart.show_candles as u64)))
        .insert("auto_y"@, ScriptValue::Flag(k.chart.auto_y))
        .insert("y_min"@, crate::script_host::amount_value(k.chart.y_min))
        .insert("y_max"@, crate::script_host::amount_value(k.chart.y_max))
        .insert("show_depth"@, ScriptValue::Flag(k.layout.show_depth))
        .insert("show_ladders"@, ScriptValue::Flag(k.layout.show_ladders))
        .insert("show_trades"@, ScriptValue::Flag(k.layout.show_trades))
        .insert("show_volume"@, ScriptValue::Flag(k.layout.show_volume))
        .insert("reload_secs"@, crate::script_host::amount_value(k.reload_secs))
        .insert("theme"@, ScriptValue::Text(theme.name_text()))
        .insert("mode"@, ScriptValue::Text(mode.script_text()))
        .insert("ticker"@, ScriptValue::Text(ticker))
        .insert("now_ts"@, ScriptValue::Int(crate::session::script_int(now_ts)))
        .insert("last_price"@, crate::script_host::amount_value(m.close))
        .insert("last_open"@, crate::script_host::amount_value(m.open))
        .insert("last_high"@, crate::script_host::amount_value(m.high))
        .insert("last_low"@, crate::script_host::amount_value(m.low))
        .insert("last_close"@, crate::script_host::amount_value(m.close))
        .insert("last_volume"@, crate::script_host::amount_value(m.volume))
        .insert("bid"@, crate::script_host::amount_value(m.bid))
        .insert("ask"@, crate::script_host::amount_value(m.ask))
        .insert("mid"@, crate::script_host::amount_value(m.mid))
        .insert("spread"@, crate::script_host::amount_value(m.spread))
}

/// The variables that a script of the script window starts with.
pub open spec fn first_values() -> Values {
    crate::script_host::no_values()
        .insert("signal"@, ScriptValue::Text("none"@))
        .insert("signal_kind"@, ScriptValue::Text("market"@))
        .insert("signal_size"@, crate::script_host::amount_value(0))
        .insert("signal_price"@, crate::script_host::amount_value(0))
        .insert("signal_leverage"@, crate::script_host::amount_value(ONE))
}

/// A scope with the variables that a script of the script window starts with.
pub fn first_scope() -> (r: rhai::Scope<'static>)
    ensures
        crate::script_host::scope_values(r) == first_values(),
{
    let mut scope = new_scope();
    set_text(&mut scope, "signal", "none");
    set_text(&mut scope, "signal_kind", "market");
    set_amount(&mut scope, "signal_size", 0);
    set_amount(&mut scope, "signal_price", 0);
    set_amount(&mut scope, "signal_leverage", ONE);
    scope
}

impl ScriptWindow {
    /// Sets the variables of the script window.
    pub fn sync_scope_from_state(
        &self,
        scope: &mut rhai::Scope<'static>,
        mode: Mode,
        ticker: &str,
        now_ts: u64,
        m: &MarketInputs,
    )
        ensures
            crate::script_host::scope_values(*final(scope)) == window_inputs(
                crate::script_host::scope_values(*old(scope)),
                self.knobs,
                self.theme,
                mode,
                ticker@,
                now_ts,
                *m,
            ),
    {
        let chart = &self.knobs.chart;
        let layout = &self.knobs.layout;
        set_int(scope, "tf", saturated(chart.tf_secs));
        set_int(scope, "history", saturated(chart.show_candles as u64));
        set_flag(scope, "auto_y", chart.auto_y);
        set_amount(scope, "y_min", chart.y_min);
        set_amount(scope, "y_max", chart.y_max);
        set_flag(scope, "show_depth", layout.show_depth);
        set_flag(scope, "show_ladders", layout.show_ladders);
        set_flag(scope, "show_trades", layout.show_trades);
        set_flag(scope, "show_volume", layout.show_volume);
        set_amount(scope, "reload_secs", self.knobs.reload_secs);
        set_text(scope, "theme", self.theme.name());
        set_text(scope, "mode", mode.script_name());
        set_text(scope, "ticker", ticker);
        set_int(scope, "now_ts", saturated(now_ts));
        set_amount(scope, "last_price", m.close);
        set_amount(scope, "last_open", m.open);
        set_amount(scope, "last_high", m.high);
        set_amount(scope, "last_low", m.low);
        set_amount(scope, "last_close", m.close);
        set_amount(scope, "last_volume", m.volume);
        set_amount(scope, "bid", m.bid);
        set_amount(scope, "ask", m.ask);
        set_amount(scope, "mid", m.mid);
        set_amount(scope, "spread", m.spread);
    }

    /// Sets the theme by its name.
    pub fn set_theme_from_name(&mut self, name: &str)
        ensures
            *final(self) == (ScriptWindow { theme: UiTheme::named(name@), ..*old(self) }),
    {
        self.theme = UiTheme::from_name(name);
    }

    /// Takes over what a script left behind.
    pub fn apply_scope_to_state(&mut self, scope: &rhai::Scope<'static>)
        ensures
            *final(self) == (ScriptWindow {
                knobs: window_knobs(old(self).knobs, crate::script_host::scope_values(*scope)),
                theme: window_theme(old(self).theme, crate::script_host::scope_values(*scope)),
                ..*old(self)
            }),
    {
        if let Some(tf) = get_int(scope, "tf") {
            self.knobs.chart.tf_secs = clamp_i64(tf, 1, 86_400) as u64;
        }
        if let Some(h) = get_int(scope, "history") {
            self.knobs.chart.show_candles = clamp_i64(h, 10, 2_000) as usize;
        }
        self.knobs.chart.auto_y = flag_from(scope, "auto_y", self.knobs.chart.auto_y);
        self.knobs.chart.y_min = amount_from(scope, "y_min", self.knobs.chart.y_min);
        self.knobs.chart.y_max = amount_from(scope, "y_max", self.knobs.chart.y_max);
        self.knobs.layout = panels_from(scope, &self.knobs.layout);
        if let Some(a) = get_amount(scope, "reload_secs") {
            self.knobs.reload_secs = clamp_units(a, 10_000_000, 6_000_000_000);
        }
        if let Some(name) = get_text(scope, "theme") {
            self.set_theme_from_name(name.as_str());
        }
    }

    /// Runs a script of the script window: it is given the window's variables on top of
    /// those that it kept, what it leaves behind is taken over, and its signal is decided
    /// on. A signal that was handled is reset. A failed script changes nothing but the
    /// error.
    pub fn run_script(
        &mut self,
        engine: &rhai::Engine,
        scope: &mut rhai::Scope<'static>,
        script: &str,
        mode: Mode,
        ticker: &str,
        now_ts: u64,
        m: &MarketInputs,
    ) -> (r: Option<SignalDecision>)
        requires
            crate::script_host::tame(crate::script_host::limits_of(*engine)),
        ensures
            ({
                let before = window_inputs(
                    crate::script_host::scope_values(*old(scope)),
                    old(self).knobs,
                    old(self).theme,
                    mode,
                    ticker@,
                    now_ts,
                    *m,
                );
                exists|v: Values, end: RunEnd| #[trigger]
                    crate::script_host::may_end(crate::script_host::limits_of(*engine), script@, before, v, end) && match end {
                        RunEnd::Failed { error } => {
                            &&& r is None
                            &&& crate::script_host::scope_values(*final(scope)) == v
                            &&& crate::script_host::text_view(final(self).error) == Some(error)
                            &&& final(self).knobs == old(self).knobs
                            &&& final(self).theme == old(self).theme
                        },
                        _ => {
                            &&& r matches Some(d) && d@ == crate::order_forms::decided(request_in(v), ticker@)
                            &&& crate::script_host::scope_values(*final(scope)) == (if crate::order_forms::decided(
                                request_in(v),
                                ticker@,
                            ) is Quiet {
                                v
                            } else {
                                v.insert("signal"@, ScriptValue::Text("none"@))
                            })
                            &&& final(self).error is None
                            &&& final(self).knobs == window_knobs(old(self).knobs, v)
                            &&& final(self).theme == window_theme(old(self).theme, v)
                        },
                    }
            }),
    {
        self.sync_scope_from_state(scope, mode, ticker, now_ts, m);
        let ghost before = crate::script_host::scope_values(*scope);
        let end = eval_unit(engine, scope, script);
        assert(crate::script_host::may_end(
            crate::script_host::limits_of(*engine),
            script@,
            before,
            crate::script_host::scope_values(*scope),
            crate::script_host::unit_end(end),
        ));
        match end {
            Ok(()) => {
                self.error = None;
                self.apply_scope_to_state(scope);
                let req: SignalRequest = read_signal(scope);
                let d: SignalDecision = handle_script_signal(&req, ticker);
                match &d {
                    SignalDecision::Quiet => {},
                    _ => {
                        set_text(scope, "signal", "none");
                    },
                }
                Some(d)
            },
            Err(e) => {
                self.error = Some(e);
                None
            },
        }
    }
}

/// What a script's variables ask for.
pub fn read_signal(scope: &rhai::Scope<'static>) -> (r: SignalRequest)
    ensures
        r@ == request_in(crate::script_host::scope_values(*scope)),
{
    SignalRequest {
        signal: get_text(scope, "signal"),
        kind: get_text(scope, "signal_kind"),
        size: get_amount(scope, "signal_size"),
        leverage: get_amount(scope, "signal_leverage"),
        price: get_amount(scope, "signal_price"),
    }
}

// ---------------------------------------------------------------------------
// The object window: scripts return an object

/// The state of the object window.
#[derive(Debug)]
pub struct ObjectWindow {
    pub knobs: Knobs,
    pub theme: ThemeChoice,
    pub bot_signal: String,
    pub bot_size: Amount,
    pub error: String,
}

/// The period that the object window offers for a script's one.
pub open spec fn offered_tf(tf: i64) -> u64 {
    if tf <= 30 {
        30
    } else if tf <= 60 {
        60
    } else if tf <= 180 {
        180
    } else {
        300
    }
}

pub open spec fn object_amount_or(v: Values, name: Seq<char>, default: Amount) -> Amount {
    match crate::script_host::amount_or_int_in(v, name) {
        Some(a) => a,
        None => default,
    }
}

/// The chart after a script of the object window: one of four periods and at least ten
/// candles.
pub open spec fn object_chart_after(c: ChartSettings, v: Values) -> ChartSettings {
    ChartSettings {
        tf_secs: match crate::script_host::int_in(v, "tf"@) {
            Some(tf) => offered_tf(tf),
            None => c.tf_secs,
        },
        show_candles: match crate::script_host::int_in(v, "history"@) {
            Some(h) => if h < 10 {
                10
            } else {
                count_of(h)
            },
            None => c.show_candles,
        },
        auto_y: flag_or(v, "auto_y"@, c.auto_y),
        y_min: object_amount_or(v, "y_min"@, c.y_min),
        y_max: object_amount_or(v, "y_max"@, c.y_max),
        ..c
    }
}

/// The knobs after a script of the object window: the reload interval is between one second
/// and five minutes.
pub open spec fn object_knobs(k: Knobs, v: Values) -> Knobs {
    Knobs {
        chart: object_chart_after(k.chart, v),
        layout: panels_after(k.layout, v),
        reload_secs: match crate::script_host::amount_or_int_in(v, "reload_secs"@) {
            Some(a) => crate::amount::clamp_amount(a, ONE, 30_000_000_000),
            None => k.reload_secs,
        },
    }
}

/// The theme after a script of the object window: a name that is none changes nothing.
pub open spec fn object_theme(t: ThemeChoice, texts: Map<Seq<char>, Seq<char>>) -> ThemeChoice {
    match crate::script_host::shown_in(texts, "theme"@) {
        Some(name) => match ThemeChoice::named(name) {
            Some(c) => c,
            None => t,
        },
        None => t,
    }
}

fn object_flag_or(m: &ObjectMap, name: &str, default: bool) -> (r: bool)
    ensures
        r == flag_or(crate::script_host::object_values(*m), name@, default),
{
    match map_get_bool(m, name) {
        Some(b) => b,
        None => default,
    }
}

fn object_float_or(m: &ObjectMap, name: &str, default: Amount) -> (r: Amount)
    ensures
        r == object_amount_or(crate::script_host::object_values(*m), name@, default),
{
    match map_get_float(m, name) {
        Some(a) => a,
        None => default,
    }
}

pub ghost struct ObjectView {
    pub knobs: Knobs,
    pub theme: ThemeChoice,
    pub bot_signal: Seq<char>,
    pub bot_size: Amount,
    pub error: Seq<char>,
}

impl View for ObjectWindow {
    type V = ObjectView;

    open spec fn view(&self) -> ObjectView {
        ObjectView {
            knobs: self.knobs,
            theme: self.theme,
            bot_signal: self.bot_signal@,
            bot_size: self.bot_size,
            error: self.error@,
        }
    }
}

/// The object window after a script returned an object.
pub open spec fn object_taken(w: ObjectView, v: Values, texts: Map<Seq<char>, Seq<char>>) -> ObjectView {
    ObjectView {
        knobs: object_knobs(w.knobs, v),
        theme: object_theme(w.theme, texts),
        bot_signal: match crate::script_host::shown_in(texts, "bot_signal"@) {
            Some(t) => t,
            None => w.bot_signal,
        },
        bot_size: object_amount_or(v, "bot_size"@, w.bot_size),
        error: ""@,
    }
}

fn object_chart(m: &ObjectMap, c: &ChartSettings) -> (r: ChartSettings)
    ensures
        r == object_chart_after(*c, crate::script_host::object_values(*m)),
{
    let mut chart: ChartSettings = *c;
    if let Some(tf) = map_get_int(m, "tf") {
        chart.tf_secs = if tf <= 30 {
            30
        } else if tf <= 60 {
            60
        } else if tf <= 180 {
            180
        } else {
            300
        };
    }
    if let Some(h) = map_get_int(m, "history") {
        chart.show_candles = if h < 10 {
            10
        } else {
            to_count(h)
        };
    }
    chart.auto_y = object_flag_or(m, "auto_y", c.auto_y);
    chart.y_min = object_float_or(m, "y_min", c.y_min);
    chart.y_max = object_float_or(m, "y_max", c.y_max);
    chart
}

fn object_panels(m: &ObjectMap, l: &LayoutSettings) -> (r: LayoutSettings)
    ensures
        r == panels_after(*l, crate::script_host::object_values(*m)),
{
    LayoutSettings {
        show_depth: object_flag_or(m, "show_depth", l.show_depth),
        show_ladders: object_flag_or(m, "show_ladders", l.show_ladders),
        show_trades: object_flag_or(m, "show_trades", l.show_trades),
        show_volume: object_flag_or(m, "show_volume", l.show_volume),
    }
}

/// The variables of the object window.
pub open spec fn object_inputs(
    last_close: Amount,
    last_volume: Amount,
    mid: Amount,
    mode: Mode,
    ticker: Seq<char>,
    bot_signal: Seq<char>,
    bot_size: Amount,
) -> Values {
    crate::script_host::no_values()
        .insert("last_close"@, crate::script_host::amount_value(last_close))
        .insert("last_volume"@, crate::script_host::amount_value(last_volume))
        .insert("mid"@, crate::script_host::amount_value(mid))
        .insert("mode"@, ScriptValue::Text(mode.script_text()))
        .insert("ticker"@, ScriptValue::Text(ticker))
        .insert("bot_signal_prev"@, ScriptValue::Text(bot_signal))
        .insert("bot_size_prev"@, crate::script_host::amount_value(bot_size))
}

impl ObjectWindow {
    /// A scope with the variables of the object window.
    pub fn object_scope(
        &self,
        last_close: Amount,
        last_volume: Amount,
        mid: Amount,
        mode: Mode,
        ticker: &str,
    ) -> (r: rhai::Scope<'static>)
        ensures
            crate::script_host::scope_values(r) == object_inputs(
                last_close,
                last_volume,
                mid,
                mode,
                ticker@,
                self.bot_signal@,
                self.bot_size,
            ),
    {
        let mut scope = new_scope();
        set_amount(&mut scope, "last_close", last_close);
        set_amount(&mut scope, "last_volume", last_volume);
        set_amount(&mut scope, "mid", mid);
        set_text(&mut scope, "mode", mode.script_name());
        set_text(&mut scope, "ticker", ticker);
        set_text(&mut scope, "bot_signal_prev", self.bot_signal.as_str());
        set_amount(&mut scope, "bot_size_prev", self.bot_size);
        scope
    }

    /// Takes over the object that a script returned.
    pub fn apply_object(&mut self, m: &ObjectMap)
        ensures
            final(self)@ == object_taken(
                old(self)@,
                crate::script_host::object_values(*m),
                crate::script_host::object_texts(*m),
            ),
    {
        let reload_secs: Amount = match map_get_float(m, "reload_secs") {
            Some(a) => clamp_units(a, ONE, 30_000_000_000),
            None => self.knobs.reload_secs,
        };
        let knobs = Knobs {
            chart: object_chart(m, &self.knobs.chart),
            layout: object_panels(m, &self.knobs.layout),
            reload_secs,
        };
        self.knobs = knobs;
        if let Some(name) = map_get_string(m, "theme") {
            if let Ok(t) = ThemeChoice::from_str(name.as_str()) {
                self.theme = t;
            }
        }
        if let Some(sig) = map_get_string(m, "bot_signal") {
            self.bot_signal = sig;
        }
        self.bot_size = object_float_or(m, "bot_size", self.bot_size);
        self.error = "".to_owned();
    }

    /// Runs a script of the object window. A failed script changes nothing but the error;
    /// an object that it returns is taken over.
    pub fn run_script(
        &mut self,
        engine: &rhai::Engine,
        script: &str,
        snap: &MultiSnapshot,
        mode: Mode,
        ticker: &str,
    )
        requires
            crate::script_host::tame(crate::script_host::limits_of(*engine)),
            snap.bids.wf(),
            snap.asks.wf(),
        ensures
            ({
                let m = market_inputs(
                    shown_series(snap.candles_by_tf@, old(self).knobs.chart.tf_secs),
                    snap.bids@,
                    snap.asks@,
                    snap.last_mid,
                );
                let before = object_inputs(
                    m.close,
                    m.volume,
                    snap.last_mid,
                    mode,
                    ticker@,
                    old(self).bot_signal@,
                    old(self).bot_size,
                );
                exists|v: Values, end: RunEnd| #[trigger]
                    crate::script_host::may_end(crate::script_host::limits_of(*engine), script@, before, v, end) && match end {
                        RunEnd::Failed { error } => final(self)@ == (ObjectView {
                            error,
                            ..old(self)@
                        }),
                        RunEnd::Object { values, texts, keys } => final(self)@ == object_taken(
                            old(self)@,
                            values,
                            texts,
                        ),
                        RunEnd::Plain => false,
                    }
            }),
    {
        let m: MarketInputs = inputs_from(snap, self.knobs.chart.tf_secs);
        let mut scope = self.object_scope(m.close, m.volume, snap.last_mid, mode, ticker);
        let ghost before = crate::script_host::scope_values(scope);
        let end = eval_object(engine, &mut scope, script);
        assert(crate::script_host::may_end(
            crate::script_host::limits_of(*engine),
            script@,
            before,
            crate::script_host::scope_values(scope),
            crate::script_host::map_end(end),
        ));
        match end {
            Ok(m) => {
                self.apply_object(&m);
            },
            Err(e) => {
                self.error = e;
            },
        }
    }
}

// ---------------------------------------------------------------------------
// The context window: scripts read a context and set variables

/// The state of the context window.
#[derive(Debug)]
pub struct ContextWindow {
    pub knobs: Knobs,
    pub bot_signal: String,
    pub bot_size: Amount,
    pub bot_comment: String,
    pub error: String,
}

pub ghost struct ContextView {
    pub knobs: Knobs,
    pub bot_signal: Seq<char>,
    pub bot_size: Amount,
    pub bot_comment: Seq<char>,
    pub error: Seq<char>,
}

impl View for ContextWindow {
    type V = ContextView;

    open spec fn view(&self) -> ContextView {
        ContextView {
            knobs: self.knobs,
            bot_signal: self.bot_signal@,
            bot_size: self.bot_size,
            bot_comment: self.bot_comment@,
            error: self.error@,
        }
    }
}

/// The context window after a script.
pub open spec fn context_taken(w: ContextView, v: Values) -> ContextView {
    ContextView { knobs: context_knobs(w.knobs, v), ..bot_taken(w, v) }
}

/// A window whose bot took over what a script left behind: what the script does not set
/// stays, and no size is negative.
pub open spec fn bot_taken(w: ContextView, v: Values) -> ContextView {
    ContextView {
        bot_signal: text_or(v, "bot_signal"@, w.bot_signal),
        bot_size: size_after(w.bot_size, v),
        bot_comment: text_or(v, "bot_comment"@, w.bot_comment),
        ..w
    }
}

/// The knobs after a script of the context window: every period above zero, a history
/// between 10 and 5000 candles and a reload interval between one second and ten minutes;
/// what lies outside changes nothing.
pub open spec fn context_knobs(k: Knobs, v: Values) -> Knobs {
    Knobs {
        chart: ChartSettings {
            tf_secs: match crate::script_host::int_in(v, "tf"@) {
                Some(tf) => if tf > 0 {
                    tf as u64
                } else {
                    k.chart.tf_secs
                },
                None => k.chart.tf_secs,
            },
            show_candles: match crate::script_host::int_in(v, "history"@) {
                Some(h) => if 10 <= h <= 5000 {
                    h as usize
                } else {
                    k.chart.show_candles
                },
                None => k.chart.show_candles,
            },
            auto_y: flag_or(v, "auto_y"@, k.chart.auto_y),
            y_min: amount_or(v, "y_min"@, k.chart.y_min),
            y_max: amount_or(v, "y_max"@, k.chart.y_max),
            ..k.chart
        },
        layout: panels_after(k.layout, v),
        reload_secs: match crate::script_host::amount_in(v, "reload_secs"@) {
            Some(a) => if ONE <= a <= 60_000_000_000 {
                a
            } else {
                k.reload_secs
            },
            None => k.reload_secs,
        },
    }
}

/// The bot's size after a script: the one that it set, but nothing below zero.
pub open spec fn size_after(size: Amount, v: Values) -> Amount {
    match crate::script_host::amount_in(v, "bot_size"@) {
        Some(a) => crate::orders::not_negative(a),
        None => size,
    }
}

/// The context that a script of the context window reads.
pub open spec fn context(k: Knobs, last_mid: Amount, last_vol: Amount, mode: Mode, ticker: Seq<char>) -> Values {
    crate::script_host::no_values()
        .insert("mid"@, crate::script_host::amount_value(last_mid))
        .insert("last_vol"@, crate::script_host::amount_value(last_vol))
        .insert("tf"@, ScriptValue::Int(crate::session::script_int(k.chart.tf_secs)))
        .insert("history"@, ScriptValue::Int(crate::session::script_int(k.chart.show_candles as u64)))
        .insert("auto_y"@, ScriptValue::Flag(k.chart.auto_y))
        .insert("y_min"@, crate::script_host::amount_value(k.chart.y_min))
        .insert("y_max"@, crate::script_host::amount_value(k.chart.y_max))
        .insert("show_depth"@, ScriptValue::Flag(k.layout.show_depth))
        .insert("show_ladders"@, ScriptValue::Flag(k.layout.show_ladders))
        .insert("show_trades"@, ScriptValue::Flag(k.layout.show_trades))
        .insert("show_volume"@, ScriptValue::Flag(k.layout.show_volume))
        .insert("reload_secs"@, crate::script_host::amount_value(k.reload_secs))
        .insert("mode"@, ScriptValue::Text(mode.script_text()))
        .insert("ticker"@, ScriptValue::Text(ticker))
}

/// The variables that a script of the context window is given.
pub open spec fn context_inputs(
    k: Knobs,
    ctx: Values,
    bot_signal: Seq<char>,
    bot_size: Amount,
    bot_comment: Seq<char>,
) -> Values {
    crate::script_host::no_values()
        .insert("ctx"@, ScriptValue::Object(ctx))
        .insert("tf"@, ScriptValue::Int(crate::session::script_int(k.chart.tf_secs)))
        .insert("history"@, ScriptValue::Int(crate::session::script_int(k.chart.show_candles as u64)))
        .insert("auto_y"@, ScriptValue::Flag(k.chart.auto_y))
        .insert("y_min"@, crate::script_host::amount_value(k.chart.y_min))
        .insert("y_max"@, crate::script_host::amount_value(k.chart.y_max))
        .insert("show_depth"@, ScriptValue::Flag(k.layout.show_depth))
        .insert("show_ladders"@, ScriptValue::Flag(k.layout.show_ladders))
        .insert("show_trades"@, ScriptValue::Flag(k.layout.show_trades))
        .insert("show_volume"@, ScriptValue::Flag(k.layout.show_volume))
        .insert("reload_secs"@, crate::script_host::amount_value(k.reload_secs))
        .insert("bot_signal"@, ScriptValue::Text(bot_signal))
        .insert("bot_size"@, crate::script_host::amount_value(bot_size))
        .insert("bot_comment"@, ScriptValue::Text(bot_comment))
}

fn context_object(k: &Knobs, last_mid: Amount, last_vol: Amount, mode: Mode, ticker: &str) -> (r: ObjectMap)
    ensures
        crate::script_host::object_values(r) == context(*k, last_mid, last_vol, mode, ticker@),
{
    let mut ctx = new_object();
    put_amount(&mut ctx, "mid", last_mid);
    put_amount(&mut ctx, "last_vol", last_vol);
    put_int(&mut ctx, "tf", saturated(k.chart.tf_secs));
    put_int(&mut ctx, "history", saturated(k.chart.show_candles as u64));
    put_flag(&mut ctx, "auto_y", k.chart.auto_y);
    put_amount(&mut ctx, "y_min", k.chart.y_min);
    put_amount(&mut ctx, "y_max", k.chart.y_max);
    put_flag(&mut ctx, "show_depth", k.layout.show_depth);
    put_flag(&mut ctx, "show_ladders", k.layout.show_ladders);
    put_flag(&mut ctx, "show_trades", k.layout.show_trades);
    put_flag(&mut ctx, "show_volume", k.layout.show_volume);
    put_amount(&mut ctx, "reload_secs", k.reload_secs);
    put_text(&mut ctx, "mode", mode.script_name());
    put_text(&mut ctx, "ticker", ticker);
    ctx
}

impl ContextWindow {
    /// A scope with the variables of the context window.
    pub fn context_scope(&self, last_mid: Amount, last_vol: Amount, mode: Mode, ticker: &str) -> (r: rhai::Scope<
        'static,
    >)
        ensures
            crate::script_host::scope_values(r) == context_inputs(
                self.knobs,
                context(self.knobs, last_mid, last_vol, mode, ticker@),
                self.bot_signal@,
                self.bot_size,
                self.bot_comment@,
            ),
    {
        let k = &self.knobs;
        let mut scope = new_scope();
        set_object(&mut scope, "ctx", context_object(k, last_mid, last_vol, mode, ticker));
        set_int(&mut scope, "tf", saturated(k.chart.tf_secs));
        set_int(&mut scope, "history", saturated(k.chart.show_candles as u64));
        set_flag(&mut scope, "auto_y", k.chart.auto_y);
        set_amount(&mut scope, "y_min", k.chart.y_min);
        set_amount(&mut scope, "y_max", k.chart.y_max);
        set_flag(&mut scope, "show_depth", k.layout.show_depth);
        set_flag(&mut scope, "show_ladders", k.layout.show_ladders);
        set_flag(&mut scope, "show_trades", k.layout.show_trades);
        set_flag(&mut scope, "show_volume", k.layout.show_volume);
        set_amount(&mut scope, "reload_secs", k.reload_secs);
        set_text(&mut scope, "bot_signal", self.bot_signal.as_str());
        set_amount(&mut scope, "bot_size", self.bot_size);
        set_text(&mut scope, "bot_comment", self.bot_comment.as_str());
        scope
    }

    /// Takes over what a script left behind.
    pub fn apply_context(&mut self, scope: &rhai::Scope<'static>)
        ensures
            final(self)@ == context_taken(old(self)@, crate::script_host::scope_values(*scope)),
    {
        if let Some(tf) = get_int(scope, "tf") {
            if tf > 0 {
                self.knobs.chart.tf_secs = tf as u64;
            }
        }
        if let Some(h) = get_int(scope, "history") {
            if h >= 10 && h <= 5000 {
                self.knobs.chart.show_candles = h as usize;
            }
        }
        self.knobs.chart.auto_y = flag_from(scope, "auto_y", self.knobs.chart.auto_y);
        self.knobs.chart.y_min = amount_from(scope, "y_min", self.knobs.chart.y_min);
        self.knobs.chart.y_max = amount_from(scope, "y_max", self.knobs.chart.y_max);
        self.knobs.layout = panels_from(scope, &self.knobs.layout);
        if let Some(a) = get_amount(scope, "reload_secs") {
            if a >= ONE && a <= 60_000_000_000 {
                self.knobs.reload_secs = a;
            }
        }
        self.take_bot(scope);
    }

    fn take_bot(&mut self, scope: &rhai::Scope<'static>)
        ensures
            final(self)@ == bot_taken(old(self)@, crate::script_host::scope_values(*scope)),
    {
        if let Some(sig) = get_text(scope, "bot_signal") {
            self.bot_signal = sig;
        }
        if let Some(a) = get_amount(scope, "bot_size") {
            self.bot_size = crate::orders::clip_negative(a);
        }
        if let Some(c) = get_text(scope, "bot_comment") {
            self.bot_comment = c;
        }
    }

    /// Runs a script of the context window. A blank script only clears the error; a failed
    /// one changes nothing but the error.
    pub fn run_script(
        &mut self,
        engine: &rhai::Engine,
        script_text: &str,
        snap: &Snapshot,
        mode: Mode,
        ticker: &str,
    )
        requires
            crate::script_host::tame(crate::script_host::limits_of(*engine)),
        ensures
            ({
                let script = crate::text::strip(Strip::Space, script_text@);
                let before = context_inputs(
                    old(self).knobs,
                    context(old(self).knobs, snap.last_mid, snap.last_vol, mode, ticker@),
                    old(self).bot_signal@,
                    old(self).bot_size,
                    old(self).bot_comment@,
                );
                if script.len() == 0 {
                    final(self)@ == (ContextView { error: ""@, ..old(self)@ })
                } else {
                    exists|v: Values, end: RunEnd| #[trigger]
                        crate::script_host::may_end(crate::script_host::limits_of(*engine), script, before, v, end) && final(self)@ == (match end {
                            RunEnd::Failed { error } => ContextView { error, ..old(self)@ },
                            _ => ContextView { error: ""@, ..context_taken(old(self)@, v) },
                        })
                }
            }),
    {
        self.error = "".to_owned();
        let script: &str = trim(Strip::Space, script_text);
        if script.is_empty() {
            return;
        }
        let mut scope = self.context_scope(snap.last_mid, snap.last_vol, mode, ticker);
        let ghost before = crate::script_host::scope_values(scope);
        let end = eval_value(engine, &mut scope, script);
        assert(crate::script_host::may_end(
            crate::script_host::limits_of(*engine),
            script@,
            before,
            crate::script_host::scope_values(scope),
            crate::script_host::value_end(end),
        ));
        match end {
            Ok(_result) => {
                self.apply_context(&scope);
            },
            Err(e) => {
                self.error = e;
            },
        }
    }
}

// ---------------------------------------------------------------------------
// The wall window: scripts read the walls of the book

/// How many levels are searched for walls.
pub const WALL_LEVELS: usize = 25;

/// The context that a script of the wall window reads.
pub open spec fn wall_context(b: BubbleInfo, last_mid: Amount, last_vol: Amount, mode: Seq<char>, ticker: Seq<char>) -> Values {
    crate::script_host::no_values()
        .insert("mode"@, ScriptValue::Text(mode))
        .insert("ticker"@, ScriptValue::Text(ticker))
        .insert("mid"@, crate::script_host::amount_value(last_mid))
        .insert("last_vol"@, crate::script_host::amount_value(last_vol))
        .insert("best_bid"@, crate::script_host::amount_value(b.best_bid))
        .insert("best_ask"@, crate::script_host::amount_value(b.best_ask))
        .insert("bid_wall_price"@, crate::script_host::amount_value(b.bid_wall.price))
        .insert("bid_wall_size"@, crate::script_host::amount_value(b.bid_wall.size))
        .insert("bid_wall_score"@, crate::script_host::amount_value(b.bid_wall.score))
        .insert("ask_wall_price"@, crate::script_host::amount_value(b.ask_wall.price))
        .insert("ask_wall_size"@, crate::script_host::amount_value(b.ask_wall.size))
        .insert("ask_wall_score"@, crate::script_host::amount_value(b.ask_wall.score))
}

/// The variables that a script of the wall window is given.
pub open spec fn wall_inputs(
    k: Knobs,
    ctx: Values,
    bot_signal: Seq<char>,
    bot_size: Amount,
    bot_comment: Seq<char>,
) -> Values {
    crate::script_host::no_values()
        .insert("ctx"@, ScriptValue::Object(ctx))
        .insert("auto_y"@, ScriptValue::Flag(k.chart.auto_y))
        .insert("show_depth"@, ScriptValue::Flag(k.layout.show_depth))
        .insert("show_ladders"@, ScriptValue::Flag(k.layout.show_ladders))
        .insert("show_trades"@, ScriptValue::Flag(k.layout.show_trades))
        .insert("show_volume"@, ScriptValue::Flag(k.layout.show_volume))
        .insert("reload_secs"@, crate::script_host::amount_value(k.reload_secs))
        .insert("bot_signal"@, ScriptValue::Text(bot_signal))
        .insert("bot_size"@, crate::script_host::amount_value(bot_size))
        .insert("bot_comment"@, ScriptValue::Text(bot_comment))
}

/// The knobs after a script of the wall window: the reload interval between half a second
/// and a minute.
pub open spec fn wall_knobs(k: Knobs, v: Values) -> Knobs {
    Knobs {
        chart: ChartSettings { auto_y: flag_or(v, "auto_y"@, k.chart.auto_y), ..k.chart },
        layout: panels_after(k.layout, v),
        reload_secs: match crate::script_host::amount_in(v, "reload_secs"@) {
            Some(a) => crate::amount::clamp_amount(a, 50_000_000, 6_000_000_000),
            None => k.reload_secs,
        },
    }
}

/// The wall window after a script.
pub open spec fn walls_taken(w: ContextView, v: Values) -> ContextView {
    ContextView { knobs: wall_knobs(w.knobs, v), ..bot_taken(w, v) }
}

fn wall_object(b: &BubbleInfo, last_mid: Amount, last_vol: Amount, mode: &str, ticker: &str) -> (r: ObjectMap)
    ensures
        crate::script_host::object_values(r) == wall_context(*b, last_mid, last_vol, mode@, ticker@),
{
    let mut ctx = new_object();
    put_text(&mut ctx, "mode", mode);
    put_text(&mut ctx, "ticker", ticker);
    put_amount(&mut ctx, "mid", last_mid);
    put_amount(&mut ctx, "last_vol", last_vol);
    put_amount(&mut ctx, "best_bid", b.best_bid);
    put_amount(&mut ctx, "best_ask", b.best_ask);
    put_amount(&mut ctx, "bid_wall_price", b.bid_wall.price);
    put_amount(&mut ctx, "bid_wall_size", b.bid_wall.size);
    put_amount(&mut ctx, "bid_wall_score", b.bid_wall.score);
    put_amount(&mut ctx, "ask_wall_price", b.ask_wall.price);
    put_amount(&mut ctx, "ask_wall_size", b.ask_wall.size);
    put_amount(&mut ctx, "ask_wall_score", b.ask_wall.score);
    ctx
}

impl ContextWindow {
    /// A scope with the variables of the wall window.
    pub fn wall_scope(&self, b: &BubbleInfo, last_mid: Amount, last_vol: Amount, mode: &str, ticker: &str) -> (r:
        rhai::Scope<'static>)
        ensures
            crate::script_host::scope_values(r) == wall_inputs(
                self.knobs,
                wall_context(*b, last_mid, last_vol, mode@, ticker@),
                self.bot_signal@,
                self.bot_size,
                self.bot_comment@,
            ),
    {
        let k = &self.knobs;
        let mut scope = new_scope();
        set_object(&mut scope, "ctx", wall_object(b, last_mid, last_vol, mode, ticker));
        set_flag(&mut scope, "auto_y", k.chart.auto_y);
        set_flag(&mut scope, "show_depth", k.layout.show_depth);
        set_flag(&mut scope, "show_ladders", k.layout.show_ladders);
        set_flag(&mut scope, "show_trades", k.layout.show_trades);
        set_flag(&mut scope, "show_volume", k.layout.show_volume);
        set_amount(&mut scope, "reload_secs", k.reload_secs);
        set_text(&mut scope, "bot_signal", self.bot_signal.as_str());
        set_amount(&mut scope, "bot_size", self.bot_size);
        set_text(&mut scope, "bot_comment", self.bot_comment.as_str());
        scope
    }

    /// Takes over what a script of the wall window left behind.
    pub fn apply_walls(&mut self, scope: &rhai::Scope<'static>)
        ensures
            final(self)@ == walls_taken(old(self)@, crate::script_host::scope_values(*scope)),
    {
        self.knobs.chart.auto_y = flag_from(scope, "auto_y", self.knobs.chart.auto_y);
        self.knobs.layout = panels_from(scope, &self.knobs.layout);
        if let Some(a) = get_amount(scope, "reload_secs") {
            self.knobs.reload_secs = clamp_units(a, 50_000_000, 6_000_000_000);
        }
        self.take_bot(scope);
    }

    /// Runs a script of the wall window on a book. A failed script changes nothing but the
    /// error.
    pub fn run_script_for_snap(
        &mut self,
        engine: &rhai::Engine,
        script: &str,
        bids: &Side,
        asks: &Side,
        last_mid: Amount,
        last_vol: Amount,
        mode: &str,
        ticker: &str,
    )
        requires
            crate::script_host::tame(crate::script_host::limits_of(*engine)),
            bids.wf(),
            asks.wf(),
        ensures
            ({
                let before = wall_inputs(
                    old(self).knobs,
                    wall_context(
                        crate::metrics::bubble_info(bids@, asks@, WALL_LEVELS as nat),
                        last_mid,
                        last_vol,
                        mode@,
                        ticker@,
                    ),
                    old(self).bot_signal@,
                    old(self).bot_size,
                    old(self).bot_comment@,
                );
                exists|v: Values, end: RunEnd| #[trigger]
                    crate::script_host::may_end(crate::script_host::limits_of(*engine), script@, before, v, end) && final(self)@ == (match end {
                        RunEnd::Failed { error } => ContextView { error, ..old(self)@ },
                        _ => ContextView { error: ""@, ..walls_taken(old(self)@, v) },
                    })
            }),
    {
        let b: BubbleInfo = compute_bubbles(bids, asks, WALL_LEVELS);
        let mut scope = self.wall_scope(&b, last_mid, last_vol, mode, ticker);
        let ghost before = crate::script_host::scope_values(scope);
        let end = eval_unit(engine, &mut scope, script);
        assert(crate::script_host::may_end(
            crate::script_host::limits_of(*engine),
            script@,
            before,
            crate::script_host::scope_values(scope),
            crate::script_host::unit_end(end),
        ));
        match end {
            Ok(()) => {
                self.error = "".to_owned();
                self.apply_walls(&scope);
            },
            Err(e) => {
                self.error = e;
            },
        }
    }
}

// ---------------------------------------------------------------------------
// The grid window: scripts may return an object

/// The state of the grid window.
#[derive(Debug)]
pub struct GridWindow {
    pub chart: ChartSettings,
    pub bot_signal: Option<String>,
    pub bot_size: Amount,
    pub bot_comment: String,
    pub error: Option<String>,
    pub info: String,
}

pub ghost struct GridView {
    pub chart: ChartSettings,
    pub bot_signal: Option<Seq<char>>,
    pub bot_size: Amount,
    pub bot_comment: Seq<char>,
    pub error: Option<Seq<char>>,
    pub info: Seq<char>,
}

impl View for GridWindow {
    type V = GridView;

    open spec fn view(&self) -> GridView {
        GridView {
            chart: self.chart,
            bot_signal: crate::script_host::text_view(self.bot_signal),
            bot_size: self.bot_size,
            bot_comment: self.bot_comment@,
            error: crate::script_host::text_view(self.error),
            info: self.info@,
        }
    }
}

/// The grid window after a script returned an object.
pub open spec fn grid_taken(w: GridView, v: Values) -> GridView {
    GridView {
        chart: grid_chart(w.chart, v),
        bot_signal: grid_signal(v),
        bot_size: amount_or(v, "size"@, 0),
        bot_comment: text_or(v, "comment"@, ""@),
        ..w
    }
}

/// The grid window after a script: an object is taken over, another result only noted, an
/// error kept.
pub open spec fn grid_after(w: GridView, end: RunEnd) -> GridView {
    match end {
        RunEnd::Object { values, texts, keys } => GridView {
            error: None,
            info: concat(seq!["Script OK, map keys: "@, keys]),
            ..grid_taken(w, values)
        },
        RunEnd::Plain => GridView {
            error: None,
            info: "Script ran but did not return a map; no changes applied"@,
            ..w
        },
        RunEnd::Failed { error } => GridView { error: Some(error), ..w },
    }
}

/// The chart after a script of the grid window: a period that is not above zero is one
/// minute, the history is between 20 and 2000 candles, and a price range that the script
/// sets is kept.
pub open spec fn grid_chart(c: ChartSettings, v: Values) -> ChartSettings {
    let ymin = crate::script_host::amount_in(v, "y_min"@);
    let ymax = crate::script_host::amount_in(v, "y_max"@);
    ChartSettings {
        tf_secs: match crate::script_host::int_in(v, "tf"@) {
            Some(tf) => if tf <= 0 {
                60
            } else {
                tf as u64
            },
            None => if c.tf_secs == 0 {
                60
            } else {
                c.tf_secs
            },
        },
        show_candles: match crate::script_host::int_in(v, "history"@) {
            Some(h) => clamp_int(h, 20, 2_000) as usize,
            None => c.show_candles,
        },
        auto_y: if ymin is Some || ymax is Some {
            false
        } else {
            flag_or(v, "auto_y"@, c.auto_y)
        },
        y_min: match ymin {
            Some(a) => a,
            None => c.y_min,
        },
        y_max: match ymax {
            Some(a) => a,
            None => c.y_max,
        },
        ..c
    }
}

/// The signal of an object: none where it is missing, empty or `none`.
pub open spec fn grid_signal(v: Values) -> Option<Seq<char>> {
    match crate::script_host::text_in(v, "signal"@) {
        Some(s) => if s.len() == 0 || s == "none"@ {
            None
        } else {
            Some(s)
        },
        None => None,
    }
}

/// The variables of the grid window.
pub open spec fn grid_inputs(mid: Amount, best_bid: Amount, best_ask: Amount, tf: u64, history: usize) -> Values {
    crate::script_host::no_values()
        .insert("mid"@, crate::script_host::amount_value(mid))
        .insert("best_bid"@, crate::script_host::amount_value(best_bid))
        .insert("best_ask"@, crate::script_host::amount_value(best_ask))
        .insert("tf"@, ScriptValue::Int(crate::session::script_int(tf)))
        .insert("history"@, ScriptValue::Int(crate::session::script_int(history as u64)))
}

/// The best prices and their middle where both sides are there, else zeros.
pub open spec fn two_sided(bids: crate::book::Sizes, asks: crate::book::Sizes) -> (int, int, int) {
    if bids.is_empty() || asks.is_empty() {
        (0, 0, 0)
    } else {
        let bb = crate::metrics::best_price(bids, true);
        let ba = crate::metrics::best_price(asks, false);
        ((bb + ba) / 2, bb, ba)
    }
}

/// The best prices and their middle where both sides are there, else zeros.
pub fn two_sided_prices(bids: &Side, asks: &Side) -> (r: (Amount, Amount, Amount))
    requires
        bids.wf(),
        asks.wf(),
    ensures
        r.0 == two_sided(bids@, asks@).0,
        r.1 == two_sided(bids@, asks@).1,
        r.2 == two_sided(bids@, asks@).2,
{
    match (bids.highest(), asks.lowest()) {
        (Some(b), Some(a)) => {
            let bb: Amount = crate::amount::key_to_price(b.key);
            let ba: Amount = crate::amount::key_to_price(a.key);
            let sum: Amount = bb + ba;
            let mid: Amount = (b.key as i128 + a.key as i128) * 5_000;
            assert(mid == sum / 2);
            (mid, bb, ba)
        },
        _ => (0, 0, 0),
    }
}

impl GridWindow {
    /// Takes over the object that a script returned.
    pub fn apply_script_map(&mut self, m: &ObjectMap)
        ensures
            final(self)@ == grid_taken(old(self)@, crate::script_host::object_values(*m)),
    {
        if let Some(tf) = map_get_int(m, "tf") {
            self.chart.tf_secs = if tf <= 0 {
                0
            } else {
                tf as u64
            };
        }
        if self.chart.tf_secs == 0 {
            self.chart.tf_secs = 60;
        }
        if let Some(h) = map_get_int(m, "history") {
            self.chart.show_candles = clamp_i64(h, 20, 2_000) as usize;
        }
        if let Some(b) = map_get_bool(m, "auto_y") {
            self.chart.auto_y = b;
        }
        if let Some(a) = map_get_amount(m, "y_min") {
            self.chart.y_min = a;
            self.chart.auto_y = false;
        }
        if let Some(a) = map_get_amount(m, "y_max") {
            self.chart.y_max = a;
            self.chart.auto_y = false;
        }
        self.bot_signal = None;
        self.bot_size = 0;
        self.bot_comment = "".to_owned();
        if let Some(s) = map_get_text(m, "signal") {
            if !s.as_str().is_empty() && !same_text(s.as_str(), "none") {
                self.bot_signal = Some(s);
            }
        }
        if let Some(a) = map_get_amount(m, "size") {
            self.bot_size = a;
        }
        if let Some(c) = map_get_text(m, "comment") {
            self.bot_comment = c;
        }
    }

    /// A scope with the variables of the grid window.
    pub fn grid_scope(&self, mid: Amount, best_bid: Amount, best_ask: Amount) -> (r: rhai::Scope<'static>)
        ensures
            crate::script_host::scope_values(r) == grid_inputs(
                mid,
                best_bid,
                best_ask,
                self.chart.tf_secs,
                self.chart.show_candles,
            ),
    {
        let mut scope = new_scope();
        set_amount(&mut scope, "mid", mid);
        set_amount(&mut scope, "best_bid", best_bid);
        set_amount(&mut scope, "best_ask", best_ask);
        set_int(&mut scope, "tf", saturated(self.chart.tf_secs));
        set_int(&mut scope, "history", saturated(self.chart.show_candles as u64));
        scope
    }

    /// What becomes of the window once its script ran.
    pub fn finish_script(&mut self, result: Result<Option<ObjectMap>, String>)
        ensures
            final(self)@ == grid_after(old(self)@, crate::script_host::value_end(result)),
    {
        match result {
            Ok(Some(m)) => {
                self.error = None;
                self.apply_script_map(&m);
                let keys: String = object_keys(&m);
                let parts: Vec<&str> = vec!["Script OK, map keys: ", keys.as_str()];
                assert(views(parts@) =~= seq!["Script OK, map keys: "@, keys@]);
                self.info = cat(&parts);
            },
            Ok(None) => {
                self.error = None;
                self.info = "Script ran but did not return a map; no changes applied".to_owned();
            },
            Err(e) => {
                self.error = Some(e);
            },
        }
    }

    /// Runs a script of the grid window on a snapshot; without one there is only an error.
    pub fn run_script_engine(&mut self, engine: &rhai::Engine, script: &str, snap: Option<&MultiSnapshot>)
        requires
            crate::script_host::tame(crate::script_host::limits_of(*engine)),
            snap matches Some(s) ==> s.bids.wf() && s.asks.wf(),
        ensures
            match snap {
                None => final(self)@ == (GridView {
                    error: Some("No snapshot for script"@),
                    ..old(self)@
                }),
                Some(s) => {
                    let prices = two_sided(s.bids@, s.asks@);
                    let before = grid_inputs(
                        prices.0 as Amount,
                        prices.1 as Amount,
                        prices.2 as Amount,
                        old(self).chart.tf_secs,
                        old(self).chart.show_candles,
                    );
                    exists|v: Values, end: RunEnd| #[trigger]
                        crate::script_host::may_end(crate::script_host::limits_of(*engine), script@, before, v, end) && final(self)@ == grid_after(
                            old(self)@,
                            end,
                        )
                },
            },
    {
        match snap {
            Some(s) => {
                let (mid, best_bid, best_ask) = two_sided_prices(&s.bids, &s.asks);
                let mut scope = self.grid_scope(mid, best_bid, best_ask);
                let ghost before = crate::script_host::scope_values(scope);
                let result = eval_value(engine, &mut scope, script);
                assert(crate::script_host::may_end(
                    crate::script_host::limits_of(*engine),
                    script@,
                    before,
                    crate::script_host::scope_values(scope),
                    crate::script_host::value_end(result),
                ));
                self.finish_script(result);
                assert(mid == two_sided(s.bids@, s.asks@).0 as Amount);
                assert(best_bid == two_sided(s.bids@, s.asks@).1 as Amount);
                assert(best_ask == two_sided(s.bids@, s.asks@).2 as Amount);
            },
            None => {
                self.error = Some("No snapshot for script".to_owned());
            },
        }
    }
}

// ---------------------------------------------------------------------------
// Laws

/// Whatever a script sets, candles keep a period above zero.
pub proof fn law_scripts_keep_a_period(k: Knobs, v: Values)
    requires
        k.chart.tf_secs > 0,
    ensures
        window_knobs(k, v).chart.tf_secs > 0,
        object_knobs(k, v).chart.tf_secs > 0,
        context_knobs(k, v).chart.tf_secs > 0,
        wall_knobs(k, v).chart.tf_secs > 0,
        grid_chart(k.chart, v).tf_secs > 0,
{
}

/// A script that sets nothing changes nothing.
pub proof fn law_silent_scripts_change_nothing(k: Knobs, theme: UiTheme)
    requires
        k.chart.tf_secs > 0,
    ensures
        window_knobs(k, crate::script_host::no_values()) == k,
        window_theme(theme, crate::script_host::no_values()) == theme,
        object_knobs(k, crate::script_host::no_values()) == k,
        context_knobs(k, crate::script_host::no_values()) == k,
        wall_knobs(k, crate::script_host::no_values()) == k,
        grid_chart(k.chart, crate::script_host::no_values()) == k.chart,
{
}

/// Whatever a script sets, the reload interval of the script window stays between a tenth
/// of a second and a minute, once it is.
pub proof fn law_reload_interval_is_bounded(k: Knobs, v: Values)
    requires
        10_000_000 <= k.reload_secs <= 6_000_000_000,
    ensures
        10_000_000 <= window_knobs(k, v).reload_secs <= 6_000_000_000,
{
}

/// The names of the variables are all different.
proof fn lemma_names()
    ensures
        "tf"@.len() == 2,
        "bid"@.len() == 3 && "bid"@[0] == 'b',
        "ask"@.len() == 3 && "ask"@[0] == 'a',
        "mid"@.len() == 3 && "mid"@[0] == 'm',
        "ctx"@.len() == 3 && "ctx"@[0] == 'c',
        "mode"@.len() == 4,
        "y_min"@.len() == 5 && "y_min"@[3] == 'i',
        "y_max"@.len() == 5 && "y_max"@[3] == 'a',
        "theme"@.len() == 5 && "theme"@[3] == 'm',
        "auto_y"@.len() == 6 && "auto_y"@[2] == 't',
        "ticker"@.len() == 6 && "ticker"@[2] == 'c',
        "now_ts"@.len() == 6 && "now_ts"@[2] == 'w',
        "spread"@.len() == 6 && "spread"@[2] == 'r',
        "signal"@.len() == 6 && "signal"@[2] == 'g',
        "history"@.len() == 7,
        "last_low"@.len() == 8 && "last_low"@[5] == 'l',
        "last_vol"@.len() == 8 && "last_vol"@[5] == 'v',
        "bot_size"@.len() == 8 && "bot_size"@[5] == 'i',
        "best_bid"@.len() == 8 && "best_bid"@[5] == 'b',
        "best_ask"@.len() == 8 && "best_ask"@[5] == 'a',
        "last_open"@.len() == 9 && "last_open"@[5] == 'o',
        "last_high"@.len() == 9 && "last_high"@[5] == 'h',
        "show_depth"@.len() == 10 && "show_depth"@[5] == 'd',
        "last_price"@.len() == 10 && "last_price"@[5] == 'p',
        "last_close"@.len() == 10 && "last_close"@[5] == 'c',
        "bot_signal"@.len() == 10 && "bot_signal"@[5] == 'i',
        "show_trades"@.len() == 11 && "show_trades"@[1] == 'h' && "show_trades"@[7] == 'a',
        "show_volume"@.len() == 11 && "show_volume"@[1] == 'h' && "show_volume"@[7] == 'l',
        "reload_secs"@.len() == 11 && "reload_secs"@[1] == 'e' && "reload_secs"@[7] == 's',
        "last_volume"@.len() == 11 && "last_volume"@[1] == 'a' && "last_volume"@[7] == 'l',
        "signal_kind"@.len() == 11 && "signal_kind"@[1] == 'i' && "signal_kind"@[7] == 'k',
        "signal_size"@.len() == 11 && "signal_size"@[1] == 'i' && "signal_size"@[7] == 's',
        "bot_comment"@.len() == 11 && "bot_comment"@[1] == 'o' && "bot_comment"@[7] == 'm',
        "show_ladders"@.len() == 12 && "show_ladders"@[1] == 'h',
        "signal_price"@.len() == 12 && "signal_price"@[1] == 'i',
        "bot_size_prev"@.len() == 13 && "bot_size_prev"@[1] == 'o',
        "bid_wall_size"@.len() == 13 && "bid_wall_size"@[1] == 'i',
        "ask_wall_size"@.len() == 13 && "ask_wall_size"@[1] == 's',
        "bid_wall_price"@.len() == 14 && "bid_wall_price"@[0] == 'b' && "bid_wall_price"@[9] == 'p',
        "bid_wall_score"@.len() == 14 && "bid_wall_score"@[0] == 'b' && "bid_wall_score"@[9] == 's',
        "ask_wall_price"@.len() == 14 && "ask_wall_price"@[0] == 'a' && "ask_wall_price"@[9] == 'p',
        "ask_wall_score"@.len() == 14 && "ask_wall_score"@[0] == 'a' && "ask_wall_score"@[9] == 's',
        "signal_leverage"@.len() == 15 && "signal_leverage"@[0] == 's',
        "bot_signal_prev"@.len() == 15 && "bot_signal_prev"@[0] == 'b',
{
    reveal_strlit("tf");
    reveal_strlit("history");
    reveal_strlit("auto_y");
    reveal_strlit("y_min");
    reveal_strlit("y_max");
    reveal_strlit("show_depth");
    reveal_strlit("show_ladders");
    reveal_strlit("show_trades");
    reveal_strlit("show_volume");
    reveal_strlit("reload_secs");
    reveal_strlit("theme");
    reveal_strlit("mode");
    reveal_strlit("ticker");
    reveal_strlit("now_ts");
    reveal_strlit("last_price");
    reveal_strlit("last_open");
    reveal_strlit("last_high");
    reveal_strlit("last_low");
    reveal_strlit("last_close");
    reveal_strlit("last_volume");
    reveal_strlit("bid");
    reveal_strlit("ask");
    reveal_strlit("mid");
    reveal_strlit("spread");
    reveal_strlit("signal");
    reveal_strlit("signal_kind");
    reveal_strlit("signal_size");
    reveal_strlit("signal_price");
    reveal_strlit("signal_leverage");
    reveal_strlit("bot_signal_prev");
    reveal_strlit("bot_size_prev");
    reveal_strlit("last_vol");
    reveal_strlit("ctx");
    reveal_strlit("bot_signal");
    reveal_strlit("bot_size");
    reveal_strlit("bot_comment");
    reveal_strlit("best_bid");
    reveal_strlit("best_ask");
    reveal_strlit("bid_wall_price");
    reveal_strlit("bid_wall_size");
    reveal_strlit("bid_wall_score");
    reveal_strlit("ask_wall_price");
    reveal_strlit("ask_wall_size");
    reveal_strlit("ask_wall_score");
}

/// A script of the script window finds under each name what the name says; what it kept under
/// other names, such as its signal, stays.
pub proof fn law_window_scripts_find_what_they_look_for(
    v: Values,
    k: Knobs,
    theme: UiTheme,
    mode: Mode,
    ticker: Seq<char>,
    now_ts: u64,
    m: MarketInputs,
)
    ensures
        ({
            let w = window_inputs(v, k, theme, mode, ticker, now_ts, m);
            &&& w["tf"@] == ScriptValue::Int(crate::session::script_int(k.chart.tf_secs))
            &&& w["history"@] == ScriptValue::Int(crate::session::script_int(k.chart.show_candles as u64))
            &&& w["auto_y"@] == ScriptValue::Flag(k.chart.auto_y)
            &&& w["y_min"@] == crate::script_host::amount_value(k.chart.y_min)
            &&& w["y_max"@] == crate::script_host::amount_value(k.chart.y_max)
            &&& w["show_depth"@] == ScriptValue::Flag(k.layout.show_depth)
            &&& w["show_ladders"@] == ScriptValue::Flag(k.layout.show_ladders)
            &&& w["show_trades"@] == ScriptValue::Flag(k.layout.show_trades)
            &&& w["show_volume"@] == ScriptValue::Flag(k.layout.show_volume)
            &&& w["reload_secs"@] == crate::script_host::amount_value(k.reload_secs)
            &&& w["theme"@] == ScriptValue::Text(theme.name_text())
            &&& w["mode"@] == ScriptValue::Text(mode.script_text())
            &&& w["ticker"@] == ScriptValue::Text(ticker)
            &&& w["now_ts"@] == ScriptValue::Int(crate::session::script_int(now_ts))
            &&& w["last_price"@] == crate::script_host::amount_value(m.close)
            &&& w["last_open"@] == crate::script_host::amount_value(m.open)
            &&& w["last_high"@] == crate::script_host::amount_value(m.high)
            &&& w["last_low"@] == crate::script_host::amount_value(m.low)
            &&& w["last_close"@] == crate::script_host::amount_value(m.close)
            &&& w["last_volume"@] == crate::script_host::amount_value(m.volume)
            &&& w["bid"@] == crate::script_host::amount_value(m.bid)
            &&& w["ask"@] == crate::script_host::amount_value(m.ask)
            &&& w["mid"@] == crate::script_host::amount_value(m.mid)
            &&& w["spread"@] == crate::script_host::amount_value(m.spread)
            &&& v.contains_key("signal"@) ==> w.contains_key("signal"@) && w["signal"@] == v["signal"@]
            &&& v.contains_key("signal_kind"@) ==> w.contains_key("signal_kind"@) && w["signal_kind"@] == v["signal_kind"@]
            &&& v.contains_key("signal_size"@) ==> w.contains_key("signal_size"@) && w["signal_size"@] == v["signal_size"@]
            &&& v.contains_key("signal_price"@) ==> w.contains_key("signal_price"@) && w["signal_price"@] == v["signal_price"@]
            &&& v.contains_key("signal_leverage"@) ==> w.contains_key("signal_leverage"@) && w["signal_leverage"@] == v["signal_leverage"@]
        }),
{
    lemma_names();
}

/// What a script of the script window asks for stands in five variables, each under its own
/// name.
pub proof fn law_requests_are_read_by_name(
    v: Values,
    signal: Seq<char>,
    kind: Seq<char>,
    size: Seq<char>,
    leverage: Seq<char>,
    price: Seq<char>,
)
    ensures
        request_in(
            v.insert("signal"@, ScriptValue::Text(signal)).insert("signal_kind"@, ScriptValue::Text(kind)).insert(
                "signal_size"@,
                ScriptValue::Number(size),
            ).insert("signal_leverage"@, ScriptValue::Number(leverage)).insert(
                "signal_price"@,
                ScriptValue::Number(price),
            ),
        ) == (crate::order_forms::RequestView {
            signal: Some(signal),
            kind: Some(kind),
            size: crate::amount::parsed_amount(size),
            leverage: crate::amount::parsed_amount(leverage),
            price: crate::amount::parsed_amount(price),
        }),
{
    lemma_names();
}

/// A script of the object window finds under each name what the name says.
pub proof fn law_object_scripts_find_what_they_look_for(
    last_close: Amount,
    last_volume: Amount,
    mid: Amount,
    mode: Mode,
    ticker: Seq<char>,
    bot_signal: Seq<char>,
    bot_size: Amount,
)
    ensures
        ({
            let w = object_inputs(last_close, last_volume, mid, mode, ticker, bot_signal, bot_size);
            &&& w["last_close"@] == crate::script_host::amount_value(last_close)
            &&& w["last_volume"@] == crate::script_host::amount_value(last_volume)
            &&& w["mid"@] == crate::script_host::amount_value(mid)
            &&& w["mode"@] == ScriptValue::Text(mode.script_text())
            &&& w["ticker"@] == ScriptValue::Text(ticker)
            &&& w["bot_signal_prev"@] == ScriptValue::Text(bot_signal)
            &&& w["bot_size_prev"@] == crate::script_host::amount_value(bot_size)
        }),
{
    lemma_names();
}

/// A script of the context window finds under each name what the name says, in its context and
/// beside it.
pub proof fn law_context_scripts_find_what_they_look_for(
    k: Knobs,
    last_mid: Amount,
    last_vol: Amount,
    mode: Mode,
    ticker: Seq<char>,
    ctx: Values,
    bot_signal: Seq<char>,
    bot_size: Amount,
    bot_comment: Seq<char>,
)
    ensures
        ({
            let c = context(k, last_mid, last_vol, mode, ticker);
            let w = context_inputs(k, ctx, bot_signal, bot_size, bot_comment);
            &&& c["tf"@] == ScriptValue::Int(crate::session::script_int(k.chart.tf_secs))
            &&& c["history"@] == ScriptValue::Int(crate::session::script_int(k.chart.show_candles as u64))
            &&& c["auto_y"@] == ScriptValue::Flag(k.chart.auto_y)
            &&& c["y_min"@] == crate::script_host::amount_value(k.chart.y_min)
            &&& c["y_max"@] == crate::script_host::amount_value(k.chart.y_max)
            &&& c["show_depth"@] == ScriptValue::Flag(k.layout.show_depth)
            &&& c["show_ladders"@] == ScriptValue::Flag(k.layout.show_ladders)
            &&& c["show_trades"@] == ScriptValue::Flag(k.layout.show_trades)
            &&& c["show_volume"@] == ScriptValue::Flag(k.layout.show_volume)
            &&& c["reload_secs"@] == crate::script_host::amount_value(k.reload_secs)
            &&& c["mid"@] == crate::script_host::amount_value(last_mid)
            &&& c["last_vol"@] == crate::script_host::amount_value(last_vol)
            &&& c["mode"@] == ScriptValue::Text(mode.script_text())
            &&& c["ticker"@] == ScriptValue::Text(ticker)
            &&& w["tf"@] == ScriptValue::Int(crate::session::script_int(k.chart.tf_secs))
            &&& w["history"@] == ScriptValue::Int(crate::session::script_int(k.chart.show_candles as u64))
            &&& w["auto_y"@] == ScriptValue::Flag(k.chart.auto_y)
            &&& w["y_min"@] == crate::script_host::amount_value(k.chart.y_min)
            &&& w["y_max"@] == crate::script_host::amount_value(k.chart.y_max)
            &&& w["show_depth"@] == ScriptValue::Flag(k.layout.show_depth)
            &&& w["show_ladders"@] == ScriptValue::Flag(k.layout.show_ladders)
            &&& w["show_trades"@] == ScriptValue::Flag(k.layout.show_trades)
            &&& w["show_volume"@] == ScriptValue::Flag(k.layout.show_volume)
            &&& w["reload_secs"@] == crate::script_host::amount_value(k.reload_secs)
            &&& w["ctx"@] == ScriptValue::Object(ctx)
            &&& w["bot_signal"@] == ScriptValue::Text(bot_signal)
            &&& w["bot_size"@] == crate::script_host::amount_value(bot_size)
            &&& w["bot_comment"@] == ScriptValue::Text(bot_comment)
        }),
{
    lemma_names();
}

/// A script of the wall window finds under each name what the name says, in its context and
/// beside it.
pub proof fn law_wall_scripts_find_what_they_look_for(
    k: Knobs,
    b: BubbleInfo,
    last_mid: Amount,
    last_vol: Amount,
    mode: Seq<char>,
    ticker: Seq<char>,
    ctx: Values,
    bot_signal: Seq<char>,
    bot_size: Amount,
    bot_comment: Seq<char>,
)
    ensures
        ({
            let c = wall_context(b, last_mid, last_vol, mode, ticker);
            let w = wall_inputs(k, ctx, bot_signal, bot_size, bot_comment);
            &&& c["mode"@] == ScriptValue::Text(mode)
            &&& c["ticker"@] == ScriptValue::Text(ticker)
            &&& c["mid"@] == crate::script_host::amount_value(last_mid)
            &&& c["last_vol"@] == crate::script_host::amount_value(last_vol)
            &&& c["best_bid"@] == crate::script_host::amount_value(b.best_bid)
            &&& c["best_ask"@] == crate::script_host::amount_value(b.best_ask)
            &&& c["bid_wall_price"@] == crate::script_host::amount_value(b.bid_wall.price)
            &&& c["bid_wall_size"@] == crate::script_host::amount_value(b.bid_wall.size)
            &&& c["bid_wall_score"@] == crate::script_host::amount_value(b.bid_wall.score)
            &&& c["ask_wall_price"@] == crate::script_host::amount_value(b.ask_wall.price)
            &&& c["ask_wall_size"@] == crate::script_host::amount_value(b.ask_wall.size)
            &&& c["ask_wall_score"@] == crate::script_host::amount_value(b.ask_wall.score)
            &&& w["ctx"@] == ScriptValue::Object(ctx)
            &&& w["auto_y"@] == ScriptValue::Flag(k.chart.auto_y)
            &&& w["show_depth"@] == ScriptValue::Flag(k.layout.show_depth)
            &&& w["show_ladders"@] == ScriptValue::Flag(k.layout.show_ladders)
            &&& w["show_trades"@] == ScriptValue::Flag(k.layout.show_trades)
            &&& w["show_volume"@] == ScriptValue::Flag(k.layout.show_volume)
            &&& w["reload_secs"@] == crate::script_host::amount_value(k.reload_secs)
            &&& w["bot_signal"@] == ScriptValue::Text(bot_signal)
            &&& w["bot_size"@] == crate::script_host::amount_value(bot_size)
            &&& w["bot_comment"@] == ScriptValue::Text(bot_comment)
        }),
{
    lemma_names();
}

/// A script of the grid window finds under each name what the name says.
pub proof fn law_grid_scripts_find_what_they_look_for(
    mid: Amount,
    best_bid: Amount,
    best_ask: Amount,
    tf: u64,
    history: usize,
)
    ensures
        ({
            let w = grid_inputs(mid, best_bid, best_ask, tf, history);
            &&& w["mid"@] == crate::script_host::amount_value(mid)
            &&& w["best_bid"@] == crate::script_host::amount_value(best_bid)
            &&& w["best_ask"@] == crate::script_host::amount_value(best_ask)
            &&& w["tf"@] == ScriptValue::Int(crate::session::script_int(tf))
            &&& w["history"@] == ScriptValue::Int(crate::session::script_int(history as u64))
        }),
{
    lemma_names();
}

/// Whether a script left a whole number under a name.
pub open spec fn left_int(v: Values, name: Seq<char>, n: i64) -> bool {
    v.contains_key(name) && v[name] == ScriptValue::Int(n)
}

/// Whether a script left a switch under a name.
pub open spec fn left_flag(v: Values, name: Seq<char>, on: bool) -> bool {
    v.contains_key(name) && v[name] == ScriptValue::Flag(on)
}

/// Whether a script left a number under a name.
pub open spec fn left_amount(v: Values, name: Seq<char>, a: Amount) -> bool {
    v.contains_key(name) && (v[name] matches ScriptValue::Number(t) && crate::amount::parsed_amount(t) == Some(a))
}

/// A period and a history that a script sets are taken as they are where they lie within the
/// bounds of the window.
pub proof fn law_scripts_set_period_and_history(k: Knobs, v: Values, tf: i64, h: i64)
    requires
        left_int(v, "tf"@, tf),
        left_int(v, "history"@, h),
    ensures
        1 <= tf <= 86_400 ==> window_knobs(k, v).chart.tf_secs == tf,
        tf < 1 ==> window_knobs(k, v).chart.tf_secs == 1,
        tf > 86_400 ==> window_knobs(k, v).chart.tf_secs == 86_400,
        10 <= h <= 2_000 ==> window_knobs(k, v).chart.show_candles == h,
        h < 10 ==> window_knobs(k, v).chart.show_candles == 10,
        h > 2_000 ==> window_knobs(k, v).chart.show_candles == 2_000,
        tf == 30 || tf == 60 || tf == 180 || tf == 300 ==> object_knobs(k, v).chart.tf_secs == tf,
        tf > 300 ==> object_knobs(k, v).chart.tf_secs == 300,
        tf < 30 ==> object_knobs(k, v).chart.tf_secs == 30,
        10 <= h <= 4_000_000_000 ==> object_knobs(k, v).chart.show_candles == h,
        h < 10 ==> object_knobs(k, v).chart.show_candles == 10,
        tf > 0 ==> context_knobs(k, v).chart.tf_secs == tf && grid_chart(k.chart, v).tf_secs == tf,
        tf <= 0 ==> context_knobs(k, v).chart.tf_secs == k.chart.tf_secs && grid_chart(k.chart, v).tf_secs == 60,
        10 <= h <= 5_000 ==> context_knobs(k, v).chart.show_candles == h,
        h < 10 || h > 5_000 ==> context_knobs(k, v).chart.show_candles == k.chart.show_candles,
        20 <= h <= 2_000 ==> grid_chart(k.chart, v).show_candles == h,
        h < 20 ==> grid_chart(k.chart, v).show_candles == 20,
        h > 2_000 ==> grid_chart(k.chart, v).show_candles == 2_000,
{
}

/// The switches of the panels and of the automatic range are taken as a script sets them.
pub proof fn law_scripts_set_switches(k: Knobs, v: Values, y: bool, d: bool, l: bool, t: bool, o: bool)
    requires
        left_flag(v, "auto_y"@, y),
        left_flag(v, "show_depth"@, d),
        left_flag(v, "show_ladders"@, l),
        left_flag(v, "show_trades"@, t),
        left_flag(v, "show_volume"@, o),
    ensures
        ({
            let panels = LayoutSettings { show_depth: d, show_ladders: l, show_trades: t, show_volume: o };
            &&& window_knobs(k, v).layout == panels && window_knobs(k, v).chart.auto_y == y
            &&& object_knobs(k, v).layout == panels && object_knobs(k, v).chart.auto_y == y
            &&& context_knobs(k, v).layout == panels && context_knobs(k, v).chart.auto_y == y
            &&& wall_knobs(k, v).layout == panels && wall_knobs(k, v).chart.auto_y == y
        }),
{
}

/// The range of prices and the reload interval are taken as a script sets them, the interval
/// within the bounds of the window. A range that a script of the grid window sets is not
/// automatic.
pub proof fn law_scripts_set_range_and_interval(k: Knobs, v: Values, lo: Amount, hi: Amount, secs: Amount)
    requires
        left_amount(v, "y_min"@, lo),
        left_amount(v, "y_max"@, hi),
        left_amount(v, "reload_secs"@, secs),
    ensures
        window_knobs(k, v).chart.y_min == lo && window_knobs(k, v).chart.y_max == hi,
        object_knobs(k, v).chart.y_min == lo && object_knobs(k, v).chart.y_max == hi,
        context_knobs(k, v).chart.y_min == lo && context_knobs(k, v).chart.y_max == hi,
        grid_chart(k.chart, v).y_min == lo && grid_chart(k.chart, v).y_max == hi && !grid_chart(k.chart, v).auto_y,
        10_000_000 <= secs <= 6_000_000_000 ==> window_knobs(k, v).reload_secs == secs,
        secs < 10_000_000 ==> window_knobs(k, v).reload_secs == 10_000_000,
        secs > 6_000_000_000 ==> window_knobs(k, v).reload_secs == 6_000_000_000,
        100_000_000 <= secs <= 30_000_000_000 ==> object_knobs(k, v).reload_secs == secs,
        secs < 100_000_000 ==> object_knobs(k, v).reload_secs == 100_000_000,
        secs > 30_000_000_000 ==> object_knobs(k, v).reload_secs == 30_000_000_000,
        100_000_000 <= secs <= 60_000_000_000 ==> context_knobs(k, v).reload_secs == secs,
        secs < 100_000_000 || secs > 60_000_000_000 ==> context_knobs(k, v).reload_secs == k.reload_secs,
        50_000_000 <= secs <= 6_000_000_000 ==> wall_knobs(k, v).reload_secs == secs,
        secs < 50_000_000 ==> wall_knobs(k, v).reload_secs == 50_000_000,
        secs > 6_000_000_000 ==> wall_knobs(k, v).reload_secs == 6_000_000_000,
{
}

/// What no window lets a script set stays as it was.
pub proof fn law_scripts_leave_the_rest(k: Knobs, v: Values)
    ensures
        window_knobs(k, v).chart.x_zoom == k.chart.x_zoom && window_knobs(k, v).chart.x_pan_secs == k.chart.x_pan_secs,
        object_knobs(k, v).chart.x_zoom == k.chart.x_zoom && object_knobs(k, v).chart.x_pan_secs == k.chart.x_pan_secs,
        context_knobs(k, v).chart.x_zoom == k.chart.x_zoom && context_knobs(k, v).chart.x_pan_secs
            == k.chart.x_pan_secs,
        grid_chart(k.chart, v).x_zoom == k.chart.x_zoom && grid_chart(k.chart, v).x_pan_secs == k.chart.x_pan_secs,
        wall_knobs(k, v).chart == (ChartSettings { auto_y: wall_knobs(k, v).chart.auto_y, ..k.chart }),
{
}

/// The bots of the context and the wall window take the signal, the size and the comment that
/// their script left; a size below zero becomes zero.
pub proof fn law_window_bots_follow_their_script(w: ContextView, v: Values, s: Seq<char>, c: Seq<char>, a: Amount)
    requires
        v.contains_key("bot_signal"@) && v["bot_signal"@] == ScriptValue::Text(s),
        v.contains_key("bot_comment"@) && v["bot_comment"@] == ScriptValue::Text(c),
        left_amount(v, "bot_size"@, a),
    ensures
        context_taken(w, v).bot_signal == s && walls_taken(w, v).bot_signal == s,
        context_taken(w, v).bot_comment == c && walls_taken(w, v).bot_comment == c,
        a >= 0 ==> context_taken(w, v).bot_size == a && walls_taken(w, v).bot_size == a,
        a < 0 ==> context_taken(w, v).bot_size == 0 && walls_taken(w, v).bot_size == 0,
        context_taken(w, v).knobs == context_knobs(w.knobs, v) && walls_taken(w, v).knobs == wall_knobs(w.knobs, v),
{
}

/// The grid window takes the signal, the size and the comment of the object that its script
/// returned; `none` is no signal. A script that fails or returns something else changes no
/// setting.
pub proof fn law_the_grid_follows_its_script(
    w: GridView,
    v: Values,
    texts: Map<Seq<char>, Seq<char>>,
    keys: Seq<char>,
    s: Seq<char>,
    c: Seq<char>,
    a: Amount,
    error: Seq<char>,
)
    requires
        v.contains_key("signal"@) && v["signal"@] == ScriptValue::Text(s),
        v.contains_key("comment"@) && v["comment"@] == ScriptValue::Text(c),
        left_amount(v, "size"@, a),
    ensures
        ({
            let r = grid_after(w, RunEnd::Object { values: v, texts, keys });
            &&& r.bot_signal == (if s == "none"@ || s.len() == 0 {
                None
            } else {
                Some(s)
            })
            &&& r.bot_size == a
            &&& r.bot_comment == c
            &&& r.chart == grid_chart(w.chart, v)
            &&& r.error is None
        }),
        grid_after(w, RunEnd::Failed { error }) == (GridView { error: Some(error), ..w }),
        grid_after(w, RunEnd::Plain).chart == w.chart && grid_after(w, RunEnd::Plain).bot_signal == w.bot_signal
            && grid_after(w, RunEnd::Plain).bot_size == w.bot_size && grid_after(w, RunEnd::Plain).error is None,
{
}

/// What scripts see of a market is its newest candle and its best prices; the middle is halfway
/// between them, and the spread their distance, where both are above zero.
pub proof fn law_scripts_see_the_newest_candle(
    series: Seq<Candle>,
    bids: crate::book::Sizes,
    asks: crate::book::Sizes,
    last_mid: Amount,
    b: crate::amount::PriceKey,
    a: crate::amount::PriceKey,
)
    requires
        bids.contains_key(b),
        forall|k: crate::amount::PriceKey| #[trigger] bids.contains_key(k) ==> k <= b,
        asks.contains_key(a),
        forall|k: crate::amount::PriceKey| #[trigger] asks.contains_key(k) ==> a <= k,
        series.len() > 0,
    ensures
        ({
            let m = market_inputs(series, bids, asks, last_mid);
            let c = series[series.len() - 1];
            &&& m.open == c.open && m.high == c.high && m.low == c.low && m.close == c.close && m.volume == c.volume
            &&& m.bid == b * 10_000 && m.ask == a * 10_000
            &&& b > 0 && a > 0 ==> m.mid == (a + b) * 5_000 && m.spread == (a - b) * 10_000
            &&& b <= 0 || a <= 0 ==> m.spread == 0 && (last_mid > 0 ==> m.mid == last_mid)
        }),
        two_sided(bids, asks) == ((a + b) * 5_000, b * 10_000, a * 10_000),
{
    crate::metrics::law_best_prices_are_the_extremes(bids, asks, b, a);
    crate::book::lemma_extremes(bids, b);
    crate::book::lemma_extremes(asks, a);
}

} // verus!
