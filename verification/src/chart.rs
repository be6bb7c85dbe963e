//! The candle chart: which candles are visible, the ranges of both axes, zooming and
//! panning, and the shape of each candle.

use crate::amount::{mul_amounts, sat_add, sat_mul, sat_sub, Amount, ONE};
use crate::candle_agg::Candle;
use crate::metrics::ratio;
use vstd::prelude::*;

verus! {

/// The settings of the chart. Zoom, pan and the range of prices are amounts.
#[derive(Clone, Copy, Debug, PartialEq, Eq, Structural)]
pub struct ChartSettings {
    /// How many candles are visible.
    pub show_candles: usize,
    /// Whether the range of prices follows the visible candles.
    pub auto_y: bool,
    pub y_min: Amount,
    pub y_max: Amount,
    pub x_zoom: Amount,
    pub x_pan_secs: Amount,
    pub tf_secs: u64,
}

/// The range of an axis.
#[derive(Clone, Copy, Debug, PartialEq, Eq, Structural)]
pub struct AxisRange {
    pub min: Amount,
    pub max: Amount,
}

/// The shape of a candle: its body between `left` and `right`, `bottom` and `top`, and its
/// wick at `middle` between `low` and `high`.
#[derive(Clone, Copy, Debug, PartialEq, Eq, Structural)]
pub struct CandleShape {
    pub left: Amount,
    pub right: Amount,
    pub middle: Amount,
    pub bottom: Amount,
    pub top: Amount,
    pub low: Amount,
    pub high: Amount,
    pub rising: bool,
}

/// The smallest span that an automatic range of prices covers: one thousandth.
pub const MIN_SPAN: Amount = 100_000;

/// The smallest zoom, and the smallest span that a zoom leaves: one millionth.
pub const TINY: Amount = 100;

/// The zoom of one unit of scrolling is a factor of one plus two thousandths; factors are
/// counted in millionths.
pub const FACTOR_ONE: i128 = 1_000_000;

pub const FACTOR_MIN: i128 = 200_000;

pub const FACTOR_MAX: i128 = 5_000_000;

/// How many candles are visible: at least one, at most those that there are.
pub open spec fn window_len(len: nat, show: nat) -> nat {
    if len < show {
        if len < 1 {
            1
        } else {
            len
        }
    } else if show < 1 {
        1
    } else {
        show
    }
}

/// The visible candles: the newest ones.
pub open spec fn visible(s: Seq<Candle>, show: nat) -> Seq<Candle> {
    crate::window::newest(s, window_len(s.len(), show))
}

/// The lowest price of the candles.
pub open spec fn lowest(s: Seq<Candle>) -> Amount
    decreases s.len(),
{
    if s.len() <= 1 {
        s[0].low
    } else {
        let l = lowest(s.drop_last());
        if s.last().low < l {
            s.last().low
        } else {
            l
        }
    }
}

/// The highest price of the candles.
pub open spec fn highest(s: Seq<Candle>) -> Amount
    decreases s.len(),
{
    if s.len() <= 1 {
        s[0].high
    } else {
        let h = highest(s.drop_last());
        if s.last().high > h {
            s.last().high
        } else {
            h
        }
    }
}

/// The largest volume of the candles, but nothing below zero.
pub open spec fn top_volume(s: Seq<Candle>) -> Amount
    decreases s.len(),
{
    if s.len() == 0 {
        0
    } else {
        let v = top_volume(s.drop_last());
        if s.last().volume > v {
            s.last().volume
        } else {
            v
        }
    }
}

pub open spec fn at_least(a: int, b: int) -> int {
    if a < b {
        b
    } else {
        a
    }
}

/// The range of prices that shows the candles with a margin of a twentieth on both sides.
pub open spec fn fitted(s: Seq<Candle>) -> AxisRange {
    let span = at_least(crate::amount::sat(highest(s) - lowest(s)), MIN_SPAN as int);
    let pad = span / 20;
    AxisRange {
        min: crate::amount::sat(lowest(s) - pad) as Amount,
        max: crate::amount::sat(highest(s) + pad) as Amount,
    }
}

/// The middle of a bucket, in seconds.
pub open spec fn middle_of(t: u64, tf: u64) -> int {
    t * ONE + tf * (ONE as int / 2)
}

/// The span of time that the chart covers.
pub open spec fn time_span(c: ChartSettings) -> int {
    crate::metrics::ratio_of(
        crate::amount::sat(crate::amount::sat(c.tf_secs * c.show_candles) * ONE),
        at_least(c.x_zoom as int, TINY as int),
    )
}

/// The range of time around the last candle.
pub open spec fn time_range(c: ChartSettings, last_t: u64) -> AxisRange {
    let half = time_span(c) / 2;
    let center = middle_of(last_t, c.tf_secs);
    AxisRange {
        min: crate::amount::sat(crate::amount::sat(center - half) + c.x_pan_secs) as Amount,
        max: crate::amount::sat(crate::amount::sat(center + half) + c.x_pan_secs) as Amount,
    }
}

/// The settings after a pan by ten candles to the left.
pub open spec fn panned_left(c: ChartSettings) -> ChartSettings {
    ChartSettings { x_pan_secs: crate::amount::sat(c.x_pan_secs - c.tf_secs * 10 * ONE) as Amount, ..c }
}

/// The settings after a pan by ten candles to the right.
pub open spec fn panned_right(c: ChartSettings) -> ChartSettings {
    ChartSettings { x_pan_secs: crate::amount::sat(c.x_pan_secs + c.tf_secs * 10 * ONE) as Amount, ..c }
}

/// The factor of a scroll step given in thousandths of a unit, in millionths.
pub open spec fn zoom_factor(scroll_milli: i64) -> int {
    let f = FACTOR_ONE + 2 * scroll_milli;
    if f < FACTOR_MIN {
        FACTOR_MIN as int
    } else if f > FACTOR_MAX {
        FACTOR_MAX as int
    } else {
        f
    }
}

/// Half of a sum, rounded towards zero.
pub open spec fn half_towards_zero(a: int) -> int {
    if a < 0 {
        -((-a) / 2)
    } else {
        a / 2
    }
}

/// The settings after a zoom of the range of prices around its centre.
pub open spec fn zoomed(c: ChartSettings, scroll_milli: i64) -> ChartSettings {
    let center = half_towards_zero(crate::amount::sat(c.y_min + c.y_max));
    let span = at_least(crate::amount::sat(c.y_max - c.y_min), TINY as int);
    let half = crate::amount::sat(span * zoom_factor(scroll_milli)) / 2_000_000;
    ChartSettings {
        auto_y: false,
        y_min: crate::amount::sat(center - half) as Amount,
        y_max: crate::amount::sat(center + half) as Amount,
        ..c
    }
}

/// Half the width of a candle's body: a part of half the bucket, between a tenth of it and
/// all of it.
pub open spec fn half_body(tf: u64, factor: Amount) -> int {
    let f = if factor < ONE / 10 {
        ONE as int / 10
    } else if factor > ONE {
        ONE as int
    } else {
        factor as int
    };
    crate::amount::product((tf * (ONE as int / 2)) as Amount, f as Amount)
}

/// The shape of a candle whose body has the given width factor.
pub open spec fn shape_of(c: Candle, tf: u64, factor: Amount) -> CandleShape {
    let m = middle_of(c.t, tf);
    let h = half_body(tf, factor);
    CandleShape {
        left: (m - h) as Amount,
        right: (m + h) as Amount,
        middle: m as Amount,
        bottom: if c.open < c.close {
            c.open
        } else {
            c.close
        },
        top: if c.open > c.close {
            c.open
        } else {
            c.close
        },
        low: c.low,
        high: c.high,
        rising: c.close >= c.open,
    }
}

/// The upper end of the volume axis: a tenth above the largest volume.
pub open spec fn volume_axis(s: Seq<Candle>) -> int {
    let m = at_least(top_volume(s) as int, TINY as int);
    crate::amount::sat(m + m / 10)
}

impl Default for ChartSettings {
    fn default() -> (r: Self)
        ensures
            r.show_candles == 200,
            r.auto_y,
            r.y_min == 0,
            r.y_max == 0,
            r.x_zoom == ONE,
            r.x_pan_secs == 0,
            r.tf_secs == 60,
    {
        ChartSettings {
            show_candles: 200,
            auto_y: true,
            y_min: 0,
            y_max: 0,
            x_zoom: ONE,
            x_pan_secs: 0,
            tf_secs: 60,
        }
    }
}

/// The visible candles of a series.
pub fn visible_candles(series: &Vec<Candle>, show: usize) -> (r: Vec<Candle>)
    ensures
        r@ == visible(series@, show as nat),
{
    let len: usize = series.len();
    let mut count: usize = if show < len {
        show
    } else {
        len
    };
    if count < 1 {
        count = 1;
    }
    let start: usize = if len > count {
        len - count
    } else {
        0
    };
    let mut out: Vec<Candle> = Vec::new();
    let mut i: usize = start;
    while i < len
        invariant
            start <= i <= len,
            len == series@.len(),
            out@ == series@.subrange(start as int, i as int),
        decreases len - i,
    {
        out.push(series[i]);
        assert(out@ =~= series@.subrange(start as int, i + 1));
        i += 1;
    }
    assert(out@ =~= visible(series@, show as nat));
    out
}

fn fit_range(s: &Vec<Candle>) -> (r: AxisRange)
    requires
        s@.len() > 0,
    ensures
        r == fitted(s@),
{
    let n: usize = s.len();
    let mut lo: Amount = s[0].low;
    let mut hi: Amount = s[0].high;
    let mut i: usize = 1;
    assert(s@.take(1)[0] == s@[0]);
    while i < n
        invariant
            1 <= i <= n,
            n == s@.len(),
            lo == lowest(s@.take(i as int)),
            hi == highest(s@.take(i as int)),
        decreases n - i,
    {
        proof {
            assert(s@.take(i + 1).drop_last() =~= s@.take(i as int));
            assert(s@.take(i + 1).last() == s@[i as int]);
        }
        if s[i].low < lo {
            lo = s[i].low;
        }
        if s[i].high > hi {
            hi = s[i].high;
        }
        i += 1;
    }
    assert(s@.take(n as int) =~= s@);
    let gap: Amount = sat_sub(hi, lo);
    let span: Amount = if gap < MIN_SPAN {
        MIN_SPAN
    } else {
        gap
    };
    let pad: Amount = span / 20;
    AxisRange { min: sat_sub(lo, pad), max: sat_add(hi, pad) }
}

/// The upper end of the volume axis.
pub fn volume_top(s: &Vec<Candle>) -> (r: Amount)
    ensures
        r == volume_axis(s@),
{
    let n: usize = s.len();
    let mut m: Amount = 0;
    let mut i: usize = 0;
    while i < n
        invariant
            i <= n,
            n == s@.len(),
            m == top_volume(s@.take(i as int)),
        decreases n - i,
    {
        proof {
            assert(s@.take(i + 1).drop_last() =~= s@.take(i as int));
            assert(s@.take(i + 1).last() == s@[i as int]);
        }
        if s[i].volume > m {
            m = s[i].volume;
        }
        i += 1;
    }
    assert(s@.take(n as int) =~= s@);
    let v: Amount = if m < TINY {
        TINY
    } else {
        m
    };
    sat_add(v, v / 10)
}

/// The shape of a candle.
pub fn candle_shape(c: &Candle, tf: u64, body_factor: Amount) -> (r: CandleShape)
    ensures
        r == shape_of(*c, tf, body_factor),
        r.left <= r.middle <= r.right,
        r.bottom <= r.top,
{
    let half_tf: Amount = tf as i128 * 50_000_000;
    let middle: Amount = c.t as i128 * 100_000_000 + half_tf;
    let f: Amount = if body_factor < 10_000_000 {
        10_000_000
    } else if body_factor > ONE {
        ONE
    } else {
        body_factor
    };
    let h: Amount = mul_amounts(half_tf, f);
    proof {
        assert(0 <= half_tf * f <= half_tf * 100_000_000) by (nonlinear_arith)
            requires
                0 <= half_tf,
                0 <= f <= 100_000_000,
        ;
        assert(0 <= h <= half_tf);
    }
    CandleShape {
        left: middle - h,
        right: middle + h,
        middle,
        bottom: if c.open < c.close {
            c.open
        } else {
            c.close
        },
        top: if c.open > c.close {
            c.open
        } else {
            c.close
        },
        low: c.low,
        high: c.high,
        rising: c.close >= c.open,
    }
}

impl ChartSettings {
    /// The range of prices: it follows the visible candles, or stays as it was set.
    pub fn y_range(&mut self, shown: &Vec<Candle>) -> (r: AxisRange)
        requires
            shown@.len() > 0,
        ensures
            r == (if old(self).auto_y {
                fitted(shown@)
            } else {
                AxisRange { min: old(self).y_min, max: old(self).y_max }
            }),
            *final(self) == (ChartSettings { y_min: r.min, y_max: r.max, ..*old(self) }),
    {
        if self.auto_y {
            let r: AxisRange = fit_range(shown);
            self.y_min = r.min;
            self.y_max = r.max;
            r
        } else {
            AxisRange { min: self.y_min, max: self.y_max }
        }
    }

    /// The range of time around the last candle.
    pub fn x_range(&self, last_t: u64) -> (r: AxisRange)
        ensures
            r == time_range(*self, last_t),
    {
        let center: Amount = last_t as i128 * 100_000_000 + self.tf_secs as i128 * 50_000_000;
        let base: Amount = sat_mul(
            sat_mul(self.tf_secs as i128, self.show_candles as i128),
            100_000_000,
        );
        let zoom: Amount = if self.x_zoom < TINY {
            TINY
        } else {
            self.x_zoom
        };
        proof {
            assert(0 <= self.tf_secs * self.show_candles) by (nonlinear_arith);
        }
        let span: Amount = ratio(base, zoom);
        proof {
            let q = (crate::amount::magnitude(base as int) * ONE) / (zoom as int);
            assert(0 <= q) by (nonlinear_arith)
                requires
                    q == (crate::amount::magnitude(base as int) * ONE) / (zoom as int),
                    zoom > 0,
            ;
            assert(span >= 0);
        }
        let half: Amount = span / 2;
        AxisRange {
            min: sat_add(sat_sub(center, half), self.x_pan_secs),
            max: sat_add(sat_add(center, half), self.x_pan_secs),
        }
    }

    /// Pans by ten candles to the left.
    pub fn pan_left(&mut self)
        ensures
            *final(self) == (ChartSettings {
                x_pan_secs: crate::amount::sat(old(self).x_pan_secs - old(self).tf_secs * 10 * ONE) as Amount,
                ..*old(self)
            }),
            *final(self) == panned_left(*old(self)),
    {
        self.x_pan_secs = sat_sub(self.x_pan_secs, self.tf_secs as i128 * 1_000_000_000);
    }

    /// Pans by ten candles to the right.
    pub fn pan_right(&mut self)
        ensures
            *final(self) == (ChartSettings {
                x_pan_secs: crate::amount::sat(old(self).x_pan_secs + old(self).tf_secs * 10 * ONE) as Amount,
                ..*old(self)
            }),
            *final(self) == panned_right(*old(self)),
    {
        self.x_pan_secs = sat_add(self.x_pan_secs, self.tf_secs as i128 * 1_000_000_000);
    }

    /// Centres the chart on its last candle.
    pub fn center_x(&mut self)
        ensures
            *final(self) == (ChartSettings { x_pan_secs: 0, ..*old(self) }),
    {
        self.x_pan_secs = 0;
    }

    /// Zooms the range of prices by a scroll step; without a step nothing happens.
    pub fn zoom_y(&mut self, scroll_milli: i64)
        ensures
            *final(self) == (if scroll_milli == 0 {
                *old(self)
            } else {
                zoomed(*old(self), scroll_milli)
            }),
    {
        if scroll_milli == 0 {
            return;
        }
        let mut factor: i128 = 1_000_000 + 2 * (scroll_milli as i128);
        if factor < FACTOR_MIN {
            factor = FACTOR_MIN;
        }
        if factor > FACTOR_MAX {
            factor = FACTOR_MAX;
        }
        let sum: Amount = sat_add(self.y_min, self.y_max);
        let center: Amount = if sum == i128::MIN {
            -85_070_591_730_234_615_865_843_651_857_942_052_864
        } else if sum < 0 {
            -((-sum) / 2)
        } else {
            sum / 2
        };
        let gap: Amount = sat_sub(self.y_max, self.y_min);
        let span: Amount = if gap < TINY {
            TINY
        } else {
            gap
        };
        let wide: i128 = sat_mul(span, factor);
        proof {
            assert(0 <= span * factor) by (nonlinear_arith)
                requires
                    0 <= span,
                    0 <= factor,
            ;
        }
        let half: Amount = wide / 2_000_000;
        self.auto_y = false;
        self.y_min = sat_sub(center, half);
        self.y_max = sat_add(center, half);
    }
}

// ---------------------------------------------------------------------------
// Laws

/// A chart of a series that is not empty shows at least one candle, the newest one among
/// them, and never more than asked for or than there are.
pub proof fn law_newest_candle_is_visible(s: Seq<Candle>, show: nat)
    requires
        s.len() > 0,
    ensures
        visible(s, show).len() >= 1,
        visible(s, show).len() <= s.len(),
        show >= 1 ==> visible(s, show).len() <= show,
        visible(s, show).last() == s.last(),
{
}

/// An automatic range holds every visible price.
pub proof fn law_range_holds_every_price(s: Seq<Candle>, i: int)
    requires
        0 <= i < s.len(),
    ensures
        fitted(s).min <= s[i].low,
        s[i].high <= fitted(s).max,
    decreases s.len(),
{
    lemma_extremes(s, i);
    let span = at_least(crate::amount::sat(highest(s) - lowest(s)), MIN_SPAN as int);
    assert(span / 20 >= 0);
}

proof fn lemma_extremes(s: Seq<Candle>, i: int)
    requires
        0 <= i < s.len(),
    ensures
        lowest(s) <= s[i].low,
        s[i].high <= highest(s),
    decreases s.len(),
{
    if s.len() > 1 {
        if i < s.len() - 1 {
            lemma_extremes(s.drop_last(), i);
        } else {
            lemma_extremes(s.drop_last(), 0);
        }
    }
}

/// Panning right undoes panning left.
pub proof fn law_pans_cancel(pan: Amount, tf: u64)
    requires
        i128::MIN <= pan - tf * 10 * ONE,
    ensures
        crate::amount::sat(crate::amount::sat(pan - tf * 10 * ONE) + tf * 10 * ONE) == pan,
        forall|c: ChartSettings|
            c.x_pan_secs == pan && c.tf_secs == tf ==> #[trigger] panned_right(panned_left(c)) == c,
{
}

/// The bound within which no arithmetic of a chart is cut off.
pub const PLAIN: Amount = 1_000_000_000_000_000_000_000_000_000_000;

pub open spec fn plain(a: int) -> bool {
    -PLAIN <= a <= PLAIN
}

/// A pan to the right shows ten candles' time later, a pan to the left ten candles' time
/// earlier, in a range of the same width.
pub proof fn law_pans_move_the_time(c: ChartSettings, last_t: u64)
    requires
        plain(c.x_pan_secs as int),
        c.tf_secs * c.show_candles <= 1_000_000_000_000,
        TINY <= c.x_zoom,
    ensures
        ({
            let r = time_range(c, last_t);
            let right = time_range(panned_right(c), last_t);
            let left = time_range(panned_left(c), last_t);
            let ten = 10 * c.tf_secs * ONE;
            &&& right.min == r.min + ten && right.max == r.max + ten
            &&& left.min == r.min - ten && left.max == r.max - ten
        }),
{
    lemma_time_span(c);
}

proof fn lemma_time_span(c: ChartSettings)
    requires
        c.tf_secs * c.show_candles <= 1_000_000_000_000,
        TINY <= c.x_zoom,
    ensures
        0 <= time_span(c) <= PLAIN,
        time_span(c) * c.x_zoom <= c.tf_secs * c.show_candles * ONE * ONE < (time_span(c) + 1) * c.x_zoom,
{
    let n = c.tf_secs * c.show_candles;
    assert(0 <= n) by (nonlinear_arith)
        requires
            n == c.tf_secs * c.show_candles,
            c.tf_secs >= 0,
            c.show_candles >= 0,
    ;
    let num = n * ONE * ONE;
    let z = c.x_zoom as int;
    let q = num / z;
    assert(q * z <= num < (q + 1) * z && 0 <= q <= num) by (nonlinear_arith)
        requires
            q == num / z,
            z >= 100,
            num >= 0,
    ;
    assert(time_span(c) == q);
}

/// The range of time is centred on the middle of the last candle, moved by the pan, and as
/// wide as the time of the shown candles, divided by the zoom.
pub proof fn law_time_is_centred(c: ChartSettings, last_t: u64)
    requires
        plain(c.x_pan_secs as int),
        c.tf_secs * c.show_candles <= 1_000_000_000_000,
        TINY <= c.x_zoom,
    ensures
        ({
            let r = time_range(c, last_t);
            let width = r.max - r.min;
            &&& r.min + r.max == (2 * last_t + c.tf_secs) * ONE + 2 * c.x_pan_secs
            &&& 0 <= width
            &&& width * c.x_zoom <= c.tf_secs * c.show_candles * ONE * ONE < (width + 2) * c.x_zoom
        }),
{
    lemma_time_span(c);
    let r = time_range(c, last_t);
    let width = r.max - r.min;
    let span = time_span(c);
    assert(width == 2 * (span / 2));
    assert(width * c.x_zoom <= span * c.x_zoom && (span + 1) * c.x_zoom <= (width + 2) * c.x_zoom) by (nonlinear_arith)
        requires
            width <= span < width + 2,
            c.x_zoom >= 100,
    ;
}

/// The range that follows the candles reaches from the lowest to the highest price, and has
/// the same margin on both sides: a twentieth of what it shows.
pub proof fn law_range_has_even_margins(s: Seq<Candle>) -> (ends: (int, int))
    requires
        s.len() > 0,
        forall|i: int| 0 <= i < s.len() ==> plain((#[trigger] s[i]).low as int) && plain(s[i].high as int),
    ensures
        ({
            let (l, h) = ends;
            let margin = fitted(s).max - s[h].high;
            let span = at_least(s[h].high - s[l].low, MIN_SPAN as int);
            &&& 0 <= l < s.len() && 0 <= h < s.len()
            &&& forall|i: int| 0 <= i < s.len() ==> s[l].low <= (#[trigger] s[i]).low && s[i].high <= s[h].high
            &&& s[l].low - fitted(s).min == margin
            &&& 20 * margin <= span < 20 * margin + 20
            &&& margin > 0
        }),
{
    let l = lemma_lowest_taken(s);
    let h = lemma_highest_taken(s);
    assert forall|i: int| 0 <= i < s.len() implies s[l].low <= (#[trigger] s[i]).low && s[i].high <= s[h].high by {
        lemma_extremes(s, i);
    }
    assert(plain(s[l].low as int) && plain(s[h].high as int));
    (l, h)
}

proof fn lemma_lowest_taken(s: Seq<Candle>) -> (i: int)
    requires
        s.len() > 0,
    ensures
        0 <= i < s.len(),
        s[i].low == lowest(s),
    decreases s.len(),
{
    if s.len() == 1 || s.last().low < lowest(s.drop_last()) {
        s.len() - 1
    } else {
        lemma_lowest_taken(s.drop_last())
    }
}

proof fn lemma_highest_taken(s: Seq<Candle>) -> (i: int)
    requires
        s.len() > 0,
    ensures
        0 <= i < s.len(),
        s[i].high == highest(s),
    decreases s.len(),
{
    if s.len() == 1 || s.last().high > highest(s.drop_last()) {
        s.len() - 1
    } else {
        lemma_highest_taken(s.drop_last())
    }
}

/// A zoom keeps the centre of the range and stretches it by one plus two thousandths for each
/// unit of scrolling; it never shrinks it to less than a fifth or stretches it to more than
/// five times.
pub proof fn law_zoom_stretches_around_the_centre(c: ChartSettings, scroll_milli: i64)
    requires
        plain(c.y_min as int),
        plain(c.y_max as int),
    ensures
        ({
            let z = zoomed(c, scroll_milli);
            let span = at_least(c.y_max - c.y_min, TINY as int);
            let width = z.y_max - z.y_min;
            let sum = c.y_min + c.y_max;
            &&& -1 <= (z.y_min + z.y_max) - sum <= 1
            &&& -400_000 <= scroll_milli <= 2_000_000 ==> {
                &&& 1_000_000 * width <= span * (1_000_000 + 2 * scroll_milli)
                &&& span * (1_000_000 + 2 * scroll_milli) < 1_000_000 * (width + 2)
            }
            &&& scroll_milli <= -400_000 ==> z == zoomed(c, (-400_000) as i64)
            &&& scroll_milli >= 2_000_000 ==> z == zoomed(c, 2_000_000)
            &&& !z.auto_y
            &&& z == (ChartSettings { auto_y: false, y_min: z.y_min, y_max: z.y_max, ..c })
        }),
{
    let span = at_least(c.y_max - c.y_min, TINY as int);
    let f = zoom_factor(scroll_milli);
    assert(0 <= span * f <= span * 5_000_000) by (nonlinear_arith)
        requires
            0 <= span,
            0 <= f <= 5_000_000,
    ;
    let half = (span * f) / 2_000_000;
    assert(2_000_000 * half <= span * f < 2_000_000 * (half + 1));
}

/// A larger scroll step never shows less.
pub proof fn law_zooms_are_ordered(c: ChartSettings, a: i64, b: i64)
    requires
        plain(c.y_min as int),
        plain(c.y_max as int),
        a <= b,
    ensures
        zoomed(c, a).y_max - zoomed(c, a).y_min <= zoomed(c, b).y_max - zoomed(c, b).y_min,
{
    let span = at_least(c.y_max - c.y_min, TINY as int);
    let f = zoom_factor(a);
    let g = zoom_factor(b);
    assert(0 <= span * f <= span * g <= span * 5_000_000) by (nonlinear_arith)
        requires
            0 <= span,
            0 <= f <= g <= 5_000_000,
    ;
    vstd::arithmetic::div_mod::lemma_div_is_ordered(span * f, span * g, 2_000_000);
}

/// The volume axis ends a tenth above the largest volume.
pub proof fn law_volumes_fit(s: Seq<Candle>) -> (largest: int)
    requires
        forall|i: int| 0 <= i < s.len() ==> plain((#[trigger] s[i]).volume as int),
    ensures
        forall|i: int| 0 <= i < s.len() ==> 11 * (#[trigger] s[i]).volume <= 10 * volume_axis(s) + 9,
        11 * TINY <= 10 * volume_axis(s) + 9,
        10 * volume_axis(s) <= 11 * TINY || (0 <= largest < s.len() && 10 * volume_axis(s) <= 11
            * s[largest].volume),
{
    lemma_top_volume(s)
}

proof fn lemma_top_volume(s: Seq<Candle>) -> (largest: int)
    requires
        forall|i: int| 0 <= i < s.len() ==> plain((#[trigger] s[i]).volume as int),
    ensures
        0 <= top_volume(s) <= PLAIN,
        forall|i: int| 0 <= i < s.len() ==> (#[trigger] s[i]).volume <= top_volume(s),
        top_volume(s) == 0 || (0 <= largest < s.len() && s[largest].volume == top_volume(s)),
    decreases s.len(),
{
    if s.len() == 0 {
        0
    } else {
        let p = s.drop_last();
        assert forall|i: int| 0 <= i < p.len() implies plain((#[trigger] p[i]).volume as int) by {
            assert(p[i] == s[i]);
        }
        let k = lemma_top_volume(p);
        assert(plain(s[s.len() - 1].volume as int));
        assert forall|i: int| 0 <= i < s.len() implies (#[trigger] s[i]).volume <= top_volume(s) by {
            if i < p.len() {
                assert(p[i] == s[i]);
            }
        }
        if s.last().volume > top_volume(p) {
            s.len() - 1
        } else {
            k
        }
    }
}

/// A zoom takes the range out of automatic mode and keeps its ends in order.
pub proof fn law_zoom_keeps_order(c: ChartSettings, scroll_milli: i64)
    ensures
        !zoomed(c, scroll_milli).auto_y,
        zoomed(c, scroll_milli).y_min <= zoomed(c, scroll_milli).y_max,
{
    let span = at_least(crate::amount::sat(c.y_max - c.y_min), TINY as int);
    let f = zoom_factor(scroll_milli);
    assert(0 <= span * f) by (nonlinear_arith)
        requires
            0 <= span,
            0 <= f,
    ;
}

/// A body lies between the extremes of its candle, where the candle is shaped.
pub proof fn law_body_lies_in_the_wick(c: Candle, tf: u64, factor: Amount)
    requires
        crate::candle_agg::shaped(c, tf),
    ensures
        shape_of(c, tf, factor).low <= shape_of(c, tf, factor).bottom,
        shape_of(c, tf, factor).top <= shape_of(c, tf, factor).high,
{
}

/// A candle is rising exactly where it closes at or above its open. The body of a rising
/// candle goes from the open up to the close, that of any other from the close up to the
/// open, and the wick from the lowest to the highest price.
pub proof fn law_a_body_shows_its_way(c: Candle, tf: u64, factor: Amount)
    ensures
        ({
            let s = shape_of(c, tf, factor);
            &&& s.rising <==> c.open <= c.close
            &&& s.rising ==> s.bottom == c.open && s.top == c.close
            &&& !s.rising ==> s.bottom == c.close && s.top == c.open
            &&& s.low == c.low && s.high == c.high
        }),
{
}

/// A falling candle is the rising one upside down: where open and close change places, the
/// body stays and its colour changes.
pub proof fn law_a_swapped_candle_has_the_other_colour(c: Candle, tf: u64, factor: Amount)
    requires
        c.open != c.close,
    ensures
        ({
            let s = shape_of(c, tf, factor);
            let swapped = shape_of(Candle { open: c.close, close: c.open, ..c }, tf, factor);
            &&& swapped.rising != s.rising
            &&& swapped == (CandleShape { rising: swapped.rising, ..s })
        }),
{
}

/// A body stands in the middle of the bucket of its candle and never leaves it; it fills the
/// bucket where the factor is one or more, and a tenth of it where the factor is smaller than
/// that.
pub proof fn law_a_body_stays_in_its_bucket(c: Candle, tf: u64, factor: Amount)
    ensures
        ({
            let s = shape_of(c, tf, factor);
            let start = c.t * ONE;
            let end = (c.t + tf) * ONE;
            &&& 2 * s.middle == start + end
            &&& s.middle - s.left == s.right - s.middle
            &&& start <= s.left <= s.middle <= s.right <= end
            &&& factor >= ONE ==> s.left == start && s.right == end
            &&& factor <= ONE / 10 ==> 10 * (s.right - s.left) == end - start
            &&& ONE / 10 <= factor <= ONE ==> ONE * (s.right - s.left) <= factor * (end - start)
                && factor * (end - start) < ONE * (s.right - s.left + 2)
        }),
{
    let half = tf * 50_000_000;
    let f: int = if factor < ONE / 10 {
        ONE as int / 10
    } else if factor > ONE {
        ONE as int
    } else {
        factor as int
    };
    assert(0 <= half * f <= half * 100_000_000) by (nonlinear_arith)
        requires
            0 <= half,
            0 <= f <= 100_000_000,
    ;
    if factor >= ONE {
        assert(half * f == half * 100_000_000) by (nonlinear_arith)
            requires
                f == 100_000_000,
        ;
    }
    if factor <= ONE / 10 {
        assert(half * f == half * 10_000_000) by (nonlinear_arith)
            requires
                f == 10_000_000,
        ;
    }
    let q = (half * f) / 100_000_000;
    assert(half_body(tf, factor) == q);
    assert((c.t + tf) * ONE == c.t * ONE + tf * ONE) by (nonlinear_arith);
    let width = (c.t + tf) * ONE - c.t * ONE;
    assert(width == 2 * half);
    assert(f * width == 2 * (half * f)) by (nonlinear_arith)
        requires
            width == 2 * half,
    ;
    let s = shape_of(c, tf, factor);
    assert(s.right - s.left == 2 * q);
    assert(2 * (half * f) < ONE * (2 * q + 2));
    assert(ONE / 10 <= factor <= ONE ==> factor * width == f * width);
}

/// The visible candles are the newest ones, without a gap: as many as asked for, at least
/// one, or all where there are fewer.
pub proof fn law_visible_candles_are_the_newest(s: Seq<Candle>, show: nat, i: int)
    requires
        s.len() > 0,
        0 <= i < visible(s, show).len(),
    ensures
        visible(s, show)[i] == s[s.len() - visible(s, show).len() + i],
        visible(s, show).len() == s.len() || visible(s, show).len() == show || (show == 0 && visible(
            s,
            show,
        ).len() == 1),
        s.len() <= show ==> visible(s, show).len() == s.len(),
        1 <= show <= s.len() ==> visible(s, show).len() == show,
{
}

} // verus!
