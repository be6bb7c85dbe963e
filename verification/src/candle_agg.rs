//! Candles of a fixed period, built from ticks and kept in a CSV log.

use crate::amount::{fixed_text, parse_amount, sat_add, Amount};
use crate::text::{join_fields, parse_u64, split, starts_with, u64_text};
use vstd::prelude::*;

verus! {

/// One candle.
#[derive(Clone, Copy, Debug, PartialEq, Eq, Structural)]
pub struct Candle {
    /// Unix timestamp (seconds) of the bucket start.
    pub t: u64,
    pub open: Amount,
    pub high: Amount,
    pub low: Amount,
    pub close: Amount,
    pub volume: Amount,
}

/// The candles of one period, oldest first.
#[derive(Clone, Debug)]
pub struct CandleAgg {
    tf_secs: u64,
    series: Vec<Candle>,
}

/// The start of the bucket that `ts` falls into.
pub open spec fn bucket(ts: u64, tf: u64) -> u64 {
    ((ts / tf) * tf) as u64
}

/// A candle of a single tick.
pub open spec fn first_tick(t: u64, price: Amount, volume: Amount) -> Candle {
    Candle { t, open: price, high: price, low: price, close: price, volume }
}

/// A candle after one more tick.
pub open spec fn next_tick(c: Candle, price: Amount, volume: Amount) -> Candle {
    Candle {
        t: c.t,
        open: c.open,
        high: if price > c.high {
            price
        } else {
            c.high
        },
        low: if price < c.low {
            price
        } else {
            c.low
        },
        close: price,
        volume: crate::amount::sat(c.volume + volume) as Amount,
    }
}

/// The candles after one more tick: the tick joins the last candle where that candle
/// is the one of its bucket, and starts a new one otherwise.
pub open spec fn ticked(s: Seq<Candle>, tf: u64, ts: u64, price: Amount, volume: Amount) -> Seq<Candle> {
    if s.len() > 0 && s.last().t == bucket(ts, tf) {
        s.drop_last().push(next_tick(s.last(), price, volume))
    } else {
        s.push(first_tick(bucket(ts, tf), price, volume))
    }
}

/// Whether a candle starts at a multiple of the period and its extremes enclose its
/// first and last price.
pub open spec fn shaped(c: Candle, tf: u64) -> bool {
    c.t as int % tf as int == 0 && c.low <= c.open <= c.high && c.low <= c.close <= c.high
}

pub open spec fn all_shaped(s: Seq<Candle>, tf: u64) -> bool {
    forall|i: int| 0 <= i < s.len() ==> shaped(#[trigger] s[i], tf)
}

/// Whether each candle starts after the one before it.
pub open spec fn in_order(s: Seq<Candle>) -> bool {
    forall|i: int, j: int| 0 <= i < j < s.len() ==> #[trigger] s[i].t < #[trigger] s[j].t
}

pub open spec fn total_volume(s: Seq<Candle>) -> int
    decreases s.len(),
{
    if s.len() == 0 {
        0
    } else {
        total_volume(s.drop_last()) + s.last().volume
    }
}

pub open spec fn amount_or(s: Seq<char>, default: Amount) -> Amount {
    match crate::amount::parsed_amount(s) {
        Some(a) => a,
        None => default,
    }
}

/// The candle of a row of the log, if the row has seven fields, both its integers
/// read and its period is `tf`.
pub open spec fn row_candle(line: Seq<char>, tf: u64) -> Option<Candle> {
    let f = crate::text::fields(line, ',');
    if f.len() == 7 && crate::text::parsed_u64(f[0]) is Some && crate::text::parsed_u64(f[1]) == Some(tf) {
        let open = amount_or(f[2], 0);
        Some(
            Candle {
                t: crate::text::parsed_u64(f[0])->0,
                open,
                high: amount_or(f[3], open),
                low: amount_or(f[4], open),
                close: amount_or(f[5], open),
                volume: amount_or(f[6], 0),
            },
        )
    } else {
        None
    }
}

pub open spec fn is_header(i: int, line: Seq<char>) -> bool {
    i == 0 && crate::text::starts_with_text(line, "ts,"@)
}

/// The candles of a log, in the order of its rows.
pub open spec fn log_candles(lines: Seq<Seq<char>>, tf: u64) -> Seq<Candle>
    decreases lines.len(),
{
    if lines.len() == 0 {
        Seq::empty()
    } else {
        let before = log_candles(lines.drop_last(), tf);
        if is_header(lines.len() - 1, lines.last()) {
            before
        } else {
            match row_candle(lines.last(), tf) {
                Some(c) => before.push(c),
                None => before,
            }
        }
    }
}

pub open spec fn candle_fields(c: Candle, tf: u64) -> Seq<Seq<char>> {
    seq![
        crate::text::nat_text(c.t as nat),
        crate::text::nat_text(tf as nat),
        crate::amount::fixed(c.open as int, 8),
        crate::amount::fixed(c.high as int, 8),
        crate::amount::fixed(c.low as int, 8),
        crate::amount::fixed(c.close as int, 8),
        crate::amount::fixed(c.volume as int, 8),
    ]
}

/// The row of the log that holds a candle.
pub open spec fn candle_row(c: Candle, tf: u64) -> Seq<char> {
    crate::text::join(candle_fields(c, tf), ',')
}

/// The log of a series: the header and one row per candle.
pub open spec fn candle_log(s: Seq<Candle>, tf: u64) -> Seq<Seq<char>> {
    seq!["ts,tf_secs,open,high,low,close,volume"@] + s.map_values(|c: Candle| candle_row(c, tf))
}

/// Whether text can denote each number of the candle.
pub open spec fn writable(c: Candle) -> bool {
    c.open > i128::MIN && c.high > i128::MIN && c.low > i128::MIN && c.close > i128::MIN && c.volume
        > i128::MIN
}

impl CandleAgg {
    /// The period in seconds.
    pub closed spec fn period(&self) -> u64 {
        self.tf_secs
    }

    /// The candles, oldest first.
    pub closed spec fn candles(&self) -> Seq<Candle> {
        self.series@
    }

    pub fn new(tf_secs: u64) -> (r: Self)
        ensures
            r.period() == tf_secs,
            r.candles() == Seq::<Candle>::empty(),
    {
        CandleAgg { tf_secs, series: Vec::new() }
    }

    pub fn tf(&self) -> (r: u64)
        ensures
            r == self.period(),
    {
        self.tf_secs
    }

    /// Update with a tick (timestamp, price, volume).
    pub fn update(&mut self, ts: u64, price: Amount, volume: Amount)
        requires
            old(self).period() > 0,
        ensures
            final(self).period() == old(self).period(),
            final(self).candles() == ticked(old(self).candles(), old(self).period(), ts, price, volume),
    {
        let tf: u64 = self.tf_secs;
        proof {
            assert((ts / tf) * tf <= ts) by (nonlinear_arith)
                requires
                    tf > 0,
            ;
        }
        let start: u64 = (ts / tf) * tf;
        let n: usize = self.series.len();
        if n > 0 && self.series[n - 1].t == start {
            let mut c: Candle = self.series[n - 1];
            if price > c.high {
                c.high = price;
            }
            if price < c.low {
                c.low = price;
            }
            c.close = price;
            c.volume = sat_add(c.volume, volume);
            let ghost before = self.series@;
            self.series[n - 1] = c;
            assert(self.series@ =~= before.drop_last().push(c));
        } else {
            self.series.push(Candle { t: start, open: price, high: price, low: price, close: price, volume });
        }
    }

    /// Read-only access to the series.
    pub fn series(&self) -> (r: &Vec<Candle>)
        ensures
            r@ == self.candles(),
    {
        &self.series
    }

    /// Mutable access to the series.
    pub fn series_mut(&mut self) -> (r: &mut Vec<Candle>)
        ensures
            r@ == old(self).candles(),
            final(self).candles() == final(r)@,
            final(self).period() == old(self).period(),
    {
        &mut self.series
    }

    /// Append a fully formed historical candle.
    pub fn push_candle(&mut self, c: Candle)
        ensures
            final(self).period() == old(self).period(),
            final(self).candles() == old(self).candles().push(c),
    {
        self.series.push(c);
    }

    /// Append the candles of a log, given line by line; a line that could not be read
    /// is given empty. Rows of another period are left out.
    pub fn load_from_csv(&mut self, lines: &Vec<String>)
        ensures
            final(self).period() == old(self).period(),
            final(self).candles() == old(self).candles() + log_candles(
                crate::text::texts(lines@),
                old(self).period(),
            ),
    {
        let tf: u64 = self.tf_secs;
        let n: usize = lines.len();
        let ghost all = crate::text::texts(lines@);
        let ghost start = self.series@;
        let mut i: usize = 0;
        proof {
            assert(all.take(0) =~= Seq::empty());
            assert(start + log_candles(all.take(0), tf) =~= start);
        }
        while i < n
            invariant
                i <= n,
                n == lines@.len(),
                all == crate::text::texts(lines@),
                self.tf_secs == tf,
                self.series@ == start + log_candles(all.take(i as int), tf),
            decreases n - i,
        {
            proof {
                assert(all.take(i + 1).drop_last() =~= all.take(i as int));
                assert(all.take(i + 1).last() == lines@[i as int]@);
            }
            let ghost before = self.series@;
            if !(i == 0 && starts_with(lines[i].as_str(), "ts,")) {
                if let Some(c) = read_row(lines[i].as_str(), tf) {
                    self.series.push(c);
                    assert(self.series@ =~= start + log_candles(all.take(i + 1), tf));
                }
            }
            i += 1;
        }
        assert(all.take(n as int) =~= all);
    }

    /// The log of the whole series, line by line.
    pub fn save_to_csv(&self) -> (r: Vec<String>)
        ensures
            crate::text::texts(r@) == candle_log(self.candles(), self.period()),
    {
        let tf: u64 = self.tf_secs;
        let mut out: Vec<String> = Vec::new();
        out.push("ts,tf_secs,open,high,low,close,volume".to_owned());
        let n: usize = self.series.len();
        let mut i: usize = 0;
        proof {
            assert(crate::text::texts(out@) =~= candle_log(self.series@.take(0), tf));
        }
        while i < n
            invariant
                i <= n,
                n == self.series@.len(),
                crate::text::texts(out@) == candle_log(self.series@.take(i as int), tf),
            decreases n - i,
        {
            let ghost before = crate::text::texts(out@);
            let row: String = write_row(&self.series[i], tf);
            out.push(row);
            proof {
                assert(crate::text::texts(out@) =~= before.push(row@));
                assert(crate::text::texts(out@) =~= candle_log(self.series@.take(i + 1), tf));
            }
            i += 1;
        }
        assert(self.series@.take(n as int) =~= self.series@);
        out
    }
}

fn read_or(s: &str, default: Amount) -> (r: Amount)
    ensures
        r == amount_or(s@, default),
{
    match parse_amount(s) {
        Some(a) => a,
        None => default,
    }
}

fn read_row(line: &str, tf: u64) -> (r: Option<Candle>)
    ensures
        r == row_candle(line@, tf),
{
    let f: Vec<String> = split(line, ',');
    let ghost g = crate::text::fields(line@, ',');
    assert(g.len() == f@.len());
    if f.len() != 7 {
        return None;
    }
    proof {
        assert forall|i: int| 0 <= i < 7 implies #[trigger] g[i] == f@[i]@ by {}
    }
    let ts: u64 = match parse_u64(f[0].as_str()) {
        Some(v) => v,
        None => {
            return None;
        },
    };
    let period: u64 = match parse_u64(f[1].as_str()) {
        Some(v) => v,
        None => {
            return None;
        },
    };
    if period != tf {
        return None;
    }
    let open: Amount = read_or(f[2].as_str(), 0);
    let high: Amount = read_or(f[3].as_str(), open);
    let low: Amount = read_or(f[4].as_str(), open);
    let close: Amount = read_or(f[5].as_str(), open);
    let volume: Amount = read_or(f[6].as_str(), 0);
    Some(Candle { t: ts, open, high, low, close, volume })
}

fn write_row(c: &Candle, tf: u64) -> (r: String)
    ensures
        r@ == candle_row(*c, tf),
{
    let mut f: Vec<String> = Vec::new();
    f.push(u64_text(c.t));
    f.push(u64_text(tf));
    f.push(fixed_text(c.open, 8));
    f.push(fixed_text(c.high, 8));
    f.push(fixed_text(c.low, 8));
    f.push(fixed_text(c.close, 8));
    f.push(fixed_text(c.volume, 8));
    assert(crate::text::texts(f@) =~= candle_fields(*c, tf));
    join_fields(&f)
}

// ---------------------------------------------------------------------------
// Laws

/// A tick keeps every candle shaped: aligned to the period, with its extremes around
/// its first and last price.
pub proof fn law_update_keeps_shape(s: Seq<Candle>, tf: u64, ts: u64, price: Amount, volume: Amount)
    requires
        tf > 0,
        all_shaped(s, tf),
    ensures
        all_shaped(ticked(s, tf, ts, price, volume), tf),
{
    let b = (ts / tf) * tf;
    assert(0 <= b <= ts && b % (tf as int) == 0) by (nonlinear_arith)
        requires
            tf > 0,
            b == (ts / tf) * tf,
    {
        vstd::arithmetic::div_mod::lemma_mod_multiples_basic((ts / tf) as int, tf as int);
    }
    let r = ticked(s, tf, ts, price, volume);
    if s.len() > 0 {
        assert(shaped(s[s.len() - 1], tf));
    }
    assert forall|i: int| 0 <= i < r.len() implies shaped(#[trigger] r[i], tf) by {
        if i < r.len() - 1 {
            assert(r[i] == s[i]);
        }
    }
}

/// Ticks that come in the order of time keep the candles in the order of time, one
/// candle per bucket.
pub proof fn law_update_keeps_order(s: Seq<Candle>, tf: u64, ts: u64, price: Amount, volume: Amount)
    requires
        tf > 0,
        in_order(s),
        s.len() > 0 ==> s.last().t <= bucket(ts, tf),
    ensures
        in_order(ticked(s, tf, ts, price, volume)),
        ticked(s, tf, ts, price, volume).last().t == bucket(ts, tf),
{
    let r = ticked(s, tf, ts, price, volume);
    assert forall|i: int, j: int| 0 <= i < j < r.len() implies #[trigger] r[i].t < #[trigger] r[j].t by {
        if j == r.len() - 1 && s.len() > 0 && s.last().t != bucket(ts, tf) {
            assert(i <= s.len() - 1);
            assert(s[i].t <= s[s.len() - 1].t);
        }
    }
}

/// The bucket of a later tick is never before that of an earlier one.
pub proof fn law_buckets_follow_time(a: u64, b: u64, tf: u64)
    requires
        tf > 0,
        a <= b,
    ensures
        bucket(a, tf) <= bucket(b, tf) <= b,
{
    assert((a / tf) * tf <= (b / tf) * tf && (b / tf) * tf <= b && (a / tf) * tf <= a) by (nonlinear_arith)
        requires
            tf > 0,
            a <= b,
    {
        vstd::arithmetic::div_mod::lemma_div_is_ordered(a as int, b as int, tf as int);
    }
}

/// A tick: its time, its price and its volume.
pub ghost struct Tick {
    pub ts: u64,
    pub price: Amount,
    pub volume: Amount,
}

/// The candles of a whole run of ticks.
pub open spec fn run_of(tf: u64, ticks: Seq<Tick>) -> Seq<Candle>
    decreases ticks.len(),
{
    if ticks.len() == 0 {
        Seq::empty()
    } else {
        let x = ticks.last();
        ticked(run_of(tf, ticks.drop_last()), tf, x.ts, x.price, x.volume)
    }
}

/// The volumes of these ticks, added from the first to the last.
pub open spec fn volume_of(ticks: Seq<Tick>) -> Amount
    decreases ticks.len(),
{
    if ticks.len() == 0 {
        0
    } else if ticks.len() == 1 {
        ticks[0].volume
    } else {
        crate::amount::sat(volume_of(ticks.drop_last()) + ticks.last().volume) as Amount
    }
}

/// Whether the ticks come in the order of time.
pub open spec fn in_time(ticks: Seq<Tick>) -> bool {
    forall|i: int, j: int| 0 <= i <= j < ticks.len() ==> (#[trigger] ticks[i]).ts <= (#[trigger] ticks[j]).ts
}

/// The ticks of one bucket.
pub open spec fn ticks_in(ticks: Seq<Tick>, tf: u64, t: u64) -> Seq<Tick>
    decreases ticks.len(),
{
    if ticks.len() == 0 {
        Seq::empty()
    } else if bucket(ticks.last().ts, tf) == t {
        ticks_in(ticks.drop_last(), tf, t).push(ticks.last())
    } else {
        ticks_in(ticks.drop_last(), tf, t)
    }
}

/// Whether a candle is the one of these ticks: it opens with the first and closes with the
/// last, its extremes are theirs, and its volume is the sum of theirs.
pub open spec fn covers(c: Candle, ticks: Seq<Tick>) -> bool {
    &&& ticks.len() > 0
    &&& c.open == ticks[0].price
    &&& c.close == ticks.last().price
    &&& c.volume == volume_of(ticks)
    &&& forall|i: int| 0 <= i < ticks.len() ==> c.low <= (#[trigger] ticks[i]).price <= c.high
    &&& exists|i: int| 0 <= i < ticks.len() && (#[trigger] ticks[i]).price == c.high
    &&& exists|i: int| 0 <= i < ticks.len() && (#[trigger] ticks[i]).price == c.low
}

/// Whether candles are those of these ticks: in the order of time, one for each bucket that
/// holds a tick, each with the values of all ticks of its bucket.
pub open spec fn candles_over(s: Seq<Candle>, tf: u64, ticks: Seq<Tick>) -> bool {
    &&& in_order(s)
    &&& forall|k: int| 0 <= k < s.len() ==> covers(#[trigger] s[k], ticks_in(ticks, tf, s[k].t))
    &&& forall|j: int| 0 <= j < ticks.len() ==> has_bucket(s, tf, #[trigger] ticks[j])
    &&& ticks.len() > 0 ==> s.len() > 0 && s.last().t == bucket(ticks.last().ts, tf)
    &&& ticks.len() == 0 ==> s.len() == 0
}

/// Whether there is a candle of the bucket of a tick.
pub open spec fn has_bucket(s: Seq<Candle>, tf: u64, x: Tick) -> bool {
    exists|k: int| 0 <= k < s.len() && (#[trigger] s[k]).t == bucket(x.ts, tf)
}

proof fn lemma_no_ticks_in(ticks: Seq<Tick>, tf: u64, t: u64)
    requires
        forall|j: int| 0 <= j < ticks.len() ==> bucket((#[trigger] ticks[j]).ts, tf) != t,
    ensures
        ticks_in(ticks, tf, t).len() == 0,
    decreases ticks.len(),
{
    if ticks.len() > 0 {
        assert(bucket(ticks[ticks.len() - 1].ts, tf) != t);
        lemma_no_ticks_in(ticks.drop_last(), tf, t);
    }
}

proof fn lemma_covers_next(c: Candle, ticks: Seq<Tick>, x: Tick)
    requires
        covers(c, ticks),
    ensures
        covers(next_tick(c, x.price, x.volume), ticks.push(x)),
{
    let n = next_tick(c, x.price, x.volume);
    let all = ticks.push(x);
    assert(all.drop_last() =~= ticks);
    let h = choose|i: int| 0 <= i < ticks.len() && (#[trigger] ticks[i]).price == c.high;
    let l = choose|i: int| 0 <= i < ticks.len() && (#[trigger] ticks[i]).price == c.low;
    assert(all[h] == ticks[h] && all[l] == ticks[l] && all[ticks.len() as int] == x);
    assert forall|i: int| 0 <= i < all.len() implies n.low <= (#[trigger] all[i]).price <= n.high by {
        if i < ticks.len() {
            assert(all[i] == ticks[i]);
        }
    }
}

/// One more tick keeps the candles those of the ticks.
pub proof fn lemma_tick_over(s: Seq<Candle>, tf: u64, ticks: Seq<Tick>, x: Tick)
    requires
        tf > 0,
        candles_over(s, tf, ticks),
        ticks.len() > 0 ==> ticks.last().ts <= x.ts,
    ensures
        candles_over(ticked(s, tf, x.ts, x.price, x.volume), tf, ticks.push(x)),
{
    let b = bucket(x.ts, tf);
    let r = ticked(s, tf, x.ts, x.price, x.volume);
    let all = ticks.push(x);
    let last = s.len() - 1;
    assert(all.drop_last() =~= ticks);
    if s.len() > 0 {
        law_buckets_follow_time(ticks.last().ts, x.ts, tf);
        assert(covers(s[last], ticks_in(ticks, tf, s[last].t)));
    }
    law_update_keeps_order(s, tf, x.ts, x.price, x.volume);
    let joins = s.len() > 0 && s.last().t == b;
    if joins {
        lemma_covers_next(s[last], ticks_in(ticks, tf, b), x);
    } else {
        assert forall|j: int| 0 <= j < ticks.len() implies bucket((#[trigger] ticks[j]).ts, tf)
            != b by {
            assert(has_bucket(s, tf, ticks[j]));
            let k = choose|k: int|
                0 <= k < s.len() && (#[trigger] s[k]).t == bucket(ticks[j].ts, tf);
            assert(s[k].t <= s[last].t);
        }
        lemma_no_ticks_in(ticks, tf, b);
        assert(ticks_in(all, tf, b) =~= seq![x]);
        assert(ticks_in(all, tf, b)[0] == x);
        assert(covers(r.last(), ticks_in(all, tf, b)));
    }
    assert forall|k: int| 0 <= k < r.len() implies covers(#[trigger] r[k], ticks_in(all, tf, r[k].t)) by {
        if k < r.len() - 1 {
            assert(r[k] == s[k]);
            assert(r[k].t < r[r.len() - 1].t);
            assert(covers(s[k], ticks_in(ticks, tf, s[k].t)));
        }
    }
    assert forall|j: int| 0 <= j < all.len() implies has_bucket(r, tf, #[trigger] all[j]) by {
        if j < ticks.len() {
            assert(has_bucket(s, tf, ticks[j]));
            let k = choose|k: int|
                0 <= k < s.len() && (#[trigger] s[k]).t == bucket(ticks[j].ts, tf);
            assert(r[k].t == s[k].t);
        } else {
            assert(r[r.len() - 1].t == b);
        }
    }
}

/// A run of ticks in the order of time makes exactly one candle for each bucket that holds
/// a tick, in the order of time. Over the ticks of its bucket, a candle opens with the first
/// price and closes with the last, its extremes are the greatest and the least price, and its
/// volume is the sum of theirs, added from the first to the last.
pub proof fn law_a_run_makes_its_candles(tf: u64, ticks: Seq<Tick>)
    requires
        tf > 0,
        in_time(ticks),
    ensures
        candles_over(run_of(tf, ticks), tf, ticks),
    decreases ticks.len(),
{
    if ticks.len() > 0 {
        let p = ticks.drop_last();
        assert(in_time(p)) by {
            assert forall|i: int, j: int| 0 <= i <= j < p.len() implies (#[trigger] p[i]).ts <= (#[trigger] p[j]).ts by {
                assert(ticks[i].ts <= ticks[j].ts);
            }
        }
        law_a_run_makes_its_candles(tf, p);
        if p.len() > 0 {
            assert(ticks[p.len() - 1].ts <= ticks[p.len() as int].ts);
        }
        lemma_tick_over(run_of(tf, p), tf, p, ticks.last());
        assert(p.push(ticks.last()) =~= ticks);
    }
}

/// A tick adds its volume to the series and changes no other candle's volume.
pub proof fn law_update_adds_volume(s: Seq<Candle>, tf: u64, ts: u64, price: Amount, volume: Amount)
    requires
        s.len() > 0 ==> i128::MIN <= s.last().volume + volume <= i128::MAX,
    ensures
        total_volume(ticked(s, tf, ts, price, volume)) == total_volume(s) + volume,
{
    let r = ticked(s, tf, ts, price, volume);
    if s.len() > 0 && s.last().t == bucket(ts, tf) {
        assert(r.drop_last() =~= s.drop_last());
    } else {
        assert(r.drop_last() =~= s);
    }
}

/// A saved series loads back, row for row.
pub proof fn law_load_undoes_save(s: Seq<Candle>, tf: u64)
    requires
        forall|i: int| 0 <= i < s.len() ==> writable(#[trigger] s[i]),
    ensures
        log_candles(candle_log(s, tf), tf) == s,
    decreases s.len(),
{
    let l = candle_log(s, tf);
    if s.len() == 0 {
        lemma_header_only(s, tf, tf);
    } else {
        let p = s.drop_last();
        assert forall|i: int| 0 <= i < p.len() implies writable(#[trigger] p[i]) by {
            assert(p[i] == s[i]);
        }
        law_load_undoes_save(p, tf);
        lemma_log_last(s, tf);
        assert(writable(s[s.len() - 1]));
        lemma_row_reads_back(s.last(), tf);
        lemma_log_row(l, tf, s.last());
        assert(p.push(s.last()) =~= s);
    }
}

/// A log without rows loads nothing.
proof fn lemma_header_only(s: Seq<Candle>, written: u64, asked: u64)
    requires
        s.len() == 0,
    ensures
        log_candles(candle_log(s, written), asked) == s,
{
    let l = candle_log(s, written);
    reveal_strlit("ts,tf_secs,open,high,low,close,volume");
    reveal_strlit("ts,");
    assert(l.last() == "ts,tf_secs,open,high,low,close,volume"@);
    assert(l.last().subrange(0, 3) =~= "ts,"@);
    assert(l.drop_last() =~= Seq::empty());
    assert(log_candles(l.drop_last(), asked) =~= s);
}

proof fn lemma_log_last(s: Seq<Candle>, tf: u64)
    requires
        s.len() > 0,
    ensures
        candle_log(s, tf).len() == s.len() + 1,
        candle_log(s, tf).drop_last() == candle_log(s.drop_last(), tf),
        candle_log(s, tf).last() == candle_row(s.last(), tf),
{
    assert(candle_log(s, tf).drop_last() =~= candle_log(s.drop_last(), tf));
}

proof fn lemma_log_row(lines: Seq<Seq<char>>, tf: u64, c: Candle)
    requires
        lines.len() > 1,
        row_candle(lines.last(), tf) == Some(c),
    ensures
        log_candles(lines, tf) == log_candles(lines.drop_last(), tf).push(c),
{
}

/// A log of another period loads nothing.
pub proof fn law_other_periods_are_left_out(s: Seq<Candle>, written: u64, asked: u64)
    requires
        written != asked,
    ensures
        log_candles(candle_log(s, written), asked) == Seq::<Candle>::empty(),
    decreases s.len(),
{
    let l = candle_log(s, written);
    if s.len() == 0 {
        lemma_header_only(s, written, asked);
        assert(s =~= Seq::empty());
    } else {
        let p = s.drop_last();
        law_other_periods_are_left_out(p, written, asked);
        lemma_log_last(s, written);
        lemma_row_fields(s.last(), written);
        crate::text::law_u64_reads_back(written);
    }
}

proof fn lemma_row_fields(c: Candle, tf: u64)
    ensures
        crate::text::fields(candle_row(c, tf), ',') == candle_fields(c, tf),
{
    let f = candle_fields(c, tf);
    crate::text::lemma_nat_text(c.t as nat);
    crate::text::lemma_nat_text(tf as nat);
    crate::text::lemma_digits_hold_no(f[0], ',');
    crate::text::lemma_digits_hold_no(f[1], ',');
    crate::amount::law_amounts_hold_no_comma(c.open);
    crate::amount::law_amounts_hold_no_comma(c.high);
    crate::amount::law_amounts_hold_no_comma(c.low);
    crate::amount::law_amounts_hold_no_comma(c.close);
    crate::amount::law_amounts_hold_no_comma(c.volume);
    crate::text::law_split_undoes_join(f, ',');
}

/// A candle reads back from its row.
proof fn lemma_row_reads_back(c: Candle, tf: u64)
    requires
        writable(c),
    ensures
        row_candle(candle_row(c, tf), tf) == Some(c),
{
    lemma_row_fields(c, tf);
    crate::text::law_u64_reads_back(c.t);
    crate::text::law_u64_reads_back(tf);
    crate::amount::law_fixed_reads_back(c.open);
    crate::amount::law_fixed_reads_back(c.high);
    crate::amount::law_fixed_reads_back(c.low);
    crate::amount::law_fixed_reads_back(c.close);
    crate::amount::law_fixed_reads_back(c.volume);
}

/// A timestamp lies in its own bucket, and the bucket starts at a multiple of the period.
pub proof fn law_a_bucket_holds_its_tick(ts: u64, tf: u64)
    requires
        tf > 0,
    ensures
        bucket(ts, tf) <= ts < bucket(ts, tf) + tf,
        bucket(ts, tf) as int % tf as int == 0,
{
    let q = ts as int / tf as int;
    assert(q * tf <= ts < (q + 1) * tf && 0 <= q * tf) by (nonlinear_arith)
        requires
            q == ts as int / tf as int,
            tf > 0,
            ts >= 0,
    ;
    assert((q + 1) * tf == q * tf + tf) by (nonlinear_arith);
    vstd::arithmetic::div_mod::lemma_mod_multiples_basic(q, tf as int);
}

} // verus!
