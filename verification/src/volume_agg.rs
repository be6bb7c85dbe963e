//! Candles with volume, of which a bounded number of closed ones is kept.

use crate::amount::{sat_add, Amount};
use crate::window::push_bounded;
use vstd::prelude::*;

verus! {

/// One candle.
#[derive(Clone, Copy, Debug, PartialEq, Eq, Structural)]
pub struct Candle {
    /// Bucket start (Unix seconds).
    pub t: u64,
    pub open: Amount,
    pub high: Amount,
    pub low: Amount,
    pub close: Amount,
    pub volume: Amount,
}

/// The closed candles of one period, oldest first, and the one that is still open.
#[derive(Clone, Debug)]
pub struct CandleAgg {
    period_secs: u64,
    current: Option<Candle>,
    closed: Vec<Candle>,
    max_keep: usize,
}

/// How many closed candles are kept.
pub const KEPT: usize = 5000;

/// The volume that a tick adds: none where it is negative.
pub open spec fn gained(volume: Amount) -> Amount {
    if volume > 0 {
        volume
    } else {
        0
    }
}

/// The start of the bucket that `ts` falls into.
pub open spec fn bucket_of(ts: u64, secs: u64) -> u64 {
    (ts - ts % secs) as u64
}

/// A candle of a single tick.
pub open spec fn first_tick(t: u64, price: Amount, volume: Amount) -> Candle {
    Candle { t, open: price, high: price, low: price, close: price, volume: gained(volume) }
}

/// A candle after one more tick.
pub open spec fn next_tick(c: Candle, price: Amount, volume: Amount) -> Candle {
    Candle {
        t: c.t,
        open: c.open,
        high: if price > c.high {
            price
        } else {
            c.high
        },
        low: if price < c.low {
            price
        } else {
            c.low
        },
        close: price,
        volume: crate::amount::sat(c.volume + gained(volume)) as Amount,
    }
}

/// The closed candles and the open one after a tick.
pub open spec fn after_tick(
    closed: Seq<Candle>,
    open: Option<Candle>,
    secs: u64,
    ts: u64,
    price: Amount,
    volume: Amount,
) -> (Seq<Candle>, Option<Candle>) {
    let t = bucket_of(ts, secs);
    match open {
        Some(c) if c.t == t => (closed, Some(next_tick(c, price, volume))),
        Some(c) => (crate::window::newest(closed.push(c), KEPT as nat), Some(first_tick(t, price, volume))),
        None => (closed, Some(first_tick(t, price, volume))),
    }
}

impl CandleAgg {
    pub closed spec fn period(&self) -> u64 {
        self.period_secs
    }

    /// The candle that ticks still reach.
    pub closed spec fn open_candle(&self) -> Option<Candle> {
        self.current
    }

    /// The finished candles that are kept, oldest first.
    pub closed spec fn closed_candles(&self) -> Seq<Candle> {
        self.closed@
    }

    /// At most `KEPT` closed candles are held.
    pub closed spec fn wf(&self) -> bool {
        self.max_keep == KEPT && self.closed@.len() <= KEPT
    }

    /// Every candle, the open one last.
    pub open spec fn all_candles(&self) -> Seq<Candle> {
        match self.open_candle() {
            Some(c) => self.closed_candles().push(c),
            None => self.closed_candles(),
        }
    }

    pub fn new(period_secs: u64) -> (r: Self)
        ensures
            r.wf(),
            r.period() == period_secs,
            r.open_candle() is None,
            r.closed_candles() == Seq::<Candle>::empty(),
    {
        CandleAgg { period_secs, current: None, closed: Vec::new(), max_keep: KEPT }
    }

    /// The start of the bucket of a timestamp.
    pub fn bucket_start(&self, ts: u64) -> (r: u64)
        requires
            self.period() > 0,
        ensures
            r == bucket_of(ts, self.period()),
    {
        let p: u64 = self.period_secs;
        assert(ts % p <= ts) by (nonlinear_arith)
            requires
                p > 0,
        ;
        ts - (ts % p)
    }

    /// Update with a tick. A tick of the open bucket changes the open candle; another
    /// one closes it and opens the next.
    pub fn update(&mut self, ts: u64, price: Amount, volume: Amount)
        requires
            old(self).wf(),
            old(self).period() > 0,
        ensures
            final(self).wf(),
            final(self).period() == old(self).period(),
            (final(self).closed_candles(), final(self).open_candle()) == after_tick(
                old(self).closed_candles(),
                old(self).open_candle(),
                old(self).period(),
                ts,
                price, volume,
            ),
            ({
                let t = bucket_of(ts, old(self).period());
                match old(self).open_candle() {
                    Some(c) if c.t == t => {
                        &&& final(self).open_candle() == Some(next_tick(c, price, volume))
                        &&& final(self).closed_candles() == old(self).closed_candles()
                    },
                    Some(c) => {
                        &&& final(self).open_candle() == Some(first_tick(t, price, volume))
                        &&& final(self).closed_candles() == crate::window::newest(
                            old(self).closed_candles().push(c),
                            KEPT as nat,
                        )
                    },
                    None => {
                        &&& final(self).open_candle() == Some(first_tick(t, price, volume))
                        &&& final(self).closed_candles() == old(self).closed_candles()
                    },
                }
            }),
    {
        let start: u64 = self.bucket_start(ts);
        let gain: Amount = if volume > 0 {
            volume
        } else {
            0
        };
        let fresh = Candle { t: start, open: price, high: price, low: price, close: price, volume: gain };
        match self.current {
            None => {
                self.current = Some(fresh);
            },
            Some(old_candle) => {
                let mut c: Candle = old_candle;
                if c.t == start {
                    if price > c.high {
                        c.high = price;
                    }
                    if price < c.low {
                        c.low = price;
                    }
                    c.close = price;
                    c.volume = sat_add(c.volume, gain);
                    self.current = Some(c);
                } else {
                    push_bounded(&mut self.closed, c, self.max_keep);
                    self.current = Some(fresh);
                }
            },
        }
    }

    /// All closed candles and the open one as a single series.
    pub fn get_series(&self) -> (r: Vec<Candle>)
        ensures
            r@ == self.all_candles(),
    {
        let mut out: Vec<Candle> = Vec::new();
        let n: usize = self.closed.len();
        let mut i: usize = 0;
        while i < n
            invariant
                i <= n,
                n == self.closed@.len(),
                out@ == self.closed@.take(i as int),
            decreases n - i,
        {
            out.push(self.closed[i]);
            assert(out@ =~= self.closed@.take(i + 1));
            i += 1;
        }
        assert(out@ =~= self.closed@);
        if let Some(c) = self.current {
            out.push(c);
        }
        out
    }
}

/// Whether the extremes of a candle enclose its first and last price.
pub open spec fn shaped(c: Candle) -> bool {
    c.low <= c.open <= c.high && c.low <= c.close <= c.high
}

/// A tick keeps the extremes of a candle around its first and last price.
pub proof fn law_ticks_keep_shape(c: Candle, t: u64, price: Amount, volume: Amount)
    ensures
        shaped(first_tick(t, price, volume)),
        shaped(c) ==> shaped(next_tick(c, price, volume)),
{
}

/// A full aggregator shows at most the kept candles and the open one.
pub proof fn law_series_is_bounded(agg: CandleAgg)
    requires
        agg.wf(),
    ensures
        agg.all_candles().len() <= KEPT + 1,
{
}

/// A timestamp lies in its own bucket, and the bucket starts at a multiple of the period.
pub proof fn law_bucket_holds_its_tick(ts: u64, secs: u64)
    requires
        secs > 0,
    ensures
        bucket_of(ts, secs) <= ts < bucket_of(ts, secs) + secs,
        bucket_of(ts, secs) as int % secs as int == 0,
{
    let r = ts as int % secs as int;
    assert(0 <= r < secs && r <= ts && (ts - r) % (secs as int) == 0) by (nonlinear_arith)
        requires
            r == ts as int % secs as int,
            secs > 0,
    {
        vstd::arithmetic::div_mod::lemma_fundamental_div_mod(ts as int, secs as int);
        vstd::arithmetic::div_mod::lemma_mod_multiples_basic(ts as int / secs as int, secs as int);
        assert(ts - r == (ts as int / secs as int) * secs);
    }
}

/// A candle as the other windows have it.
pub open spec fn common(c: Candle) -> crate::candle_agg::Candle {
    crate::candle_agg::Candle {
        t: c.t,
        open: c.open,
        high: c.high,
        low: c.low,
        close: c.close,
        volume: c.volume,
    }
}

/// The closed candles and the open one as a single series.
pub open spec fn series(closed: Seq<Candle>, open: Option<Candle>) -> Seq<crate::candle_agg::Candle> {
    let s = closed.map_values(|c: Candle| common(c));
    match open {
        Some(c) => s.push(common(c)),
        None => s,
    }
}

/// While no candle has to leave, a tick does to the series what it does to every series of
/// candles; a negative volume counts for nothing.
pub proof fn law_ticks_make_common_candles(
    closed: Seq<Candle>,
    open: Option<Candle>,
    secs: u64,
    ts: u64,
    price: Amount,
    volume: Amount,
)
    requires
        secs > 0,
        closed.len() < KEPT,
        open is None ==> closed.len() == 0,
    ensures
        ({
            let after = after_tick(closed, open, secs, ts, price, volume);
            series(after.0, after.1) == crate::candle_agg::ticked(
                series(closed, open),
                secs,
                ts,
                price,
                (if volume < 0 { 0 } else { volume }),
            )
        }),
{
    let after = after_tick(closed, open, secs, ts, price, volume);
    let s = series(closed, open);
    assert((ts / secs) * secs == ts - ts % secs) by (nonlinear_arith)
        requires
            secs > 0,
    ;
    assert(bucket_of(ts, secs) == crate::candle_agg::bucket(ts, secs));
    match open {
        Some(c) => {
            assert(s.last() == common(c));
            if c.t == bucket_of(ts, secs) {
                assert(s.drop_last() =~= closed.map_values(|c: Candle| common(c)));
            } else {
                assert(closed.push(c).map_values(|c: Candle| common(c)) =~= s);
            }
        },
        None => {
            assert(s =~= Seq::empty());
        },
    }
    assert(series(after.0, after.1) =~= crate::candle_agg::ticked(
        s,
        secs,
        ts,
        price,
        (if volume < 0 { 0 } else { volume }),
    ));
}

} // verus!
