//! Replaying the logged events of a market: the book, the candles and the trades as
//! they stood at a given time.

use crate::amount::{sat_abs, Amount};
use crate::book::{BookState, Quote, Side};
use crate::candle_agg::{Candle, CandleAgg};
use crate::events::{sort_trades, BookCsvEvent, TickerData, TradeCsvEvent};
use crate::text::same_lower;
use crate::window::keep_newest;
use vstd::prelude::*;

verus! {

/// How many trades a snapshot shows.
pub const SHOWN_TRADES: usize = 200;

/// The period of the candles that a snapshot falls back to.
pub const ONE_MINUTE: u64 = 60;

/// A market at one time, with the candles of one period.
#[derive(Debug)]
pub struct Snapshot {
    pub bids: Side,
    pub asks: Side,
    pub candles: Vec<Candle>,
    pub trades: Vec<TradeCsvEvent>,
    pub last_mid: Amount,
    pub last_vol: Amount,
}

/// A market at one time, with the candles of several periods.
#[derive(Debug)]
pub struct MultiSnapshot {
    pub bids: Side,
    pub asks: Side,
    pub candles_by_tf: Vec<CandleAgg>,
    pub trades: Vec<TradeCsvEvent>,
    pub last_mid: Amount,
    pub last_vol: Amount,
}

/// The sizes of both sides.
pub ghost struct Sides {
    pub bids: crate::book::Sizes,
    pub asks: crate::book::Sizes,
}

/// Whether an event is one of the bid side; every other one is one of the ask side.
pub open spec fn is_bid(side: Seq<char>) -> bool {
    crate::text::lower_text(side) == "bid"@
}

/// The book after the given events.
pub open spec fn sides_after(evs: Seq<crate::events::BookRow>) -> Sides
    decreases evs.len(),
{
    if evs.len() == 0 {
        Sides { bids: Map::empty(), asks: Map::empty() }
    } else {
        let s = sides_after(evs.drop_last());
        let e = evs.last();
        let q = Quote { price: e.price, size: e.size };
        if is_bid(e.side) {
            Sides { bids: crate::book::updated(s.bids, q), asks: s.asks }
        } else {
            Sides { bids: s.bids, asks: crate::book::updated(s.asks, q) }
        }
    }
}

/// The candles after the given events: each event after which both sides are there is
/// a tick at the middle, with the size of the event as its volume.
pub open spec fn candles_after(evs: Seq<crate::events::BookRow>, tf: u64) -> Seq<Candle>
    decreases evs.len(),
{
    if evs.len() == 0 {
        Seq::empty()
    } else {
        let before = candles_after(evs.drop_last(), tf);
        let s = sides_after(evs);
        match crate::book::mid_of(s.bids, s.asks) {
            Some(mid) => crate::candle_agg::ticked(
                before,
                tf,
                evs.last().ts,
                mid,
                volume_of(evs.last().size),
            ),
            None => before,
        }
    }
}

/// The volume that an event of this size counts for.
pub open spec fn volume_of(size: Amount) -> Amount {
    crate::amount::sat(crate::amount::magnitude(size as int) as int) as Amount
}

/// How many events come before the first one that is later than `target`.
pub open spec fn cutoff(evs: Seq<crate::events::BookRow>, target: u64) -> int
    decreases evs.len(),
{
    if evs.len() == 0 || evs[0].ts > target {
        0
    } else {
        1 + cutoff(evs.drop_first(), target)
    }
}

/// The events before the first one that is later than `target`.
pub open spec fn seen(evs: Seq<crate::events::BookRow>, target: u64) -> Seq<crate::events::BookRow> {
    evs.take(cutoff(evs, target))
}

/// The trades that are not later than `target`.
pub open spec fn trades_until(t: Seq<crate::events::TradeRow>, target: u64) -> Seq<crate::events::TradeRow>
    decreases t.len(),
{
    if t.len() == 0 {
        t
    } else if t.last().ts <= target {
        trades_until(t.drop_last(), target).push(t.last())
    } else {
        trades_until(t.drop_last(), target)
    }
}

/// The newest trades that are not later than `target`, oldest first.
pub open spec fn shown_trades(t: Seq<crate::events::TradeRow>, target: u64) -> Seq<crate::events::TradeRow> {
    crate::window::newest(
        crate::events::in_time_order(trades_until(t, target), crate::events::trade_time()),
        SHOWN_TRADES as nat,
    )
}

pub open spec fn last_close(s: Seq<Candle>) -> Amount {
    if s.len() > 0 {
        s.last().close
    } else {
        0
    }
}

pub open spec fn last_volume(s: Seq<Candle>) -> Amount {
    if s.len() > 0 {
        s.last().volume
    } else {
        0
    }
}

pub open spec fn all_positive(tfs: Seq<u64>) -> bool {
    forall|i: int| 0 <= i < tfs.len() ==> #[trigger] tfs[i] > 0
}

/// Whether the aggregators hold, period by period, the candles of the events.
pub open spec fn aggregate(aggs: Seq<CandleAgg>, tfs: Seq<u64>, evs: Seq<crate::events::BookRow>) -> bool {
    &&& aggs.len() == tfs.len()
    &&& forall|i: int| 0 <= i < tfs.len() ==> (#[trigger] aggs[i]).period() == tfs[i]
    &&& forall|i: int| 0 <= i < tfs.len() ==> (#[trigger] aggs[i]).candles() == candles_after(evs, tfs[i])
}

/// The candles of the first aggregator with this period.
pub open spec fn series_of(aggs: Seq<CandleAgg>, tf: u64) -> Option<Seq<Candle>>
    decreases aggs.len(),
{
    if aggs.len() == 0 {
        None
    } else if aggs[0].period() == tf {
        Some(aggs[0].candles())
    } else {
        series_of(aggs.drop_first(), tf)
    }
}

/// The first series that is not empty.
pub open spec fn first_series(aggs: Seq<CandleAgg>) -> Seq<Candle>
    decreases aggs.len(),
{
    if aggs.len() == 0 {
        Seq::empty()
    } else if aggs[0].candles().len() > 0 {
        aggs[0].candles()
    } else {
        first_series(aggs.drop_first())
    }
}

// ---------------------------------------------------------------------------
// Replaying

/// Aggregators without candles, one per period.
pub fn empty_live_candles(tfs: &Vec<u64>) -> (r: Vec<CandleAgg>)
    ensures
        r@.len() == tfs@.len(),
        forall|i: int| 0 <= i < tfs@.len() ==> (#[trigger] r@[i]).period() == tfs@[i],
        forall|i: int| 0 <= i < tfs@.len() ==> (#[trigger] r@[i]).candles() == Seq::<Candle>::empty(),
{
    let mut out: Vec<CandleAgg> = Vec::new();
    let n: usize = tfs.len();
    let mut i: usize = 0;
    while i < n
        invariant
            i <= n,
            n == tfs@.len(),
            out@.len() == i,
            forall|j: int| 0 <= j < i ==> (#[trigger] out@[j]).period() == tfs@[j],
            forall|j: int| 0 <= j < i ==> (#[trigger] out@[j]).candles() == Seq::<Candle>::empty(),
        decreases n - i,
    {
        out.push(CandleAgg::new(tfs[i]));
        i += 1;
    }
    out
}

/// One tick for every aggregator.
pub fn tick_all(aggs: &mut Vec<CandleAgg>, ts: u64, mid: Amount, volume: Amount)
    requires
        forall|i: int| 0 <= i < old(aggs)@.len() ==> (#[trigger] old(aggs)@[i]).period() > 0,
    ensures
        final(aggs)@.len() == old(aggs)@.len(),
        forall|i: int|
            0 <= i < old(aggs)@.len() ==> (#[trigger] final(aggs)@[i]).period() == old(aggs)@[i].period(),
        forall|i: int|
            0 <= i < old(aggs)@.len() ==> (#[trigger] final(aggs)@[i]).candles()
                == crate::candle_agg::ticked(
                old(aggs)@[i].candles(),
                old(aggs)@[i].period(),
                ts,
                mid,
                volume,
            ),
{
    let ghost start = aggs@;
    let n: usize = aggs.len();
    let mut i: usize = 0;
    while i < n
        invariant
            i <= n,
            n == aggs@.len(),
            n == start.len(),
            forall|j: int| 0 <= j < n ==> (#[trigger] start[j]).period() > 0,
            forall|j: int| 0 <= j < n ==> (#[trigger] aggs@[j]).period() == start[j].period(),
            forall|j: int| i <= j < n ==> (#[trigger] aggs@[j]).candles() == start[j].candles(),
            forall|j: int|
                0 <= j < i ==> (#[trigger] aggs@[j]).candles() == crate::candle_agg::ticked(
                    start[j].candles(),
                    start[j].period(),
                    ts,
                    mid,
                    volume,
                ),
        decreases n - i,
    {
        assert(aggs@[i as int].period() == start[i as int].period());
        assert(start[i as int].period() > 0);
        aggs[i].update(ts, mid, volume);
        i += 1;
    }
}

/// Replays the first `count` events.
fn replay(events: &Vec<BookCsvEvent>, count: usize, tfs: &Vec<u64>) -> (r: (BookState, Vec<CandleAgg>))
    requires
        count <= events@.len(),
        all_positive(tfs@),
    ensures
        r.0.wf(),
        r.0.bids@ == sides_after(crate::events::book_rows(events@).take(count as int)).bids,
        r.0.asks@ == sides_after(crate::events::book_rows(events@).take(count as int)).asks,
        aggregate(r.1@, tfs@, crate::events::book_rows(events@).take(count as int)),
{
    let ghost rows = crate::events::book_rows(events@);
    let mut book = BookState::new();
    let mut aggs: Vec<CandleAgg> = empty_live_candles(tfs);
    let mut i: usize = 0;
    while i < count
        invariant
            i <= count <= events@.len(),
            rows == crate::events::book_rows(events@),
            all_positive(tfs@),
            book.wf(),
            book.bids@ == sides_after(rows.take(i as int)).bids,
            book.asks@ == sides_after(rows.take(i as int)).asks,
            aggregate(aggs@, tfs@, rows.take(i as int)),
        decreases count - i,
    {
        let e: &BookCsvEvent = &events[i];
        let ghost next = rows.take(i + 1);
        proof {
            assert(next.drop_last() =~= rows.take(i as int));
            assert(next.last() == e@);
        }
        let q = Quote { price: e.price, size: e.size };
        if same_lower(e.side.as_str(), "bid") {
            book.bids.apply(q);
        } else {
            book.asks.apply(q);
        }
        if let Some(mid) = book.mid() {
            let volume: Amount = sat_abs(e.size);
            let ghost before = aggs@;
            proof {
                assert forall|j: int| 0 <= j < before.len() implies (#[trigger] before[j]).period() > 0 by {
                    assert(tfs@[j] > 0);
                }
            }
            tick_all(&mut aggs, e.ts, mid, volume);
            proof {
                assert forall|j: int| 0 <= j < tfs@.len() implies (#[trigger] aggs@[j]).candles() == candles_after(
                    next,
                    tfs@[j],
                ) by {
                    assert(before[j].period() == tfs@[j]);
                    assert(before[j].candles() == candles_after(rows.take(i as int), tfs@[j]));
                }
                assert forall|j: int| 0 <= j < tfs@.len() implies (#[trigger] aggs@[j]).period() == tfs@[j] by {
                    assert(before[j].period() == tfs@[j]);
                }
            }
        }
        i += 1;
    }
    (book, aggs)
}

fn count_until(events: &Vec<BookCsvEvent>, target: u64) -> (r: usize)
    ensures
        r == cutoff(crate::events::book_rows(events@), target),
        r <= events@.len(),
{
    let ghost rows = crate::events::book_rows(events@);
    let n: usize = events.len();
    let mut i: usize = 0;
    proof {
        assert(rows.skip(0) =~= rows);
    }
    while i < n
        invariant
            i <= n,
            n == events@.len(),
            rows == crate::events::book_rows(events@),
            cutoff(rows, target) == i + cutoff(rows.skip(i as int), target),
        decreases n - i,
    {
        assert(rows.skip(i as int)[0] == events@[i as int]@);
        if events[i].ts > target {
            return i;
        }
        assert(rows.skip(i as int).drop_first() =~= rows.skip(i + 1));
        i += 1;
    }
    i
}

fn trades_at(trades: &Vec<TradeCsvEvent>, target: u64) -> (r: Vec<TradeCsvEvent>)
    ensures
        crate::events::trade_rows(r@) == shown_trades(crate::events::trade_rows(trades@), target),
{
    let ghost rows = crate::events::trade_rows(trades@);
    let n: usize = trades.len();
    let mut kept: Vec<TradeCsvEvent> = Vec::new();
    let mut i: usize = 0;
    proof {
        assert(rows.take(0) =~= Seq::empty());
        assert(crate::events::trade_rows(kept@) =~= Seq::empty());
    }
    while i < n
        invariant
            i <= n,
            n == trades@.len(),
            rows == crate::events::trade_rows(trades@),
            crate::events::trade_rows(kept@) == trades_until(rows.take(i as int), target),
        decreases n - i,
    {
        let ghost before = kept@;
        proof {
            assert(rows.take(i + 1).drop_last() =~= rows.take(i as int));
            assert(rows.take(i + 1).last() == trades@[i as int]@);
        }
        if trades[i].ts <= target {
            let t: TradeCsvEvent = trades[i].copy();
            kept.push(t);
            assert(crate::events::trade_rows(kept@) =~= crate::events::trade_rows(before).push(t@));
        }
        i += 1;
    }
    assert(rows.take(n as int) =~= rows);
    let mut out: Vec<TradeCsvEvent> = sort_trades(&kept);
    let ghost sorted = out@;
    keep_newest(&mut out, SHOWN_TRADES);
    assert(crate::events::trade_rows(out@) =~= crate::window::newest(
        crate::events::trade_rows(sorted),
        SHOWN_TRADES as nat,
    ));
    out
}

fn copy_series(s: &Vec<Candle>) -> (r: Vec<Candle>)
    ensures
        r@ == s@,
{
    let n: usize = s.len();
    let mut out: Vec<Candle> = Vec::new();
    let mut i: usize = 0;
    while i < n
        invariant
            i <= n,
            n == s@.len(),
            out@ == s@.take(i as int),
        decreases n - i,
    {
        out.push(s[i]);
        assert(out@ =~= s@.take(i + 1));
        i += 1;
    }
    assert(out@ =~= s@);
    out
}

fn last_values(s: &Vec<Candle>) -> (r: (Amount, Amount))
    ensures
        r.0 == last_close(s@),
        r.1 == last_volume(s@),
{
    let n: usize = s.len();
    if n > 0 {
        (s[n - 1].close, s[n - 1].volume)
    } else {
        (0, 0)
    }
}

/// The market as it stood at `target_ts`, with the candles of one period.
pub fn compute_snapshot_for(data: &TickerData, target_ts: u64, tf_secs: u64) -> (r: Snapshot)
    requires
        tf_secs > 0,
    ensures
        r.bids.wf(),
        r.asks.wf(),
        r.bids@ == sides_after(seen(data.book(), target_ts)).bids,
        r.asks@ == sides_after(seen(data.book(), target_ts)).asks,
        r.candles@ == candles_after(seen(data.book(), target_ts), tf_secs),
        crate::events::trade_rows(r.trades@) == shown_trades(data.trades(), target_ts),
        r.last_mid == last_close(r.candles@),
        r.last_vol == last_volume(r.candles@),
{
    let count: usize = count_until(&data.book_events, target_ts);
    let mut tfs: Vec<u64> = Vec::new();
    tfs.push(tf_secs);
    let (book, aggs) = replay(&data.book_events, count, &tfs);
    let trades: Vec<TradeCsvEvent> = trades_at(&data.trade_events, target_ts);
    assert(aggs@[0].candles() == candles_after(seen(data.book(), target_ts), tfs@[0]));
    let candles: Vec<Candle> = copy_series(aggs[0].series());
    let (last_mid, last_vol) = last_values(&candles);
    Snapshot { bids: book.bids, asks: book.asks, candles, trades, last_mid, last_vol }
}

/// Whether a snapshot is the one of a market at a time, with the candles of these periods.
pub open spec fn is_multi_of(r: MultiSnapshot, data: TickerData, target_ts: u64, tfs: Seq<u64>) -> bool {
    &&& r.bids.wf()
    &&& r.asks.wf()
    &&& r.bids@ == sides_after(seen(data.book(), target_ts)).bids
    &&& r.asks@ == sides_after(seen(data.book(), target_ts)).asks
    &&& aggregate(r.candles_by_tf@, tfs, seen(data.book(), target_ts))
    &&& crate::events::trade_rows(r.trades@) == shown_trades(data.trades(), target_ts)
    &&& r.last_mid == (match series_of(r.candles_by_tf@, ONE_MINUTE) {
        Some(s) => last_close(s),
        None => 0,
    })
    &&& r.last_vol == (match series_of(r.candles_by_tf@, ONE_MINUTE) {
        Some(s) => last_volume(s),
        None => 0,
    })
}

/// The market as it stood at `target_ts`, with the candles of several periods. The last
/// price and volume are those of the one-minute candles.
pub fn compute_snapshots_for(data: &TickerData, target_ts: u64, tfs: &Vec<u64>) -> (r: MultiSnapshot)
    requires
        all_positive(tfs@),
    ensures
        is_multi_of(r, *data, target_ts, tfs@),
{
    let count: usize = count_until(&data.book_events, target_ts);
    let (book, aggs) = replay(&data.book_events, count, tfs);
    let trades: Vec<TradeCsvEvent> = trades_at(&data.trade_events, target_ts);
    let (last_mid, last_vol): (Amount, Amount) = match find_series(&aggs, ONE_MINUTE) {
        Some(i) => last_values(aggs[i].series()),
        None => (0, 0),
    };
    MultiSnapshot { bids: book.bids, asks: book.asks, candles_by_tf: aggs, trades, last_mid, last_vol }
}

/// The candles of every event, period by period, and the time of the last event.
pub fn build_candles_from_book_events(events: &Vec<BookCsvEvent>, tfs: &Vec<u64>) -> (r: (
    Vec<CandleAgg>,
    u64,
))
    requires
        all_positive(tfs@),
    ensures
        aggregate(r.0@, tfs@, crate::events::book_rows(events@)),
        r.1 == (if events@.len() > 0 {
            events@.last().ts
        } else {
            0
        }),
{
    let n: usize = events.len();
    let (_book, aggs) = replay(events, n, tfs);
    let ghost rows = crate::events::book_rows(events@);
    assert(rows.take(n as int) =~= rows);
    let last_ts: u64 = if n > 0 {
        events[n - 1].ts
    } else {
        0
    };
    (aggs, last_ts)
}

// ---------------------------------------------------------------------------
// Choosing a series

fn find_series(aggs: &Vec<CandleAgg>, tf: u64) -> (r: Option<usize>)
    ensures
        match r {
            Some(i) => i < aggs@.len() && series_of(aggs@, tf) == Some(aggs@[i as int].candles()),
            None => series_of(aggs@, tf) is None,
        },
{
    let n: usize = aggs.len();
    let mut i: usize = 0;
    proof {
        assert(aggs@.skip(0) =~= aggs@);
    }
    while i < n
        invariant
            i <= n,
            n == aggs@.len(),
            series_of(aggs@, tf) == series_of(aggs@.skip(i as int), tf),
        decreases n - i,
    {
        assert(aggs@.skip(i as int)[0] == aggs@[i as int]);
        if aggs[i].tf() == tf {
            return Some(i);
        }
        assert(aggs@.skip(i as int).drop_first() =~= aggs@.skip(i + 1));
        i += 1;
    }
    None
}

/// The candles of the selected period; none where there is no such period.
pub fn live_series(aggs: &Vec<CandleAgg>, selected_tf: u64) -> (r: Vec<Candle>)
    ensures
        r@ == (match series_of(aggs@, selected_tf) {
            Some(s) => s,
            None => Seq::<Candle>::empty(),
        }),
{
    match find_series(aggs, selected_tf) {
        Some(i) => copy_series(aggs[i].series()),
        None => Vec::new(),
    }
}

/// The candles of the selected period, or else the one-minute candles.
pub fn replay_series(aggs: &Vec<CandleAgg>, selected_tf: u64) -> (r: Vec<Candle>)
    ensures
        r@ == (match series_of(aggs@, selected_tf) {
            Some(s) => s,
            None => match series_of(aggs@, ONE_MINUTE) {
                Some(s) => s,
                None => Seq::<Candle>::empty(),
            },
        }),
{
    match find_series(aggs, selected_tf) {
        Some(i) => copy_series(aggs[i].series()),
        None => live_series(aggs, ONE_MINUTE),
    }
}

/// The candles of a period, or else the one-minute candles, or else the first ones
/// that there are; an empty series counts as missing.
#[verifier::loop_isolation(false)]
pub fn series_for_tf(aggs: &Vec<CandleAgg>, tf: u64) -> (r: Vec<Candle>)
    ensures
        r@ == (match series_of(aggs@, tf) {
            Some(s) if s.len() > 0 => s,
            _ => match series_of(aggs@, ONE_MINUTE) {
                Some(s) if s.len() > 0 => s,
                _ => first_series(aggs@),
            },
        }),
{
    let chosen: Vec<Candle> = live_series(aggs, tf);
    if chosen.len() > 0 {
        return chosen;
    }
    let minute: Vec<Candle> = live_series(aggs, ONE_MINUTE);
    if minute.len() > 0 {
        return minute;
    }
    let n: usize = aggs.len();
    let mut i: usize = 0;
    proof {
        assert(aggs@.skip(0) =~= aggs@);
    }
    while i < n
        invariant
            i <= n,
            n == aggs@.len(),
            first_series(aggs@) == first_series(aggs@.skip(i as int)),
        decreases n - i,
    {
        assert(aggs@.skip(i as int)[0] == aggs@[i as int]);
        if aggs[i].series().len() > 0 {
            return copy_series(aggs[i].series());
        }
        assert(aggs@.skip(i as int).drop_first() =~= aggs@.skip(i + 1));
        i += 1;
    }
    Vec::new()
}

// ---------------------------------------------------------------------------
// Laws

/// Events later than the target change nothing.
pub proof fn law_later_events_do_not_show(
    evs: Seq<crate::events::BookRow>,
    more: Seq<crate::events::BookRow>,
    target: u64,
)
    requires
        forall|i: int| 0 <= i < more.len() ==> (#[trigger] more[i]).ts > target,
    ensures
        seen(evs + more, target) == seen(evs, target),
{
    lemma_cutoff_extended(evs, more, target);
    lemma_cutoff_range(evs, target);
    assert(seen(evs + more, target) =~= seen(evs, target));
}

/// In a sorted log, a snapshot sees exactly the events that are not later than its time.
pub proof fn law_snapshot_sees_its_past(evs: Seq<crate::events::BookRow>, target: u64, i: int)
    requires
        crate::events::time_sorted(evs, crate::events::book_time()),
        0 <= i < evs.len(),
    ensures
        i < seen(evs, target).len() <==> evs[i].ts <= target,
{
    lemma_cutoff_range(evs, target);
    let c = cutoff(evs, target);
    if c <= i {
        assert((crate::events::book_time())(evs[c]) <= (crate::events::book_time())(evs[i]));
    }
}

/// A later snapshot sees everything that an earlier one sees.
pub proof fn law_seen_grows(evs: Seq<crate::events::BookRow>, a: u64, b: u64)
    requires
        a <= b,
    ensures
        seen(evs, a).len() <= seen(evs, b).len(),
        seen(evs, a) == seen(evs, b).take(seen(evs, a).len() as int),
{
    lemma_cutoff_range(evs, a);
    lemma_cutoff_range(evs, b);
    let x = cutoff(evs, a);
    let y = cutoff(evs, b);
    if y < x {
        assert(evs[y].ts <= a);
    }
    assert(seen(evs, a) =~= seen(evs, b).take(x));
}

/// The candles of a sorted log are in the order of time, one per bucket, aligned to
/// their period, with their extremes around their prices.
pub proof fn law_replayed_candles_are_sound(evs: Seq<crate::events::BookRow>, tf: u64)
    requires
        tf > 0,
        crate::events::time_sorted(evs, crate::events::book_time()),
    ensures
        crate::candle_agg::in_order(candles_after(evs, tf)),
        crate::candle_agg::all_shaped(candles_after(evs, tf), tf),
        candles_after(evs, tf).len() > 0 ==> evs.len() > 0 && candles_after(evs, tf).last().t
            <= crate::candle_agg::bucket(evs.last().ts, tf),
    decreases evs.len(),
{
    if evs.len() > 0 {
        let p = evs.drop_last();
        let time = crate::events::book_time();
        assert forall|i: int, j: int| 0 <= i <= j < p.len() implies time(#[trigger] p[i]) <= time(#[trigger] p[j]) by {
            assert(p[i] == evs[i] && p[j] == evs[j]);
        }
        law_replayed_candles_are_sound(p, tf);
        let before = candles_after(p, tf);
        let ts = evs.last().ts;
        if before.len() > 0 {
            assert(time(evs[evs.len() - 2]) <= time(evs[evs.len() - 1]));
            crate::candle_agg::law_buckets_follow_time(p.last().ts, ts, tf);
        }
        let s = sides_after(evs);
        if let Some(mid) = crate::book::mid_of(s.bids, s.asks) {
            let v = volume_of(evs.last().size);
            crate::candle_agg::law_update_keeps_order(before, tf, ts, mid, v);
            crate::candle_agg::law_update_keeps_shape(before, tf, ts, mid, v);
        }
    }
}

/// No level of a replayed book has size zero.
pub proof fn law_replayed_book_has_no_empty_level(evs: Seq<crate::events::BookRow>)
    ensures
        crate::book::no_zero(sides_after(evs).bids),
        crate::book::no_zero(sides_after(evs).asks),
    decreases evs.len(),
{
    if evs.len() > 0 {
        law_replayed_book_has_no_empty_level(evs.drop_last());
    }
}

/// A snapshot shows no more than two hundred trades, none of them later than its time.
pub proof fn law_shown_trades_are_bounded(t: Seq<crate::events::TradeRow>, target: u64)
    ensures
        shown_trades(t, target).len() <= SHOWN_TRADES,
        forall|i: int| 0 <= i < shown_trades(t, target).len() ==> (#[trigger] shown_trades(t, target)[i]).ts
            <= target,
{
    let time = crate::events::trade_time();
    let u = trades_until(t, target);
    lemma_trades_until(t, target);
    let o = crate::events::in_time_order(u, time);
    lemma_order_bound(u, target);
    assert forall|i: int| 0 <= i < shown_trades(t, target).len() implies (#[trigger] shown_trades(t, target)[i]).ts
        <= target by {
        let k = if o.len() > SHOWN_TRADES {
            i + (o.len() - SHOWN_TRADES)
        } else {
            i
        };
        assert(shown_trades(t, target)[i] == o[k]);
    }
}

proof fn lemma_trades_until(t: Seq<crate::events::TradeRow>, target: u64)
    ensures
        forall|i: int| 0 <= i < trades_until(t, target).len() ==> (#[trigger] trades_until(t, target)[i]).ts
            <= target,
    decreases t.len(),
{
    if t.len() > 0 {
        let p = trades_until(t.drop_last(), target);
        lemma_trades_until(t.drop_last(), target);
        let r = trades_until(t, target);
        assert forall|i: int| 0 <= i < r.len() implies (#[trigger] r[i]).ts <= target by {
            if i < p.len() {
                assert(r[i] == p[i]);
            }
        }
    }
}

proof fn lemma_order_bound(u: Seq<crate::events::TradeRow>, target: u64)
    requires
        forall|i: int| 0 <= i < u.len() ==> (#[trigger] u[i]).ts <= target,
    ensures
        forall|i: int|
            0 <= i < crate::events::in_time_order(u, crate::events::trade_time()).len() ==> (
            #[trigger] crate::events::in_time_order(u, crate::events::trade_time())[i]).ts <= target,
    decreases u.len(),
{
    if u.len() > 0 {
        let p = u.drop_last();
        assert forall|i: int| 0 <= i < p.len() implies (#[trigger] p[i]).ts <= target by {
            assert(p[i] == u[i]);
        }
        lemma_order_bound(p, target);
        assert(u[u.len() - 1].ts <= target);
        lemma_placed_bound(crate::events::in_time_order(p, crate::events::trade_time()), u.last(), target);
    }
}

proof fn lemma_placed_bound(s: Seq<crate::events::TradeRow>, x: crate::events::TradeRow, target: u64)
    requires
        forall|i: int| 0 <= i < s.len() ==> (#[trigger] s[i]).ts <= target,
        x.ts <= target,
    ensures
        forall|i: int|
            0 <= i < crate::events::placed(s, x, crate::events::trade_time()).len() ==> (
            #[trigger] crate::events::placed(s, x, crate::events::trade_time())[i]).ts <= target,
    decreases s.len(),
{
    if s.len() > 0 {
        let p = s.drop_last();
        assert forall|i: int| 0 <= i < p.len() implies (#[trigger] p[i]).ts <= target by {
            assert(p[i] == s[i]);
        }
        lemma_placed_bound(p, x, target);
        assert(s[s.len() - 1].ts <= target);
    }
    let time = crate::events::trade_time();
    let r = crate::events::placed(s, x, time);
    assert forall|i: int| 0 <= i < r.len() implies (#[trigger] r[i]).ts <= target by {
        if s.len() > 0 && time(s.last()) > time(x) {
            let q = crate::events::placed(s.drop_last(), x, time);
            if i < q.len() {
                assert(r[i] == q[i]);
            }
        } else if i < s.len() {
            assert(r[i] == s[i]);
        }
    }
}

proof fn lemma_cutoff_range(evs: Seq<crate::events::BookRow>, target: u64)
    ensures
        0 <= cutoff(evs, target) <= evs.len(),
        forall|i: int| 0 <= i < cutoff(evs, target) ==> (#[trigger] evs[i]).ts <= target,
        cutoff(evs, target) < evs.len() ==> evs[cutoff(evs, target)].ts > target,
    decreases evs.len(),
{
    if evs.len() > 0 && evs[0].ts <= target {
        let r = evs.drop_first();
        lemma_cutoff_range(r, target);
        assert forall|i: int| 0 <= i < cutoff(evs, target) implies (#[trigger] evs[i]).ts <= target by {
            if i > 0 {
                assert(evs[i] == r[i - 1]);
            }
        }
    }
}

proof fn lemma_cutoff_extended(
    evs: Seq<crate::events::BookRow>,
    more: Seq<crate::events::BookRow>,
    target: u64,
)
    requires
        forall|i: int| 0 <= i < more.len() ==> (#[trigger] more[i]).ts > target,
    ensures
        cutoff(evs + more, target) == cutoff(evs, target),
    decreases evs.len(),
{
    if evs.len() == 0 {
        assert(evs + more =~= more);
        if more.len() > 0 {
            assert(more[0].ts > target);
        }
    } else {
        assert((evs + more)[0] == evs[0]);
        assert((evs + more).drop_first() =~= evs.drop_first() + more);
        lemma_cutoff_extended(evs.drop_first(), more, target);
    }
}

/// Whether an event names a level of the side with this key.
pub open spec fn names_level(e: crate::events::BookRow, bid: bool, k: crate::amount::PriceKey) -> bool {
    (crate::text::lower_text(e.side) == "bid"@) == bid && crate::amount::key_of(e.price as int) == k
}

/// The side of a replayed book.
pub open spec fn side_after(evs: Seq<crate::events::BookRow>, bid: bool) -> crate::book::Sizes {
    if bid {
        sides_after(evs).bids
    } else {
        sides_after(evs).asks
    }
}

/// A level of a replayed book has the size that the last event which names it gives; one whose
/// last event has size zero is gone.
pub proof fn law_the_last_event_of_a_level_counts(
    evs: Seq<crate::events::BookRow>,
    i: int,
    bid: bool,
    k: crate::amount::PriceKey,
)
    requires
        0 <= i < evs.len(),
        names_level(evs[i], bid, k),
        forall|j: int| i < j < evs.len() ==> !names_level(#[trigger] evs[j], bid, k),
    ensures
        side_after(evs, bid).contains_key(k) <==> evs[i].size != 0,
        evs[i].size != 0 ==> side_after(evs, bid)[k] == evs[i].size,
    decreases evs.len(),
{
    let p = evs.drop_last();
    if i < evs.len() - 1 {
        assert forall|j: int| i < j < p.len() implies !names_level(#[trigger] p[j], bid, k) by {
            assert(p[j] == evs[j]);
        }
        law_the_last_event_of_a_level_counts(p, i, bid, k);
        assert(!names_level(evs[evs.len() - 1], bid, k));
    }
}

/// A level that no event names is not in the replayed book.
pub proof fn law_an_unnamed_level_is_not_there(
    evs: Seq<crate::events::BookRow>,
    bid: bool,
    k: crate::amount::PriceKey,
)
    requires
        forall|j: int| 0 <= j < evs.len() ==> !names_level(#[trigger] evs[j], bid, k),
    ensures
        !side_after(evs, bid).contains_key(k),
    decreases evs.len(),
{
    if evs.len() > 0 {
        let p = evs.drop_last();
        assert forall|j: int| 0 <= j < p.len() implies !names_level(#[trigger] p[j], bid, k) by {
            assert(p[j] == evs[j]);
        }
        law_an_unnamed_level_is_not_there(p, bid, k);
        assert(!names_level(evs[evs.len() - 1], bid, k));
    }
}

/// Whether both sides have a level after the first `n` events.
pub open spec fn both_sides(evs: Seq<crate::events::BookRow>, n: int) -> bool {
    exists|b: crate::amount::PriceKey, a: crate::amount::PriceKey|
        #![trigger sides_after(evs.take(n)).bids.contains_key(b), sides_after(evs.take(n)).asks.contains_key(a)]
        sides_after(evs.take(n)).bids.contains_key(b) && sides_after(evs.take(n)).asks.contains_key(a)
}

/// Whether these are the ticks of a log, at these places: every event after which both sides
/// have a level, whatever its size, gives one, at the middle of the book after it and with
/// its size as volume.
pub open spec fn are_ticks_of(
    places: Seq<int>,
    ticks: Seq<crate::candle_agg::Tick>,
    evs: Seq<crate::events::BookRow>,
) -> bool {
    &&& places.len() == ticks.len()
    &&& forall|i: int, j: int| 0 <= i < j < places.len() ==> (#[trigger] places[i]) < (#[trigger] places[j])
    &&& forall|j: int| 0 <= j < places.len() ==> 0 <= (#[trigger] places[j]) < evs.len()
    &&& forall|i: int| 0 <= i < evs.len() ==> (#[trigger] both_sides(evs, i + 1) <==> places.contains(i))
    &&& forall|j: int|
        0 <= j < ticks.len() ==> {
            let e = evs[places[j]];
            let book = sides_after(evs.take(places[j] + 1));
            &&& (#[trigger] ticks[j]).ts == e.ts
            &&& Some(ticks[j].price) == crate::book::mid_of(book.bids, book.asks)
            &&& e.size > i128::MIN ==> ticks[j].volume == (if e.size < 0 {
                -e.size
            } else {
                e.size as int
            })
        }
}

proof fn lemma_both_sides(evs: Seq<crate::events::BookRow>, n: int)
    ensures
        both_sides(evs, n) <==> crate::book::mid_of(
            sides_after(evs.take(n)).bids,
            sides_after(evs.take(n)).asks,
        ) is Some,
{
    let s = sides_after(evs.take(n));
    if !s.bids.is_empty() && !s.asks.is_empty() {
        assert(exists|b: crate::amount::PriceKey| s.bids.contains_key(b)) by {
            if forall|b: crate::amount::PriceKey| !s.bids.contains_key(b) {
                assert(s.bids =~= Map::empty());
            }
        }
        assert(exists|a: crate::amount::PriceKey| s.asks.contains_key(a)) by {
            if forall|a: crate::amount::PriceKey| !s.asks.contains_key(a) {
                assert(s.asks =~= Map::empty());
            }
        }
        let b = choose|b: crate::amount::PriceKey| s.bids.contains_key(b);
        let a = choose|a: crate::amount::PriceKey| s.asks.contains_key(a);
        assert(s.bids.contains_key(b) && s.asks.contains_key(a));
    }
    if both_sides(evs, n) {
        let (b, a) = choose|b: crate::amount::PriceKey, a: crate::amount::PriceKey|
            #![trigger s.bids.contains_key(b), s.asks.contains_key(a)]
            s.bids.contains_key(b) && s.asks.contains_key(a);
        assert(!s.bids.is_empty() && !s.asks.is_empty());
    }
}

/// The candles of a replayed log are those of its ticks.
pub proof fn law_candles_are_those_of_the_log(evs: Seq<crate::events::BookRow>, tf: u64) -> (r: (
    Seq<int>,
    Seq<crate::candle_agg::Tick>,
))
    requires
        tf > 0,
        crate::events::time_sorted(evs, crate::events::book_time()),
    ensures
        are_ticks_of(r.0, r.1, evs),
        crate::candle_agg::candles_over(candles_after(evs, tf), tf, r.1),
        r.1.len() > 0 ==> r.1.last().ts <= evs.last().ts,
    decreases evs.len(),
{
    if evs.len() == 0 {
        (Seq::empty(), Seq::empty())
    } else {
        let p = evs.drop_last();
        let n = p.len() as int;
        let time = crate::events::book_time();
        assert forall|i: int, j: int| 0 <= i <= j < p.len() implies time(#[trigger] p[i]) <= time(#[trigger] p[j]) by {
            assert(p[i] == evs[i] && p[j] == evs[j]);
        }
        let (places, ticks) = law_candles_are_those_of_the_log(p, tf);
        if n > 0 {
            assert(time(evs[n - 1]) <= time(evs[n]));
        }
        assert forall|i: int| 0 <= i <= n implies #[trigger] p.take(i) == evs.take(i) by {
            assert(p.take(i) =~= evs.take(i));
        }
        assert(evs.take(n + 1) =~= evs);
        assert(evs.take(n) =~= p);
        lemma_both_sides(evs, n + 1);
        let s = sides_after(evs);
        let e = evs.last();
        match crate::book::mid_of(s.bids, s.asks) {
            Some(mid) => {
                let x = crate::candle_agg::Tick { ts: e.ts, price: mid, volume: volume_of(e.size) };
                let more = places.push(n);
                let all = ticks.push(x);
                crate::candle_agg::lemma_tick_over(candles_after(p, tf), tf, ticks, x);
                assert forall|i: int| 0 <= i < evs.len() implies (#[trigger] both_sides(evs, i + 1) <==> more.contains(
                    i,
                )) by {
                    if i < n {
                        lemma_same_sides(p, evs, i + 1);
                        if places.contains(i) {
                            let k = choose|k: int| 0 <= k < places.len() && places[k] == i;
                            assert(more[k] == i);
                        }
                        if more.contains(i) {
                            let k = choose|k: int| 0 <= k < more.len() && more[k] == i;
                            assert(places[k] == i);
                        }
                    } else {
                        assert(more[places.len() as int] == n);
                    }
                }
                assert forall|j: int| 0 <= j < all.len() implies {
                    let e = evs[more[j]];
                    let book = sides_after(evs.take(more[j] + 1));
                    &&& (#[trigger] all[j]).ts == e.ts
                    &&& Some(all[j].price) == crate::book::mid_of(book.bids, book.asks)
                    &&& e.size > i128::MIN ==> all[j].volume == (if e.size < 0 {
                        -e.size
                    } else {
                        e.size as int
                    })
                } by {
                    if j < ticks.len() {
                        assert(all[j] == ticks[j]);
                        assert(more[j] == places[j]);
                        assert(p.take(places[j] + 1) == evs.take(places[j] + 1));
                        assert(p[places[j]] == evs[places[j]]);
                    }
                }
                assert forall|i: int, j: int| 0 <= i < j < more.len() implies (#[trigger] more[i]) < (
                #[trigger] more[j]) by {
                    if j < places.len() {
                        assert(places[i] < places[j]);
                    } else {
                        assert(places[i] < n);
                    }
                }
                (more, all)
            },
            None => {
                assert forall|i: int| 0 <= i < evs.len() implies (#[trigger] both_sides(evs, i + 1)
                    <==> places.contains(i)) by {
                    if i < n {
                        lemma_same_sides(p, evs, i + 1);
                    } else if places.contains(i) {
                        let k = choose|k: int| 0 <= k < places.len() && places[k] == i;
                        assert(places[k] < n);
                    }
                }
                assert forall|j: int| 0 <= j < ticks.len() implies {
                    let e = evs[places[j]];
                    let book = sides_after(evs.take(places[j] + 1));
                    &&& (#[trigger] ticks[j]).ts == e.ts
                    &&& Some(ticks[j].price) == crate::book::mid_of(book.bids, book.asks)
                    &&& e.size > i128::MIN ==> ticks[j].volume == (if e.size < 0 {
                        -e.size
                    } else {
                        e.size as int
                    })
                } by {
                    assert(p.take(places[j] + 1) == evs.take(places[j] + 1));
                    assert(p[places[j]] == evs[places[j]]);
                }
                (places, ticks)
            },
        }
    }
}

proof fn lemma_same_sides(p: Seq<crate::events::BookRow>, evs: Seq<crate::events::BookRow>, n: int)
    requires
        p.take(n) == evs.take(n),
    ensures
        both_sides(p, n) == both_sides(evs, n),
{
    lemma_both_sides(p, n);
    lemma_both_sides(evs, n);
}

/// Where the last event leaves both sides with a level, the newest candle closes at the middle
/// of the book as it then stands, and so does the snapshot.
pub proof fn law_a_snapshot_closes_at_its_own_middle(evs: Seq<crate::events::BookRow>, tf: u64)
    requires
        tf > 0,
        evs.len() > 0,
    ensures
        crate::book::mid_of(sides_after(evs).bids, sides_after(evs).asks) matches Some(mid) ==> {
            let c = candles_after(evs, tf);
            &&& c.len() > 0
            &&& c.last().close == mid
            &&& c.last().t == crate::candle_agg::bucket(evs.last().ts, tf)
            &&& last_close(c) == mid
            &&& last_volume(c) == c.last().volume
        },
{
}

/// The last price of a snapshot with several periods is that of its one-minute candles: the
/// middle of its own book, where the last event leaves both sides with a level.
pub proof fn law_a_wide_snapshot_closes_at_its_own_middle(
    r: MultiSnapshot,
    data: TickerData,
    target: u64,
    tfs: Seq<u64>,
    i: int,
)
    requires
        is_multi_of(r, data, target, tfs),
        all_positive(tfs),
        0 <= i < tfs.len(),
        tfs[i] == 60,
        seen(data.book(), target).len() > 0,
    ensures
        crate::book::mid_of(r.bids@, r.asks@) matches Some(mid) ==> r.last_mid == mid,
{
    let evs = seen(data.book(), target);
    law_a_snapshot_closes_at_its_own_middle(evs, 60);
    lemma_series_of(r.candles_by_tf@, tfs, evs, i);
}

proof fn lemma_series_of(aggs: Seq<CandleAgg>, tfs: Seq<u64>, evs: Seq<crate::events::BookRow>, i: int)
    requires
        aggregate(aggs, tfs, evs),
        0 <= i < tfs.len(),
    ensures
        series_of(aggs, tfs[i]) == Some(candles_after(evs, tfs[i])),
    decreases tfs.len(),
{
    assert(aggs[0].period() == tfs[0]);
    assert(aggs[0].candles() == candles_after(evs, tfs[0]));
    if aggs[0].period() != tfs[i] {
        let a = aggs.drop_first();
        let t = tfs.drop_first();
        assert(aggregate(a, t, evs)) by {
            assert forall|j: int| 0 <= j < t.len() implies (#[trigger] a[j]).period() == t[j] by {
                assert(aggs[j + 1].period() == tfs[j + 1]);
            }
            assert forall|j: int| 0 <= j < t.len() implies (#[trigger] a[j]).candles() == candles_after(evs, t[j]) by {
                assert(aggs[j + 1].candles() == candles_after(evs, tfs[j + 1]));
            }
        }
        lemma_series_of(a, t, evs, i - 1);
    }
}

proof fn lemma_at_time_holds<T>(s: Seq<T>, time: spec_fn(T) -> u64, x: T)
    ensures
        crate::events::at_time(s, time, time(x)).contains(x) <==> s.contains(x),
    decreases s.len(),
{
    let a = crate::events::at_time(s, time, time(x));
    if s.len() > 0 {
        let p = s.drop_last();
        let b = crate::events::at_time(p, time, time(x));
        lemma_at_time_holds(p, time, x);
        if s.contains(x) {
            let k = choose|k: int| 0 <= k < s.len() && s[k] == x;
            if k < p.len() {
                assert(p[k] == x);
                let l = choose|l: int| 0 <= l < b.len() && b[l] == x;
                assert(a[l] == x);
            } else {
                assert(a[b.len() as int] == x);
            }
        }
        if a.contains(x) {
            let l = choose|l: int| 0 <= l < a.len() && a[l] == x;
            if l < b.len() {
                assert(b[l] == x);
                let k = choose|k: int| 0 <= k < p.len() && p[k] == x;
                assert(s[k] == x);
            } else {
                assert(s[s.len() - 1] == x);
            }
        }
    }
}

proof fn lemma_until_holds(t: Seq<crate::events::TradeRow>, target: u64, x: crate::events::TradeRow)
    ensures
        trades_until(t, target).contains(x) <==> t.contains(x) && x.ts <= target,
    decreases t.len(),
{
    let u = trades_until(t, target);
    if t.len() > 0 {
        let p = t.drop_last();
        let v = trades_until(p, target);
        lemma_until_holds(p, target, x);
        if t.contains(x) && x.ts <= target {
            let k = choose|k: int| 0 <= k < t.len() && t[k] == x;
            if k < p.len() {
                assert(p[k] == x);
                let l = choose|l: int| 0 <= l < v.len() && v[l] == x;
                assert(u[l] == x);
            } else {
                assert(u[v.len() as int] == x);
            }
        }
        if u.contains(x) {
            let l = choose|l: int| 0 <= l < u.len() && u[l] == x;
            if l < v.len() {
                assert(v[l] == x);
                let k = choose|k: int| 0 <= k < p.len() && p[k] == x;
                assert(t[k] == x);
            } else {
                assert(t[t.len() - 1] == x);
            }
        }
    }
}

/// A snapshot shows the newest trades of its past, oldest first: each of them is one of the
/// log and not later than its time, and one that is not shown is not later than any that is,
/// of which there are then two hundred.
pub proof fn law_the_newest_trades_are_shown(t: Seq<crate::events::TradeRow>, target: u64, x: crate::events::TradeRow)
    requires
        t.contains(x),
        x.ts <= target,
    ensures
        ({
            let s = shown_trades(t, target);
            &&& forall|i: int, j: int| 0 <= i <= j < s.len() ==> (#[trigger] s[i]).ts <= (#[trigger] s[j]).ts
            &&& forall|i: int| 0 <= i < s.len() ==> t.contains(#[trigger] s[i]) && s[i].ts <= target
            &&& s.contains(x) || (s.len() == 200 && forall|i: int| 0 <= i < s.len() ==> x.ts <= (#[trigger] s[i]).ts)
        }),
{
    let time = crate::events::trade_time();
    let u = trades_until(t, target);
    let o = crate::events::in_time_order(u, time);
    let s = shown_trades(t, target);
    crate::events::law_time_order_is_stable(u, time);
    assert forall|y: crate::events::TradeRow| o.contains(y) == u.contains(y) by {
        lemma_at_time_holds(u, time, y);
        lemma_at_time_holds(o, time, y);
        assert(crate::events::at_time(o, time, time(y)) == crate::events::at_time(u, time, time(y)));
    }
    let off = if o.len() > 200 {
        o.len() - 200
    } else {
        0
    };
    assert forall|i: int| 0 <= i < s.len() implies #[trigger] s[i] == o[i + off] by {}
    assert forall|i: int, j: int| 0 <= i <= j < s.len() implies (#[trigger] s[i]).ts <= (#[trigger] s[j]).ts by {
        assert(time(o[i + off]) <= time(o[j + off]));
    }
    assert forall|i: int| 0 <= i < s.len() implies t.contains(#[trigger] s[i]) && s[i].ts <= target by {
        assert(o.contains(o[i + off]));
        lemma_until_holds(t, target, s[i]);
    }
    lemma_until_holds(t, target, x);
    assert(o.contains(x));
    let k = choose|k: int| 0 <= k < o.len() && o[k] == x;
    if k >= off {
        assert(s[k - off] == x);
    } else {
        assert forall|i: int| 0 <= i < s.len() implies x.ts <= (#[trigger] s[i]).ts by {
            assert(time(o[k]) <= time(o[i + off]));
        }
    }
}

/// An event is one of the bids where its side spells the word, in letters of either case; every
/// other event is one of the asks.
pub proof fn law_bids_are_spelled_in_either_case(side: Seq<char>)
    ensures
        is_bid(side) <==> side.len() == 3 && (side[0] == 'b' || side[0] == 'B') && (side[1] == 'i' || side[1] == 'I') && (
        side[2] == 'd' || side[2] == 'D'),
        is_bid("bid"@),
        !is_bid("ask"@),
{
    reveal_strlit("bid");
    reveal_strlit("ask");
    let l = crate::text::lower_text(side);
    if side.len() == 3 {
        assert(l[0] == crate::text::lower(side[0]));
        assert(l[1] == crate::text::lower(side[1]));
        assert(l[2] == crate::text::lower(side[2]));
        if l[0] == 'b' && l[1] == 'i' && l[2] == 'd' {
            assert(l =~= "bid"@);
        }
    }
    let b = crate::text::lower_text("bid"@);
    assert(b[0] == crate::text::lower('b') && b[1] == crate::text::lower('i') && b[2] == crate::text::lower('d'));
    assert(b =~= "bid"@);
    let a = crate::text::lower_text("ask"@);
    assert(a[0] == crate::text::lower('a'));
}

} // verus!
