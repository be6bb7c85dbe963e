//! What a window does about its logs from frame to frame: it takes them over, moves its
//! times and takes its snapshots.

use crate::amount::Amount;
use crate::book::BookState;
use crate::candle_agg::{Candle, CandleAgg};
use crate::events::TickerData;
use crate::session::Mode;
use crate::snapshot::{compute_snapshots_for, live_series, tick_all, MultiSnapshot};
use crate::store::TickerStore;
use crate::timeline::{interval_over, TimePos, TimeRange};
use crate::top_bar::{TopBar, WindowKind};
use vstd::prelude::*;

verus! {

/// The data of a market among what was read: the last one that was read for it.
pub open spec fn loaded_for(loaded: Seq<TickerData>, ticker: Seq<char>) -> Option<TickerData>
    decreases loaded.len(),
{
    if loaded.len() == 0 {
        None
    } else if loaded.last().ticker@ == ticker {
        Some(loaded.last())
    } else {
        loaded_for(loaded.drop_last(), ticker)
    }
}

/// Takes over the markets that were read anew; every other market stays as it is.
pub fn take_all(store: &mut TickerStore, loaded: Vec<TickerData>)
    requires
        old(store).wf(),
        forall|i: int| 0 <= i < loaded@.len() ==> (#[trigger] loaded@[i]).wf(),
    ensures
        final(store).wf(),
        forall|t: Seq<char>| #[trigger]
            final(store).data(t) == (match loaded_for(loaded@, t) {
                Some(d) => Some(d),
                None => old(store).data(t),
            }),
{
    let mut rest: Vec<TickerData> = loaded;
    let ghost all = rest@;
    let ghost start = *store;
    let ghost mut k: int = 0;
    assert(all.take(0) =~= Seq::empty());
    while rest.len() > 0
        invariant
            0 <= k <= all.len(),
            rest@ == all.skip(k),
            store.wf(),
            forall|j: int| 0 <= j < all.len() ==> (#[trigger] all[j]).wf(),
            forall|t: Seq<char>| #[trigger]
                store.data(t) == (match loaded_for(all.take(k), t) {
                    Some(d) => Some(d),
                    None => start.data(t),
                }),
        decreases rest@.len(),
    {
        let d: TickerData = rest.remove(0);
        assert(d == all[k]);
        store.insert(d);
        proof {
            assert(all.take(k + 1).drop_last() =~= all.take(k));
            assert(rest@ =~= all.skip(k + 1));
            k = k + 1;
        }
    }
    assert(all.take(k) =~= all);
}

/// Takes over what was read anew in place of all markets; where nothing was read, every
/// market stays as it is. Tells whether anything was read.
pub fn replace_all(store: &mut TickerStore, loaded: Vec<TickerData>) -> (read: bool)
    requires
        old(store).wf(),
        forall|i: int| 0 <= i < loaded@.len() ==> (#[trigger] loaded@[i]).wf(),
    ensures
        final(store).wf(),
        read == (loaded@.len() > 0),
        !read ==> *final(store) == *old(store),
        read ==> forall|t: Seq<char>| #[trigger] final(store).data(t) == loaded_for(loaded@, t),
{
    if loaded.len() == 0 {
        return false;
    }
    let mut fresh = TickerStore::new();
    take_all(&mut fresh, loaded);
    *store = fresh;
    true
}

/// The times once the logs were read anew: what each window does about them.
pub open spec fn times_after_reload(
    kind: WindowKind,
    mode: Mode,
    p: TimePos,
    all_max_ts: u64,
    range: Option<TimeRange>,
) -> TimePos {
    match kind {
        WindowKind::Wall => {
            let q = TimePos {
                live_ts: if p.live_ts == 0 {
                    all_max_ts
                } else {
                    p.live_ts
                },
                replay_ts: if p.replay_ts == 0 {
                    all_max_ts
                } else {
                    p.replay_ts
                },
            };
            match range {
                Some(r) => crate::timeline::caught_up(q, r),
                None => q,
            }
        },
        _ => match range {
            None => p,
            Some(r) => match kind {
                WindowKind::Script => crate::timeline::in_range(p, r),
                WindowKind::Object => if r.max_ts == 0 {
                    p
                } else {
                    TimePos {
                        live_ts: if mode is Live {
                            r.max_ts
                        } else {
                            p.live_ts
                        },
                        replay_ts: crate::timeline::or_end(p.replay_ts, r),
                    }
                },
                WindowKind::Context => crate::timeline::caught_up(p, r),
                WindowKind::Bot => crate::timeline::in_range(crate::timeline::reloaded(p, r), r),
                _ => p,
            },
        },
    }
}

/// The times of a frame: in live mode most windows follow their market, in replay mode
/// most keep the replay in range.
pub open spec fn times_of_frame(kind: WindowKind, mode: Mode, p: TimePos, r: TimeRange) -> TimePos {
    match mode {
        Mode::Live => match kind {
            WindowKind::Script | WindowKind::Object => TimePos { live_ts: r.max_ts, ..p },
            WindowKind::Context => TimePos {
                live_ts: r.max_ts,
                replay_ts: if p.replay_ts < r.max_ts {
                    r.max_ts
                } else {
                    p.replay_ts
                },
            },
            WindowKind::Chart => if r.max_ts > 0 {
                TimePos { live_ts: r.max_ts, ..p }
            } else {
                p
            },
            WindowKind::Grid => TimePos {
                live_ts: if r.max_ts > p.live_ts {
                    r.max_ts
                } else {
                    p.live_ts
                },
                ..p
            },
            _ => p,
        },
        Mode::Replay => match kind {
            WindowKind::Wall | WindowKind::Grid | WindowKind::Bot => p,
            WindowKind::Chart => if r.min_ts == 0 && r.max_ts == 0 {
                p
            } else {
                TimePos { replay_ts: crate::timeline::clamped(p.replay_ts, r), ..p }
            },
            _ => TimePos { replay_ts: crate::timeline::clamped(p.replay_ts, r), ..p },
        },
    }
}

/// The times of a frame, where the market may have no logs.
pub open spec fn frame_times(kind: WindowKind, mode: Mode, p: TimePos, range: Option<TimeRange>) -> TimePos {
    match range {
        Some(r) => times_of_frame(kind, mode, p, r),
        None => p,
    }
}

/// Whether a window reads its logs again, once this much time has passed since it did: at
/// its interval, the grid window in live mode alone.
pub open spec fn reads_logs(kind: WindowKind, mode: Mode, elapsed: Amount, reload_secs: Amount) -> bool {
    elapsed >= reload_secs && (kind is Grid ==> mode is Live)
}

impl TopBar {
    /// Moves the times once the logs were read anew.
    pub fn after_reload(&mut self, all_max_ts: u64, range: &Option<TimeRange>)
        requires
            range matches Some(r) ==> r.wf(),
        ensures
            final(self)@ == (crate::top_bar::BarView {
                pos: times_after_reload(old(self).kind, old(self).mode, old(self).pos, all_max_ts, *range),
                ..old(self)@
            }),
    {
        if matches!(self.kind, WindowKind::Wall) {
            self.pos.reload_csv_if_due(all_max_ts, range);
            return;
        }
        if let Some(r) = range {
            match self.kind {
                WindowKind::Script => {
                    self.pos.clamp_ts_to_range(r);
                },
                WindowKind::Object => {
                    self.pos.maybe_reload_csvs(r, self.mode);
                },
                WindowKind::Context => {
                    self.pos.catch_up(r);
                },
                WindowKind::Bot => {
                    self.pos.reload_current_ticker(r);
                    self.pos.clamp_ts_to_range(r);
                },
                _ => {},
            }
        }
    }

    /// Whether the window reads its logs again, once this much time has passed since it did.
    /// The grid window does so in live mode alone.
    pub fn reload_is_due(&self, elapsed: Amount) -> (r: bool)
        ensures
            r == reads_logs(self.kind, self.mode, elapsed, self.reload_secs),
    {
        interval_over(elapsed, self.reload_secs) && (!matches!(self.kind, WindowKind::Grid) || matches!(
            self.mode,
            Mode::Live
        ))
    }

    /// Takes over the logs that were read anew, and moves the times. The wall window forgets
    /// the markets that could not be read, unless none could.
    pub fn take_logs(&mut self, store: &mut TickerStore, loaded: Vec<TickerData>)
        requires
            old(store).wf(),
            forall|i: int| 0 <= i < loaded@.len() ==> (#[trigger] loaded@[i]).wf(),
        ensures
            final(store).wf(),
            old(self).kind is Wall && loaded@.len() == 0 ==> *final(store) == *old(store) && final(self)@
                == old(self)@,
            !(old(self).kind is Wall && loaded@.len() == 0) ==> {
                &&& forall|t: Seq<char>| #[trigger]
                    final(store).data(t) == (match loaded_for(loaded@, t) {
                        Some(d) => Some(d),
                        None => if old(self).kind is Wall {
                            None
                        } else {
                            old(store).data(t)
                        },
                    })
                &&& final(self)@ == (crate::top_bar::BarView {
                    pos: times_after_reload(
                        old(self).kind,
                        old(self).mode,
                        old(self).pos,
                        final(store).all_max_ts(),
                        crate::store::range_of(final(store).data(old(self).ticker@)),
                    ),
                    ..old(self)@
                })
            },
    {
        if matches!(self.kind, WindowKind::Wall) {
            if !replace_all(store, loaded) {
                return;
            }
        } else {
            take_all(store, loaded);
        }
        let range: Option<TimeRange> = store.range(self.ticker.as_str());
        self.after_reload(store.latest(), &range);
    }

    /// The next frame of a window: it takes over the logs, where they were read anew, and
    /// moves its times.
    pub fn next_frame(&mut self, store: &mut TickerStore, read: Option<Vec<TickerData>>)
        requires
            old(store).wf(),
            read matches Some(loaded) ==> forall|i: int| 0 <= i < loaded@.len() ==> (#[trigger] loaded@[i]).wf(),
        ensures
            final(store).wf(),
            forall|t: Seq<char>| #[trigger]
                final(store).data(t) == (match read {
                    Some(loaded) => match loaded_for(loaded@, t) {
                        Some(d) => Some(d),
                        None => if old(self).kind is Wall && loaded@.len() > 0 {
                            None
                        } else {
                            old(store).data(t)
                        },
                    },
                    None => old(store).data(t),
                }),
            final(self)@ == (crate::top_bar::BarView {
                pos: frame_times(
                    old(self).kind,
                    old(self).mode,
                    match read {
                        Some(loaded) => if old(self).kind is Wall && loaded@.len() == 0 {
                            old(self).pos
                        } else {
                            times_after_reload(
                                old(self).kind,
                                old(self).mode,
                                old(self).pos,
                                final(store).all_max_ts(),
                                crate::store::range_of(final(store).data(old(self).ticker@)),
                            )
                        },
                        None => old(self).pos,
                    },
                    crate::store::range_of(final(store).data(old(self).ticker@)),
                ),
                ..old(self)@
            }),
    {
        match read {
            Some(loaded) => {
                self.take_logs(store, loaded);
            },
            None => {},
        }
        let range: Option<TimeRange> = store.range(self.ticker.as_str());
        self.frame(&range);
    }

    /// A frame of a window with a live feed: the live time is now, and every period gets a
    /// tick at the middle of the book, where there is one. The volume of a tick is zero.
    pub fn tick_live(&mut self, book: &BookState, candles: &mut Vec<CandleAgg>, now: u64)
        requires
            book.wf(),
            forall|i: int| 0 <= i < old(candles)@.len() ==> (#[trigger] old(candles)@[i]).period() > 0,
        ensures
            final(self)@ == (crate::top_bar::BarView {
                pos: TimePos { live_ts: now, ..old(self).pos },
                ..old(self)@
            }),
            final(candles)@.len() == old(candles)@.len(),
            forall|i: int|
                0 <= i < old(candles)@.len() ==> (#[trigger] final(candles)@[i]).period() == old(
                    candles,
                )@[i].period(),
            forall|i: int|
                0 <= i < old(candles)@.len() ==> (#[trigger] final(candles)@[i]).candles() == (
                match crate::book::mid_of(book.bids@, book.asks@) {
                    Some(mid) => crate::candle_agg::ticked(
                        old(candles)@[i].candles(),
                        old(candles)@[i].period(),
                        now,
                        mid,
                        0,
                    ),
                    None => old(candles)@[i].candles(),
                }),
    {
        self.pos.live_ts = now;
        if let Some(mid) = book.mid() {
            tick_all(candles, now, mid, 0);
        }
    }

    /// Moves the times at a frame.
    pub fn frame(&mut self, range: &Option<TimeRange>)
        requires
            range matches Some(r) ==> r.wf(),
        ensures
            final(self)@ == (crate::top_bar::BarView {
                pos: frame_times(old(self).kind, old(self).mode, old(self).pos, *range),
                ..old(self)@
            }),
    {
        if let Some(r) = range {
            match (self.mode, self.kind) {
                (Mode::Live, WindowKind::Script | WindowKind::Object) => {
                    self.pos.live_ts = r.max_ts;
                },
                (Mode::Live, WindowKind::Context) => {
                    self.pos.follow_tail(r);
                },
                (Mode::Live, WindowKind::Chart) => {
                    if r.max_ts > 0 {
                        self.pos.live_ts = r.max_ts;
                    }
                },
                (Mode::Live, WindowKind::Grid) => {
                    let _moved: bool = self.pos.advance_live(r.max_ts);
                },
                (Mode::Live, _) => {},
                (Mode::Replay, WindowKind::Wall | WindowKind::Grid | WindowKind::Bot) => {},
                (Mode::Replay, WindowKind::Chart) => {
                    self.pos.ensure_replay_ts_in_known_range(r);
                },
                (Mode::Replay, _) => {
                    self.pos.ensure_replay_ts_in_range(r);
                },
            }
        }
    }
}

/// Whether a snapshot is the one of a market at a time, or is missing where the market has
/// no logs.
pub open spec fn is_snapshot_at(
    s: Option<MultiSnapshot>,
    d: Option<TickerData>,
    ts: u64,
    tfs: Seq<u64>,
) -> bool {
    match d {
        Some(d) => s matches Some(s) && crate::snapshot::is_multi_of(s, d, ts, tfs),
        None => s is None,
    }
}

/// The snapshots of a market at the live and at the replay time.
pub fn update_snapshots(store: &TickerStore, ticker: &str, pos: &TimePos, tfs: &Vec<u64>) -> (r: (
    Option<MultiSnapshot>,
    Option<MultiSnapshot>,
))
    requires
        store.wf(),
        crate::snapshot::all_positive(tfs@),
    ensures
        is_snapshot_at(r.0, store.data(ticker@), pos.live_ts, tfs@),
        is_snapshot_at(r.1, store.data(ticker@), pos.replay_ts, tfs@),
{
    match store.get(ticker) {
        Some(d) => (
            Some(compute_snapshots_for(d, pos.live_ts, tfs)),
            Some(compute_snapshots_for(d, pos.replay_ts, tfs)),
        ),
        None => (None, None),
    }
}

/// The snapshot of a market at the time of the mode.
pub fn snapshot_for_mode(store: &TickerStore, ticker: &str, pos: &TimePos, mode: Mode, tfs: &Vec<u64>) -> (r:
    Option<MultiSnapshot>)
    requires
        store.wf(),
        crate::snapshot::all_positive(tfs@),
    ensures
        is_snapshot_at(
            r,
            store.data(ticker@),
            match mode {
                Mode::Live => pos.live_ts,
                Mode::Replay => pos.replay_ts,
            },
            tfs@,
        ),
{
    let ts: u64 = match mode {
        Mode::Live => pos.live_ts,
        Mode::Replay => pos.replay_ts,
    };
    match store.get(ticker) {
        Some(d) => Some(compute_snapshots_for(d, ts, tfs)),
        None => None,
    }
}

/// The candles of a period, or else of the first period that there is.
pub fn series_from_snap(snap: &MultiSnapshot, tf: u64) -> (r: Vec<Candle>)
    ensures
        r@ == (match crate::snapshot::series_of(snap.candles_by_tf@, tf) {
            Some(s) => s,
            None => if snap.candles_by_tf@.len() > 0 {
                snap.candles_by_tf@[0].candles()
            } else {
                Seq::empty()
            },
        }),
{
    let aggs: &Vec<CandleAgg> = &snap.candles_by_tf;
    let n: usize = aggs.len();
    let mut i: usize = 0;
    proof {
        assert(aggs@.skip(0) =~= aggs@);
    }
    while i < n
        invariant
            i <= n,
            n == aggs@.len(),
            *aggs == snap.candles_by_tf,
            crate::snapshot::series_of(aggs@, tf) == crate::snapshot::series_of(aggs@.skip(i as int), tf),
        decreases n - i,
    {
        assert(aggs@.skip(i as int)[0] == aggs@[i as int]);
        if aggs[i].tf() == tf {
            return live_series(aggs, tf);
        }
        assert(aggs@.skip(i as int).drop_first() =~= aggs@.skip(i + 1));
        i += 1;
    }
    if n > 0 {
        live_series(aggs, aggs[0].tf())
    } else {
        Vec::new()
    }
}

// ---------------------------------------------------------------------------
// Laws

/// Taking over the logs of the current market leaves the replay of the bot window, of the
/// script window and of the context window inside them.
pub proof fn law_reload_keeps_replay_in_range(kind: WindowKind, mode: Mode, p: TimePos, all_max_ts: u64, r: TimeRange)
    requires
        r.wf(),
        kind is Bot || kind is Script || kind is Context || kind is Wall,
    ensures
        r.holds(times_after_reload(kind, mode, p, all_max_ts, Some(r)).replay_ts),
{
}

/// The live time of the wall window is the end of its market, once the logs were read and
/// once a market was selected.
pub proof fn law_live_wall_is_up_to_date(mode: Mode, p: TimePos, all_max_ts: u64, r: TimeRange)
    ensures
        times_after_reload(WindowKind::Wall, mode, p, all_max_ts, Some(r)).live_ts == r.max_ts,
        crate::top_bar::times_of(WindowKind::Wall, p, Some(r)).live_ts == r.max_ts,
{
}

/// What a window shows of its market: the times, and the logs that it has taken over.
pub ghost struct Shown {
    pub pos: TimePos,
    pub data: Option<TickerData>,
}

/// What a frame finds: how much time has passed since the logs were read, and the latest
/// time of all markets.
pub ghost struct Moment {
    pub elapsed: Amount,
    pub all_max_ts: u64,
}

/// What a window shows after a frame in live mode, while the logs of its market hold `d`.
pub open spec fn shown_after(kind: WindowKind, reload_secs: Amount, s: Shown, m: Moment, d: TickerData) -> Shown {
    let (p, data) = if reads_logs(kind, Mode::Live, m.elapsed, reload_secs) {
        (
            times_after_reload(
                kind,
                Mode::Live,
                s.pos,
                m.all_max_ts,
                crate::store::range_of(Some(d)),
            ),
            Some(d),
        )
    } else {
        (s.pos, s.data)
    };
    Shown { pos: frame_times(kind, Mode::Live, p, crate::store::range_of(data)), data }
}

/// What a window shows after these frames in live mode, while the logs of its market hold
/// `d`.
pub open spec fn shown_after_all(
    kind: WindowKind,
    reload_secs: Amount,
    s: Shown,
    frames: Seq<Moment>,
    d: TickerData,
) -> Shown
    decreases frames.len(),
{
    if frames.len() == 0 {
        s
    } else {
        shown_after(
            kind,
            reload_secs,
            shown_after_all(kind, reload_secs, s, frames.drop_last(), d),
            frames.last(),
            d,
        )
    }
}

/// Whether a window shows the newest row of the logs that it has taken over.
pub open spec fn is_current(s: Shown, d: TickerData) -> bool {
    s.data == Some(d) && s.pos.live_ts == d.max_ts
}

proof fn lemma_frames(kind: WindowKind, reload_secs: Amount, s: Shown, frames: Seq<Moment>, d: TickerData)
    requires
        reads_csv(kind),
        d.max_ts > 0,
        s.pos.live_ts <= d.max_ts,
        s.data matches Some(o) ==> o.max_ts <= d.max_ts,
    ensures
        ({
            let e = shown_after_all(kind, reload_secs, s, frames, d);
            &&& e.pos.live_ts <= d.max_ts
            &&& e.data matches Some(o) ==> o.max_ts <= d.max_ts
            &&& (exists|k: int|
                0 <= k < frames.len() && reads_logs(
                    kind,
                    Mode::Live,
                    (#[trigger] frames[k]).elapsed,
                    reload_secs,
                )) ==> is_current(e, d)
        }),
    decreases frames.len(),
{
    if frames.len() > 0 {
        let before = frames.drop_last();
        lemma_frames(kind, reload_secs, s, before, d);
        if exists|k: int|
            0 <= k < frames.len() && reads_logs(
                kind,
                Mode::Live,
                (#[trigger] frames[k]).elapsed,
                reload_secs,
            ) {
            let k = choose|k: int|
                0 <= k < frames.len() && reads_logs(
                    kind,
                    Mode::Live,
                    (#[trigger] frames[k]).elapsed,
                    reload_secs,
                );
            if k < before.len() {
                assert(before[k] == frames[k]);
            }
        }
    }
}

/// Whether a window shows its market from the logs alone, and reads them from time to time.
pub open spec fn reads_csv(kind: WindowKind) -> bool {
    kind is Chart || kind is Script || kind is Object || kind is Context || kind is Wall || kind is Grid
}

/// Live mode catches up with the logs: where they have grown, then after any number of
/// frames of which one was due to read them, the window holds them and stands at their newest
/// row, and so does its snapshot.
pub proof fn law_live_reaches_the_newest_row(
    kind: WindowKind,
    reload_secs: Amount,
    s: Shown,
    frames: Seq<Moment>,
    d: TickerData,
    due: int,
    snap: Option<MultiSnapshot>,
    tfs: Seq<u64>,
)
    requires
        reads_csv(kind),
        d.max_ts > 0,
        s.pos.live_ts <= d.max_ts,
        s.data matches Some(o) ==> o.max_ts <= d.max_ts,
        0 <= due < frames.len(),
        reads_logs(kind, Mode::Live, frames[due].elapsed, reload_secs),
    ensures
        ({
            let e = shown_after_all(kind, reload_secs, s, frames, d);
            &&& is_current(e, d)
            &&& is_snapshot_at(snap, e.data, e.pos.live_ts, tfs) <==> snap is Some && crate::snapshot::is_multi_of(
                snap->0,
                d,
                d.max_ts,
                tfs,
            )
        }),
{
    lemma_frames(kind, reload_secs, s, frames, d);
}

/// A frame repeated changes nothing more.
pub proof fn law_frames_settle(kind: WindowKind, mode: Mode, p: TimePos, r: TimeRange)
    requires
        r.wf(),
    ensures
        times_of_frame(kind, mode, times_of_frame(kind, mode, p, r), r) == times_of_frame(kind, mode, p, r),
{
}

/// The markets that were read anew are those of the last entry with their name.
pub proof fn law_the_last_reading_counts(loaded: Seq<TickerData>, ticker: Seq<char>)
    ensures
        match loaded_for(loaded, ticker) {
            Some(d) => exists|i: int|
                0 <= i < loaded.len() && #[trigger] loaded[i] == d && d.ticker@ == ticker && forall|j: int|
                    i < j < loaded.len() ==> (#[trigger] loaded[j]).ticker@ != ticker,
            None => forall|j: int| 0 <= j < loaded.len() ==> (#[trigger] loaded[j]).ticker@ != ticker,
        },
    decreases loaded.len(),
{
    if loaded.len() > 0 {
        let n = loaded.len() - 1;
        let p = loaded.drop_last();
        if loaded.last().ticker@ == ticker {
            assert(loaded[n] == loaded.last());
        } else {
            law_the_last_reading_counts(p, ticker);
            match loaded_for(p, ticker) {
                Some(d) => {
                    let i = choose|i: int|
                        0 <= i < p.len() && #[trigger] p[i] == d && d.ticker@ == ticker && forall|j: int|
                            i < j < p.len() ==> (#[trigger] p[j]).ticker@ != ticker;
                    assert(loaded[i] == d);
                    assert forall|j: int| i < j < loaded.len() implies (#[trigger] loaded[j]).ticker@ != ticker by {
                        if j < n {
                            assert(p[j] == loaded[j]);
                        }
                    }
                },
                None => {
                    assert forall|j: int| 0 <= j < loaded.len() implies (#[trigger] loaded[j]).ticker@ != ticker by {
                        if j < n {
                            assert(p[j] == loaded[j]);
                        }
                    }
                },
            }
        }
    }
}

/// In live mode a frame takes the windows that follow their market to its end, and never
/// behind the time that the grid window has reached; it leaves the replay where it was, but
/// that the context window drags it to the end. The other windows stay as they are.
pub proof fn law_live_frames_follow_the_market(kind: WindowKind, p: TimePos, r: TimeRange)
    requires
        r.min_ts < r.max_ts,
    ensures
        ({
            let q = times_of_frame(kind, Mode::Live, p, r);
            &&& kind is Script || kind is Object || kind is Context || kind is Chart ==> q.live_ts == r.max_ts
            &&& kind is Grid ==> q.live_ts >= r.max_ts && q.live_ts >= p.live_ts && (q.live_ts == r.max_ts
                || q.live_ts == p.live_ts)
            &&& kind is Wall || kind is Bot || kind is Feed || kind is Panel ==> q.live_ts == p.live_ts
            &&& kind !is Context ==> q.replay_ts == p.replay_ts
            &&& kind is Context ==> q.replay_ts >= r.max_ts && q.replay_ts >= p.replay_ts && (q.replay_ts == r.max_ts
                || q.replay_ts == p.replay_ts)
        }),
{
}

/// In replay mode a frame leaves the live time where it was, and moves the replay only where
/// it lies outside the logs, then to their nearest end. The wall, grid and bot windows stay as
/// they are.
pub proof fn law_replay_frames_stay_in_the_logs(kind: WindowKind, p: TimePos, r: TimeRange)
    requires
        r.min_ts < r.max_ts,
    ensures
        ({
            let q = times_of_frame(kind, Mode::Replay, p, r);
            &&& q.live_ts == p.live_ts
            &&& r.min_ts <= p.replay_ts <= r.max_ts ==> q.replay_ts == p.replay_ts
            &&& kind is Wall || kind is Grid || kind is Bot ==> q.replay_ts == p.replay_ts
            &&& kind !is Wall && kind !is Grid && kind !is Bot ==> {
                &&& p.replay_ts < r.min_ts ==> q.replay_ts == r.min_ts
                &&& p.replay_ts > r.max_ts ==> q.replay_ts == r.max_ts
            }
        }),
{
}

/// A window whose market has no logs keeps its times, whatever the frame; after a reload too,
/// but that the wall window leaves zero for the latest time of all markets.
pub proof fn law_without_logs_times_stay(kind: WindowKind, mode: Mode, p: TimePos, all_max_ts: u64)
    ensures
        frame_times(kind, mode, p, None) == p,
        kind !is Wall ==> times_after_reload(kind, mode, p, all_max_ts, None) == p,
        ({
            let q = times_after_reload(WindowKind::Wall, mode, p, all_max_ts, None);
            &&& q.live_ts == (if p.live_ts == 0 {
                all_max_ts
            } else {
                p.live_ts
            })
            &&& q.replay_ts == (if p.replay_ts == 0 {
                all_max_ts
            } else {
                p.replay_ts
            })
        }),
{
}

/// Logs read anew: the windows that follow their market stand at its end, live; the object
/// window so in live mode alone. A replay inside the logs goes on where it was.
pub proof fn law_reloads_move_to_the_end(kind: WindowKind, mode: Mode, p: TimePos, all_max_ts: u64, r: TimeRange)
    requires
        r.min_ts < r.max_ts,
    ensures
        ({
            let q = times_after_reload(kind, mode, p, all_max_ts, Some(r));
            &&& kind is Wall || kind is Context || kind is Bot ==> q.live_ts == r.max_ts
            &&& kind is Object ==> q.live_ts == (if mode is Live {
                r.max_ts
            } else {
                p.live_ts
            })
            &&& kind is Script && r.min_ts <= p.live_ts <= r.max_ts ==> q.live_ts == p.live_ts
            &&& kind is Script && p.live_ts > r.max_ts ==> q.live_ts == r.max_ts
            &&& kind is Script && p.live_ts < r.min_ts ==> q.live_ts == r.max_ts
            &&& kind is Chart || kind is Grid || kind is Feed || kind is Panel ==> q == p
            &&& 0 < p.replay_ts && r.min_ts <= p.replay_ts <= r.max_ts ==> q.replay_ts == p.replay_ts
        }),
{
}

/// Logs are read at their interval and not before; the grid window reads them live alone.
pub proof fn law_logs_are_read_at_their_interval(kind: WindowKind, elapsed: Amount, reload_secs: Amount)
    ensures
        kind !is Grid ==> (reads_logs(kind, Mode::Live, elapsed, reload_secs) <==> elapsed >= reload_secs),
        kind !is Grid ==> (reads_logs(kind, Mode::Replay, elapsed, reload_secs) <==> elapsed >= reload_secs),
        reads_logs(WindowKind::Grid, Mode::Live, elapsed, reload_secs) <==> elapsed >= reload_secs,
        !reads_logs(WindowKind::Grid, Mode::Replay, elapsed, reload_secs),
{
}

} // verus!
