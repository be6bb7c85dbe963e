//! The times of the live and the replay view, and how reloads, frames and buttons move
//! them.

use crate::amount::{Amount, ONE};
use crate::session::Mode;
use vstd::prelude::*;

verus! {

/// The times of both views.
#[derive(Clone, Copy, Debug, PartialEq, Eq, Structural)]
pub struct TimePos {
    pub live_ts: u64,
    pub replay_ts: u64,
}

/// The times that a market's logs span.
#[derive(Clone, Copy, Debug, PartialEq, Eq, Structural)]
pub struct TimeRange {
    pub min_ts: u64,
    pub max_ts: u64,
}

impl TimeRange {
    pub open spec fn wf(self) -> bool {
        self.min_ts <= self.max_ts
    }

    pub open spec fn holds(self, ts: u64) -> bool {
        self.min_ts <= ts <= self.max_ts
    }
}

/// `ts` moved into the range by the shortest way.
pub open spec fn clamped(ts: u64, r: TimeRange) -> u64 {
    if ts < r.min_ts {
        r.min_ts
    } else if ts > r.max_ts {
        r.max_ts
    } else {
        ts
    }
}

/// `ts`, or the end of the range where `ts` lies outside.
pub open spec fn or_end(ts: u64, r: TimeRange) -> u64 {
    if r.holds(ts) {
        ts
    } else {
        r.max_ts
    }
}

/// Both times in range: the live one at the end where it was outside, the replay one by
/// the shortest way.
pub open spec fn in_range(p: TimePos, r: TimeRange) -> TimePos {
    TimePos { live_ts: or_end(p.live_ts, r), replay_ts: clamped(p.replay_ts, r) }
}

/// Live at the end, and replay in range by the shortest way.
pub open spec fn caught_up(p: TimePos, r: TimeRange) -> TimePos {
    TimePos { live_ts: r.max_ts, replay_ts: clamped(p.replay_ts, r) }
}

/// The times after a reload: live at the end, replay at the end where it was outside.
pub open spec fn reloaded(p: TimePos, r: TimeRange) -> TimePos {
    TimePos { live_ts: r.max_ts, replay_ts: or_end(p.replay_ts, r) }
}

/// The times once the window is shown: in live mode both follow the market.
pub open spec fn followed(p: TimePos, r: TimeRange, mode: Mode) -> TimePos {
    match mode {
        Mode::Live => TimePos { live_ts: r.max_ts, replay_ts: r.max_ts },
        Mode::Replay => TimePos { live_ts: p.live_ts, replay_ts: clamped(p.replay_ts, r) },
    }
}

/// The times one second later: in live mode both follow the market; a replay goes on by a
/// second until its end, and starts over from outside.
pub open spec fn ticked(p: TimePos, r: TimeRange, mode: Mode) -> TimePos {
    match mode {
        Mode::Live => TimePos { live_ts: r.max_ts, replay_ts: r.max_ts },
        Mode::Replay => TimePos {
            live_ts: p.live_ts,
            replay_ts: if !r.holds(p.replay_ts) {
                r.min_ts
            } else if p.replay_ts < r.max_ts {
                (p.replay_ts + 1) as u64
            } else {
                p.replay_ts
            },
        },
    }
}

/// The time that is shown: the end where none was chosen yet.
pub open spec fn shown_ts(ts: u64, r: TimeRange) -> u64 {
    if ts == 0 {
        r.max_ts
    } else {
        let low = if ts < r.max_ts {
            ts
        } else {
            r.max_ts
        };
        if low > r.min_ts {
            low
        } else {
            r.min_ts
        }
    }
}

impl TimePos {
    /// Keeps both times in range.
    pub fn clamp_ts_to_range(&mut self, r: &TimeRange)
        requires
            r.wf(),
        ensures
            *final(self) == in_range(*old(self), *r),
    {
        if self.live_ts < r.min_ts || self.live_ts > r.max_ts {
            self.live_ts = r.max_ts;
        }
        self.ensure_replay_ts_in_range(r);
    }

    /// Keeps the replay time in range.
    pub fn ensure_replay_ts_in_range(&mut self, r: &TimeRange)
        requires
            r.wf(),
        ensures
            final(self).live_ts == old(self).live_ts,
            final(self).replay_ts == clamped(old(self).replay_ts, *r),
    {
        if self.replay_ts < r.min_ts {
            self.replay_ts = r.min_ts;
        }
        if self.replay_ts > r.max_ts {
            self.replay_ts = r.max_ts;
        }
    }

    /// Keeps the replay time in a range that is known; one that lies at zero is not.
    pub fn ensure_replay_ts_in_known_range(&mut self, r: &TimeRange)
        requires
            r.wf(),
        ensures
            final(self).live_ts == old(self).live_ts,
            final(self).replay_ts == (if r.min_ts == 0 && r.max_ts == 0 {
                old(self).replay_ts
            } else {
                clamped(old(self).replay_ts, *r)
            }),
    {
        if r.min_ts == 0 && r.max_ts == 0 {
            return;
        }
        self.ensure_replay_ts_in_range(r);
    }

    /// After the current market was reloaded.
    pub fn reload_current_ticker(&mut self, r: &TimeRange)
        ensures
            *final(self) == reloaded(*old(self), *r),
    {
        self.live_ts = r.max_ts;
        if self.replay_ts < r.min_ts || self.replay_ts > r.max_ts {
            self.replay_ts = r.max_ts;
        }
    }

    /// After every market was reloaded at the window's interval: only a market with events
    /// moves the times, the live one in live mode alone.
    pub fn maybe_reload_csvs(&mut self, r: &TimeRange, mode: Mode)
        ensures
            *final(self) == (if r.max_ts == 0 {
                *old(self)
            } else {
                TimePos {
                    live_ts: if mode == Mode::Live {
                        r.max_ts
                    } else {
                        old(self).live_ts
                    },
                    replay_ts: or_end(old(self).replay_ts, *r),
                }
            }),
    {
        if r.max_ts > 0 {
            if mode == Mode::Live {
                self.live_ts = r.max_ts;
            }
            if self.replay_ts < r.min_ts || self.replay_ts > r.max_ts {
                self.replay_ts = r.max_ts;
            }
        }
    }

    /// The live view shows the end of its market, and the replay stays in range.
    pub fn catch_up(&mut self, r: &TimeRange)
        requires
            r.wf(),
        ensures
            *final(self) == caught_up(*old(self), *r),
    {
        self.live_ts = r.max_ts;
        self.ensure_replay_ts_in_range(r);
    }

    /// After every market was reloaded: a time that was never set goes to the end of all
    /// markets. Where the current market has logs, the live time is their end, and the
    /// replay is kept among them.
    pub fn reload_csv_if_due(&mut self, all_max_ts: u64, current: &Option<TimeRange>)
        requires
            current matches Some(r) ==> r.wf(),
        ensures
            ({
                let p = TimePos {
                    live_ts: if old(self).live_ts == 0 {
                        all_max_ts
                    } else {
                        old(self).live_ts
                    },
                    replay_ts: if old(self).replay_ts == 0 {
                        all_max_ts
                    } else {
                        old(self).replay_ts
                    },
                };
                *final(self) == (match *current {
                    Some(r) => caught_up(p, r),
                    None => p,
                })
            }),
    {
        if self.live_ts == 0 {
            self.live_ts = all_max_ts;
        }
        if self.replay_ts == 0 {
            self.replay_ts = all_max_ts;
        }
        if let Some(r) = current {
            self.catch_up(r);
        }
    }

    /// After the market was read anew: live at the end, replay at the start.
    pub fn refresh_from_csv(&mut self, r: &TimeRange)
        ensures
            *final(self) == (TimePos { live_ts: r.max_ts, replay_ts: r.min_ts }),
    {
        self.live_ts = r.max_ts;
        self.replay_ts = r.min_ts;
    }

    /// In live mode the window's tail moves both times to the end.
    pub fn follow_tail(&mut self, r: &TimeRange)
        ensures
            final(self).live_ts == r.max_ts,
            final(self).replay_ts == (if old(self).replay_ts < r.max_ts {
                r.max_ts
            } else {
                old(self).replay_ts
            }),
    {
        self.live_ts = r.max_ts;
        if self.replay_ts < r.max_ts {
            self.replay_ts = r.max_ts;
        }
    }

    /// Moves the live time to newer events; tells whether there were any.
    pub fn advance_live(&mut self, latest: u64) -> (moved: bool)
        ensures
            moved == (latest > old(self).live_ts),
            final(self).live_ts == (if moved {
                latest
            } else {
                old(self).live_ts
            }),
            final(self).replay_ts == old(self).replay_ts,
    {
        if latest > self.live_ts {
            self.live_ts = latest;
            true
        } else {
            false
        }
    }

    /// The times once the window is shown.
    pub fn follow(&mut self, r: &TimeRange, mode: Mode)
        requires
            r.wf(),
        ensures
            *final(self) == followed(*old(self), *r, mode),
    {
        match mode {
            Mode::Live => {
                self.live_ts = r.max_ts;
                self.replay_ts = r.max_ts;
            },
            Mode::Replay => {
                self.ensure_replay_ts_in_range(r);
            },
        }
    }

    /// The times one second later.
    pub fn tick(&mut self, r: &TimeRange, mode: Mode)
        ensures
            *final(self) == ticked(*old(self), *r, mode),
    {
        match mode {
            Mode::Live => {
                self.live_ts = r.max_ts;
                self.replay_ts = r.max_ts;
            },
            Mode::Replay => {
                if self.replay_ts < r.min_ts || self.replay_ts > r.max_ts {
                    self.replay_ts = r.min_ts;
                } else if self.replay_ts < r.max_ts {
                    self.replay_ts = self.replay_ts + 1;
                }
            },
        }
    }

    /// One second back, but not before the start.
    pub fn step_back(&mut self, r: &TimeRange)
        ensures
            final(self).live_ts == old(self).live_ts,
            final(self).replay_ts == stepped_back(old(self).replay_ts, *r),
    {
        if self.replay_ts > r.min_ts {
            self.replay_ts = self.replay_ts - 1;
        }
    }

    /// One second on, but not beyond the end.
    pub fn step_forward(&mut self, r: &TimeRange)
        ensures
            final(self).live_ts == old(self).live_ts,
            final(self).replay_ts == stepped_forward(old(self).replay_ts, *r),
    {
        if self.replay_ts < r.max_ts {
            self.replay_ts = self.replay_ts + 1;
        }
    }

    /// The replay at the end.
    pub fn jump_to_end(&mut self, r: &TimeRange)
        ensures
            final(self).live_ts == old(self).live_ts,
            final(self).replay_ts == r.max_ts,
    {
        self.replay_ts = r.max_ts;
    }

    /// Both times at the end, where there is one: another market was selected.
    pub fn select_ticker(&mut self, r: &Option<TimeRange>)
        ensures
            *final(self) == (match *r {
                Some(r) => TimePos { live_ts: r.max_ts, replay_ts: r.max_ts },
                None => *old(self),
            }),
    {
        if let Some(r) = r {
            self.live_ts = r.max_ts;
            self.replay_ts = r.max_ts;
        }
    }

    /// The time that is shown in a mode.
    pub fn current_ts(&self, r: &TimeRange, mode: Mode) -> (ts: u64)
        ensures
            ts == shown_ts(
                match mode {
                    Mode::Live => self.live_ts,
                    Mode::Replay => self.replay_ts,
                },
                *r,
            ),
    {
        let ts: u64 = match mode {
            Mode::Live => self.live_ts,
            Mode::Replay => self.replay_ts,
        };
        if ts == 0 {
            r.max_ts
        } else {
            let low: u64 = if ts < r.max_ts {
                ts
            } else {
                r.max_ts
            };
            if low > r.min_ts {
                low
            } else {
                r.min_ts
            }
        }
    }
}

pub open spec fn stepped_back(ts: u64, r: TimeRange) -> u64 {
    if ts > r.min_ts {
        (ts - 1) as u64
    } else {
        ts
    }
}

pub open spec fn stepped_forward(ts: u64, r: TimeRange) -> u64 {
    if ts < r.max_ts {
        (ts + 1) as u64
    } else {
        ts
    }
}

/// Whether the logs are to be read again: the interval has passed. A clock that went back
/// counts as no time passed.
pub open spec fn is_due(now: u64, last_reload_ts: u64, reload_secs: Amount) -> bool {
    (if now > last_reload_ts {
        now - last_reload_ts
    } else {
        0
    }) * ONE >= reload_secs
}

/// Whether the logs are to be read again.
pub fn reload_due(now: u64, last_reload_ts: u64, reload_secs: Amount) -> (r: bool)
    ensures
        r == is_due(now, last_reload_ts, reload_secs),
{
    let passed: u64 = now.saturating_sub(last_reload_ts);
    passed as i128 * 100_000_000 >= reload_secs
}

/// Whether the logs are to be read again, once this much time has passed since they were.
pub fn interval_over(elapsed: Amount, reload_secs: Amount) -> (r: bool)
    ensures
        r == (elapsed >= reload_secs),
{
    elapsed >= reload_secs
}

/// What the live view has to do about its snapshot.
#[derive(Clone, Copy, Debug, PartialEq, Eq, Structural)]
pub enum LiveStep {
    /// There is nothing to show.
    Drop,
    /// The snapshot at hand is still right.
    Keep,
    /// The snapshot is to be computed at this time.
    Compute { ts: u64 },
}

/// Decides on the live snapshot: none without events, a new one where there was none or
/// where the events go further.
pub fn tick_live(max_ts: Option<u64>, has_snapshot: bool, live_ts: u64) -> (r: LiveStep)
    ensures
        r == (match max_ts {
            Some(t) => if t == 0 {
                LiveStep::Drop
            } else if !has_snapshot || live_ts != t {
                LiveStep::Compute { ts: t }
            } else {
                LiveStep::Keep
            },
            None => LiveStep::Drop,
        }),
{
    match max_ts {
        Some(t) => if t == 0 {
            LiveStep::Drop
        } else if !has_snapshot || live_ts != t {
            LiveStep::Compute { ts: t }
        } else {
            LiveStep::Keep
        },
        None => LiveStep::Drop,
    }
}

// ---------------------------------------------------------------------------
// Laws

/// Once both times are in range they stay where they are.
pub proof fn law_clamping_is_final(p: TimePos, r: TimeRange)
    requires
        r.wf(),
    ensures
        r.holds(in_range(p, r).live_ts),
        r.holds(in_range(p, r).replay_ts),
        in_range(in_range(p, r), r) == in_range(p, r),
        r.holds(p.live_ts) && r.holds(p.replay_ts) ==> in_range(p, r) == p,
{
}

/// Whatever moves the replay leaves it in range: a reload, a frame, a tick, and a step from
/// inside.
pub proof fn law_replay_stays_in_range(p: TimePos, r: TimeRange, mode: Mode)
    requires
        r.wf(),
    ensures
        r.holds(reloaded(p, r).replay_ts),
        r.holds(followed(p, r, mode).replay_ts),
        r.holds(ticked(p, r, mode).replay_ts),
        r.holds(p.replay_ts) ==> r.holds(stepped_back(p.replay_ts, r)) && r.holds(
            stepped_forward(p.replay_ts, r),
        ),
        r.holds(shown_ts(p.replay_ts, r)),
{
}

/// A step forward undoes a step back, and a step back undoes a step forward, inside the
/// range.
pub proof fn law_steps_cancel(ts: u64, r: TimeRange)
    requires
        r.holds(ts),
    ensures
        ts > r.min_ts ==> stepped_forward(stepped_back(ts, r), r) == ts,
        ts < r.max_ts ==> stepped_back(stepped_forward(ts, r), r) == ts,
{
}

/// In live mode both times follow the market.
pub proof fn law_live_follows_the_market(p: TimePos, r: TimeRange)
    ensures
        followed(p, r, Mode::Live) == (TimePos { live_ts: r.max_ts, replay_ts: r.max_ts }),
        ticked(p, r, Mode::Live) == followed(p, r, Mode::Live),
{
}

/// A replay never goes back by itself, and reaches the end of its range.
pub proof fn law_replay_goes_on(p: TimePos, r: TimeRange)
    requires
        r.holds(p.replay_ts),
    ensures
        ticked(p, r, Mode::Replay).replay_ts >= p.replay_ts,
        ticked(p, r, Mode::Replay).replay_ts == p.replay_ts <==> p.replay_ts == r.max_ts,
{
}

/// The distance of two times.
pub open spec fn apart(a: u64, b: u64) -> int {
    if a < b {
        b - a
    } else {
        a - b
    }
}

/// A time outside the range goes to the nearest one inside, and a time inside stays.
pub proof fn law_clamping_goes_the_shortest_way(ts: u64, r: TimeRange, other: u64)
    requires
        r.min_ts <= other <= r.max_ts,
    ensures
        r.min_ts <= clamped(ts, r) <= r.max_ts,
        apart(ts, clamped(ts, r)) <= apart(ts, other),
        r.min_ts <= ts <= r.max_ts ==> clamped(ts, r) == ts && or_end(ts, r) == ts,
        ts < r.min_ts || ts > r.max_ts ==> or_end(ts, r) == r.max_ts,
{
}

/// A reload takes the live time to the newest row, and moves a replay only where it is
/// outside.
pub proof fn law_reloads_show_the_newest_row(p: TimePos, r: TimeRange)
    requires
        r.min_ts <= r.max_ts,
    ensures
        reloaded(p, r).live_ts == r.max_ts,
        caught_up(p, r).live_ts == r.max_ts,
        r.min_ts <= p.replay_ts <= r.max_ts ==> reloaded(p, r).replay_ts == p.replay_ts && caught_up(p, r).replay_ts
            == p.replay_ts && in_range(p, r).replay_ts == p.replay_ts,
        r.min_ts <= p.live_ts <= r.max_ts ==> in_range(p, r).live_ts == p.live_ts,
{
}

/// In replay mode a frame leaves a time inside the range alone, and a tick moves it on by one
/// second; the live time stays.
pub proof fn law_a_replay_moves_by_seconds(p: TimePos, r: TimeRange)
    requires
        r.min_ts <= p.replay_ts <= r.max_ts,
    ensures
        followed(p, r, Mode::Replay) == p,
        ticked(p, r, Mode::Replay).live_ts == p.live_ts,
        p.replay_ts < r.max_ts ==> ticked(p, r, Mode::Replay).replay_ts == p.replay_ts + 1,
        p.replay_ts == r.max_ts ==> ticked(p, r, Mode::Replay).replay_ts == p.replay_ts,
        p.replay_ts > r.min_ts ==> stepped_back(p.replay_ts, r) == p.replay_ts - 1,
        p.replay_ts == r.min_ts ==> stepped_back(p.replay_ts, r) == p.replay_ts,
        p.replay_ts < r.max_ts ==> stepped_forward(p.replay_ts, r) == p.replay_ts + 1,
        p.replay_ts == r.max_ts ==> stepped_forward(p.replay_ts, r) == p.replay_ts,
{
}

/// A replay that stands outside the range starts over at its beginning.
pub proof fn law_a_lost_replay_starts_over(p: TimePos, r: TimeRange)
    requires
        p.replay_ts < r.min_ts || p.replay_ts > r.max_ts,
    ensures
        ticked(p, r, Mode::Replay).replay_ts == r.min_ts,
{
}

/// The time that is shown is the chosen one, brought into the range; where none was chosen yet
/// it is the newest.
pub proof fn law_the_chosen_time_is_shown(ts: u64, r: TimeRange)
    requires
        r.min_ts <= r.max_ts,
    ensures
        ts == 0 ==> shown_ts(ts, r) == r.max_ts,
        ts > 0 && r.min_ts <= ts <= r.max_ts ==> shown_ts(ts, r) == ts,
        ts > r.max_ts ==> shown_ts(ts, r) == r.max_ts,
        0 < ts < r.min_ts ==> shown_ts(ts, r) == r.min_ts,
{
}

/// A reload is due exactly once as many seconds have passed as the interval has, and stays due
/// from then on.
pub proof fn law_reloads_are_due_at_their_interval(now: u64, later: u64, last: u64, secs: u64)
    requires
        last <= now <= later,
    ensures
        is_due(now, last, (secs * ONE) as Amount) <==> now - last >= secs,
        is_due(now, last, (secs * ONE) as Amount) ==> is_due(later, last, (secs * ONE) as Amount),
{
}

} // verus!
