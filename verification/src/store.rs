//! The markets whose logs were read.

use crate::events::TickerData;
use crate::text::same_text;
use crate::timeline::TimeRange;
use vstd::prelude::*;

verus! {

/// The data of the markets, one entry per ticker.
#[derive(Debug)]
pub struct TickerStore {
    items: Vec<TickerData>,
}

/// The data of the first entry of a ticker.
pub open spec fn data_of(s: Seq<TickerData>, ticker: Seq<char>) -> Option<TickerData>
    decreases s.len(),
{
    if s.len() == 0 {
        None
    } else if s[0].ticker@ == ticker {
        Some(s[0])
    } else {
        data_of(s.drop_first(), ticker)
    }
}

/// The range of times of a market.
pub open spec fn range_of(d: Option<TickerData>) -> Option<TimeRange> {
    match d {
        Some(d) => Some(TimeRange { min_ts: d.min_ts, max_ts: d.max_ts }),
        None => None,
    }
}

impl TickerStore {
    /// The data of a market, if its logs were read.
    pub closed spec fn data(&self, ticker: Seq<char>) -> Option<TickerData> {
        data_of(self.items@, ticker)
    }

    /// Every market's data is well-formed.
    pub closed spec fn wf(&self) -> bool {
        forall|i: int| 0 <= i < self.items@.len() ==> (#[trigger] self.items@[i]).wf()
    }

    pub fn new() -> (r: Self)
        ensures
            r.wf(),
            forall|t: Seq<char>| #[trigger] r.data(t) is None,
    {
        TickerStore { items: Vec::new() }
    }

    fn find(&self, ticker: &str) -> (r: Option<usize>)
        ensures
            match r {
                Some(i) => i < self.items@.len() && self.data(ticker@) == Some(self.items@[i as int])
                    && self.items@[i as int].ticker@ == ticker@ && forall|j: int|
                    0 <= j < i ==> (#[trigger] self.items@[j]).ticker@ != ticker@,
                None => self.data(ticker@) is None && forall|j: int|
                    0 <= j < self.items@.len() ==> (#[trigger] self.items@[j]).ticker@ != ticker@,
            },
    {
        let n: usize = self.items.len();
        let mut i: usize = 0;
        assert(self.items@.skip(0) =~= self.items@);
        while i < n
            invariant
                i <= n,
                n == self.items@.len(),
                data_of(self.items@, ticker@) == data_of(self.items@.skip(i as int), ticker@),
                forall|j: int| 0 <= j < i ==> (#[trigger] self.items@[j]).ticker@ != ticker@,
            decreases n - i,
        {
            assert(self.items@.skip(i as int)[0] == self.items@[i as int]);
            if same_text(self.items[i].ticker.as_str(), ticker) {
                return Some(i);
            }
            assert(self.items@.skip(i as int).drop_first() =~= self.items@.skip(i + 1));
            i += 1;
        }
        None
    }

    /// The data of a market.
    pub fn get(&self, ticker: &str) -> (r: Option<&TickerData>)
        requires
            self.wf(),
        ensures
            match r {
                Some(d) => self.data(ticker@) == Some(*d) && d.wf(),
                None => self.data(ticker@) is None,
            },
    {
        match self.find(ticker) {
            Some(i) => Some(&self.items[i]),
            None => None,
        }
    }

    /// The range of times of a market.
    pub fn range(&self, ticker: &str) -> (r: Option<TimeRange>)
        requires
            self.wf(),
        ensures
            r == range_of(self.data(ticker@)),
            r matches Some(t) ==> t.wf(),
    {
        match self.get(ticker) {
            Some(d) => Some(TimeRange { min_ts: d.min_ts, max_ts: d.max_ts }),
            None => None,
        }
    }

    /// Replaces the data of a market, or adds the market. No other market changes.
    pub fn insert(&mut self, d: TickerData)
        requires
            old(self).wf(),
            d.wf(),
        ensures
            final(self).wf(),
            final(self).data(d.ticker@) == Some(d),
            forall|t: Seq<char>| t != d.ticker@ ==> #[trigger] final(self).data(t) == old(self).data(t),
    {
        let ghost before = self.items@;
        let ghost name = d.ticker@;
        match self.find(d.ticker.as_str()) {
            Some(i) => {
                self.items[i] = d;
                proof {
                    lemma_update(before, i as int, d);
                    assert(self.items@ =~= before.update(i as int, d));
                }
            },
            None => {
                self.items.push(d);
                proof {
                    lemma_push(before, d);
                }
            },
        }
    }

    /// The latest time of all markets, or zero where there is none.
    pub fn latest(&self) -> (r: u64)
        ensures
            r == self.all_max_ts(),
    {
        let n: usize = self.items.len();
        let mut m: u64 = 0;
        let mut i: usize = 0;
        while i < n
            invariant
                i <= n,
                n == self.items@.len(),
                m == latest_of(self.items@.take(i as int)),
            decreases n - i,
        {
            assert(self.items@.take(i + 1).drop_last() =~= self.items@.take(i as int));
            if self.items[i].max_ts > m {
                m = self.items[i].max_ts;
            }
            i += 1;
        }
        assert(self.items@.take(n as int) =~= self.items@);
        m
    }

    /// The latest time of all markets.
    pub closed spec fn all_max_ts(&self) -> u64 {
        latest_of(self.items@)
    }
}

/// The latest time of the entries, or zero where there is none.
pub open spec fn latest_of(s: Seq<TickerData>) -> u64
    decreases s.len(),
{
    if s.len() == 0 {
        0
    } else {
        let m = latest_of(s.drop_last());
        if s.last().max_ts > m {
            s.last().max_ts
        } else {
            m
        }
    }
}

proof fn lemma_update(s: Seq<TickerData>, i: int, d: TickerData)
    requires
        0 <= i < s.len(),
        s[i].ticker@ == d.ticker@,
        forall|j: int| 0 <= j < i ==> (#[trigger] s[j]).ticker@ != d.ticker@,
    ensures
        data_of(s.update(i, d), d.ticker@) == Some(d),
        forall|t: Seq<char>| t != d.ticker@ ==> #[trigger] data_of(s.update(i, d), t) == data_of(s, t),
    decreases s.len(),
{
    let u = s.update(i, d);
    if i == 0 {
        assert(u.drop_first() =~= s.drop_first());
    } else {
        let p = s.drop_first();
        assert(s[0].ticker@ != d.ticker@);
        assert forall|j: int| 0 <= j < i - 1 implies (#[trigger] p[j]).ticker@ != d.ticker@ by {
            assert(p[j] == s[j + 1]);
        }
        lemma_update(p, i - 1, d);
        assert(u.drop_first() =~= p.update(i - 1, d));
        assert forall|t: Seq<char>| t != d.ticker@ implies #[trigger] data_of(u, t) == data_of(s, t) by {
            assert(data_of(p.update(i - 1, d), t) == data_of(p, t));
        }
    }
}

proof fn lemma_push(s: Seq<TickerData>, d: TickerData)
    requires
        forall|j: int| 0 <= j < s.len() ==> (#[trigger] s[j]).ticker@ != d.ticker@,
    ensures
        data_of(s.push(d), d.ticker@) == Some(d),
        forall|t: Seq<char>| t != d.ticker@ ==> #[trigger] data_of(s.push(d), t) == data_of(s, t),
    decreases s.len(),
{
    let u = s.push(d);
    if s.len() == 0 {
        assert(u.drop_first() =~= s);
    } else {
        let p = s.drop_first();
        assert(s[0].ticker@ != d.ticker@);
        assert forall|j: int| 0 <= j < p.len() implies (#[trigger] p[j]).ticker@ != d.ticker@ by {
            assert(p[j] == s[j + 1]);
        }
        lemma_push(p, d);
        assert(u.drop_first() =~= p.push(d));
        assert forall|t: Seq<char>| t != d.ticker@ implies #[trigger] data_of(u, t) == data_of(s, t) by {
            assert(data_of(p.push(d), t) == data_of(p, t));
        }
    }
}

/// The data of a market are those of the first entry with its name; a market without such an
/// entry has none.
pub proof fn law_a_market_has_its_own_data(s: Seq<TickerData>, ticker: Seq<char>)
    ensures
        match data_of(s, ticker) {
            Some(d) => exists|i: int|
                0 <= i < s.len() && #[trigger] s[i] == d && d.ticker@ == ticker && forall|j: int|
                    0 <= j < i ==> (#[trigger] s[j]).ticker@ != ticker,
            None => forall|j: int| 0 <= j < s.len() ==> (#[trigger] s[j]).ticker@ != ticker,
        },
    decreases s.len(),
{
    if s.len() > 0 && s[0].ticker@ != ticker {
        let p = s.drop_first();
        law_a_market_has_its_own_data(p, ticker);
        match data_of(p, ticker) {
            Some(d) => {
                let i = choose|i: int|
                    0 <= i < p.len() && #[trigger] p[i] == d && d.ticker@ == ticker && forall|j: int|
                        0 <= j < i ==> (#[trigger] p[j]).ticker@ != ticker;
                assert(s[i + 1] == d);
                assert forall|j: int| 0 <= j < i + 1 implies (#[trigger] s[j]).ticker@ != ticker by {
                    if j > 0 {
                        assert(p[j - 1] == s[j]);
                    }
                }
            },
            None => {
                assert forall|j: int| 0 <= j < s.len() implies (#[trigger] s[j]).ticker@ != ticker by {
                    if j > 0 {
                        assert(p[j - 1] == s[j]);
                    }
                }
            },
        }
    } else if s.len() > 0 {
        assert(s[0] == s[0]);
    }
}

/// The latest time is the end of some market, and no market ends later.
pub proof fn law_no_market_ends_later(s: Seq<TickerData>)
    ensures
        forall|i: int| 0 <= i < s.len() ==> (#[trigger] s[i]).max_ts <= latest_of(s),
        latest_of(s) > 0 ==> exists|i: int| 0 <= i < s.len() && (#[trigger] s[i]).max_ts == latest_of(s),
    decreases s.len(),
{
    if s.len() > 0 {
        let p = s.drop_last();
        law_no_market_ends_later(p);
        assert forall|i: int| 0 <= i < s.len() implies (#[trigger] s[i]).max_ts <= latest_of(s) by {
            if i < p.len() {
                assert(p[i] == s[i]);
            }
        }
        if s.last().max_ts > latest_of(p) {
            assert(s[s.len() - 1].max_ts == latest_of(s));
        } else if latest_of(s) > 0 {
            let i = choose|i: int| 0 <= i < p.len() && (#[trigger] p[i]).max_ts == latest_of(p);
            assert(s[i].max_ts == latest_of(s));
        }
    }
}

/// The latest time of all markets is not before the end of any one of them.
pub proof fn law_the_latest_time_covers_every_market(store: TickerStore, ticker: Seq<char>)
    ensures
        store.data(ticker) matches Some(d) ==> d.max_ts <= store.all_max_ts(),
        (forall|t: Seq<char>| #[trigger] store.data(t) is None) ==> store.all_max_ts() == 0,
{
    law_a_market_has_its_own_data(store.items@, ticker);
    law_no_market_ends_later(store.items@);
    if store.items@.len() > 0 {
        let t = store.items@[0].ticker@;
        assert(store.data(t) is Some);
    }
}

/// The range of a market ends where its events do; a market without events has none.
pub proof fn law_a_range_is_that_of_its_market(d: TickerData)
    ensures
        range_of(Some(d)) matches Some(r) && r.min_ts == d.min_ts && r.max_ts == d.max_ts,
        range_of(None) is None,
        d.wf() ==> range_of(Some(d))->0.wf(),
{
}

} // verus!
