//! The order book of one market: the resting sizes of both sides by ladder key.

use crate::amount::{key_to_price, parse_amount, price_to_key, Amount, PriceKey};
use vstd::prelude::*;

verus! {

/// One level of a side.
#[derive(Clone, Copy, Debug, PartialEq, Eq, Structural)]
pub struct Level {
    pub key: PriceKey,
    pub size: Amount,
}

/// A level as the feed or a log gives it.
#[derive(Clone, Copy, Debug, PartialEq, Eq, Structural)]
pub struct Quote {
    pub price: Amount,
    pub size: Amount,
}

/// One side of the book: levels with increasing keys.
#[derive(Debug)]
pub struct Side {
    levels: Vec<Level>,
}

/// Both sides of the book.
#[derive(Debug)]
pub struct BookState {
    pub bids: Side,
    pub asks: Side,
}

/// The sizes of a side by key.
pub type Sizes = Map<PriceKey, Amount>;

pub open spec fn increasing(s: Seq<Level>) -> bool {
    forall|i: int, j: int| 0 <= i < j < s.len() ==> #[trigger] s[i].key < #[trigger] s[j].key
}

pub open spec fn has_key(s: Seq<Level>, key: PriceKey) -> bool {
    exists|i: int| 0 <= i < s.len() && #[trigger] s[i].key == key
}

pub open spec fn place_of(s: Seq<Level>, key: PriceKey) -> int {
    choose|i: int| 0 <= i < s.len() && #[trigger] s[i].key == key
}

/// The sizes that a sequence of levels with distinct keys holds.
pub open spec fn sizes_of(s: Seq<Level>) -> Sizes {
    Map::new(|k: PriceKey| has_key(s, k), |k: PriceKey| s[place_of(s, k)].size)
}

/// Whether `k` is the highest key.
pub open spec fn is_top(m: Sizes, k: PriceKey) -> bool {
    m.contains_key(k) && forall|j: PriceKey| #[trigger] m.contains_key(j) ==> j <= k
}

/// Whether `k` is the lowest key.
pub open spec fn is_bottom(m: Sizes, k: PriceKey) -> bool {
    m.contains_key(k) && forall|j: PriceKey| #[trigger] m.contains_key(j) ==> k <= j
}

/// The highest key of a side that is not empty.
pub open spec fn top(m: Sizes) -> PriceKey {
    choose|k: PriceKey| is_top(m, k)
}

/// The lowest key of a side that is not empty.
pub open spec fn bottom(m: Sizes) -> PriceKey {
    choose|k: PriceKey| is_bottom(m, k)
}

/// A side after one level of an update: size zero removes the level.
pub open spec fn updated(m: Sizes, q: Quote) -> Sizes {
    let k = crate::amount::key_of(q.price as int) as PriceKey;
    if q.size == 0 {
        m.remove(k)
    } else {
        m.insert(k, q.size)
    }
}

/// A side after all levels of an update, in their order.
pub open spec fn updated_all(m: Sizes, qs: Seq<Quote>) -> Sizes
    decreases qs.len(),
{
    if qs.len() == 0 {
        m
    } else {
        updated(updated_all(m, qs.drop_last()), qs.last())
    }
}

/// The side that a first snapshot describes: its levels without those of size zero,
/// the later of two levels with the same key.
pub open spec fn initial(qs: Seq<Quote>) -> Sizes
    decreases qs.len(),
{
    if qs.len() == 0 {
        Map::empty()
    } else {
        let m = initial(qs.drop_last());
        if qs.last().size == 0 {
            m
        } else {
            m.insert(crate::amount::key_of(qs.last().price as int) as PriceKey, qs.last().size)
        }
    }
}

/// The middle between the best prices of both sides.
pub open spec fn mid_of(bids: Sizes, asks: Sizes) -> Option<Amount> {
    if bids.is_empty() || asks.is_empty() {
        None
    } else {
        Some(((top(bids) + bottom(asks)) * 5_000) as Amount)
    }
}

/// Whether no level of the side has size zero.
pub open spec fn no_zero(m: Sizes) -> bool {
    forall|k: PriceKey| #[trigger] m.contains_key(k) ==> m[k] != 0
}

/// The levels of a side in the order of their keys.
pub open spec fn lists(s: Seq<Level>, m: Sizes) -> bool {
    increasing(s) && sizes_of(s) == m
}

proof fn lemma_place(s: Seq<Level>, i: int)
    requires
        increasing(s),
        0 <= i < s.len(),
    ensures
        sizes_of(s).contains_key(s[i].key),
        sizes_of(s)[s[i].key] == s[i].size,
{
    assert(has_key(s, s[i].key));
    let p = place_of(s, s[i].key);
    assert(s[p].key == s[i].key);
    assert(p == i) by {
        if p < i {
            assert(s[p].key < s[i].key);
        } else if p > i {
            assert(s[i].key < s[p].key);
        }
    }
}

/// Every key of a listed side is the key of some level.
pub proof fn lemma_listed(s: Seq<Level>, m: Sizes, k: PriceKey) -> (i: int)
    requires
        lists(s, m),
        m.contains_key(k),
    ensures
        0 <= i < s.len(),
        s[i] == (Level { key: k, size: m[k] }),
{
    assert(has_key(s, k));
    let i = place_of(s, k);
    lemma_place(s, i);
    i
}

/// Every level of a listed side is in it.
pub proof fn lemma_level_in(s: Seq<Level>, m: Sizes, i: int)
    requires
        lists(s, m),
        0 <= i < s.len(),
    ensures
        m.contains_key(s[i].key),
        m[s[i].key] == s[i].size,
{
    lemma_place(s, i);
}

/// There is at most one highest key and at most one lowest key.
pub proof fn lemma_extremes(m: Sizes, k: PriceKey)
    ensures
        is_top(m, k) ==> top(m) == k,
        is_bottom(m, k) ==> bottom(m) == k,
{
    if is_top(m, k) {
        let t = top(m);
        assert(is_top(m, t));
        assert(m.contains_key(t) && m.contains_key(k));
    }
    if is_bottom(m, k) {
        let t = bottom(m);
        assert(is_bottom(m, t));
        assert(m.contains_key(t) && m.contains_key(k));
    }
}

/// The first and the last level of a listed side are its extremes.
pub proof fn lemma_ends(s: Seq<Level>, m: Sizes)
    requires
        lists(s, m),
    ensures
        s.len() == 0 <==> m.is_empty(),
        s.len() > 0 ==> top(m) == s.last().key && is_top(m, top(m)) && m[top(m)] == s.last().size,
        s.len() > 0 ==> bottom(m) == s[0].key && is_bottom(m, bottom(m)) && m[bottom(m)] == s[0].size,
{
    if s.len() == 0 {
        assert forall|k: PriceKey| !m.contains_key(k) by {
            if m.contains_key(k) {
                let i = lemma_listed(s, m, k);
            }
        }
        assert(m =~= Map::empty());
    } else {
        lemma_level_in(s, m, 0);
        lemma_level_in(s, m, s.len() - 1);
        assert forall|k: PriceKey| #[trigger] m.contains_key(k) implies s[0].key <= k && k <= s.last().key by {
            let i = lemma_listed(s, m, k);
        }
        assert(is_top(m, s.last().key));
        assert(is_bottom(m, s[0].key));
        lemma_extremes(m, s.last().key);
        lemma_extremes(m, s[0].key);
    }
}

impl View for Side {
    type V = Sizes;

    closed spec fn view(&self) -> Sizes {
        sizes_of(self.levels@)
    }
}

impl Side {
    /// The levels have increasing keys.
    pub closed spec fn wf(&self) -> bool {
        increasing(self.levels@)
    }

    pub fn new() -> (r: Self)
        ensures
            r.wf(),
            r@ == Map::<PriceKey, Amount>::empty(),
    {
        let r = Side { levels: Vec::new() };
        assert(r@ =~= Map::empty());
        r
    }

    /// The levels, lowest key first.
    pub fn levels(&self) -> (r: &Vec<Level>)
        requires
            self.wf(),
        ensures
            lists(r@, self@),
    {
        &self.levels
    }

    /// The place of the first level whose key is not below `key`.
    fn place(&self, key: PriceKey) -> (r: usize)
        requires
            self.wf(),
        ensures
            r <= self.levels@.len(),
            forall|i: int| 0 <= i < r ==> #[trigger] self.levels@[i].key < key,
            forall|i: int| r <= i < self.levels@.len() ==> key <= #[trigger] self.levels@[i].key,
    {
        let mut lo: usize = 0;
        let mut hi: usize = self.levels.len();
        while lo < hi
            invariant
                lo <= hi <= self.levels@.len(),
                increasing(self.levels@),
                forall|i: int| 0 <= i < lo ==> #[trigger] self.levels@[i].key < key,
                forall|i: int| hi <= i < self.levels@.len() ==> key <= #[trigger] self.levels@[i].key,
            decreases hi - lo,
        {
            let m: usize = lo + (hi - lo) / 2;
            if self.levels[m].key < key {
                proof {
                    assert forall|i: int| 0 <= i < m + 1 implies #[trigger] self.levels@[i].key < key by {
                        if i < m {
                            assert(self.levels@[i].key < self.levels@[m as int].key);
                        }
                    }
                }
                lo = m + 1;
            } else {
                proof {
                    assert forall|i: int| m <= i < self.levels@.len() implies key <= #[trigger] self.levels@[i].key by {
                        if i > m {
                            assert(self.levels@[m as int].key < self.levels@[i].key);
                        }
                    }
                }
                hi = m;
            }
        }
        lo
    }

    /// Sets the size at a key.
    pub fn set(&mut self, key: PriceKey, size: Amount)
        requires
            old(self).wf(),
        ensures
            final(self).wf(),
            final(self)@ == old(self)@.insert(key, size),
    {
        let ghost s = self.levels@;
        let p: usize = self.place(key);
        if p < self.levels.len() && self.levels[p].key == key {
            self.levels[p] = Level { key, size };
            proof {
                let t = self.levels@;
                assert(t =~= s.update(p as int, Level { key, size }));
                assert(increasing(t));
                assert forall|k: PriceKey| sizes_of(t).contains_key(k) <==> sizes_of(s).insert(key, size).contains_key(k) by {
                    if has_key(t, k) {
                        let i = place_of(t, k);
                        assert(s[i].key == k);
                    }
                    if has_key(s, k) {
                        let i = place_of(s, k);
                        assert(t[i].key == k);
                    }
                    if k == key {
                        assert(t[p as int].key == k);
                    }
                }
                assert forall|k: PriceKey| sizes_of(t).contains_key(k) implies #[trigger] sizes_of(t)[k] == sizes_of(s).insert(
                    key,
                    size,
                )[k] by {
                    let i = place_of(t, k);
                    lemma_place(t, i);
                    lemma_place(s, i);
                    if k == key && i != p {
                        assert(t[p as int].key == k);
                        lemma_place(t, p as int);
                    }
                }
                assert(sizes_of(t) =~= sizes_of(s).insert(key, size));
            }
        } else {
            self.levels.insert(p, Level { key, size });
            proof {
                let t = self.levels@;
                assert(t =~= s.insert(p as int, Level { key, size }));
                assert forall|i: int, j: int| 0 <= i < j < t.len() implies #[trigger] t[i].key < #[trigger] t[j].key by {
                    let a = if i < p { i } else { i - 1 };
                    let b = if j < p { j } else { j - 1 };
                    if i != p && j != p {
                        assert(s[a].key < s[b].key);
                    }
                }
                assert forall|k: PriceKey| sizes_of(t).contains_key(k) <==> sizes_of(s).insert(key, size).contains_key(k) by {
                    if has_key(t, k) {
                        let i = place_of(t, k);
                        if i < p {
                            assert(s[i].key == k);
                        } else if i > p {
                            assert(s[i - 1].key == k);
                        }
                    }
                    if has_key(s, k) {
                        let i = place_of(s, k);
                        if i < p {
                            assert(t[i].key == k);
                        } else {
                            assert(t[i + 1].key == k);
                        }
                    }
                    if k == key {
                        assert(t[p as int].key == k);
                    }
                }
                assert forall|k: PriceKey| sizes_of(t).contains_key(k) implies #[trigger] sizes_of(t)[k] == sizes_of(s).insert(
                    key,
                    size,
                )[k] by {
                    let i = place_of(t, k);
                    lemma_place(t, i);
                    if i < p {
                        lemma_place(s, i);
                    } else if i > p {
                        lemma_place(s, i - 1);
                    }
                }
                assert(sizes_of(t) =~= sizes_of(s).insert(key, size));
            }
        }
    }

    /// Removes the level at a key, if there is one.
    pub fn remove(&mut self, key: PriceKey)
        requires
            old(self).wf(),
        ensures
            final(self).wf(),
            final(self)@ == old(self)@.remove(key),
    {
        let ghost s = self.levels@;
        let p: usize = self.place(key);
        if p < self.levels.len() && self.levels[p].key == key {
            let _gone: Level = self.levels.remove(p);
            proof {
                let t = self.levels@;
                assert(t =~= s.remove(p as int));
                assert forall|i: int, j: int| 0 <= i < j < t.len() implies #[trigger] t[i].key < #[trigger] t[j].key by {
                    let a = if i < p { i } else { i + 1 };
                    let b = if j < p { j } else { j + 1 };
                    assert(s[a].key < s[b].key);
                }
                assert forall|k: PriceKey| sizes_of(t).contains_key(k) <==> sizes_of(s).remove(key).contains_key(k) by {
                    if has_key(t, k) {
                        let i = place_of(t, k);
                        let a = if i < p { i } else { i + 1 };
                        assert(s[a].key == k);
                        if a < p {
                            assert(s[a].key < s[p as int].key);
                        } else {
                            assert(s[p as int].key < s[a].key);
                        }
                    }
                    if has_key(s, k) && k != key {
                        let i = place_of(s, k);
                        if i < p {
                            assert(t[i].key == k);
                        } else {
                            assert(t[i - 1].key == k);
                        }
                    }
                }
                assert forall|k: PriceKey| sizes_of(t).contains_key(k) implies #[trigger] sizes_of(t)[k] == sizes_of(s).remove(
                    key,
                )[k] by {
                    let i = place_of(t, k);
                    lemma_place(t, i);
                    if i < p {
                        lemma_place(s, i);
                    } else {
                        lemma_place(s, i + 1);
                    }
                }
                assert(sizes_of(t) =~= sizes_of(s).remove(key));
            }
        } else {
            proof {
                if has_key(s, key) {
                    let i = place_of(s, key);
                    if i < p {
                        assert(s[i].key < key);
                    } else {
                        assert(key <= s[p as int].key);
                        if i > p {
                            assert(s[p as int].key < s[i].key);
                        }
                    }
                }
                assert(sizes_of(s) =~= sizes_of(s).remove(key));
            }
        }
    }

    /// A copy.
    pub fn copy(&self) -> (r: Self)
        requires
            self.wf(),
        ensures
            r.wf(),
            r@ == self@,
    {
        let n: usize = self.levels.len();
        let mut levels: Vec<Level> = Vec::new();
        let mut i: usize = 0;
        while i < n
            invariant
                i <= n,
                n == self.levels@.len(),
                levels@ == self.levels@.take(i as int),
            decreases n - i,
        {
            levels.push(self.levels[i]);
            i += 1;
            assert(levels@ =~= self.levels@.take(i as int));
        }
        assert(levels@ =~= self.levels@);
        Side { levels }
    }

    /// Removes every level.
    pub fn clear(&mut self)
        ensures
            final(self).wf(),
            final(self)@ == Map::<PriceKey, Amount>::empty(),
    {
        self.levels.clear();
        assert(self@ =~= Map::empty());
    }

    /// The level with the highest key.
    pub fn highest(&self) -> (r: Option<Level>)
        requires
            self.wf(),
        ensures
            r is None <==> self@.is_empty(),
            r matches Some(l) ==> is_top(self@, l.key) && l.key == top(self@) && l.size == self@[l.key],
    {
        proof {
            lemma_ends(self.levels@, self@);
        }
        let n: usize = self.levels.len();
        if n == 0 {
            None
        } else {
            Some(self.levels[n - 1])
        }
    }

    /// The level with the lowest key.
    pub fn lowest(&self) -> (r: Option<Level>)
        requires
            self.wf(),
        ensures
            r is None <==> self@.is_empty(),
            r matches Some(l) ==> is_bottom(self@, l.key) && l.key == bottom(self@) && l.size == self@[l.key],
    {
        proof {
            lemma_ends(self.levels@, self@);
        }
        if self.levels.len() == 0 {
            None
        } else {
            Some(self.levels[0])
        }
    }

    /// One level of an update: size zero removes the level.
    pub fn apply(&mut self, q: Quote)
        requires
            old(self).wf(),
        ensures
            final(self).wf(),
            final(self)@ == updated(old(self)@, q),
    {
        let key: PriceKey = price_to_key(q.price);
        if q.size == 0 {
            self.remove(key);
        } else {
            self.set(key, q.size);
        }
    }

    /// All levels of an update, in their order.
    pub fn apply_levels(&mut self, levels: &Vec<Quote>)
        requires
            old(self).wf(),
        ensures
            final(self).wf(),
            final(self)@ == updated_all(old(self)@, levels@),
    {
        let ghost start = self@;
        let n: usize = levels.len();
        let mut i: usize = 0;
        while i < n
            invariant
                i <= n,
                n == levels@.len(),
                self.wf(),
                self@ == updated_all(start, levels@.take(i as int)),
            decreases n - i,
        {
            proof {
                assert(levels@.take(i + 1).drop_last() =~= levels@.take(i as int));
                assert(levels@.take(i + 1).last() == levels@[i as int]);
            }
            self.apply(levels[i]);
            i += 1;
        }
        assert(levels@.take(n as int) =~= levels@);
    }

    /// Replaces the side by the levels of a first snapshot.
    pub fn reset(&mut self, levels: &Vec<Quote>)
        ensures
            final(self).wf(),
            final(self)@ == initial(levels@),
    {
        self.clear();
        let n: usize = levels.len();
        let mut i: usize = 0;
        while i < n
            invariant
                i <= n,
                n == levels@.len(),
                self.wf(),
                self@ == initial(levels@.take(i as int)),
            decreases n - i,
        {
            proof {
                assert(levels@.take(i + 1).drop_last() =~= levels@.take(i as int));
                assert(levels@.take(i + 1).last() == levels@[i as int]);
            }
            let q: Quote = levels[i];
            if q.size != 0 {
                self.set(price_to_key(q.price), q.size);
            }
            i += 1;
        }
        assert(levels@.take(n as int) =~= levels@);
    }
}

impl BookState {
    pub open spec fn wf(&self) -> bool {
        self.bids.wf() && self.asks.wf()
    }

    /// An empty book.
    pub fn new() -> (r: Self)
        ensures
            r.wf(),
            r.bids@ == Map::<PriceKey, Amount>::empty(),
            r.asks@ == Map::<PriceKey, Amount>::empty(),
    {
        BookState { bids: Side::new(), asks: Side::new() }
    }

    /// Replaces the book by a first snapshot.
    pub fn apply_initial(&mut self, bids: &Vec<Quote>, asks: &Vec<Quote>)
        ensures
            final(self).wf(),
            final(self).bids@ == initial(bids@),
            final(self).asks@ == initial(asks@),
    {
        self.bids.reset(bids);
        self.asks.reset(asks);
    }

    /// Applies an update; a side that the update does not name stays as it is.
    pub fn apply_update(&mut self, bids: &Option<Vec<Quote>>, asks: &Option<Vec<Quote>>)
        requires
            old(self).wf(),
        ensures
            final(self).wf(),
            final(self).bids@ == (match bids {
                Some(b) => updated_all(old(self).bids@, b@),
                None => old(self).bids@,
            }),
            final(self).asks@ == (match asks {
                Some(a) => updated_all(old(self).asks@, a@),
                None => old(self).asks@,
            }),
    {
        if let Some(b) = bids {
            self.bids.apply_levels(b);
        }
        if let Some(a) = asks {
            self.asks.apply_levels(a);
        }
    }

    /// A copy.
    pub fn copy(&self) -> (r: Self)
        requires
            self.wf(),
        ensures
            r.wf(),
            r.bids@ == self.bids@,
            r.asks@ == self.asks@,
    {
        BookState { bids: self.bids.copy(), asks: self.asks.copy() }
    }

    /// The middle between the best bid and the best ask.
    pub fn mid(&self) -> (r: Option<Amount>)
        requires
            self.wf(),
        ensures
            r == mid_of(self.bids@, self.asks@),
    {
        let b = self.bids.highest();
        let a = self.asks.lowest();
        match (b, a) {
            (Some(b), Some(a)) => {
                let pb: Amount = key_to_price(b.key);
                let pa: Amount = key_to_price(a.key);
                Some((pb + pa) / 2)
            },
            _ => None,
        }
    }
}

impl Quote {
    /// A level from the texts of the feed; what is no number counts as zero.
    pub fn read(price: &str, size: &str) -> (r: Self)
        ensures
            r.price == crate::candle_agg::amount_or(price@, 0),
            r.size == crate::candle_agg::amount_or(size@, 0),
    {
        Quote {
            price: match parse_amount(price) {
                Some(a) => a,
                None => 0,
            },
            size: match parse_amount(size) {
                Some(a) => a,
                None => 0,
            },
        }
    }
}

// ---------------------------------------------------------------------------
// Laws

/// A first snapshot and any update leave no level of size zero behind.
pub proof fn law_no_level_is_empty(m: Sizes, qs: Seq<Quote>)
    ensures
        no_zero(initial(qs)),
        no_zero(m) ==> no_zero(updated_all(m, qs)),
    decreases qs.len(),
{
    if qs.len() > 0 {
        law_no_level_is_empty(m, qs.drop_last());
    }
}

/// A first snapshot is what the same levels make of an empty side, where no level has
/// size zero.
pub proof fn law_initial_is_an_update_of_nothing(qs: Seq<Quote>)
    requires
        forall|i: int| 0 <= i < qs.len() ==> (#[trigger] qs[i]).size != 0,
    ensures
        initial(qs) == updated_all(Map::empty(), qs),
    decreases qs.len(),
{
    if qs.len() > 0 {
        let p = qs.drop_last();
        assert forall|i: int| 0 <= i < p.len() implies (#[trigger] p[i]).size != 0 by {
            assert(p[i] == qs[i]);
        }
        law_initial_is_an_update_of_nothing(p);
        assert(qs[qs.len() - 1].size != 0);
    }
}

/// An update with size zero undoes the level that the update before it brought.
pub proof fn law_zero_size_removes(m: Sizes, price: Amount, size: Amount)
    requires
        size != 0,
    ensures
        !updated(updated(m, Quote { price, size }), Quote { price, size: 0 }).contains_key(
            crate::amount::key_of(price as int) as PriceKey,
        ),
        !m.contains_key(crate::amount::key_of(price as int) as PriceKey) ==> updated(
            updated(m, Quote { price, size }),
            Quote { price, size: 0 },
        ) == m,
{
    let k = crate::amount::key_of(price as int) as PriceKey;
    if !m.contains_key(k) {
        assert(m.insert(k, size).remove(k) =~= m);
    }
}

/// An update touches no other price.
pub proof fn law_update_is_local(m: Sizes, q: Quote, k: PriceKey)
    requires
        k != crate::amount::key_of(q.price as int),
    ensures
        updated(m, q).contains_key(k) == m.contains_key(k),
        m.contains_key(k) ==> updated(m, q)[k] == m[k],
{
}

/// The middle lies between the best prices, in the order in which they stand.
pub proof fn law_mid_lies_between(bids: Sizes, asks: Sizes)
    requires
        mid_of(bids, asks) is Some,
    ensures
        top(bids) <= bottom(asks) ==> top(bids) * crate::amount::TICK <= mid_of(bids, asks)->0 <= bottom(
            asks,
        ) * crate::amount::TICK,
        bottom(asks) <= top(bids) ==> bottom(asks) * crate::amount::TICK <= mid_of(bids, asks)->0 <= top(
            bids,
        ) * crate::amount::TICK,
{
}

/// The key of a quote is that of the tick nearest to its price.
pub open spec fn quote_key(q: Quote) -> PriceKey {
    crate::amount::key_of(q.price as int) as PriceKey
}

/// After an update a level has the size of the last quote for it, or is gone where that size
/// is zero; a level that no quote names stays as it was.
pub proof fn law_the_last_quote_counts(m: Sizes, qs: Seq<Quote>, i: int, k: PriceKey)
    requires
        forall|j: int| i < j < qs.len() ==> quote_key(#[trigger] qs[j]) != k,
        -1 <= i < qs.len(),
        i >= 0 ==> quote_key(qs[i]) == k,
    ensures
        i >= 0 ==> (updated_all(m, qs).contains_key(k) <==> qs[i].size != 0),
        i >= 0 && qs[i].size != 0 ==> updated_all(m, qs)[k] == qs[i].size,
        i < 0 ==> (updated_all(m, qs).contains_key(k) <==> m.contains_key(k)),
        i < 0 && m.contains_key(k) ==> updated_all(m, qs)[k] == m[k],
    decreases qs.len(),
{
    if qs.len() > 0 {
        let p = qs.drop_last();
        if i < p.len() {
            assert forall|j: int| i < j < p.len() implies quote_key(#[trigger] p[j]) != k by {
                assert(p[j] == qs[j]);
            }
            assert(quote_key(qs[qs.len() - 1]) != k);
            law_the_last_quote_counts(m, p, i, k);
        }
    }
}

/// A first snapshot holds exactly the levels that it names with a size, each with the size
/// that it names last.
pub proof fn law_a_first_snapshot_holds_its_levels(qs: Seq<Quote>, i: int, k: PriceKey)
    requires
        forall|j: int| i < j < qs.len() ==> quote_key(#[trigger] qs[j]) != k || qs[j].size == 0,
        -1 <= i < qs.len(),
        i >= 0 ==> quote_key(qs[i]) == k && qs[i].size != 0,
    ensures
        initial(qs).contains_key(k) <==> i >= 0,
        i >= 0 ==> initial(qs)[k] == qs[i].size,
    decreases qs.len(),
{
    if qs.len() > 0 {
        let p = qs.drop_last();
        if i < p.len() {
            assert forall|j: int| i < j < p.len() implies quote_key(#[trigger] p[j]) != k || p[j].size == 0 by {
                assert(p[j] == qs[j]);
            }
            assert(quote_key(qs[qs.len() - 1]) != k || qs[qs.len() - 1].size == 0);
            law_a_first_snapshot_holds_its_levels(p, i, k);
        }
    }
}

/// The middle lies half-way between the highest bid and the lowest ask. A book with an empty
/// side has none.
pub proof fn law_the_middle_is_half_way(bids: Sizes, asks: Sizes, high: PriceKey, low: PriceKey)
    requires
        bids.contains_key(high),
        forall|k: PriceKey| #[trigger] bids.contains_key(k) ==> k <= high,
        asks.contains_key(low),
        forall|k: PriceKey| #[trigger] asks.contains_key(k) ==> low <= k,
    ensures
        mid_of(bids, asks) matches Some(mid) && 2 * mid == high * 10_000 + low * 10_000,
        mid_of(Map::empty(), asks) is None,
        mid_of(bids, Map::empty()) is None,
{
    assert(is_top(bids, high));
    assert(is_bottom(asks, low));
    assert(top(bids) == high);
    assert(bottom(asks) == low);
    assert(!bids.is_empty()) by {
        assert(bids.dom().contains(high));
    }
    assert(!asks.is_empty()) by {
        assert(asks.dom().contains(low));
    }
}

} // verus!
