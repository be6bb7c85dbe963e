//! Figures of a book: best prices, liquidity near the top, walls, depth curves and
//! ladders.

use crate::amount::{abs_u128, fixed_text, key_to_price, sat_add, Amount, ONE};
use crate::book::{Level, Side};
use vstd::prelude::*;

verus! {

broadcast use vstd::seq::group_seq_axioms;

/// How many levels count as near the top.
pub const NEAR_LEVELS: usize = 10;

/// Best prices and liquidity near the top of both sides.
#[derive(Clone, Copy, Debug, PartialEq, Eq, Structural)]
pub struct BubbleMetrics {
    pub best_bid: Amount,
    pub best_ask: Amount,
    pub mid: Amount,
    pub spread: Amount,
    pub bid_liq: Amount,
    pub ask_liq: Amount,
    pub imbalance: Amount,
}

/// The largest level near the top of a side, with its size in proportion to the average.
#[derive(Clone, Copy, Debug, PartialEq, Eq, Structural)]
pub struct Wall {
    pub price: Amount,
    pub size: Amount,
    pub score: Amount,
}

/// Best prices and walls of both sides.
#[derive(Clone, Copy, Debug, PartialEq, Eq, Structural)]
pub struct BubbleInfo {
    pub best_bid: Amount,
    pub best_ask: Amount,
    pub bid_wall: Wall,
    pub ask_wall: Wall,
}

/// A point of a depth curve.
#[derive(Clone, Copy, Debug, PartialEq, Eq, Structural)]
pub struct DepthPoint {
    pub price: Amount,
    pub cumulative: Amount,
}

/// One row of a ladder, as text.
#[derive(Debug)]
pub struct LadderRow {
    pub price: String,
    pub size: String,
}

// ---------------------------------------------------------------------------
// Levels in order

/// The levels of a side, lowest key first.
pub open spec fn ordered(m: crate::book::Sizes) -> Seq<Level> {
    choose|s: Seq<Level>| crate::book::lists(s, m)
}

/// The levels of a side, best first: the bids from the highest key down, the asks from
/// the lowest key up.
pub open spec fn from_best(m: crate::book::Sizes, bids: bool) -> Seq<Level> {
    if bids {
        ordered(m).reverse()
    } else {
        ordered(m)
    }
}

/// The best `n` levels of a side, or all where there are fewer.
pub open spec fn best_levels(m: crate::book::Sizes, bids: bool, n: nat) -> Seq<Level> {
    let s = from_best(m, bids);
    if s.len() > n {
        s.take(n as int)
    } else {
        s
    }
}

/// The sum of the sizes, kept in range.
pub open spec fn total_size(s: Seq<Level>) -> int
    decreases s.len(),
{
    if s.len() == 0 {
        0
    } else {
        crate::amount::sat(total_size(s.drop_last()) + s.last().size)
    }
}

/// The price of the best level, or zero where the side is empty.
pub open spec fn best_price(m: crate::book::Sizes, bids: bool) -> int {
    if m.is_empty() {
        0
    } else if bids {
        crate::book::top(m) * crate::amount::TICK
    } else {
        crate::book::bottom(m) * crate::amount::TICK
    }
}

/// `num / den` as an amount, rounded towards zero and kept in range.
pub open spec fn ratio_of(num: int, den: int) -> int {
    let q = (crate::amount::magnitude(num) * ONE) / den;
    if q > i128::MAX {
        if num < 0 {
            -(i128::MAX as int)
        } else {
            i128::MAX as int
        }
    } else if num < 0 {
        -q
    } else {
        q
    }
}

/// The figures that the sides give.
pub open spec fn bubble_metrics(bids: crate::book::Sizes, asks: crate::book::Sizes) -> BubbleMetrics {
    let bb = best_price(bids, true);
    let ba = best_price(asks, false);
    let two_sided = bb > 0 && ba > 0;
    let bl = total_size(best_levels(bids, true, NEAR_LEVELS as nat));
    let al = total_size(best_levels(asks, false, NEAR_LEVELS as nat));
    BubbleMetrics {
        best_bid: bb as Amount,
        best_ask: ba as Amount,
        mid: (if two_sided {
            (bb + ba) / 2
        } else {
            0
        }) as Amount,
        spread: (if two_sided {
            ba - bb
        } else {
            0
        }) as Amount,
        bid_liq: bl as Amount,
        ask_liq: al as Amount,
        imbalance: (if al > 0 {
            ratio_of(bl, al)
        } else {
            0
        }) as Amount,
    }
}

/// The place of the first level with the largest positive size, if there is one.
pub open spec fn largest(s: Seq<Level>) -> Option<int>
    decreases s.len(),
{
    if s.len() == 0 {
        None
    } else {
        match largest(s.drop_last()) {
            Some(i) => if s.last().size > s[i].size {
                Some(s.len() - 1)
            } else {
                Some(i)
            },
            None => if s.last().size > 0 {
                Some(s.len() - 1)
            } else {
                None
            },
        }
    }
}

pub open spec fn no_wall() -> Wall {
    Wall { price: 0, size: 0, score: 0 }
}

/// The wall among the given levels: the first largest one, scored by its size over the
/// average size. There is none where the average is not positive.
pub open spec fn wall_of(s: Seq<Level>) -> Wall {
    let total = total_size(s);
    if s.len() == 0 || total <= 0 {
        no_wall()
    } else {
        match largest(s) {
            Some(i) => Wall {
                price: (s[i].key * crate::amount::TICK) as Amount,
                size: s[i].size,
                score: (if s[i].size * s.len() > i128::MAX {
                    i128::MAX as int
                } else {
                    ratio_of(s[i].size * s.len(), total)
                }) as Amount,
            },
            None => no_wall(),
        }
    }
}

/// The depth curve of levels given best first.
pub open spec fn depth_curve(s: Seq<Level>) -> Seq<DepthPoint>
    decreases s.len(),
{
    if s.len() == 0 {
        Seq::empty()
    } else {
        depth_curve(s.drop_last()).push(
            DepthPoint {
                price: (s.last().key * crate::amount::TICK) as Amount,
                cumulative: total_size(s) as Amount,
            },
        )
    }
}

/// `s` with blanks before it up to the given width.
pub open spec fn right_aligned(s: Seq<char>, width: nat) -> Seq<char> {
    if s.len() >= width {
        s
    } else {
        Seq::new((width - s.len()) as nat, |i: int| ' ') + s
    }
}

/// Whether a row shows a level: its price with two decimals in nine columns, its size with
/// four decimals in `size_width` columns.
pub open spec fn is_row_of(r: LadderRow, l: Level, size_width: nat) -> bool {
    &&& r.price@ == right_aligned(crate::amount::fixed(l.key * crate::amount::TICK, 2), 9)
    &&& r.size@ == right_aligned(crate::amount::fixed(l.size as int, 4), size_width)
}

/// Whether the rows show these levels.
pub open spec fn is_ladder(rows: Seq<LadderRow>, levels: Seq<Level>, size_width: nat) -> bool {
    &&& rows.len() == levels.len()
    &&& forall|i: int| 0 <= i < rows.len() ==> is_row_of(#[trigger] rows[i], levels[i], size_width)
}

// ---------------------------------------------------------------------------
// Levels of a side are determined by its sizes

proof fn lemma_without_last(s: Seq<Level>)
    requires
        crate::book::increasing(s),
        s.len() > 0,
    ensures
        crate::book::lists(s.drop_last(), crate::book::sizes_of(s).remove(s.last().key)),
{
    let t = s.drop_last();
    let m = crate::book::sizes_of(s);
    let u = crate::book::sizes_of(t);
    assert forall|i: int, j: int| 0 <= i < j < t.len() implies #[trigger] t[i].key < #[trigger] t[j].key by {
        assert(t[i] == s[i] && t[j] == s[j]);
    }
    assert forall|k: crate::amount::PriceKey| u.contains_key(k) <==> m.remove(s.last().key).contains_key(k) by {
        if u.contains_key(k) {
            let i = crate::book::lemma_listed(t, u, k);
            assert(s[i].key == k);
            crate::book::lemma_level_in(s, m, i);
            assert(s[i].key < s[s.len() - 1].key);
        }
        if m.remove(s.last().key).contains_key(k) {
            let i = crate::book::lemma_listed(s, m, k);
            assert(t[i].key == k);
            crate::book::lemma_level_in(t, u, i);
        }
    }
    assert forall|k: crate::amount::PriceKey| u.contains_key(k) implies #[trigger] u[k] == m.remove(s.last().key)[k] by {
        let i = crate::book::lemma_listed(t, u, k);
        crate::book::lemma_level_in(s, m, i);
    }
    assert(u =~= m.remove(s.last().key));
}

/// Two listings of the same sizes are the same.
pub proof fn lemma_lists_unique(s: Seq<Level>, t: Seq<Level>, m: crate::book::Sizes)
    requires
        crate::book::lists(s, m),
        crate::book::lists(t, m),
    ensures
        s == t,
    decreases s.len(),
{
    crate::book::lemma_ends(s, m);
    crate::book::lemma_ends(t, m);
    if s.len() == 0 {
        assert(s =~= t);
    } else {
        lemma_without_last(s);
        lemma_without_last(t);
        lemma_lists_unique(s.drop_last(), t.drop_last(), m.remove(s.last().key));
        assert(s =~= s.drop_last().push(s.last()));
        assert(t =~= t.drop_last().push(t.last()));
    }
}

/// The levels that a side hands out are the ordered ones.
pub proof fn lemma_ordered(s: Seq<Level>, m: crate::book::Sizes)
    requires
        crate::book::lists(s, m),
    ensures
        ordered(m) == s,
{
    lemma_lists_unique(s, ordered(m), m);
}

// ---------------------------------------------------------------------------
// Executable functions

/// The best `n` levels of a side, best first.
pub fn best_of(side: &Side, bids: bool, n: usize) -> (r: Vec<Level>)
    requires
        side.wf(),
    ensures
        r@ == best_levels(side@, bids, n as nat),
{
    let levels: &Vec<Level> = side.levels();
    proof {
        lemma_ordered(levels@, side@);
    }
    let ghost all = from_best(side@, bids);
    let len: usize = levels.len();
    let count: usize = if len > n {
        n
    } else {
        len
    };
    let mut out: Vec<Level> = Vec::new();
    let mut i: usize = 0;
    while i < count
        invariant
            i <= count <= len,
            len == levels@.len(),
            levels@ == ordered(side@),
            all == from_best(side@, bids),
            out@ == all.take(i as int),
        decreases count - i,
    {
        let l: Level = if bids {
            levels[len - 1 - i]
        } else {
            levels[i]
        };
        assert(l == all[i as int]);
        out.push(l);
        assert(out@ =~= all.take(i + 1));
        i += 1;
    }
    assert(out@ =~= best_levels(side@, bids, n as nat));
    out
}

/// Every level of a side, best first.
pub fn all_from_best(side: &Side, bids: bool) -> (r: Vec<Level>)
    requires
        side.wf(),
    ensures
        r@ == from_best(side@, bids),
{
    let n: usize = side.levels().len();
    proof {
        assert forall|s: Seq<Level>| crate::book::lists(s, side@) implies s == ordered(side@) by {
            lemma_ordered(s, side@);
        }
    }
    best_of(side, bids, n)
}

fn sum_sizes(v: &Vec<Level>) -> (r: Amount)
    ensures
        r == total_size(v@),
{
    let n: usize = v.len();
    let mut sum: Amount = 0;
    let mut i: usize = 0;
    while i < n
        invariant
            i <= n,
            n == v@.len(),
            sum == total_size(v@.take(i as int)),
        decreases n - i,
    {
        assert(v@.take(i + 1).drop_last() =~= v@.take(i as int));
        sum = sat_add(sum, v[i].size);
        i += 1;
    }
    assert(v@.take(n as int) =~= v@);
    sum
}

fn price_of_best(side: &Side, bids: bool) -> (r: Amount)
    requires
        side.wf(),
    ensures
        r == best_price(side@, bids),
        -100_000_000_000_000_000_000_000 <= r <= 100_000_000_000_000_000_000_000,
{
    let best = if bids {
        side.highest()
    } else {
        side.lowest()
    };
    match best {
        Some(l) => key_to_price(l.key),
        None => 0,
    }
}

/// One decimal digit of a quotient: `10 * r == d * den + rest`.
fn next_digit(r: u128, den: u128) -> (t: (u128, u128))
    requires
        0 < den <= 170141183460469231731687303715884105727,
        r < den,
    ensures
        t.0 <= 9,
        t.1 < den,
        10 * r == t.0 * den + t.1,
{
    let mut d: u128 = 0;
    let mut rest: u128 = 0;
    let mut i: u128 = 0;
    while i < 10
        invariant
            i <= 10,
            0 < den <= 170141183460469231731687303715884105727,
            r < den,
            rest < den,
            d <= i,
            i == 0 ==> d == 0,
            i * r == d * den + rest,
        decreases 10 - i,
    {
        proof {
            assert((i + 1) * r == i * r + r) by (nonlinear_arith);
            assert((d + 1) * den == d * den + den) by (nonlinear_arith);
        }
        rest = rest + r;
        if rest >= den {
            rest = rest - den;
            d = d + 1;
        }
        i += 1;
    }
    proof {
        assert(d <= 9) by (nonlinear_arith)
            requires
                10 * r == d * den + rest,
                r < den,
                rest >= 0,
                den > 0,
        ;
    }
    (d, rest)
}

/// `num / den` as an amount, rounded towards zero.
pub fn ratio(num: Amount, den: Amount) -> (r: Amount)
    requires
        den > 0,
    ensures
        r == ratio_of(num as int, den as int),
{
    let n: u128 = abs_u128(num);
    let d: u128 = den as u128;
    let mut q: u128 = n / d;
    let mut rest: u128 = n % d;
    proof {
        assert(n == q * d + rest && rest < d) by (nonlinear_arith)
            requires
                q == n / d,
                rest == n % d,
                d > 0,
        ;
    }
    if q > 1_701_411_834_604_692_317_316_873_037_158 {
        proof {
            let p = n * ONE;
            assert(p / (d as int) >= q * 100_000_000) by (nonlinear_arith)
                requires
                    p == n * 100_000_000,
                    n == q * d + rest,
                    rest >= 0,
                    d > 0,
            {
                assert(p >= (q * 100_000_000) * d) by (nonlinear_arith)
                    requires
                        p == n * 100_000_000,
                        n == q * d + rest,
                        rest >= 0,
                ;
                vstd::arithmetic::div_mod::lemma_div_is_ordered((q * 100_000_000) * d, p, d as int);
                vstd::arithmetic::div_mod::lemma_div_by_multiple(q * 100_000_000, d as int);
            }
        }
        return if num < 0 {
            -i128::MAX
        } else {
            i128::MAX
        };
    }
    let mut k: u32 = 0;
    proof {
        assert(n * 1 == n);
    }
    while k < 8
        invariant
            k <= 8,
            0 < d <= 170141183460469231731687303715884105727,
            rest < d,
            n * crate::amount::pow10(k as nat) == q * d + rest,
            q < 1_701_411_834_604_692_317_316_873_037_159 * crate::amount::pow10(k as nat),
            k == 0 ==> crate::amount::pow10(k as nat) == 1,
        decreases 8 - k,
    {
        let (digit, left) = next_digit(rest, d);
        proof {
            let p = crate::amount::pow10(k as nat);
            assert(crate::amount::pow10((k + 1) as nat) == 10 * p);
            crate::amount::lemma_pow10_monotonic(k as nat, 7);
            crate::amount::lemma_pow10_8();
            assert(crate::amount::pow10(8) == 10 * crate::amount::pow10(7));
            assert(n * (10 * p) == 10 * (n * p)) by (nonlinear_arith);
            assert((q * 10 + digit) * d == 10 * (q * d) + digit * d) by (nonlinear_arith);
            assert(q * 10 + digit < 1_701_411_834_604_692_317_316_873_037_159 * (10 * p)) by (nonlinear_arith)
                requires
                    q < 1_701_411_834_604_692_317_316_873_037_159 * p,
                    digit <= 9,
            ;
        }
        q = q * 10 + digit;
        rest = left;
        k += 1;
    }
    proof {
        crate::amount::lemma_pow10_8();
        let p = n * ONE;
        vstd::arithmetic::div_mod::lemma_fundamental_div_mod_converse(
            p as int,
            d as int,
            q as int,
            rest as int,
        );
    }
    if q > 170141183460469231731687303715884105727 {
        if num < 0 {
            -i128::MAX
        } else {
            i128::MAX
        }
    } else if num < 0 {
        -(q as i128)
    } else {
        q as i128
    }
}

/// Best prices, liquidity near the top and its imbalance.
pub fn compute_bubble_metrics(bids: &Side, asks: &Side) -> (r: BubbleMetrics)
    requires
        bids.wf(),
        asks.wf(),
    ensures
        r == bubble_metrics(bids@, asks@),
{
    let best_bid: Amount = price_of_best(bids, true);
    let best_ask: Amount = price_of_best(asks, false);
    let two_sided: bool = best_bid > 0 && best_ask > 0;
    let mid: Amount = if two_sided {
        (best_bid + best_ask) / 2
    } else {
        0
    };
    let spread: Amount = if two_sided {
        best_ask - best_bid
    } else {
        0
    };
    let bid_liq: Amount = sum_sizes(&best_of(bids, true, NEAR_LEVELS));
    let ask_liq: Amount = sum_sizes(&best_of(asks, false, NEAR_LEVELS));
    let imbalance: Amount = if ask_liq > 0 {
        ratio(bid_liq, ask_liq)
    } else {
        0
    };
    BubbleMetrics { best_bid, best_ask, mid, spread, bid_liq, ask_liq, imbalance }
}

proof fn lemma_largest(s: Seq<Level>)
    ensures
        match largest(s) {
            Some(i) => 0 <= i < s.len() && s[i].size > 0,
            None => true,
        },
    decreases s.len(),
{
    if s.len() > 0 {
        lemma_largest(s.drop_last());
    }
}

fn find_wall(v: &Vec<Level>) -> (r: Wall)
    ensures
        r == wall_of(v@),
{
    let n: usize = v.len();
    let total: Amount = sum_sizes(v);
    if n == 0 || total <= 0 {
        return Wall { price: 0, size: 0, score: 0 };
    }
    let mut best: Option<usize> = None;
    let mut i: usize = 0;
    while i < n
        invariant
            i <= n,
            n == v@.len(),
            match best {
                Some(b) => b < i && largest(v@.take(i as int)) == Some(b as int),
                None => largest(v@.take(i as int)) is None,
            },
        decreases n - i,
    {
        proof {
            assert(v@.take(i + 1).drop_last() =~= v@.take(i as int));
            assert(v@.take(i + 1).last() == v@[i as int]);
            lemma_largest(v@.take(i as int));
        }
        match best {
            Some(b) => {
                if v[i].size > v[b].size {
                    best = Some(i);
                }
            },
            None => {
                if v[i].size > 0 {
                    best = Some(i);
                }
            },
        }
        i += 1;
    }
    proof {
        assert(v@.take(n as int) =~= v@);
        lemma_largest(v@);
    }
    match best {
        Some(b) => {
            let l: Level = v[b];
            let score: Amount = match l.size.checked_mul(n as i128) {
                Some(p) => ratio(p, total),
                None => {
                    assert(l.size * n >= 0) by (nonlinear_arith)
                        requires
                            l.size >= 0,
                            n >= 0,
                    ;
                    i128::MAX
                },
            };
            Wall { price: key_to_price(l.key), size: l.size, score }
        },
        None => Wall { price: 0, size: 0, score: 0 },
    }
}

/// The best prices and walls of a book.
pub open spec fn bubble_info(bids: crate::book::Sizes, asks: crate::book::Sizes, levels: nat) -> BubbleInfo {
    BubbleInfo {
        best_bid: best_price(bids, true) as Amount,
        best_ask: best_price(asks, false) as Amount,
        bid_wall: wall_of(best_levels(bids, true, levels)),
        ask_wall: wall_of(best_levels(asks, false, levels)),
    }
}

/// Best prices and the walls among the best `levels` levels.
pub fn compute_bubbles(bids: &Side, asks: &Side, levels: usize) -> (r: BubbleInfo)
    requires
        bids.wf(),
        asks.wf(),
    ensures
        r == bubble_info(bids@, asks@, levels as nat),
{
    BubbleInfo {
        best_bid: price_of_best(bids, true),
        best_ask: price_of_best(asks, false),
        bid_wall: find_wall(&best_of(bids, true, levels)),
        ask_wall: find_wall(&best_of(asks, false, levels)),
    }
}

/// The depth curve of a side.
pub fn depth_points(side: &Side, bids: bool) -> (r: Vec<DepthPoint>)
    requires
        side.wf(),
    ensures
        r@ == depth_curve(from_best(side@, bids)),
{
    let v: Vec<Level> = all_from_best(side, bids);
    let n: usize = v.len();
    let mut out: Vec<DepthPoint> = Vec::new();
    let mut sum: Amount = 0;
    let mut i: usize = 0;
    proof {
        assert(v@.take(0) =~= Seq::empty());
    }
    while i < n
        invariant
            i <= n,
            n == v@.len(),
            sum == total_size(v@.take(i as int)),
            out@ == depth_curve(v@.take(i as int)),
        decreases n - i,
    {
        proof {
            assert(v@.take(i + 1).drop_last() =~= v@.take(i as int));
            assert(v@.take(i + 1).last() == v@[i as int]);
        }
        sum = sat_add(sum, v[i].size);
        out.push(DepthPoint { price: key_to_price(v[i].key), cumulative: sum });
        i += 1;
    }
    assert(v@.take(n as int) =~= v@);
    out
}

/// `s` with blanks before it up to the given width.
pub fn align_right(s: &str, width: usize) -> (r: String)
    ensures
        r@ == right_aligned(s@, width as nat),
{
    let n: usize = s.unicode_len();
    let mut out = String::new();
    let mut i: usize = n;
    proof {
        reveal_strlit(" ");
    }
    while i < width
        invariant
            n == s@.len(),
            n <= i,
            n < width ==> i <= width,
            n >= width ==> i == n,
            " "@ == seq![' '],
            out@ == Seq::new((i - n) as nat, |j: int| ' '),
        decreases width - i,
    {
        out.append(" ");
        i += 1;
        assert(out@ =~= Seq::new((i - n) as nat, |j: int| ' '));
    }
    out.append(s);
    assert(out@ =~= right_aligned(s@, width as nat));
    out
}

/// The ladder of a side: its best `n` levels as text.
pub fn ladder_rows(side: &Side, bids: bool, n: usize, size_width: usize) -> (r: Vec<LadderRow>)
    requires
        side.wf(),
    ensures
        is_ladder(r@, best_levels(side@, bids, n as nat), size_width as nat),
{
    let v: Vec<Level> = best_of(side, bids, n);
    let count: usize = v.len();
    let mut out: Vec<LadderRow> = Vec::new();
    let mut i: usize = 0;
    while i < count
        invariant
            i <= count,
            count == v@.len(),
            out@.len() == i,
            forall|j: int| 0 <= j < i ==> is_row_of(#[trigger] out@[j], v@[j], size_width as nat),
        decreases count - i,
    {
        let price: String = fixed_text(key_to_price(v[i].key), 2);
        let size: String = fixed_text(v[i].size, 4);
        let row = LadderRow {
            price: align_right(price.as_str(), 9),
            size: align_right(size.as_str(), size_width),
        };
        assert(is_row_of(row, v@[i as int], size_width as nat));
        out.push(row);
        i += 1;
    }
    out
}

// ---------------------------------------------------------------------------
// Laws

/// The best bid has the highest price of its side and the best ask the lowest.
pub proof fn law_best_levels_come_first(m: crate::book::Sizes, s: Seq<Level>, bids: bool, i: int)
    requires
        crate::book::lists(s, m),
        0 <= i < s.len(),
    ensures
        from_best(m, bids).len() == s.len(),
        bids ==> from_best(m, bids)[i].key <= from_best(m, bids)[0].key == crate::book::top(m),
        !bids ==> from_best(m, bids)[i].key >= from_best(m, bids)[0].key == crate::book::bottom(m),
{
    lemma_ordered(s, m);
    crate::book::lemma_ends(s, m);
    if bids {
        let k = s.len() - 1 - i;
        assert(from_best(m, bids)[i] == s[k]);
        if k < s.len() - 1 {
            assert(s[k].key < s[s.len() - 1].key);
        }
    } else if i > 0 {
        assert(s[0].key < s[i].key);
    }
}

/// The spread is the distance between the best prices, and the middle lies in it.
pub proof fn law_mid_lies_in_the_spread(bids: crate::book::Sizes, asks: crate::book::Sizes)
    requires
        0 < best_price(bids, true) <= best_price(asks, false),
    ensures
        bubble_metrics(bids, asks).spread == best_price(asks, false) - best_price(bids, true),
        bubble_metrics(bids, asks).best_bid <= bubble_metrics(bids, asks).mid <= bubble_metrics(
            bids,
            asks,
        ).best_ask,
{
}

/// A depth curve has one point per level and never falls where no size is negative.
pub proof fn law_depth_never_falls(s: Seq<Level>, i: int)
    requires
        forall|j: int| 0 <= j < s.len() ==> (#[trigger] s[j]).size >= 0,
        0 < i < s.len(),
    ensures
        depth_curve(s).len() == s.len(),
        depth_curve(s)[i - 1].cumulative <= depth_curve(s)[i].cumulative,
    decreases s.len(),
{
    let p = s.drop_last();
    assert forall|j: int| 0 <= j < p.len() implies (#[trigger] p[j]).size >= 0 by {
        assert(p[j] == s[j]);
    }
    lemma_depth_len(s);
    lemma_depth_len(p);
    lemma_total_in_range(s);
    lemma_total_in_range(p);
    if i == s.len() - 1 {
        assert(s[s.len() - 1].size >= 0);
        assert(depth_curve(s)[i - 1] == depth_curve(p)[i - 1]);
        assert(depth_curve(p)[i - 1] == depth_curve(p).last());
        assert(depth_curve(p).last().cumulative == total_size(p));
    } else {
        law_depth_never_falls(p, i);
    }
}

proof fn lemma_depth_len(s: Seq<Level>)
    ensures
        depth_curve(s).len() == s.len(),
    decreases s.len(),
{
    if s.len() > 0 {
        lemma_depth_len(s.drop_last());
    }
}

proof fn lemma_total_in_range(s: Seq<Level>)
    ensures
        i128::MIN <= total_size(s) <= i128::MAX,
{
}

/// A wall is the largest of the levels that it is taken from.
pub proof fn law_wall_is_the_largest(s: Seq<Level>, j: int)
    requires
        s.len() > 0,
        total_size(s) > 0,
        0 <= j < s.len(),
    ensures
        s[j].size > 0 ==> wall_of(s).size >= s[j].size,
{
    lemma_largest(s);
    lemma_largest_bounds(s, j);
}

proof fn lemma_largest_bounds(s: Seq<Level>, j: int)
    requires
        0 <= j < s.len(),
    ensures
        s[j].size > 0 ==> (largest(s) matches Some(i) && 0 <= i < s.len() && s[i].size >= s[j].size),
    decreases s.len(),
{
    lemma_largest(s.drop_last());
    if j < s.len() - 1 {
        lemma_largest_bounds(s.drop_last(), j);
    }
}

/// The sizes of these levels together.
pub open spec fn sum(s: Seq<Level>) -> int
    decreases s.len(),
{
    if s.len() == 0 {
        0
    } else {
        s[0].size + sum(s.skip(1))
    }
}

/// Whether no sum of these sizes leaves the range of amounts.
pub open spec fn summable(s: Seq<Level>) -> bool {
    &&& s.len() <= 1_000_000
    &&& forall|i: int|
        0 <= i < s.len() ==> 0 <= (#[trigger] s[i]).size <= 1_000_000_000_000_000_000_000_000_000_000
}

proof fn lemma_sum_last(s: Seq<Level>)
    requires
        s.len() > 0,
    ensures
        sum(s) == sum(s.drop_last()) + s.last().size,
    decreases s.len(),
{
    if s.len() > 1 {
        lemma_sum_last(s.skip(1));
        assert(s.skip(1).drop_last() =~= s.drop_last().skip(1));
        assert(s.drop_last()[0] == s[0]);
    } else {
        assert(s.skip(1) =~= Seq::empty());
        assert(s.drop_last() =~= Seq::empty());
    }
}

proof fn lemma_total_is_sum(s: Seq<Level>)
    requires
        summable(s),
    ensures
        total_size(s) == sum(s),
        0 <= sum(s) <= s.len() * 1_000_000_000_000_000_000_000_000_000_000,
    decreases s.len(),
{
    if s.len() > 0 {
        let p = s.drop_last();
        assert forall|i: int| 0 <= i < p.len() implies 0 <= (#[trigger] p[i]).size
            <= 1_000_000_000_000_000_000_000_000_000_000 by {
            assert(p[i] == s[i]);
        }
        lemma_total_is_sum(p);
        lemma_sum_last(s);
        assert(s[s.len() - 1].size >= 0);
    }
}

/// The order of levels does not matter to their sum.
pub proof fn lemma_sum_reversed(s: Seq<Level>)
    ensures
        sum(s.reverse()) == sum(s),
    decreases s.len(),
{
    if s.len() > 0 {
        lemma_sum_reversed(s.drop_last());
        lemma_sum_last(s);
        assert(s.reverse()[0] == s.last());
        assert(s.reverse().skip(1) =~= s.drop_last().reverse());
    }
}

proof fn lemma_best_bids(m: crate::book::Sizes, s: Seq<Level>, n: nat)
    requires
        crate::book::lists(s, m),
    ensures
        best_levels(m, true, n) == (if s.len() > n {
            s.skip(s.len() - n)
        } else {
            s
        }).reverse(),
        best_levels(m, false, n) == (if s.len() > n {
            s.take(n as int)
        } else {
            s
        }),
{
    lemma_ordered(s, m);
    if s.len() > n {
        assert(s.reverse().take(n as int) =~= s.skip(s.len() - n).reverse());
    }
}

/// The liquidity of the bids is that of the ten highest ones, the liquidity of the asks that
/// of the ten lowest ones, or of all where there are fewer: the levels are listed from the
/// lowest price to the highest, and none that is left out is nearer to the market than one
/// that is counted.
pub proof fn law_liquidity_is_that_of_the_best(
    bids: crate::book::Sizes,
    asks: crate::book::Sizes,
    b: Seq<Level>,
    a: Seq<Level>,
)
    requires
        crate::book::lists(b, bids),
        crate::book::lists(a, asks),
        summable(b),
        summable(a),
    ensures
        forall|i: int, j: int| 0 <= i < j < b.len() ==> (#[trigger] b[i]).key < (#[trigger] b[j]).key,
        forall|i: int, j: int| 0 <= i < j < a.len() ==> (#[trigger] a[i]).key < (#[trigger] a[j]).key,
        bubble_metrics(bids, asks).bid_liq == sum(
            if b.len() > 10 {
                b.skip(b.len() - 10)
            } else {
                b
            },
        ),
        bubble_metrics(bids, asks).ask_liq == sum(
            if a.len() > 10 {
                a.take(10)
            } else {
                a
            },
        ),
{
    lemma_best_bids(bids, b, 10);
    lemma_best_bids(asks, a, 10);
    let x = if b.len() > 10 {
        b.skip(b.len() - 10)
    } else {
        b
    };
    let y = if a.len() > 10 {
        a.take(10)
    } else {
        a
    };
    lemma_sum_reversed(x);
    assert forall|i: int| 0 <= i < x.reverse().len() implies 0 <= (#[trigger] x.reverse()[i]).size
        <= 1_000_000_000_000_000_000_000_000_000_000 by {
        let k = x.len() - 1 - i;
        let o = if b.len() > 10 {
            k + b.len() - 10
        } else {
            k
        };
        assert(x.reverse()[i] == b[o]);
    }
    assert forall|i: int| 0 <= i < y.len() implies 0 <= (#[trigger] y[i]).size
        <= 1_000_000_000_000_000_000_000_000_000_000 by {
        assert(y[i] == a[i]);
    }
    lemma_total_is_sum(x.reverse());
    lemma_total_is_sum(y);
}

proof fn lemma_sum_changed(s: Seq<Level>, i: int, l: Level)
    requires
        0 <= i < s.len(),
    ensures
        sum(s.update(i, l)) == sum(s) + l.size - s[i].size,
    decreases s.len(),
{
    let t = s.update(i, l);
    if i == 0 {
        assert(t.skip(1) =~= s.skip(1));
    } else {
        lemma_sum_changed(s.skip(1), i - 1, l);
        assert(t.skip(1) =~= s.skip(1).update(i - 1, l));
    }
}

proof fn lemma_lists_changed(s: Seq<Level>, m: crate::book::Sizes, i: int, size: Amount)
    requires
        crate::book::lists(s, m),
        0 <= i < s.len(),
    ensures
        crate::book::lists(s.update(i, Level { key: s[i].key, size }), m.insert(s[i].key, size)),
{
    let t = s.update(i, Level { key: s[i].key, size });
    let n = m.insert(s[i].key, size);
    let u = crate::book::sizes_of(t);
    assert forall|a: int, b: int| 0 <= a < b < t.len() implies #[trigger] t[a].key < #[trigger] t[b].key by {
        assert(s[a].key < s[b].key);
    }
    crate::book::lemma_level_in(s, m, i);
    assert forall|k: crate::amount::PriceKey| u.contains_key(k) <==> n.contains_key(k) by {
        if u.contains_key(k) {
            let j = crate::book::lemma_listed(t, u, k);
            crate::book::lemma_level_in(s, m, j);
        }
        if n.contains_key(k) {
            let j = crate::book::lemma_listed(s, m, k);
            assert(t[j].key == k);
            crate::book::lemma_level_in(t, u, j);
        }
    }
    assert forall|k: crate::amount::PriceKey| u.contains_key(k) implies #[trigger] u[k] == n[k] by {
        let j = crate::book::lemma_listed(t, u, k);
        crate::book::lemma_level_in(s, m, j);
        if j != i {
            assert(s[j].key != s[i].key);
        }
    }
    assert(u =~= n);
}

/// A change of one of the ten highest bids changes the liquidity by as much, and a change of
/// any other bid leaves it as it is.
pub proof fn law_only_the_best_bids_count(
    bids: crate::book::Sizes,
    asks: crate::book::Sizes,
    b: Seq<Level>,
    a: Seq<Level>,
    i: int,
    size: Amount,
)
    requires
        crate::book::lists(b, bids),
        crate::book::lists(a, asks),
        summable(b),
        summable(a),
        0 <= i < b.len(),
        0 <= size <= 1_000_000_000_000_000_000_000_000_000_000,
    ensures
        bubble_metrics(bids.insert(b[i].key, size), asks).bid_liq == bubble_metrics(bids, asks).bid_liq + (
        if b.len() - i <= 10 {
            size - b[i].size
        } else {
            0
        }),
        bubble_metrics(bids.insert(b[i].key, size), asks).ask_liq == bubble_metrics(bids, asks).ask_liq,
{
    let l = Level { key: b[i].key, size };
    let c = b.update(i, l);
    lemma_lists_changed(b, bids, i, size);
    assert(summable(c)) by {
        assert forall|j: int| 0 <= j < c.len() implies 0 <= (#[trigger] c[j]).size
            <= 1_000_000_000_000_000_000_000_000_000_000 by {
            if j != i {
                assert(c[j] == b[j]);
            }
        }
    }
    law_liquidity_is_that_of_the_best(bids, asks, b, a);
    law_liquidity_is_that_of_the_best(bids.insert(b[i].key, size), asks, c, a);
    if b.len() > 10 {
        let o = b.len() - 10;
        if i >= o {
            lemma_sum_changed(b.skip(o), i - o, l);
            assert(c.skip(o) =~= b.skip(o).update(i - o, l));
        } else {
            assert(c.skip(o) =~= b.skip(o));
        }
    } else {
        lemma_sum_changed(b, i, l);
    }
}

/// A change of one of the ten lowest asks changes the liquidity by as much, and a change of
/// any other ask leaves it as it is.
pub proof fn law_only_the_best_asks_count(
    bids: crate::book::Sizes,
    asks: crate::book::Sizes,
    b: Seq<Level>,
    a: Seq<Level>,
    i: int,
    size: Amount,
)
    requires
        crate::book::lists(b, bids),
        crate::book::lists(a, asks),
        summable(b),
        summable(a),
        0 <= i < a.len(),
        0 <= size <= 1_000_000_000_000_000_000_000_000_000_000,
    ensures
        bubble_metrics(bids, asks.insert(a[i].key, size)).ask_liq == bubble_metrics(bids, asks).ask_liq + (
        if i < 10 {
            size - a[i].size
        } else {
            0
        }),
        bubble_metrics(bids, asks.insert(a[i].key, size)).bid_liq == bubble_metrics(bids, asks).bid_liq,
{
    let l = Level { key: a[i].key, size };
    let c = a.update(i, l);
    lemma_lists_changed(a, asks, i, size);
    assert(summable(c)) by {
        assert forall|j: int| 0 <= j < c.len() implies 0 <= (#[trigger] c[j]).size
            <= 1_000_000_000_000_000_000_000_000_000_000 by {
            if j != i {
                assert(c[j] == a[j]);
            }
        }
    }
    law_liquidity_is_that_of_the_best(bids, asks, b, a);
    law_liquidity_is_that_of_the_best(bids, asks.insert(a[i].key, size), b, c);
    if a.len() > 10 {
        if i < 10 {
            lemma_sum_changed(a.take(10), i, l);
            assert(c.take(10) =~= a.take(10).update(i, l));
        } else {
            assert(c.take(10) =~= a.take(10));
        }
    } else {
        lemma_sum_changed(a, i, l);
    }
}

/// The best bid is the highest one, the best ask the lowest one. Where both are above zero,
/// the spread is their distance and the middle lies halfway; else both are zero.
pub proof fn law_best_prices_are_the_extremes(
    bids: crate::book::Sizes,
    asks: crate::book::Sizes,
    b: crate::amount::PriceKey,
    a: crate::amount::PriceKey,
)
    requires
        bids.contains_key(b),
        forall|k: crate::amount::PriceKey| #[trigger] bids.contains_key(k) ==> k <= b,
        asks.contains_key(a),
        forall|k: crate::amount::PriceKey| #[trigger] asks.contains_key(k) ==> a <= k,
    ensures
        ({
            let r = bubble_metrics(bids, asks);
            &&& r.best_bid == b * 10_000
            &&& r.best_ask == a * 10_000
            &&& b > 0 && a > 0 ==> r.spread == (a - b) * 10_000 && r.mid == (a + b) * 5_000
            &&& b <= 0 || a <= 0 ==> r.spread == 0 && r.mid == 0
        }),
        ({
            let info = bubble_info(bids, asks, 25);
            &&& info.best_bid == b * 10_000
            &&& info.best_ask == a * 10_000
        }),
        crate::book::mid_of(bids, asks) == Some(((a + b) * 5_000) as Amount),
{
    crate::book::lemma_extremes(bids, b);
    crate::book::lemma_extremes(asks, a);
}

/// A side without levels has no best price and no liquidity.
pub proof fn law_an_empty_side_has_no_figures(m: crate::book::Sizes)
    ensures
        bubble_metrics(Map::empty(), m).best_bid == 0,
        bubble_metrics(Map::empty(), m).bid_liq == 0,
        bubble_metrics(Map::empty(), m).mid == 0,
        bubble_metrics(Map::empty(), m).spread == 0,
        bubble_metrics(m, Map::empty()).best_ask == 0,
        bubble_metrics(m, Map::empty()).ask_liq == 0,
        bubble_metrics(m, Map::empty()).mid == 0,
        bubble_metrics(m, Map::empty()).spread == 0,
        bubble_metrics(m, Map::empty()).imbalance == 0,
        crate::book::mid_of(Map::empty(), m) is None,
        crate::book::mid_of(m, Map::empty()) is None,
{
    let e = Seq::<Level>::empty();
    assert(crate::book::sizes_of(e) =~= Map::empty());
    lemma_ordered(e, Map::empty());
    assert(e.reverse() =~= e);
}

/// The imbalance says how many times the liquidity of the asks is that of the bids.
pub proof fn law_imbalance_compares_the_sides(bids: crate::book::Sizes, asks: crate::book::Sizes)
    requires
        0 <= bubble_metrics(bids, asks).bid_liq <= 1_000_000_000_000_000_000_000_000_000_000,
    ensures
        ({
            let r = bubble_metrics(bids, asks);
            &&& r.ask_liq <= 0 ==> r.imbalance == 0
            &&& r.ask_liq > 0 ==> r.imbalance * r.ask_liq <= r.bid_liq * ONE < (r.imbalance + 1) * r.ask_liq
        }),
{
    let r = bubble_metrics(bids, asks);
    if r.ask_liq > 0 {
        lemma_ratio(r.bid_liq as int, r.ask_liq as int);
    }
}

/// A quotient of amounts is cut towards zero.
pub proof fn lemma_ratio(num: int, den: int)
    requires
        0 <= num <= 1_000_000_000_000_000_000_000_000_000_000,
        den > 0,
    ensures
        ratio_of(num, den) * den <= num * ONE < (ratio_of(num, den) + 1) * den,
        0 <= ratio_of(num, den) <= num * ONE,
{
    let p = num * ONE;
    let q = p / den;
    assert(q * den <= p < (q + 1) * den && 0 <= q <= p) by (nonlinear_arith)
        requires
            q == p / den,
            den > 0,
            p >= 0,
    ;
}

proof fn lemma_first_largest(s: Seq<Level>) -> (w: int)
    requires
        summable(s),
        sum(s) > 0,
    ensures
        0 <= w < s.len(),
        largest(s) == Some(w),
        s[w].size > 0,
        forall|i: int| 0 <= i < s.len() ==> (#[trigger] s[i]).size <= s[w].size,
        forall|i: int| 0 <= i < w ==> (#[trigger] s[i]).size < s[w].size,
    decreases s.len(),
{
    let p = s.drop_last();
    assert(summable(p)) by {
        assert forall|i: int| 0 <= i < p.len() implies 0 <= (#[trigger] p[i]).size
            <= 1_000_000_000_000_000_000_000_000_000_000 by {
            assert(p[i] == s[i]);
        }
    }
    lemma_sum_last(s);
    lemma_total_is_sum(p);
    if sum(p) > 0 {
        let v = lemma_first_largest(p);
        assert forall|i: int| 0 <= i < p.len() implies (#[trigger] s[i]).size <= s[v].size by {
            assert(p[i] == s[i]);
        }
        assert forall|i: int| 0 <= i < v implies (#[trigger] s[i]).size < s[v].size by {
            assert(p[i] == s[i]);
        }
        if s.last().size > s[v].size {
            s.len() - 1
        } else {
            v
        }
    } else {
        lemma_no_size(p);
        assert forall|i: int| 0 <= i < p.len() implies (#[trigger] s[i]).size == 0 by {
            assert(p[i] == s[i]);
        }
        s.len() - 1
    }
}

proof fn lemma_no_size(s: Seq<Level>)
    requires
        summable(s),
        sum(s) <= 0,
    ensures
        largest(s) is None,
        forall|i: int| 0 <= i < s.len() ==> (#[trigger] s[i]).size == 0,
    decreases s.len(),
{
    if s.len() > 0 {
        let p = s.drop_last();
        assert(summable(p)) by {
            assert forall|i: int| 0 <= i < p.len() implies 0 <= (#[trigger] p[i]).size
                <= 1_000_000_000_000_000_000_000_000_000_000 by {
                assert(p[i] == s[i]);
            }
        }
        lemma_sum_last(s);
        lemma_total_is_sum(p);
        assert(s[s.len() - 1].size >= 0);
        lemma_no_size(p);
        assert forall|i: int| 0 <= i < s.len() implies (#[trigger] s[i]).size == 0 by {
            if i < p.len() {
                assert(p[i] == s[i]);
            }
        }
    }
}

/// Whether a wall is the one of levels that are given best first: the largest of them, the
/// nearest to the market where two are equally large, scored by how many times the average
/// size it has.
pub open spec fn is_wall_among(w: Wall, near: Seq<Level>, i: int) -> bool {
    &&& 0 <= i < near.len()
    &&& w.price == near[i].key * 10_000
    &&& w.size == near[i].size
    &&& forall|j: int| 0 <= j < near.len() ==> (#[trigger] near[j]).size <= w.size
    &&& forall|j: int| 0 <= j < i ==> (#[trigger] near[j]).size < w.size
    &&& w.score * sum(near) <= w.size * near.len() * ONE < (w.score + 1) * sum(near)
}

/// The walls are the largest levels among the best ones of their side: for the bids among the
/// highest, for the asks among the lowest. Levels are listed from the lowest price to the
/// highest. A side without any size there has no wall.
pub proof fn law_walls_are_the_largest_of_the_best(
    bids: crate::book::Sizes,
    asks: crate::book::Sizes,
    b: Seq<Level>,
    a: Seq<Level>,
    n: nat,
) -> (places: (int, int))
    requires
        crate::book::lists(b, bids),
        crate::book::lists(a, asks),
        b.len() <= 100,
        a.len() <= 100,
        forall|i: int| 0 <= i < b.len() ==> 0 <= (#[trigger] b[i]).size <= 1_000_000_000_000_000_000_000_000_000,
        forall|i: int| 0 <= i < a.len() ==> 0 <= (#[trigger] a[i]).size <= 1_000_000_000_000_000_000_000_000_000,
    ensures
        ({
            let near_bids = (if b.len() > n {
                b.skip(b.len() - n)
            } else {
                b
            }).reverse();
            let near_asks = if a.len() > n {
                a.take(n as int)
            } else {
                a
            };
            let info = bubble_info(bids, asks, n);
            &&& sum(near_bids) > 0 ==> is_wall_among(info.bid_wall, near_bids, places.0)
            &&& sum(near_asks) > 0 ==> is_wall_among(info.ask_wall, near_asks, places.1)
            &&& sum(near_bids) <= 0 ==> info.bid_wall == (Wall { price: 0, size: 0, score: 0 })
            &&& sum(near_asks) <= 0 ==> info.ask_wall == (Wall { price: 0, size: 0, score: 0 })
        }),
{
    lemma_best_bids(bids, b, n);
    lemma_best_bids(asks, a, n);
    let x = if b.len() > n {
        b.skip(b.len() - n)
    } else {
        b
    };
    let nb = x.reverse();
    let na = if a.len() > n {
        a.take(n as int)
    } else {
        a
    };
    assert forall|i: int| 0 <= i < nb.len() implies 0 <= (#[trigger] nb[i]).size
        <= 1_000_000_000_000_000_000_000_000_000 by {
        let k = x.len() - 1 - i;
        let o = if b.len() > n {
            k + b.len() - n
        } else {
            k
        };
        assert(nb[i] == b[o]);
    }
    assert forall|i: int| 0 <= i < na.len() implies 0 <= (#[trigger] na[i]).size
        <= 1_000_000_000_000_000_000_000_000_000 by {
        assert(na[i] == a[i]);
    }
    (lemma_wall_of(nb), lemma_wall_of(na))
}

proof fn lemma_wall_of(s: Seq<Level>) -> (w: int)
    requires
        s.len() <= 100,
        forall|i: int| 0 <= i < s.len() ==> 0 <= (#[trigger] s[i]).size <= 1_000_000_000_000_000_000_000_000_000,
    ensures
        sum(s) > 0 ==> is_wall_among(wall_of(s), s, w),
        sum(s) <= 0 ==> wall_of(s) == (Wall { price: 0, size: 0, score: 0 }),
{
    assert(summable(s)) by {
        assert forall|i: int| 0 <= i < s.len() implies 0 <= (#[trigger] s[i]).size
            <= 1_000_000_000_000_000_000_000_000_000_000 by {
            assert(0 <= s[i].size <= 1_000_000_000_000_000_000_000_000_000);
        }
    }
    lemma_total_is_sum(s);
    if sum(s) > 0 {
        let w = lemma_first_largest(s);
        let num = s[w].size * s.len();
        assert(0 <= num <= s[w].size * 100) by (nonlinear_arith)
            requires
                num == s[w].size * s.len(),
                0 <= s[w].size,
                0 <= s.len() <= 100,
        ;
        lemma_ratio(num, sum(s));
        w
    } else {
        0
    }
}

/// A point of a depth curve stands at the price of its level and counts the sizes from the
/// best level up to it.
pub proof fn law_depth_counts_from_the_best(s: Seq<Level>, i: int)
    requires
        summable(s),
        0 <= i < s.len(),
    ensures
        depth_curve(s).len() == s.len(),
        depth_curve(s)[i].price == s[i].key * 10_000,
        depth_curve(s)[i].cumulative == sum(s.take(i + 1)),
    decreases s.len(),
{
    lemma_depth_len(s);
    lemma_total_is_sum(s);
    let p = s.drop_last();
    if i == s.len() - 1 {
        lemma_depth_len(p);
        assert(s.take(i + 1) =~= s);
    } else {
        assert(summable(p)) by {
            assert forall|j: int| 0 <= j < p.len() implies 0 <= (#[trigger] p[j]).size
                <= 1_000_000_000_000_000_000_000_000_000_000 by {
                assert(p[j] == s[j]);
            }
        }
        law_depth_counts_from_the_best(p, i);
        lemma_depth_len(p);
        assert(p.take(i + 1) =~= s.take(i + 1));
        assert(depth_curve(s)[i] == depth_curve(p)[i]);
    }
}

/// The bids come from the highest price down, the asks from the lowest price up, and every
/// level of the side is among them.
pub proof fn law_levels_come_best_first(m: crate::book::Sizes, s: Seq<Level>, bids: bool, n: nat)
    requires
        crate::book::lists(s, m),
    ensures
        ({
            let f = from_best(m, bids);
            let g = best_levels(m, bids, n);
            &&& f.len() == s.len()
            &&& g.len() == (if s.len() < n {
                s.len()
            } else {
                n
            })
            &&& forall|i: int| 0 <= i < f.len() ==> m.contains_key((#[trigger] f[i]).key) && m[f[i].key] == f[i].size
            &&& forall|i: int| 0 <= i < g.len() ==> (#[trigger] g[i]) == f[i]
            &&& bids ==> forall|i: int, j: int|
                0 <= i < j < f.len() ==> (#[trigger] f[i]).key > (#[trigger] f[j]).key
            &&& !bids ==> forall|i: int, j: int|
                0 <= i < j < f.len() ==> (#[trigger] f[i]).key < (#[trigger] f[j]).key
        }),
{
    lemma_ordered(s, m);
    let f = from_best(m, bids);
    assert forall|i: int| 0 <= i < f.len() implies m.contains_key((#[trigger] f[i]).key) && m[f[i].key]
        == f[i].size by {
        let k = if bids {
            s.len() - 1 - i
        } else {
            i
        };
        assert(f[i] == s[k]);
        crate::book::lemma_level_in(s, m, k);
    }
    if bids {
        assert forall|i: int, j: int| 0 <= i < j < f.len() implies (#[trigger] f[i]).key > (#[trigger] f[j]).key by {
            assert(s[s.len() - 1 - j].key < s[s.len() - 1 - i].key);
        }
    }
}

} // verus!
