//! The logs of a market: order-book events and trades, one CSV row each, and what a
//! market's two logs say together.

use crate::amount::{parse_amount, short_text, Amount};
use crate::text::{join_fields, parse_u64, same_text, split, trim, u64_text, Strip};
use vstd::prelude::*;

verus! {

/// One event of the order book.
#[derive(Debug)]
pub struct BookCsvEvent {
    pub ts: u64,
    pub ticker: String,
    pub kind: String,
    pub side: String,
    pub price: Amount,
    pub size: Amount,
}

/// One trade.
#[derive(Debug)]
pub struct TradeCsvEvent {
    pub ts: u64,
    pub ticker: String,
    pub source: String,
    pub side: String,
    pub size_str: String,
}

/// The events of one market, oldest first, with the first and last timestamp.
#[derive(Debug)]
pub struct TickerData {
    pub ticker: String,
    pub book_events: Vec<BookCsvEvent>,
    pub trade_events: Vec<TradeCsvEvent>,
    pub min_ts: u64,
    pub max_ts: u64,
}

/// What an order-book event says.
pub ghost struct BookRow {
    pub ts: u64,
    pub ticker: Seq<char>,
    pub kind: Seq<char>,
    pub side: Seq<char>,
    pub price: Amount,
    pub size: Amount,
}

/// What a trade says.
pub ghost struct TradeRow {
    pub ts: u64,
    pub ticker: Seq<char>,
    pub source: Seq<char>,
    pub side: Seq<char>,
    pub size_str: Seq<char>,
}

impl View for BookCsvEvent {
    type V = BookRow;

    open spec fn view(&self) -> BookRow {
        BookRow {
            ts: self.ts,
            ticker: self.ticker@,
            kind: self.kind@,
            side: self.side@,
            price: self.price,
            size: self.size,
        }
    }
}

impl View for TradeCsvEvent {
    type V = TradeRow;

    open spec fn view(&self) -> TradeRow {
        TradeRow {
            ts: self.ts,
            ticker: self.ticker@,
            source: self.source@,
            side: self.side@,
            size_str: self.size_str@,
        }
    }
}

pub open spec fn book_rows(v: Seq<BookCsvEvent>) -> Seq<BookRow> {
    v.map_values(|e: BookCsvEvent| e@)
}

pub open spec fn trade_rows(v: Seq<TradeCsvEvent>) -> Seq<TradeRow> {
    v.map_values(|e: TradeCsvEvent| e@)
}

pub open spec fn book_time() -> spec_fn(BookRow) -> u64 {
    |r: BookRow| r.ts
}

pub open spec fn trade_time() -> spec_fn(TradeRow) -> u64 {
    |r: TradeRow| r.ts
}

/// `s` with `x` behind every element that is not later than it.
pub open spec fn placed<T>(s: Seq<T>, x: T, time: spec_fn(T) -> u64) -> Seq<T>
    decreases s.len(),
{
    if s.len() > 0 && time(s.last()) > time(x) {
        placed(s.drop_last(), x, time).push(s.last())
    } else {
        s.push(x)
    }
}

/// The elements of `s` by time; those of the same time keep their order.
pub open spec fn in_time_order<T>(s: Seq<T>, time: spec_fn(T) -> u64) -> Seq<T>
    decreases s.len(),
{
    if s.len() == 0 {
        s
    } else {
        placed(in_time_order(s.drop_last(), time), s.last(), time)
    }
}

pub open spec fn time_sorted<T>(s: Seq<T>, time: spec_fn(T) -> u64) -> bool {
    forall|i: int, j: int| 0 <= i <= j < s.len() ==> time(#[trigger] s[i]) <= time(#[trigger] s[j])
}

/// The elements of `s` at one time, in their order.
pub open spec fn at_time<T>(s: Seq<T>, time: spec_fn(T) -> u64, t: u64) -> Seq<T>
    decreases s.len(),
{
    if s.len() == 0 {
        s
    } else if time(s.last()) == t {
        at_time(s.drop_last(), time, t).push(s.last())
    } else {
        at_time(s.drop_last(), time, t)
    }
}

/// The event of a row of the order-book log, if the row is one of this market.
pub open spec fn read_book_row(raw: Seq<char>, ticker: Seq<char>) -> Option<BookRow> {
    let line = crate::text::strip(Strip::Space, raw);
    let f = crate::text::fields(line, ',');
    if line.len() > 0 && f.len() >= 6 && crate::text::parsed_u64(f[0]) is Some && crate::text::strip(
        Strip::Quote,
        f[1],
    ) == ticker && crate::amount::parsed_amount(f[4]) is Some && crate::amount::parsed_amount(f[5]) is Some {
        Some(
            BookRow {
                ts: crate::text::parsed_u64(f[0])->0,
                ticker,
                kind: f[2],
                side: f[3],
                price: crate::amount::parsed_amount(f[4])->0,
                size: crate::amount::parsed_amount(f[5])->0,
            },
        )
    } else {
        None
    }
}

/// The trade of a row of the trade log, if the row is one of this market.
pub open spec fn read_trade_row(raw: Seq<char>, ticker: Seq<char>) -> Option<TradeRow> {
    let line = crate::text::strip(Strip::Space, raw);
    let f = crate::text::fields(line, ',');
    if line.len() > 0 && f.len() >= 5 && crate::text::parsed_u64(f[0]) is Some && crate::text::strip(
        Strip::Quote,
        f[1],
    ) == ticker {
        Some(
            TradeRow {
                ts: crate::text::parsed_u64(f[0])->0,
                ticker,
                source: f[2],
                side: f[3],
                size_str: f[4],
            },
        )
    } else {
        None
    }
}

/// The events of an order-book log in the order of its rows.
pub open spec fn logged_book(lines: Seq<Seq<char>>, ticker: Seq<char>) -> Seq<BookRow>
    decreases lines.len(),
{
    if lines.len() == 0 {
        Seq::empty()
    } else {
        let before = logged_book(lines.drop_last(), ticker);
        match read_book_row(lines.last(), ticker) {
            Some(r) => before.push(r),
            None => before,
        }
    }
}

/// The trades of a trade log in the order of its rows.
pub open spec fn logged_trades(lines: Seq<Seq<char>>, ticker: Seq<char>) -> Seq<TradeRow>
    decreases lines.len(),
{
    if lines.len() == 0 {
        Seq::empty()
    } else {
        let before = logged_trades(lines.drop_last(), ticker);
        match read_trade_row(lines.last(), ticker) {
            Some(r) => before.push(r),
            None => before,
        }
    }
}

pub open spec fn book_row_fields(r: BookRow) -> Seq<Seq<char>> {
    seq![
        crate::text::nat_text(r.ts as nat),
        r.ticker,
        r.kind,
        r.side,
        crate::amount::short(r.price as int),
        crate::amount::short(r.size as int),
    ]
}

pub open spec fn trade_row_fields(r: TradeRow) -> Seq<Seq<char>> {
    seq![crate::text::nat_text(r.ts as nat), r.ticker, r.source, r.side, r.size_str]
}

/// The row of the order-book log that holds an event.
pub open spec fn book_row_text(r: BookRow) -> Seq<char> {
    crate::text::join(book_row_fields(r), ',')
}

/// The row of the trade log that holds a trade.
pub open spec fn trade_row_text(r: TradeRow) -> Seq<char> {
    crate::text::join(trade_row_fields(r), ',')
}

/// The earliest time of a sequence, or the latest possible one where it is empty.
pub open spec fn first_time<T>(s: Seq<T>, time: spec_fn(T) -> u64) -> u64
    decreases s.len(),
{
    if s.len() == 0 {
        u64::MAX
    } else {
        let m = first_time(s.drop_last(), time);
        if time(s.last()) < m {
            time(s.last())
        } else {
            m
        }
    }
}

/// The latest time of a sequence, or zero where it is empty.
pub open spec fn last_time<T>(s: Seq<T>, time: spec_fn(T) -> u64) -> u64
    decreases s.len(),
{
    if s.len() == 0 {
        0
    } else {
        let m = last_time(s.drop_last(), time);
        if time(s.last()) > m {
            time(s.last())
        } else {
            m
        }
    }
}

pub open spec fn earlier(a: u64, b: u64) -> u64 {
    if a <= b {
        a
    } else {
        b
    }
}

pub open spec fn later(a: u64, b: u64) -> u64 {
    if a >= b {
        a
    } else {
        b
    }
}

impl TickerData {
    pub open spec fn book(&self) -> Seq<BookRow> {
        book_rows(self.book_events@)
    }

    pub open spec fn trades(&self) -> Seq<TradeRow> {
        trade_rows(self.trade_events@)
    }

    /// The events are in the order of time, and the range is the one that they span.
    pub open spec fn wf(&self) -> bool {
        &&& time_sorted(self.book(), book_time())
        &&& time_sorted(self.trades(), trade_time())
        &&& self.min_ts == earlier(
            first_time(self.book(), book_time()),
            first_time(self.trades(), trade_time()),
        )
        &&& self.max_ts == later(
            last_time(self.book(), book_time()),
            last_time(self.trades(), trade_time()),
        )
        &&& self.min_ts <= self.max_ts
    }
}

// ---------------------------------------------------------------------------
// Laws of the order of time

/// Ordering by time sorts, and keeps the events of each moment in their order; no
/// event is lost and none appears.
pub proof fn law_time_order_is_stable<T>(s: Seq<T>, time: spec_fn(T) -> u64)
    ensures
        time_sorted(in_time_order(s, time), time),
        in_time_order(s, time).len() == s.len(),
        forall|t: u64| #[trigger] at_time(in_time_order(s, time), time, t) == at_time(s, time, t),
    decreases s.len(),
{
    if s.len() > 0 {
        let p = s.drop_last();
        law_time_order_is_stable(p, time);
        let o = in_time_order(p, time);
        lemma_placed(o, s.last(), time);
        assert forall|t: u64| #[trigger] at_time(in_time_order(s, time), time, t) == at_time(s, time, t) by {
            assert(at_time(o, time, t) == at_time(p, time, t));
            lemma_placed_at(o, s.last(), time, t);
            assert(o.push(s.last()).drop_last() =~= o);
            assert(o.push(s.last()).last() == s.last());
        }
    }
}

/// What is in the order of time stays as it is.
pub proof fn law_time_order_keeps_sorted<T>(s: Seq<T>, time: spec_fn(T) -> u64)
    requires
        time_sorted(s, time),
    ensures
        in_time_order(s, time) == s,
    decreases s.len(),
{
    if s.len() > 0 {
        let p = s.drop_last();
        assert forall|i: int, j: int| 0 <= i <= j < p.len() implies time(#[trigger] p[i]) <= time(#[trigger] p[j]) by {
            assert(p[i] == s[i] && p[j] == s[j]);
        }
        law_time_order_keeps_sorted(p, time);
        if p.len() > 0 {
            assert(time(s[s.len() - 2]) <= time(s[s.len() - 1]));
        }
        assert(p.push(s.last()) =~= s);
    }
}

proof fn lemma_placed<T>(s: Seq<T>, x: T, time: spec_fn(T) -> u64)
    requires
        time_sorted(s, time),
    ensures
        time_sorted(placed(s, x, time), time),
        placed(s, x, time).len() == s.len() + 1,
        placed(s, x, time).len() > 0 ==> time(placed(s, x, time).last()) <= (if s.len() > 0 && time(s.last())
            > time(x) {
            time(s.last())
        } else {
            time(x)
        }),
    decreases s.len(),
{
    let r = placed(s, x, time);
    if s.len() > 0 && time(s.last()) > time(x) {
        let p = s.drop_last();
        assert forall|i: int, j: int| 0 <= i <= j < p.len() implies time(#[trigger] p[i]) <= time(#[trigger] p[j]) by {
            assert(p[i] == s[i] && p[j] == s[j]);
        }
        lemma_placed(p, x, time);
        let q = placed(p, x, time);
        if p.len() > 0 {
            assert(time(s[s.len() - 2]) <= time(s[s.len() - 1]));
        }
        assert forall|i: int, j: int| 0 <= i <= j < r.len() implies time(#[trigger] r[i]) <= time(#[trigger] r[j]) by {
            if j < q.len() {
                assert(r[i] == q[i] && r[j] == q[j]);
            } else if i < q.len() {
                assert(time(q[i]) <= time(q[q.len() - 1]));
            }
        }
    } else {
        assert forall|i: int, j: int| 0 <= i <= j < r.len() implies time(#[trigger] r[i]) <= time(#[trigger] r[j]) by {
            if j < s.len() {
                assert(r[i] == s[i] && r[j] == s[j]);
            } else if i < s.len() {
                assert(time(s[i]) <= time(s[s.len() - 1]));
            }
        }
    }
}

proof fn lemma_placed_at<T>(s: Seq<T>, x: T, time: spec_fn(T) -> u64, t: u64)
    requires
        time_sorted(s, time),
    ensures
        at_time(placed(s, x, time), time, t) == at_time(s.push(x), time, t),
    decreases s.len(),
{
    assert(s.push(x).drop_last() =~= s);
    let r = placed(s, x, time);
    if s.len() > 0 && time(s.last()) > time(x) {
        let p = s.drop_last();
        assert forall|i: int, j: int| 0 <= i <= j < p.len() implies time(#[trigger] p[i]) <= time(#[trigger] p[j]) by {
            assert(p[i] == s[i] && p[j] == s[j]);
        }
        lemma_placed_at(p, x, time, t);
        assert(r.drop_last() =~= placed(p, x, time));
        assert(r.last() == s.last());
        assert(p.push(x).drop_last() =~= p);
        assert(p.push(x).last() == x);
        assert(s.push(x).last() == x);
        let a = at_time(p, time, t);
        if time(x) == t {
            assert(at_time(p.push(x), time, t) == a.push(x));
            assert(at_time(s, time, t) == a);
            assert(at_time(s.push(x), time, t) == a.push(x));
        } else {
            assert(at_time(p.push(x), time, t) == a);
            assert(at_time(s.push(x), time, t) == at_time(s, time, t));
        }
    }
}

/// The extremes of time bound every element and are taken, where there is one.
pub proof fn law_time_range<T>(s: Seq<T>, time: spec_fn(T) -> u64, i: int)
    requires
        0 <= i < s.len(),
    ensures
        first_time(s, time) <= time(s[i]) <= last_time(s, time),
    decreases s.len(),
{
    if i < s.len() - 1 {
        law_time_range(s.drop_last(), time, i);
    }
}

// ---------------------------------------------------------------------------
// Reading

impl BookCsvEvent {
    /// A copy.
    pub fn copy(&self) -> (r: Self)
        ensures
            r@ == self@,
    {
        BookCsvEvent {
            ts: self.ts,
            ticker: self.ticker.clone(),
            kind: self.kind.clone(),
            side: self.side.clone(),
            price: self.price,
            size: self.size,
        }
    }
}

impl TradeCsvEvent {
    /// A copy.
    pub fn copy(&self) -> (r: Self)
        ensures
            r@ == self@,
    {
        TradeCsvEvent {
            ts: self.ts,
            ticker: self.ticker.clone(),
            source: self.source.clone(),
            side: self.side.clone(),
            size_str: self.size_str.clone(),
        }
    }
}

fn place_book(out: &mut Vec<BookCsvEvent>, e: BookCsvEvent)
    ensures
        book_rows(final(out)@) == placed(book_rows(old(out)@), e@, book_time()),
{
    let ghost s = out@;
    let ghost rows = book_rows(s);
    let mut p: usize = out.len();
    let n: usize = out.len();
    proof {
        assert(rows.take(n as int) =~= rows);
        assert(placed(rows, e@, book_time()) =~= placed(rows, e@, book_time()) + rows.skip(n as int));
    }
    while p > 0 && out[p - 1].ts > e.ts
        invariant
            p <= n,
            n == out@.len(),
            out@ == s,
            rows == book_rows(s),
            placed(rows, e@, book_time()) == placed(rows.take(p as int), e@, book_time()) + rows.skip(p as int),
        decreases p,
    {
        proof {
            let t = rows.take(p as int);
            assert(t.last() == s[p - 1]@);
            assert(t.drop_last() =~= rows.take(p - 1));
            assert(placed(t, e@, book_time()) == placed(rows.take(p - 1), e@, book_time()).push(t.last()));
            assert(placed(rows, e@, book_time()) =~= placed(rows.take(p - 1), e@, book_time()) + rows.skip(p - 1));
        }
        p -= 1;
    }
    proof {
        let t = rows.take(p as int);
        if p > 0 {
            assert(t.last() == s[p - 1]@);
        }
        assert(placed(t, e@, book_time()) == t.push(e@));
    }
    let ghost row = e@;
    out.insert(p, e);
    assert(book_rows(out@) =~= rows.take(p as int).push(row) + rows.skip(p as int));
}

fn place_trade(out: &mut Vec<TradeCsvEvent>, e: TradeCsvEvent)
    ensures
        trade_rows(final(out)@) == placed(trade_rows(old(out)@), e@, trade_time()),
{
    let ghost s = out@;
    let ghost rows = trade_rows(s);
    let mut p: usize = out.len();
    let n: usize = out.len();
    proof {
        assert(rows.take(n as int) =~= rows);
        assert(placed(rows, e@, trade_time()) =~= placed(rows, e@, trade_time()) + rows.skip(n as int));
    }
    while p > 0 && out[p - 1].ts > e.ts
        invariant
            p <= n,
            n == out@.len(),
            out@ == s,
            rows == trade_rows(s),
            placed(rows, e@, trade_time()) == placed(rows.take(p as int), e@, trade_time()) + rows.skip(p as int),
        decreases p,
    {
        proof {
            let t = rows.take(p as int);
            assert(t.last() == s[p - 1]@);
            assert(t.drop_last() =~= rows.take(p - 1));
            assert(placed(t, e@, trade_time()) == placed(rows.take(p - 1), e@, trade_time()).push(t.last()));
            assert(placed(rows, e@, trade_time()) =~= placed(rows.take(p - 1), e@, trade_time()) + rows.skip(p - 1));
        }
        p -= 1;
    }
    proof {
        let t = rows.take(p as int);
        if p > 0 {
            assert(t.last() == s[p - 1]@);
        }
        assert(placed(t, e@, trade_time()) == t.push(e@));
    }
    let ghost row = e@;
    out.insert(p, e);
    assert(trade_rows(out@) =~= rows.take(p as int).push(row) + rows.skip(p as int));
}

/// The trades by time; those of the same time keep their order.
pub fn sort_trades(v: &Vec<TradeCsvEvent>) -> (r: Vec<TradeCsvEvent>)
    ensures
        trade_rows(r@) == in_time_order(trade_rows(v@), trade_time()),
{
    let ghost rows = trade_rows(v@);
    let mut out: Vec<TradeCsvEvent> = Vec::new();
    let n: usize = v.len();
    let mut i: usize = 0;
    proof {
        assert(rows.take(0) =~= Seq::empty());
        assert(trade_rows(out@) =~= Seq::empty());
    }
    while i < n
        invariant
            i <= n,
            n == v@.len(),
            rows == trade_rows(v@),
            trade_rows(out@) == in_time_order(rows.take(i as int), trade_time()),
        decreases n - i,
    {
        proof {
            assert(rows.take(i + 1).drop_last() =~= rows.take(i as int));
            assert(rows.take(i + 1).last() == v@[i as int]@);
        }
        place_trade(&mut out, v[i].copy());
        i += 1;
    }
    assert(rows.take(n as int) =~= rows);
    out
}

fn parse_book_row(raw: &str, ticker: &str) -> (r: Option<BookCsvEvent>)
    ensures
        r is Some <==> read_book_row(raw@, ticker@) is Some,
        r matches Some(e) ==> read_book_row(raw@, ticker@) == Some(e@),
{
    let line: &str = trim(Strip::Space, raw);
    if line.is_empty() {
        return None;
    }
    let mut f: Vec<String> = split(line, ',');
    let ghost g = crate::text::fields(line@, ',');
    assert(g.len() == f@.len());
    if f.len() < 6 {
        return None;
    }
    proof {
        assert forall|i: int| 0 <= i < f@.len() implies #[trigger] g[i] == f@[i]@ by {}
    }
    let ts: u64 = match parse_u64(f[0].as_str()) {
        Some(v) => v,
        None => {
            return None;
        },
    };
    let tk: &str = trim(Strip::Quote, f[1].as_str());
    if !same_text(tk, ticker) {
        return None;
    }
    let price: Amount = match parse_amount(f[4].as_str()) {
        Some(v) => v,
        None => {
            return None;
        },
    };
    let size: Amount = match parse_amount(f[5].as_str()) {
        Some(v) => v,
        None => {
            return None;
        },
    };
    Some(BookCsvEvent { ts, ticker: ticker.to_owned(), kind: f[2].clone(), side: f[3].clone(), price, size })
}

fn parse_trade_row(raw: &str, ticker: &str) -> (r: Option<TradeCsvEvent>)
    ensures
        r is Some <==> read_trade_row(raw@, ticker@) is Some,
        r matches Some(e) ==> read_trade_row(raw@, ticker@) == Some(e@),
{
    let line: &str = trim(Strip::Space, raw);
    if line.is_empty() {
        return None;
    }
    let f: Vec<String> = split(line, ',');
    let ghost g = crate::text::fields(line@, ',');
    assert(g.len() == f@.len());
    if f.len() < 5 {
        return None;
    }
    proof {
        assert forall|i: int| 0 <= i < f@.len() implies #[trigger] g[i] == f@[i]@ by {}
    }
    let ts: u64 = match parse_u64(f[0].as_str()) {
        Some(v) => v,
        None => {
            return None;
        },
    };
    let tk: &str = trim(Strip::Quote, f[1].as_str());
    if !same_text(tk, ticker) {
        return None;
    }
    Some(
        TradeCsvEvent {
            ts,
            ticker: ticker.to_owned(),
            source: f[2].clone(),
            side: f[3].clone(),
            size_str: f[4].clone(),
        },
    )
}

/// The events of one market in an order-book log, by time. Rows that are too short,
/// of another market or with a number that does not read are left out.
pub fn load_book_csv(lines: &Vec<String>, ticker: &str) -> (r: Vec<BookCsvEvent>)
    ensures
        book_rows(r@) == in_time_order(
            logged_book(crate::text::texts(lines@), ticker@),
            book_time(),
        ),
{
    let ghost all = crate::text::texts(lines@);
    let mut out: Vec<BookCsvEvent> = Vec::new();
    let n: usize = lines.len();
    let mut i: usize = 0;
    proof {
        assert(all.take(0) =~= Seq::empty());
        assert(book_rows(out@) =~= Seq::empty());
    }
    while i < n
        invariant
            i <= n,
            n == lines@.len(),
            all == crate::text::texts(lines@),
            book_rows(out@) == in_time_order(logged_book(all.take(i as int), ticker@), book_time()),
        decreases n - i,
    {
        proof {
            assert(all.take(i + 1).drop_last() =~= all.take(i as int));
            assert(all.take(i + 1).last() == lines@[i as int]@);
        }
        if let Some(e) = parse_book_row(lines[i].as_str(), ticker) {
            proof {
                let before = logged_book(all.take(i as int), ticker@);
                assert(before.push(e@).drop_last() =~= before);
            }
            place_book(&mut out, e);
        }
        i += 1;
    }
    assert(all.take(n as int) =~= all);
    out
}

/// The trades of one market in a trade log, by time.
pub fn load_trades_csv(lines: &Vec<String>, ticker: &str) -> (r: Vec<TradeCsvEvent>)
    ensures
        trade_rows(r@) == in_time_order(
            logged_trades(crate::text::texts(lines@), ticker@),
            trade_time(),
        ),
{
    let ghost all = crate::text::texts(lines@);
    let mut out: Vec<TradeCsvEvent> = Vec::new();
    let n: usize = lines.len();
    let mut i: usize = 0;
    proof {
        assert(all.take(0) =~= Seq::empty());
        assert(trade_rows(out@) =~= Seq::empty());
    }
    while i < n
        invariant
            i <= n,
            n == lines@.len(),
            all == crate::text::texts(lines@),
            trade_rows(out@) == in_time_order(logged_trades(all.take(i as int), ticker@), trade_time()),
        decreases n - i,
    {
        proof {
            assert(all.take(i + 1).drop_last() =~= all.take(i as int));
            assert(all.take(i + 1).last() == lines@[i as int]@);
        }
        if let Some(e) = parse_trade_row(lines[i].as_str(), ticker) {
            proof {
                let before = logged_trades(all.take(i as int), ticker@);
                assert(before.push(e@).drop_last() =~= before);
            }
            place_trade(&mut out, e);
        }
        i += 1;
    }
    assert(all.take(n as int) =~= all);
    out
}

/// What the two logs of a market say: nothing where they hold no event of it, or
/// where every event lies at the end of time.
pub fn load_ticker_data(ticker: &str, book_lines: &Vec<String>, trade_lines: &Vec<String>) -> (r: Option<
    TickerData,
>)
    ensures
        ({
            let b = in_time_order(
                logged_book(crate::text::texts(book_lines@), ticker@),
                book_time(),
            );
            let t = in_time_order(
                logged_trades(crate::text::texts(trade_lines@), ticker@),
                trade_time(),
            );
            let first = earlier(first_time(b, book_time()), first_time(t, trade_time()));
            let last = later(last_time(b, book_time()), last_time(t, trade_time()));
            match r {
                Some(d) => {
                    &&& first < u64::MAX
                    &&& d.wf()
                    &&& d.ticker@ == ticker@
                    &&& d.book() == b
                    &&& d.trades() == t
                    &&& d.min_ts == first
                    &&& d.max_ts == last
                },
                None => first == u64::MAX,
            }
        }),
{
    let book_events: Vec<BookCsvEvent> = load_book_csv(book_lines, ticker);
    let trade_events: Vec<TradeCsvEvent> = load_trades_csv(trade_lines, ticker);
    let ghost b = book_rows(book_events@);
    let ghost t = trade_rows(trade_events@);
    proof {
        law_time_order_is_stable(logged_book(crate::text::texts(book_lines@), ticker@), book_time());
        law_time_order_is_stable(logged_trades(crate::text::texts(trade_lines@), ticker@), trade_time());
        assert(b.take(0) =~= Seq::empty());
        assert(t.take(0) =~= Seq::empty());
    }
    let mut min_ts: u64 = u64::MAX;
    let mut max_ts: u64 = 0;
    let n: usize = book_events.len();
    let mut i: usize = 0;
    while i < n
        invariant
            i <= n,
            n == book_events@.len(),
            b == book_rows(book_events@),
            min_ts == first_time(b.take(i as int), book_time()),
            max_ts == last_time(b.take(i as int), book_time()),
        decreases n - i,
    {
        proof {
            assert(b.take(i + 1).drop_last() =~= b.take(i as int));
            assert(b.take(i + 1).last() == book_events@[i as int]@);
        }
        let ts: u64 = book_events[i].ts;
        if ts < min_ts {
            min_ts = ts;
        }
        if ts > max_ts {
            max_ts = ts;
        }
        i += 1;
    }
    assert(b.take(n as int) =~= b);
    let ghost min_b = min_ts;
    let ghost max_b = max_ts;
    let m: usize = trade_events.len();
    let mut j: usize = 0;
    while j < m
        invariant
            j <= m,
            m == trade_events@.len(),
            t == trade_rows(trade_events@),
            min_ts == earlier(min_b, first_time(t.take(j as int), trade_time())),
            max_ts == later(max_b, last_time(t.take(j as int), trade_time())),
        decreases m - j,
    {
        proof {
            assert(t.take(j + 1).drop_last() =~= t.take(j as int));
            assert(t.take(j + 1).last() == trade_events@[j as int]@);
        }
        let ts: u64 = trade_events[j].ts;
        if ts < min_ts {
            min_ts = ts;
        }
        if ts > max_ts {
            max_ts = ts;
        }
        j += 1;
    }
    assert(t.take(m as int) =~= t);
    if min_ts == u64::MAX {
        return None;
    }
    proof {
        if b.len() > 0 {
            law_time_range(b, book_time(), 0);
        }
        if t.len() > 0 {
            law_time_range(t, trade_time(), 0);
        }
    }
    Some(TickerData { ticker: ticker.to_owned(), book_events, trade_events, min_ts, max_ts })
}

// ---------------------------------------------------------------------------
// Writing

/// The row that records one level of the order book.
pub fn append_book_csv(ts: u64, ticker: &str, kind: &str, side: &str, price: Amount, size: Amount) -> (r: String)
    ensures
        r@ == book_row_text(
            BookRow { ts, ticker: ticker@, kind: kind@, side: side@, price, size },
        ),
{
    let mut f: Vec<String> = Vec::new();
    f.push(u64_text(ts));
    f.push(ticker.to_owned());
    f.push(kind.to_owned());
    f.push(side.to_owned());
    f.push(short_text(price));
    f.push(short_text(size));
    assert(crate::text::texts(f@) =~= book_row_fields(
        BookRow { ts, ticker: ticker@, kind: kind@, side: side@, price, size },
    ));
    join_fields(&f)
}

/// The row that records one trade.
pub fn append_trade_csv(ts: u64, ticker: &str, source: &str, side: &str, size_str: &str) -> (r: String)
    ensures
        r@ == trade_row_text(
            TradeRow { ts, ticker: ticker@, source: source@, side: side@, size_str: size_str@ },
        ),
{
    let mut f: Vec<String> = Vec::new();
    f.push(u64_text(ts));
    f.push(ticker.to_owned());
    f.push(source.to_owned());
    f.push(side.to_owned());
    f.push(size_str.to_owned());
    assert(crate::text::texts(f@) =~= trade_row_fields(
        TradeRow { ts, ticker: ticker@, source: source@, side: side@, size_str: size_str@ },
    ));
    join_fields(&f)
}

// ---------------------------------------------------------------------------
// Laws of the logs

/// Whether text is a plain field of the logs.
pub open spec fn plain_field(s: Seq<char>) -> bool {
    !s.contains(',')
}

/// Whether a ticker is not wrapped in quotes.
pub open spec fn bare(s: Seq<char>) -> bool {
    s.len() == 0 || (s[0] != '"' && s.last() != '"')
}

/// An order-book event reads back from its row.
pub proof fn law_book_row_reads_back(r: BookRow)
    requires
        plain_field(r.ticker),
        plain_field(r.kind),
        plain_field(r.side),
        bare(r.ticker),
        r.price > i128::MIN,
        r.size > i128::MIN,
    ensures
        read_book_row(book_row_text(r), r.ticker) == Some(r),
{
    let f = book_row_fields(r);
    crate::text::lemma_nat_text(r.ts as nat);
    crate::text::lemma_digits_hold_no(f[0], ',');
    crate::amount::law_amounts_hold_no_comma(r.price);
    crate::amount::law_amounts_hold_no_comma(r.size);
    crate::text::law_split_undoes_join(f, ',');
    crate::text::law_u64_reads_back(r.ts);
    crate::amount::law_short_reads_back(r.price);
    crate::amount::law_short_reads_back(r.size);
    crate::amount::lemma_short_ends(r.size);
    assert(crate::text::is_digit(f[0][0]));
    lemma_join_ends(f);
    lemma_strip_nothing(Strip::Space, book_row_text(r));
    lemma_strip_nothing(Strip::Quote, r.ticker);
}

/// A trade reads back from its row, where its size does not end in a blank.
pub proof fn law_trade_row_reads_back(r: TradeRow)
    requires
        plain_field(r.ticker),
        plain_field(r.source),
        plain_field(r.side),
        plain_field(r.size_str),
        bare(r.ticker),
        r.size_str.len() > 0 ==> !crate::text::is_space(r.size_str.last()),
    ensures
        read_trade_row(trade_row_text(r), r.ticker) == Some(r),
{
    let f = trade_row_fields(r);
    crate::text::lemma_nat_text(r.ts as nat);
    crate::text::lemma_digits_hold_no(f[0], ',');
    crate::text::law_split_undoes_join(f, ',');
    crate::text::law_u64_reads_back(r.ts);
    assert(crate::text::is_digit(f[0][0]));
    lemma_join_ends(f);
    lemma_strip_nothing(Strip::Space, trade_row_text(r));
    lemma_strip_nothing(Strip::Quote, r.ticker);
}

/// The events of another market are left out.
pub proof fn law_other_markets_are_left_out(r: BookRow, ticker: Seq<char>)
    requires
        plain_field(r.ticker),
        plain_field(r.kind),
        plain_field(r.side),
        bare(r.ticker),
        r.price > i128::MIN,
        r.size > i128::MIN,
        ticker != r.ticker,
    ensures
        read_book_row(book_row_text(r), ticker) is None,
{
    law_book_row_reads_back(r);
}

proof fn lemma_strip_nothing(kind: Strip, s: Seq<char>)
    requires
        s.len() == 0 || (!crate::text::strippable(kind, s[0]) && !crate::text::strippable(kind, s.last())),
    ensures
        crate::text::strip(kind, s) == s,
{
}

/// A joined line starts as its first field and ends as its last.
proof fn lemma_join_ends(f: Seq<Seq<char>>)
    requires
        f.len() > 0,
        f[0].len() > 0,
    ensures
        crate::text::join(f, ',').len() > 0,
        crate::text::join(f, ',')[0] == f[0][0],
        f.last().len() > 0 ==> crate::text::join(f, ',').last() == f.last().last(),
        f.len() > 1 && f.last().len() == 0 ==> crate::text::join(f, ',').last() == ',',
    decreases f.len(),
{
    if f.len() > 1 {
        lemma_join_ends(f.drop_last());
        if f.last().len() == 0 {
            let head = crate::text::join(f.drop_last(), ',').push(',');
            assert(head + f.last() =~= head);
        }
    }
}

/// A row of a log: blanks, fields between commas, and blanks. Nothing else
/// stands at the ends of the row.
pub open spec fn is_row(raw: Seq<char>, f: Seq<Seq<char>>) -> bool {
    &&& f.len() > 0
    &&& forall|i: int| 0 <= i < f.len() ==> plain_field(#[trigger] f[i])
    &&& f[0].len() > 0 ==> !crate::text::is_space(f[0][0])
    &&& f.last().len() > 0 ==> !crate::text::is_space(f.last().last())
    &&& f.len() > 1 || f[0].len() > 0
    &&& exists|lead: Seq<char>, tail: Seq<char>|
        #![trigger lead + crate::text::join(f, ',') + tail]
        raw == lead + crate::text::join(f, ',') + tail && crate::text::all_strippable(Strip::Space, lead)
            && crate::text::all_strippable(Strip::Space, tail)
}

proof fn lemma_row_fields(raw: Seq<char>, f: Seq<Seq<char>>)
    requires
        is_row(raw, f),
    ensures
        crate::text::strip(Strip::Space, raw).len() > 0,
        crate::text::fields(crate::text::strip(Strip::Space, raw), ',') == f,
{
    let (lead, tail) = choose|lead: Seq<char>, tail: Seq<char>|
        #![trigger lead + crate::text::join(f, ',') + tail]
        raw == lead + crate::text::join(f, ',') + tail && crate::text::all_strippable(Strip::Space, lead)
            && crate::text::all_strippable(Strip::Space, tail);
    let s = crate::text::join(f, ',');
    lemma_row_ends(f);
    crate::text::law_stripping_keeps_the_middle(Strip::Space, lead, s, tail);
    crate::text::law_split_undoes_join(f, ',');
}

proof fn lemma_row_ends(f: Seq<Seq<char>>)
    requires
        f.len() > 0,
        f.len() > 1 || f[0].len() > 0,
    ensures
        crate::text::join(f, ',').len() > 0,
        f[0].len() > 0 ==> crate::text::join(f, ',')[0] == f[0][0],
        f[0].len() == 0 ==> crate::text::join(f, ',')[0] == ',',
        f.last().len() > 0 ==> crate::text::join(f, ',').last() == f.last().last(),
        f.last().len() == 0 ==> crate::text::join(f, ',').last() == ',',
    decreases f.len(),
{
    if f.len() > 1 {
        let d = f.drop_last();
        let head = crate::text::join(d, ',');
        let s = head.push(',') + f.last();
        assert(crate::text::join(f, ',') == s);
        if d.len() > 1 || d[0].len() > 0 {
            lemma_row_ends(d);
            assert(s[0] == head[0]);
        } else {
            assert(head == d[0]);
            assert(s[0] == ',');
        }
        if f.last().len() == 0 {
            assert(s =~= head.push(','));
        }
    }
}

/// An order-book row reads where its first field is a time, its second, with or without
/// quotes, the market, and its fifth and sixth are amounts. Blanks around the row and further
/// fields behind the sixth do not matter, and each part comes from its own field.
pub proof fn law_book_rows_are_read_by_place(raw: Seq<char>, f: Seq<Seq<char>>, open: Seq<char>, ticker: Seq<char>, close: Seq<char>)
    requires
        is_row(raw, f),
        f.len() >= 6,
        bare(ticker),
        f[1] == open + ticker + close,
        crate::text::all_strippable(Strip::Quote, open),
        crate::text::all_strippable(Strip::Quote, close),
    ensures
        match (
            crate::text::parsed_u64(f[0]),
            crate::amount::parsed_amount(f[4]),
            crate::amount::parsed_amount(f[5]),
        ) {
            (Some(ts), Some(price), Some(size)) => read_book_row(raw, ticker) matches Some(r) && r.ts == ts && r.ticker
                == ticker && r.kind == f[2] && r.side == f[3] && r.price == price && r.size == size,
            _ => read_book_row(raw, ticker) is None,
        },
        forall|other: Seq<char>| other != ticker ==> #[trigger] read_book_row(raw, other) is None,
{
    lemma_row_fields(raw, f);
    crate::text::law_stripping_keeps_the_middle(Strip::Quote, open, ticker, close);
}

/// A trade row reads where its first field is a time and its second, with or without quotes,
/// the market. Blanks around the row and further fields behind the fifth do not matter, and
/// each part comes from its own field.
pub proof fn law_trade_rows_are_read_by_place(raw: Seq<char>, f: Seq<Seq<char>>, open: Seq<char>, ticker: Seq<char>, close: Seq<char>)
    requires
        is_row(raw, f),
        f.len() >= 5,
        bare(ticker),
        f[1] == open + ticker + close,
        crate::text::all_strippable(Strip::Quote, open),
        crate::text::all_strippable(Strip::Quote, close),
    ensures
        match crate::text::parsed_u64(f[0]) {
            Some(ts) => read_trade_row(raw, ticker) matches Some(r) && r.ts == ts && r.ticker == ticker && r.source
                == f[2] && r.side == f[3] && r.size_str == f[4],
            None => read_trade_row(raw, ticker) is None,
        },
        forall|other: Seq<char>| other != ticker ==> #[trigger] read_trade_row(raw, other) is None,
{
    lemma_row_fields(raw, f);
    crate::text::law_stripping_keeps_the_middle(Strip::Quote, open, ticker, close);
}

/// A row with too few fields is no event, and a blank row is none.
pub proof fn law_short_rows_are_left_out(raw: Seq<char>, f: Seq<Seq<char>>, blank: Seq<char>, ticker: Seq<char>)
    requires
        is_row(raw, f),
        crate::text::all_strippable(Strip::Space, blank),
    ensures
        f.len() < 6 ==> read_book_row(raw, ticker) is None,
        f.len() < 5 ==> read_trade_row(raw, ticker) is None,
        read_book_row(blank, ticker) is None,
        read_trade_row(blank, ticker) is None,
{
    lemma_row_fields(raw, f);
    let none = Seq::<char>::empty();
    crate::text::law_stripping_keeps_the_middle(Strip::Space, blank, none, none);
    assert(blank + none + none =~= blank);
}

/// A log that goes on holds what it held before and then what the rows behind hold; a row that
/// is no event of the market changes nothing, and one that is stands once.
pub proof fn law_logs_are_read_row_by_row(a: Seq<Seq<char>>, b: Seq<Seq<char>>, row: Seq<char>, ticker: Seq<char>)
    ensures
        logged_book(a + b, ticker) == logged_book(a, ticker) + logged_book(b, ticker),
        logged_trades(a + b, ticker) == logged_trades(a, ticker) + logged_trades(b, ticker),
        logged_book(Seq::empty(), ticker).len() == 0,
        logged_trades(Seq::empty(), ticker).len() == 0,
        match read_book_row(row, ticker) {
            Some(r) => logged_book(seq![row], ticker) == seq![r],
            None => logged_book(seq![row], ticker).len() == 0,
        },
        match read_trade_row(row, ticker) {
            Some(r) => logged_trades(seq![row], ticker) == seq![r],
            None => logged_trades(seq![row], ticker).len() == 0,
        },
    decreases b.len(),
{
    if b.len() == 0 {
        assert(a + b =~= a);
        assert(logged_book(a, ticker) + logged_book(b, ticker) =~= logged_book(a, ticker));
        assert(logged_trades(a, ticker) + logged_trades(b, ticker) =~= logged_trades(a, ticker));
    } else {
        law_logs_are_read_row_by_row(a, b.drop_last(), row, ticker);
        assert((a + b).drop_last() =~= a + b.drop_last());
        assert((a + b).last() == b.last());
        assert(logged_book(a + b, ticker) =~= logged_book(a, ticker) + logged_book(b, ticker));
        assert(logged_trades(a + b, ticker) =~= logged_trades(a, ticker) + logged_trades(b, ticker));
    }
    reveal_with_fuel(logged_book, 2);
    reveal_with_fuel(logged_trades, 2);
    assert(seq![row].drop_last() =~= Seq::empty());
    assert(seq![row].last() == row);
    match read_book_row(row, ticker) {
        Some(r) => assert(logged_book(seq![row], ticker) =~= seq![r]),
        None => {},
    }
    match read_trade_row(row, ticker) {
        Some(r) => assert(logged_trades(seq![row], ticker) =~= seq![r]),
        None => {},
    }
}

/// The ends of the range of a market are times of its events, and no event lies outside.
pub proof fn law_the_range_is_that_of_the_events(d: TickerData)
    requires
        d.wf(),
    ensures
        forall|i: int| 0 <= i < d.book().len() ==> d.min_ts <= (#[trigger] d.book()[i]).ts <= d.max_ts,
        forall|i: int| 0 <= i < d.trades().len() ==> d.min_ts <= (#[trigger] d.trades()[i]).ts <= d.max_ts,
        d.book().len() + d.trades().len() > 0 ==> {
            ||| exists|i: int| 0 <= i < d.book().len() && (#[trigger] d.book()[i]).ts == d.min_ts
            ||| exists|i: int| 0 <= i < d.trades().len() && (#[trigger] d.trades()[i]).ts == d.min_ts
        },
        d.book().len() + d.trades().len() > 0 ==> {
            ||| exists|i: int| 0 <= i < d.book().len() && (#[trigger] d.book()[i]).ts == d.max_ts
            ||| exists|i: int| 0 <= i < d.trades().len() && (#[trigger] d.trades()[i]).ts == d.max_ts
        },
{
    assert forall|i: int| 0 <= i < d.book().len() implies d.min_ts <= (#[trigger] d.book()[i]).ts <= d.max_ts by {
        law_time_range(d.book(), book_time(), i);
    }
    assert forall|i: int| 0 <= i < d.trades().len() implies d.min_ts <= (#[trigger] d.trades()[i]).ts <= d.max_ts by {
        law_time_range(d.trades(), trade_time(), i);
    }
    if d.book().len() > 0 {
        let (i, j) = lemma_range_is_met(d.book(), book_time());
        assert(book_time()(d.book()[i]) == d.book()[i].ts);
        assert(book_time()(d.book()[j]) == d.book()[j].ts);
    }
    if d.trades().len() > 0 {
        let (i, j) = lemma_range_is_met(d.trades(), trade_time());
        assert(trade_time()(d.trades()[i]) == d.trades()[i].ts);
        assert(trade_time()(d.trades()[j]) == d.trades()[j].ts);
    }
}

proof fn lemma_range_is_met<T>(s: Seq<T>, time: spec_fn(T) -> u64) -> (r: (int, int))
    requires
        s.len() > 0,
    ensures
        0 <= r.0 < s.len(),
        0 <= r.1 < s.len(),
        time(s[r.0]) == first_time(s, time),
        time(s[r.1]) == last_time(s, time),
    decreases s.len(),
{
    let p = s.drop_last();
    let n = s.len() - 1;
    if p.len() == 0 {
        assert(first_time(p, time) == u64::MAX);
        assert(last_time(p, time) == 0);
        (n, n)
    } else {
        let (i, j) = lemma_range_is_met(p, time);
        (if time(s.last()) < first_time(p, time) {
            n
        } else {
            i
        }, if time(s.last()) > last_time(p, time) {
            n
        } else {
            j
        })
    }
}

} // verus!
