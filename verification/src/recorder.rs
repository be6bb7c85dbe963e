//! The recorder: it keeps the book and the candles of one market from a feed and writes
//! both down.

use crate::amount::{short_text, Amount};
use crate::book::{BookState, Quote};
use crate::candle_agg::{Candle, CandleAgg};
use crate::events::append_book_csv;
use crate::text::{cat, concat, join_fields, u64_text, views};
use crate::timeframe::{short_tfs, tf_choices};
use vstd::prelude::*;

verus! {

/// How many seconds pass before a feed is asked for again.
pub const RETRY_SECS: u64 = 5;

/// The two recorders: one keeps every period, the other the short ones.
#[derive(Clone, Copy, Debug, PartialEq, Eq, Structural)]
pub enum RecorderKind {
    Full,
    Short,
}

/// A message of the feed.
#[derive(Debug)]
#[allow(inconsistent_fields)]
pub enum FeedMessage {
    Initial { bids: Vec<Quote>, asks: Vec<Quote> },
    Update { bids: Option<Vec<Quote>>, asks: Option<Vec<Quote>> },
}

/// A level to be written down.
#[derive(Clone, Copy, Debug, PartialEq, Eq, Structural)]
pub struct BookNote {
    pub initial: bool,
    pub bid: bool,
    pub quote: Quote,
}

/// A candle to be written down.
#[derive(Clone, Copy, Debug, PartialEq, Eq, Structural)]
pub struct CandleNote {
    pub tf_secs: u64,
    pub candle: Candle,
}

/// What a message leads to.
#[derive(Debug)]
pub struct Recorded {
    pub levels: Vec<BookNote>,
    pub candles: Vec<CandleNote>,
}

/// The candles of one period. The newest one is open; the ones before it are complete and
/// written down.
#[derive(Debug)]
pub struct Lane {
    pub agg: CandleAgg,
}

/// The book and the candles of one market.
#[derive(Debug)]
pub struct Recorder {
    pub book: BookState,
    pub lanes: Vec<Lane>,
}

#[allow(inconsistent_fields)]
pub ghost enum MessageView {
    Initial { bids: Seq<Quote>, asks: Seq<Quote> },
    Update { bids: Option<Seq<Quote>>, asks: Option<Seq<Quote>> },
}

pub ghost struct LaneView {
    pub tf: u64,
    pub candles: Seq<Candle>,
}

pub open spec fn levels_of(v: Option<Vec<Quote>>) -> Option<Seq<Quote>> {
    match v {
        Some(v) => Some(v@),
        None => None,
    }
}

impl View for FeedMessage {
    type V = MessageView;

    open spec fn view(&self) -> MessageView {
        match self {
            FeedMessage::Initial { bids, asks } => MessageView::Initial { bids: bids@, asks: asks@ },
            FeedMessage::Update { bids, asks } => MessageView::Update {
                bids: levels_of(*bids),
                asks: levels_of(*asks),
            },
        }
    }
}

impl View for Lane {
    type V = LaneView;

    open spec fn view(&self) -> LaneView {
        LaneView { tf: self.agg.period(), candles: self.agg.candles() }
    }
}

pub open spec fn lane_views(lanes: Seq<Lane>) -> Seq<LaneView> {
    lanes.map_values(|l: Lane| l@)
}

/// The bids and the asks.
pub ghost struct BookView {
    pub bids: crate::book::Sizes,
    pub asks: crate::book::Sizes,
}

/// The levels of a side that an update may leave out.
pub open spec fn or_none(qs: Option<Seq<Quote>>) -> Seq<Quote> {
    match qs {
        Some(qs) => qs,
        None => Seq::empty(),
    }
}

/// The book after a message: a first snapshot replaces it, an update changes the levels
/// that it names.
pub open spec fn book_after(b: BookView, m: MessageView) -> BookView {
    match m {
        MessageView::Initial { bids, asks } => BookView {
            bids: crate::book::initial(bids),
            asks: crate::book::initial(asks),
        },
        MessageView::Update { bids, asks } => BookView {
            bids: crate::book::updated_all(b.bids, or_none(bids)),
            asks: crate::book::updated_all(b.asks, or_none(asks)),
        },
    }
}

pub open spec fn side_notes(qs: Seq<Quote>, initial: bool, bid: bool) -> Seq<BookNote> {
    qs.map_values(|q: Quote| BookNote { initial, bid, quote: q })
}

/// What is written down of a message: every level that it names, the bids first.
pub open spec fn notes_of(m: MessageView) -> Seq<BookNote> {
    match m {
        MessageView::Initial { bids, asks } => side_notes(bids, true, true) + side_notes(asks, true, false),
        MessageView::Update { bids, asks } => side_notes(or_none(bids), false, true) + side_notes(
            or_none(asks),
            false,
            false,
        ),
    }
}

/// The candles of a period after a tick at the middle. The volume of a tick is zero.
pub open spec fn lane_candles(l: LaneView, ts: u64, mid: Amount) -> Seq<Candle> {
    crate::candle_agg::ticked(l.candles, l.tf, ts, mid, 0)
}

pub open spec fn lane_after(l: LaneView, ts: u64, mid: Amount) -> LaneView {
    LaneView { candles: lane_candles(l, ts, mid), ..l }
}

/// The candle that a tick completes, and that is written down: the newest one so far, where
/// the tick belongs to a later one. The open candle is never written down.
pub open spec fn lane_note(l: LaneView, ts: u64, mid: Amount) -> Option<CandleNote> {
    if l.candles.len() > 0 && l.candles.last().t < crate::candle_agg::bucket(ts, l.tf) {
        Some(CandleNote { tf_secs: l.tf, candle: l.candles.last() })
    } else {
        None
    }
}

pub open spec fn lanes_after(lanes: Seq<LaneView>, ts: u64, mid: Option<Amount>) -> Seq<LaneView> {
    match mid {
        Some(mid) => lanes.map_values(|l: LaneView| lane_after(l, ts, mid)),
        None => lanes,
    }
}

/// The candles that a tick has written down, period by period.
pub open spec fn lane_notes(lanes: Seq<LaneView>, ts: u64, mid: Amount) -> Seq<CandleNote>
    decreases lanes.len(),
{
    if lanes.len() == 0 {
        Seq::empty()
    } else {
        let before = lane_notes(lanes.drop_last(), ts, mid);
        match lane_note(lanes.last(), ts, mid) {
            Some(n) => before.push(n),
            None => before,
        }
    }
}

pub open spec fn candle_notes(lanes: Seq<LaneView>, ts: u64, mid: Option<Amount>) -> Seq<CandleNote> {
    match mid {
        Some(mid) => lane_notes(lanes, ts, mid),
        None => Seq::empty(),
    }
}

/// The periods of a recorder.
pub open spec fn periods_of(kind: RecorderKind) -> Seq<u64> {
    match kind {
        RecorderKind::Full => seq![
            1u64,
            5u64,
            10u64,
            15u64,
            30u64,
            60u64,
            120u64,
            180u64,
            300u64,
            600u64,
            900u64,
            1800u64,
            3600u64,
            7200u64,
            14400u64,
            28800u64,
            43200u64,
            86400u64,
        ],
        RecorderKind::Short => seq![30u64, 60u64, 180u64, 300u64],
    }
}

/// Periods of which nothing was seen yet.
pub open spec fn fresh_lanes(tfs: Seq<u64>) -> Seq<LaneView> {
    tfs.map_values(|tf: u64| LaneView { tf, candles: Seq::empty() })
}

impl RecorderKind {
    pub fn periods(self) -> (r: Vec<u64>)
        ensures
            r@ == periods_of(self),
            crate::snapshot::all_positive(r@),
    {
        match self {
            RecorderKind::Full => tf_choices(),
            RecorderKind::Short => short_tfs(),
        }
    }
}

impl Lane {
    pub open spec fn wf(&self) -> bool {
        self.agg.period() > 0
    }

    pub fn new(tf_secs: u64) -> (r: Self)
        ensures
            r@ == (LaneView { tf: tf_secs, candles: Seq::empty() }),
    {
        Lane { agg: CandleAgg::new(tf_secs) }
    }

    /// A tick at the middle, and the candle that it completes.
    pub fn tick(&mut self, ts: u64, mid: Amount) -> (r: Option<CandleNote>)
        requires
            old(self).wf(),
        ensures
            final(self).wf(),
            final(self)@ == lane_after(old(self)@, ts, mid),
            r == lane_note(old(self)@, ts, mid),
    {
        let n: usize = self.agg.series().len();
        let open: Option<Candle> = if n > 0 {
            Some(self.agg.series()[n - 1])
        } else {
            None
        };
        self.agg.update(ts, mid, 0);
        let tf_secs: u64 = self.agg.tf();
        let newest: Candle = self.agg.series()[self.agg.series().len() - 1];
        match open {
            Some(candle) => if candle.t < newest.t {
                Some(CandleNote { tf_secs, candle })
            } else {
                None
            },
            None => None,
        }
    }
}

impl BookNote {
    pub open spec fn row(&self, ts: u64, ticker: Seq<char>) -> crate::events::BookRow {
        crate::events::BookRow {
            ts,
            ticker,
            kind: if self.initial {
                "book_init"@
            } else {
                "delta"@
            },
            side: if self.bid {
                "bid"@
            } else {
                "ask"@
            },
            price: self.quote.price,
            size: self.quote.size,
        }
    }

    /// The row of the book log that holds this level.
    pub fn line(&self, ts: u64, ticker: &str) -> (r: String)
        ensures
            r@ == crate::events::book_row_text(self.row(ts, ticker@)),
    {
        let kind: &str = if self.initial {
            "book_init"
        } else {
            "delta"
        };
        let side: &str = if self.bid {
            "bid"
        } else {
            "ask"
        };
        append_book_csv(ts, ticker, kind, side, self.quote.price, self.quote.size)
    }
}

/// The fields of the row of a candle.
pub open spec fn candle_line_fields(kind: RecorderKind, ticker: Seq<char>, n: CandleNote) -> Seq<Seq<char>> {
    let c = n.candle;
    let numbers = seq![
        crate::text::nat_text(n.tf_secs as nat),
        crate::amount::short(c.open as int),
        crate::amount::short(c.high as int),
        crate::amount::short(c.low as int),
        crate::amount::short(c.close as int),
        crate::amount::short(c.volume as int),
    ];
    match kind {
        RecorderKind::Full => seq![crate::text::nat_text(c.t as nat)] + numbers,
        RecorderKind::Short => seq![crate::text::nat_text(c.t as nat), ticker] + numbers,
    }
}

impl CandleNote {
    /// The row of the candle log that holds this candle.
    pub fn line(&self, kind: RecorderKind, ticker: &str) -> (r: String)
        ensures
            r@ == crate::text::join(candle_line_fields(kind, ticker@, *self), ','),
    {
        let mut f: Vec<String> = Vec::new();
        f.push(u64_text(self.candle.t));
        match kind {
            RecorderKind::Full => {},
            RecorderKind::Short => {
                f.push(ticker.to_owned());
            },
        }
        f.push(u64_text(self.tf_secs));
        f.push(short_text(self.candle.open));
        f.push(short_text(self.candle.high));
        f.push(short_text(self.candle.low));
        f.push(short_text(self.candle.close));
        f.push(short_text(self.candle.volume));
        assert(crate::text::texts(f@) =~= candle_line_fields(kind, ticker@, *self));
        join_fields(&f)
    }
}

impl Recorder {
    pub open spec fn wf(&self) -> bool {
        self.book.wf() && forall|i: int| 0 <= i < self.lanes@.len() ==> (#[trigger] self.lanes@[i]).wf()
    }

    pub open spec fn sides(&self) -> BookView {
        BookView { bids: self.book.bids@, asks: self.book.asks@ }
    }

    /// A recorder that has seen nothing yet.
    pub fn new(kind: RecorderKind) -> (r: Self)
        ensures
            r.wf(),
            r.sides() == no_levels(),
            lane_views(r.lanes@) == fresh_lanes(periods_of(kind)),
    {
        let tfs: Vec<u64> = kind.periods();
        let n: usize = tfs.len();
        let mut lanes: Vec<Lane> = Vec::new();
        let mut i: usize = 0;
        while i < n
            invariant
                i <= n,
                n == tfs@.len(),
                crate::snapshot::all_positive(tfs@),
                lanes@.len() == i,
                forall|j: int|
                    0 <= j < i ==> (#[trigger] lanes@[j])@ == (LaneView {
                        tf: tfs@[j],
                        candles: Seq::empty(),
                    }),
            decreases n - i,
        {
            lanes.push(Lane::new(tfs[i]));
            i += 1;
        }
        assert(lane_views(lanes@) =~= fresh_lanes(periods_of(kind)));
        assert forall|j: int| 0 <= j < lanes@.len() implies (#[trigger] lanes@[j]).wf() by {
            assert(lanes@[j]@.tf == tfs@[j]);
        }
        Recorder { book: BookState::new(), lanes }
    }

    /// Takes a message at the given time: the book changes, every period gets a tick at
    /// the middle where there is one, and what is to be written down comes back.
    pub fn on_message(&mut self, msg: &FeedMessage, ts: u64) -> (r: Recorded)
        requires
            old(self).wf(),
        ensures
            final(self).wf(),
            final(self).sides() == book_after(old(self).sides(), msg@),
            r.levels@ == notes_of(msg@),
            ({
                let after = book_after(old(self).sides(), msg@);
                let mid = crate::book::mid_of(after.bids, after.asks);
                &&& lane_views(final(self).lanes@) == lanes_after(lane_views(old(self).lanes@), ts, mid)
                &&& r.candles@ == candle_notes(lane_views(old(self).lanes@), ts, mid)
            }),
    {
        let levels: Vec<BookNote> = level_notes(msg);
        match msg {
            FeedMessage::Initial { bids, asks } => {
                self.book.apply_initial(bids, asks);
            },
            FeedMessage::Update { bids, asks } => {
                self.book.apply_update(bids, asks);
            },
        }
        let candles: Vec<CandleNote> = match self.book.mid() {
            Some(mid) => self.tick(ts, mid),
            None => Vec::new(),
        };
        Recorded { levels, candles }
    }

    fn tick(&mut self, ts: u64, mid: Amount) -> (r: Vec<CandleNote>)
        requires
            old(self).wf(),
        ensures
            final(self).wf(),
            final(self).book == old(self).book,
            lane_views(final(self).lanes@) == lanes_after(lane_views(old(self).lanes@), ts, Some(mid)),
            r@ == lane_notes(lane_views(old(self).lanes@), ts, mid),
    {
        let ghost start = self.lanes@;
        let ghost begun = lane_views(start);
        let n: usize = self.lanes.len();
        let mut out: Vec<CandleNote> = Vec::new();
        let mut i: usize = 0;
        assert(begun.take(0) =~= Seq::empty());
        while i < n
            invariant
                i <= n,
                n == self.lanes@.len(),
                n == start.len(),
                begun == lane_views(start),
                self.book == old(self).book,
                self.book.wf(),
                forall|j: int| 0 <= j < n ==> (#[trigger] self.lanes@[j]).wf(),
                forall|j: int| i <= j < n ==> (#[trigger] self.lanes@[j])@ == start[j]@,
                forall|j: int| 0 <= j < i ==> (#[trigger] self.lanes@[j])@ == lane_after(start[j]@, ts, mid),
                out@ == lane_notes(begun.take(i as int), ts, mid),
            decreases n - i,
        {
            let note = self.lanes[i].tick(ts, mid);
            if let Some(c) = note {
                out.push(c);
            }
            proof {
                assert(begun.take(i + 1).drop_last() =~= begun.take(i as int));
                assert(begun.take(i + 1).last() == start[i as int]@);
            }
            i += 1;
        }
        assert(begun.take(n as int) =~= begun);
        assert(lane_views(self.lanes@) =~= lanes_after(begun, ts, Some(mid)));
        out
    }
}

/// A book without levels.
pub open spec fn no_levels() -> BookView {
    BookView { bids: Map::empty(), asks: Map::empty() }
}

fn push_notes(out: &mut Vec<BookNote>, levels: &Vec<Quote>, initial: bool, bid: bool)
    ensures
        final(out)@ == old(out)@ + side_notes(levels@, initial, bid),
{
    let ghost start = out@;
    let n: usize = levels.len();
    let mut i: usize = 0;
    assert(out@ =~= start + side_notes(levels@.take(0), initial, bid));
    while i < n
        invariant
            i <= n,
            n == levels@.len(),
            out@ == start + side_notes(levels@.take(i as int), initial, bid),
        decreases n - i,
    {
        out.push(BookNote { initial, bid, quote: levels[i] });
        i += 1;
        assert(out@ =~= start + side_notes(levels@.take(i as int), initial, bid));
    }
    assert(levels@.take(n as int) =~= levels@);
}

/// What is written down of a message.
pub fn level_notes(msg: &FeedMessage) -> (r: Vec<BookNote>)
    ensures
        r@ == notes_of(msg@),
{
    let mut out: Vec<BookNote> = Vec::new();
    match msg {
        FeedMessage::Initial { bids, asks } => {
            push_notes(&mut out, bids, true, true);
            push_notes(&mut out, asks, true, false);
        },
        FeedMessage::Update { bids, asks } => {
            if let Some(b) = bids {
                push_notes(&mut out, b, false, true);
            }
            if let Some(a) = asks {
                push_notes(&mut out, a, false, false);
            }
        },
    }
    assert(out@ =~= notes_of(msg@));
    out
}

// ---------------------------------------------------------------------------
// Files

pub open spec fn book_file_name(ticker: Seq<char>) -> Seq<char> {
    concat(seq!["orderbook_"@, ticker, ".csv"@])
}

/// The file of the book log.
pub fn book_file(ticker: &str) -> (r: String)
    ensures
        r@ == book_file_name(ticker@),
{
    let parts: Vec<&str> = vec!["orderbook_", ticker, ".csv"];
    assert(views(parts@) =~= seq!["orderbook_"@, ticker@, ".csv"@]);
    cat(&parts)
}

pub open spec fn trade_file_name(ticker: Seq<char>) -> Seq<char> {
    concat(seq!["trades_"@, ticker, ".csv"@])
}

/// The file of the trade log.
pub fn trade_file(ticker: &str) -> (r: String)
    ensures
        r@ == trade_file_name(ticker@),
{
    let parts: Vec<&str> = vec!["trades_", ticker, ".csv"];
    assert(views(parts@) =~= seq!["trades_"@, ticker@, ".csv"@]);
    cat(&parts)
}

pub open spec fn candle_file_name(ticker: Seq<char>, tf_secs: u64) -> Seq<char> {
    concat(seq!["candles_"@, ticker, "_"@, crate::text::nat_text(tf_secs as nat), ".csv"@])
}

/// The file of the candle log of one period.
pub fn candle_file(ticker: &str, tf_secs: u64) -> (r: String)
    ensures
        r@ == candle_file_name(ticker@, tf_secs),
{
    let tf: String = u64_text(tf_secs);
    let parts: Vec<&str> = vec!["candles_", ticker, "_", tf.as_str(), ".csv"];
    assert(views(parts@) =~= seq!["candles_"@, ticker@, "_"@, tf@, ".csv"@]);
    cat(&parts)
}

// ---------------------------------------------------------------------------
// The feed

/// What happens to the feed of a recorder.
#[derive(Debug)]
pub enum FeedEvent {
    /// The feed is about to be asked for.
    Asking,
    /// The feed was refused.
    Refused { error: String },
    /// The feed ended.
    Ended,
}

/// What a recorder does next: it says something, and asks for the feed again after a
/// while, or goes on at once.
#[derive(Debug)]
pub struct FeedAction {
    pub line: String,
    pub wait_secs: u64,
}

pub open spec fn feed_line(kind: RecorderKind, ticker: Seq<char>, e: FeedEvent) -> Seq<char> {
    match (kind, e) {
        (RecorderKind::Full, FeedEvent::Asking) => concat(seq!["[daemon] starting feed for "@, ticker]),
        (RecorderKind::Short, FeedEvent::Asking) => concat(
            seq!["[daemon] subscribing orders for "@, ticker],
        ),
        (RecorderKind::Full, FeedEvent::Refused { error }) => concat(
            seq!["[daemon] orders feed error for "@, ticker, ": "@, error@],
        ),
        (RecorderKind::Short, FeedEvent::Refused { error }) => concat(
            seq!["[daemon] orders feed error for "@, ticker, ": "@, error@, "; retrying in 5s"@],
        ),
        (RecorderKind::Full, FeedEvent::Ended) => concat(
            seq!["[daemon] feed for "@, ticker, " ended, reconnecting in 5s..."@],
        ),
        (RecorderKind::Short, FeedEvent::Ended) => concat(
            seq!["[daemon] feed ended for "@, ticker, "; reconnecting in 5s..."@],
        ),
    }
}

/// What a recorder does about its feed.
pub fn feed_action(kind: RecorderKind, ticker: &str, event: &FeedEvent) -> (r: FeedAction)
    ensures
        r.line@ == feed_line(kind, ticker@, *event),
        r.wait_secs == (if event is Asking {
            0
        } else {
            RETRY_SECS
        }),
{
    let wait_secs: u64 = match event {
        FeedEvent::Asking => 0,
        _ => RETRY_SECS,
    };
    let parts: Vec<&str> = match (kind, event) {
        (RecorderKind::Full, FeedEvent::Asking) => vec!["[daemon] starting feed for ", ticker],
        (RecorderKind::Short, FeedEvent::Asking) => vec!["[daemon] subscribing orders for ", ticker],
        (RecorderKind::Full, FeedEvent::Refused { error }) => vec![
            "[daemon] orders feed error for ",
            ticker,
            ": ",
            error.as_str(),
        ],
        (RecorderKind::Short, FeedEvent::Refused { error }) => vec![
            "[daemon] orders feed error for ",
            ticker,
            ": ",
            error.as_str(),
            "; retrying in 5s",
        ],
        (RecorderKind::Full, FeedEvent::Ended) => vec![
            "[daemon] feed for ",
            ticker,
            " ended, reconnecting in 5s...",
        ],
        (RecorderKind::Short, FeedEvent::Ended) => vec![
            "[daemon] feed ended for ",
            ticker,
            "; reconnecting in 5s...",
        ],
    };
    assert(concat(views(parts@)) == feed_line(kind, ticker@, *event)) by {
        match (kind, event) {
            (RecorderKind::Full, FeedEvent::Asking) => {
                assert(views(parts@) =~= seq!["[daemon] starting feed for "@, ticker@]);
            },
            (RecorderKind::Short, FeedEvent::Asking) => {
                assert(views(parts@) =~= seq!["[daemon] subscribing orders for "@, ticker@]);
            },
            (RecorderKind::Full, FeedEvent::Refused { error }) => {
                assert(views(parts@) =~= seq!["[daemon] orders feed error for "@, ticker@, ": "@, error@]);
            },
            (RecorderKind::Short, FeedEvent::Refused { error }) => {
                assert(views(parts@) =~= seq![
                    "[daemon] orders feed error for "@,
                    ticker@,
                    ": "@,
                    error@,
                    "; retrying in 5s"@,
                ]);
            },
            (RecorderKind::Full, FeedEvent::Ended) => {
                assert(views(parts@) =~= seq![
                    "[daemon] feed for "@,
                    ticker@,
                    " ended, reconnecting in 5s..."@,
                ]);
            },
            (RecorderKind::Short, FeedEvent::Ended) => {
                assert(views(parts@) =~= seq![
                    "[daemon] feed ended for "@,
                    ticker@,
                    "; reconnecting in 5s..."@,
                ]);
            },
        }
    }
    FeedAction { line: cat(&parts), wait_secs }
}

// ---------------------------------------------------------------------------
// Laws

/// The rows of the book log for these levels, each at its own time.
pub open spec fn rows_of(notes: Seq<BookNote>, stamps: Seq<u64>, ticker: Seq<char>) -> Seq<crate::events::BookRow> {
    Seq::new(notes.len(), |i: int| notes[i].row(stamps[i], ticker))
}

/// The lines of the book log for these levels, each at its own time.
pub open spec fn lines_of(notes: Seq<BookNote>, stamps: Seq<u64>, ticker: Seq<char>) -> Seq<Seq<char>> {
    Seq::new(notes.len(), |i: int| crate::events::book_row_text(notes[i].row(stamps[i], ticker)))
}

/// What a recorder writes down of these messages.
pub open spec fn session_notes(msgs: Seq<MessageView>) -> Seq<BookNote>
    decreases msgs.len(),
{
    if msgs.len() == 0 {
        Seq::empty()
    } else {
        session_notes(msgs.drop_last()) + notes_of(msgs.last())
    }
}

/// The book of a recorder after these messages.
pub open spec fn session_book(msgs: Seq<MessageView>) -> BookView
    decreases msgs.len(),
{
    if msgs.len() == 0 {
        no_levels()
    } else {
        book_after(session_book(msgs.drop_last()), msgs.last())
    }
}

/// The size that the levels name last for a key.
pub open spec fn last_size(qs: Seq<Quote>, k: crate::amount::PriceKey) -> Option<Amount>
    decreases qs.len(),
{
    if qs.len() == 0 {
        None
    } else if crate::amount::key_of(qs.last().price as int) as crate::amount::PriceKey == k {
        Some(qs.last().size)
    } else {
        last_size(qs.drop_last(), k)
    }
}

/// The size other than zero that the levels name last for a key.
pub open spec fn last_kept(qs: Seq<Quote>, k: crate::amount::PriceKey) -> Option<Amount>
    decreases qs.len(),
{
    if qs.len() == 0 {
        None
    } else if crate::amount::key_of(qs.last().price as int) as crate::amount::PriceKey == k && qs.last().size
        != 0 {
        Some(qs.last().size)
    } else {
        last_kept(qs.drop_last(), k)
    }
}

/// Whether a first snapshot names every level that is there, and takes none back that it
/// named.
pub open spec fn opens_cleanly(m: crate::book::Sizes, qs: Seq<Quote>) -> bool {
    forall|k: crate::amount::PriceKey|
        {
            &&& #[trigger] last_size(qs, k) is None ==> !m.contains_key(k)
            &&& last_size(qs, k) == Some(0 as Amount) ==> last_kept(qs, k) is None
        }
}

pub open spec fn size_at(m: crate::book::Sizes, k: crate::amount::PriceKey) -> Option<Amount> {
    if m.contains_key(k) {
        Some(m[k])
    } else {
        None
    }
}

proof fn lemma_updated_at(m: crate::book::Sizes, qs: Seq<Quote>, k: crate::amount::PriceKey)
    ensures
        size_at(crate::book::updated_all(m, qs), k) == (match last_size(qs, k) {
            Some(s) => if s == 0 {
                None
            } else {
                Some(s)
            },
            None => size_at(m, k),
        }),
    decreases qs.len(),
{
    if qs.len() > 0 {
        lemma_updated_at(m, qs.drop_last(), k);
    }
}

proof fn lemma_initial_at(qs: Seq<Quote>, k: crate::amount::PriceKey)
    ensures
        size_at(crate::book::initial(qs), k) == last_kept(qs, k),
    decreases qs.len(),
{
    if qs.len() > 0 {
        lemma_initial_at(qs.drop_last(), k);
    }
}

proof fn lemma_last_kept(qs: Seq<Quote>, k: crate::amount::PriceKey)
    ensures
        last_size(qs, k) is None ==> last_kept(qs, k) is None,
        last_size(qs, k) matches Some(s) ==> s != 0 ==> last_kept(qs, k) == Some(s),
    decreases qs.len(),
{
    if qs.len() > 0 {
        lemma_last_kept(qs.drop_last(), k);
    }
}

/// A first snapshot is the same as an update, where it names every level that is there
/// and takes none back that it named.
pub proof fn law_clean_opening_is_an_update(m: crate::book::Sizes, qs: Seq<Quote>)
    requires
        opens_cleanly(m, qs),
    ensures
        crate::book::updated_all(m, qs) == crate::book::initial(qs),
{
    let u = crate::book::updated_all(m, qs);
    let i = crate::book::initial(qs);
    assert forall|k: crate::amount::PriceKey| size_at(u, k) == size_at(i, k) by {
        lemma_updated_at(m, qs, k);
        lemma_initial_at(qs, k);
        lemma_last_kept(qs, k);
        assert(last_size(qs, k) is None ==> !m.contains_key(k));
    }
    assert forall|k: crate::amount::PriceKey| u.contains_key(k) == #[trigger] i.contains_key(k) by {
        assert(size_at(u, k) == size_at(i, k));
    }
    assert forall|k: crate::amount::PriceKey| u.contains_key(k) implies #[trigger] u[k] == i[k] by {
        assert(size_at(u, k) == size_at(i, k));
    }
    assert(u =~= i);
}

proof fn lemma_sides_are_told_apart()
    ensures
        crate::snapshot::is_bid("bid"@),
        !crate::snapshot::is_bid("ask"@),
{
    reveal_strlit("bid");
    reveal_strlit("ask");
    assert(crate::text::lower_text("bid"@) =~= "bid"@);
    assert(crate::text::lower_text("ask"@) =~= "ask"@);
    assert("bid"@[0] != "ask"@[0]);
}

/// Replaying the levels of one side updates this side.
proof fn lemma_side_replays(
    evs: Seq<crate::events::BookRow>,
    qs: Seq<Quote>,
    initial: bool,
    bid: bool,
    stamps: Seq<u64>,
    ticker: Seq<char>,
)
    requires
        stamps.len() == qs.len(),
    ensures
        ({
            let before = crate::snapshot::sides_after(evs);
            let after = crate::snapshot::sides_after(
                evs + rows_of(side_notes(qs, initial, bid), stamps, ticker),
            );
            &&& after.bids == (if bid {
                crate::book::updated_all(before.bids, qs)
            } else {
                before.bids
            })
            &&& after.asks == (if bid {
                before.asks
            } else {
                crate::book::updated_all(before.asks, qs)
            })
        }),
    decreases qs.len(),
{
    let rows = rows_of(side_notes(qs, initial, bid), stamps, ticker);
    if qs.len() == 0 {
        assert(evs + rows =~= evs);
    } else {
        lemma_sides_are_told_apart();
        let p = qs.drop_last();
        let prior = rows_of(side_notes(p, initial, bid), stamps.drop_last(), ticker);
        lemma_side_replays(evs, p, initial, bid, stamps.drop_last(), ticker);
        assert((evs + rows).drop_last() =~= evs + prior);
        let e = (evs + rows).last();
        assert(e == side_notes(qs, initial, bid).last().row(stamps.last(), ticker));
        assert((Quote { price: e.price, size: e.size }) == qs.last());
    }
}

/// What a recorder writes down gives its book when it is replayed, whatever the times of
/// the rows: of every session in which each first snapshot names every level that is there
/// and takes none back that it named.
pub proof fn law_recording_replays(msgs: Seq<MessageView>, stamps: Seq<u64>, ticker: Seq<char>)
    requires
        stamps.len() == session_notes(msgs).len(),
        forall|i: int|
            0 <= i < msgs.len() ==> (#[trigger] msgs[i] matches MessageView::Initial { bids, asks } ==> {
                &&& opens_cleanly(session_book(msgs.take(i)).bids, bids)
                &&& opens_cleanly(session_book(msgs.take(i)).asks, asks)
            }),
    ensures
        ({
            let replayed = crate::snapshot::sides_after(rows_of(session_notes(msgs), stamps, ticker));
            &&& replayed.bids == session_book(msgs).bids
            &&& replayed.asks == session_book(msgs).asks
        }),
    decreases msgs.len(),
{
    let rows = rows_of(session_notes(msgs), stamps, ticker);
    if msgs.len() == 0 {
        assert(rows =~= Seq::empty());
    } else {
        let p = msgs.drop_last();
        let n = session_notes(p).len() as int;
        let prior = stamps.take(n);
        assert forall|i: int|
            0 <= i < p.len() implies (#[trigger] p[i] matches MessageView::Initial { bids, asks } ==> {
            &&& opens_cleanly(session_book(p.take(i)).bids, bids)
            &&& opens_cleanly(session_book(p.take(i)).asks, asks)
        }) by {
            assert(p[i] == msgs[i]);
            assert(p.take(i) =~= msgs.take(i));
        }
        law_recording_replays(p, prior, ticker);
        let evs = rows_of(session_notes(p), prior, ticker);
        let before = crate::snapshot::sides_after(evs);
        let (bids, asks, initial) = match msgs.last() {
            MessageView::Initial { bids, asks } => (bids, asks, true),
            MessageView::Update { bids, asks } => (or_none(bids), or_none(asks), false),
        };
        let first = stamps.subrange(n, n + bids.len());
        let second = stamps.subrange(n + bids.len(), stamps.len() as int);
        let bid_rows = rows_of(side_notes(bids, initial, true), first, ticker);
        let ask_rows = rows_of(side_notes(asks, initial, false), second, ticker);
        lemma_side_replays(evs, bids, initial, true, first, ticker);
        lemma_side_replays(evs + bid_rows, asks, initial, false, second, ticker);
        assert(rows =~= evs + bid_rows + ask_rows);
        if initial {
            assert(msgs.take(msgs.len() - 1) =~= p);
            assert(msgs[msgs.len() - 1] == msgs.last());
            law_clean_opening_is_an_update(before.bids, bids);
            law_clean_opening_is_an_update(before.asks, asks);
        }
    }
}

/// Whether text can denote the numbers of a level.
pub open spec fn writable(n: BookNote) -> bool {
    n.quote.price > i128::MIN && n.quote.size > i128::MIN
}

proof fn lemma_words_are_plain()
    ensures
        crate::events::plain_field("bid"@),
        crate::events::plain_field("ask"@),
        crate::events::plain_field("book_init"@),
        crate::events::plain_field("delta"@),
{
    reveal_strlit("bid");
    reveal_strlit("ask");
    reveal_strlit("book_init");
    reveal_strlit("delta");
}

proof fn lemma_lines_read_back(notes: Seq<BookNote>, stamps: Seq<u64>, ticker: Seq<char>)
    requires
        stamps.len() == notes.len(),
        crate::events::plain_field(ticker),
        crate::events::bare(ticker),
        forall|i: int| 0 <= i < notes.len() ==> writable(#[trigger] notes[i]),
    ensures
        crate::events::logged_book(lines_of(notes, stamps, ticker), ticker) == rows_of(notes, stamps, ticker),
    decreases notes.len(),
{
    let lines = lines_of(notes, stamps, ticker);
    let rows = rows_of(notes, stamps, ticker);
    if notes.len() == 0 {
        assert(rows =~= Seq::empty());
    } else {
        let p = notes.drop_last();
        lemma_lines_read_back(p, stamps.drop_last(), ticker);
        assert(lines.drop_last() =~= lines_of(p, stamps.drop_last(), ticker));
        assert(rows.drop_last() =~= rows_of(p, stamps.drop_last(), ticker));
        lemma_words_are_plain();
        let r = notes.last().row(stamps.last(), ticker);
        assert(writable(notes[notes.len() - 1]));
        crate::events::law_book_row_reads_back(r);
        assert(rows =~= rows.drop_last().push(r));
    }
}

/// The lines of a recorder read back as the levels that it wrote down, in their order,
/// where the clock did not go back.
pub proof fn law_recorded_lines_read_back(notes: Seq<BookNote>, stamps: Seq<u64>, ticker: Seq<char>)
    requires
        stamps.len() == notes.len(),
        forall|i: int, j: int| 0 <= i <= j < stamps.len() ==> stamps[i] <= stamps[j],
        crate::events::plain_field(ticker),
        crate::events::bare(ticker),
        forall|i: int| 0 <= i < notes.len() ==> writable(#[trigger] notes[i]),
    ensures
        crate::events::in_time_order(
            crate::events::logged_book(lines_of(notes, stamps, ticker), ticker),
            crate::events::book_time(),
        ) == rows_of(notes, stamps, ticker),
{
    let rows = rows_of(notes, stamps, ticker);
    lemma_lines_read_back(notes, stamps, ticker);
    let time = crate::events::book_time();
    assert forall|i: int, j: int| 0 <= i <= j < rows.len() implies time(#[trigger] rows[i]) <= time(
        #[trigger] rows[j],
    ) by {
        assert(stamps[i] <= stamps[j]);
    }
    crate::events::law_time_order_keeps_sorted(rows, time);
}

/// A candle of the full recorder reads back from its row.
pub proof fn law_recorded_candle_reads_back(n: CandleNote, ticker: Seq<char>)
    requires
        crate::candle_agg::writable(n.candle),
    ensures
        crate::candle_agg::row_candle(
            crate::text::join(candle_line_fields(RecorderKind::Full, ticker, n), ','),
            n.tf_secs,
        ) == Some(n.candle),
{
    let f = candle_line_fields(RecorderKind::Full, ticker, n);
    let c = n.candle;
    crate::text::lemma_nat_text(c.t as nat);
    crate::text::lemma_nat_text(n.tf_secs as nat);
    crate::text::lemma_digits_hold_no(f[0], ',');
    crate::text::lemma_digits_hold_no(f[1], ',');
    crate::amount::law_amounts_hold_no_comma(c.open);
    crate::amount::law_amounts_hold_no_comma(c.high);
    crate::amount::law_amounts_hold_no_comma(c.low);
    crate::amount::law_amounts_hold_no_comma(c.close);
    crate::amount::law_amounts_hold_no_comma(c.volume);
    crate::text::law_split_undoes_join(f, ',');
    crate::text::law_u64_reads_back(c.t);
    crate::text::law_u64_reads_back(n.tf_secs);
    crate::amount::law_short_reads_back(c.open);
    crate::amount::law_short_reads_back(c.high);
    crate::amount::law_short_reads_back(c.low);
    crate::amount::law_short_reads_back(c.close);
    crate::amount::law_short_reads_back(c.volume);
}

/// The ticks of a session: one for each message after which the book has a middle. Their
/// volume is zero.
pub open spec fn session_ticks(msgs: Seq<MessageView>, stamps: Seq<u64>) -> Seq<crate::candle_agg::Tick>
    decreases msgs.len(),
{
    if msgs.len() == 0 {
        Seq::empty()
    } else {
        let before = session_ticks(msgs.drop_last(), stamps.drop_last());
        let book = session_book(msgs);
        match crate::book::mid_of(book.bids, book.asks) {
            Some(mid) => before.push(crate::candle_agg::Tick { ts: stamps.last(), price: mid, volume: 0 }),
            None => before,
        }
    }
}

/// The periods of a recorder after these messages, each at its own time.
pub open spec fn session_lanes(kind: RecorderKind, msgs: Seq<MessageView>, stamps: Seq<u64>) -> Seq<LaneView>
    decreases msgs.len(),
{
    if msgs.len() == 0 {
        fresh_lanes(periods_of(kind))
    } else {
        let book = session_book(msgs);
        lanes_after(
            session_lanes(kind, msgs.drop_last(), stamps.drop_last()),
            stamps.last(),
            crate::book::mid_of(book.bids, book.asks),
        )
    }
}

/// The candles that a recorder writes down of these messages, each at its own time.
pub open spec fn session_candles(kind: RecorderKind, msgs: Seq<MessageView>, stamps: Seq<u64>) -> Seq<CandleNote>
    decreases msgs.len(),
{
    if msgs.len() == 0 {
        Seq::empty()
    } else {
        let book = session_book(msgs);
        session_candles(kind, msgs.drop_last(), stamps.drop_last()) + candle_notes(
            session_lanes(kind, msgs.drop_last(), stamps.drop_last()),
            stamps.last(),
            crate::book::mid_of(book.bids, book.asks),
        )
    }
}

/// The candles of one period among those that were written down.
pub open spec fn rows_of_period(notes: Seq<CandleNote>, tf: u64) -> Seq<Candle>
    decreases notes.len(),
{
    if notes.len() == 0 {
        Seq::empty()
    } else if notes.last().tf_secs == tf {
        rows_of_period(notes.drop_last(), tf).push(notes.last().candle)
    } else {
        rows_of_period(notes.drop_last(), tf)
    }
}

/// The complete ones of these candles: all but the newest.
pub open spec fn completed(s: Seq<Candle>) -> Seq<Candle> {
    if s.len() == 0 {
        s
    } else {
        s.drop_last()
    }
}

/// Whether the clock never goes back.
pub open spec fn never_back(stamps: Seq<u64>) -> bool {
    forall|i: int, j: int| 0 <= i <= j < stamps.len() ==> stamps[i] <= stamps[j]
}

/// A tick writes down the candle that it completes.
proof fn lemma_lane_step(l: LaneView, ticks: Seq<crate::candle_agg::Tick>, x: crate::candle_agg::Tick)
    requires
        l.tf > 0,
        x.volume == 0,
        crate::candle_agg::candles_over(l.candles, l.tf, ticks),
        ticks.len() > 0 ==> ticks.last().ts <= x.ts,
    ensures
        crate::candle_agg::candles_over(lane_after(l, x.ts, x.price).candles, l.tf, ticks.push(x)),
        completed(lane_after(l, x.ts, x.price).candles) == (match lane_note(l, x.ts, x.price) {
            Some(n) => completed(l.candles).push(n.candle),
            None => completed(l.candles),
        }),
{
    let s = l.candles;
    let r = lane_after(l, x.ts, x.price).candles;
    crate::candle_agg::lemma_tick_over(s, l.tf, ticks, x);
    if s.len() > 0 {
        crate::candle_agg::law_buckets_follow_time(ticks.last().ts, x.ts, l.tf);
        if s.last().t == crate::candle_agg::bucket(x.ts, l.tf) {
            assert(completed(r) =~= completed(s));
        } else {
            assert(completed(r) =~= completed(s).push(s.last()));
        }
    } else {
        assert(completed(r) =~= completed(s));
    }
}

proof fn lemma_rows_of_both(a: Seq<CandleNote>, b: Seq<CandleNote>, tf: u64)
    ensures
        rows_of_period(a + b, tf) == rows_of_period(a, tf) + rows_of_period(b, tf),
    decreases b.len(),
{
    if b.len() == 0 {
        assert(a + b =~= a);
        assert(rows_of_period(a, tf) + rows_of_period(b, tf) =~= rows_of_period(a, tf));
    } else {
        lemma_rows_of_both(a, b.drop_last(), tf);
        assert((a + b).drop_last() =~= a + b.drop_last());
        assert(rows_of_period(a + b, tf) =~= rows_of_period(a, tf) + rows_of_period(b, tf));
    }
}

/// Whether no two of these periods are the same.
pub open spec fn periods_differ(lanes: Seq<LaneView>) -> bool {
    forall|i: int, j: int| 0 <= i < j < lanes.len() ==> (#[trigger] lanes[i]).tf != (#[trigger] lanes[j]).tf
}

proof fn lemma_rows_of_other(lanes: Seq<LaneView>, ts: u64, mid: Amount, tf: u64)
    requires
        forall|i: int| 0 <= i < lanes.len() ==> (#[trigger] lanes[i]).tf != tf,
    ensures
        rows_of_period(lane_notes(lanes, ts, mid), tf) == Seq::<Candle>::empty(),
    decreases lanes.len(),
{
    if lanes.len() > 0 {
        assert(lanes[lanes.len() - 1].tf != tf);
        lemma_rows_of_other(lanes.drop_last(), ts, mid, tf);
        let before = lane_notes(lanes.drop_last(), ts, mid);
        if let Some(n) = lane_note(lanes.last(), ts, mid) {
            assert(before.push(n).drop_last() =~= before);
        }
    }
}

proof fn lemma_rows_of_lane(lanes: Seq<LaneView>, ts: u64, mid: Amount, i: int)
    requires
        periods_differ(lanes),
        0 <= i < lanes.len(),
    ensures
        rows_of_period(lane_notes(lanes, ts, mid), lanes[i].tf) == (match lane_note(lanes[i], ts, mid) {
            Some(n) => seq![n.candle],
            None => Seq::empty(),
        }),
    decreases lanes.len(),
{
    let tf = lanes[i].tf;
    let rest = lanes.drop_last();
    let before = lane_notes(rest, ts, mid);
    let last = lanes.len() - 1;
    if i == last {
        assert forall|k: int| 0 <= k < rest.len() implies (#[trigger] rest[k]).tf != tf by {
            assert(rest[k] == lanes[k]);
        }
        lemma_rows_of_other(rest, ts, mid, tf);
    } else {
        assert(periods_differ(rest)) by {
            assert forall|a: int, b: int| 0 <= a < b < rest.len() implies (#[trigger] rest[a]).tf != (
            #[trigger] rest[b]).tf by {
                assert(lanes[a].tf != lanes[b].tf);
            }
        }
        lemma_rows_of_lane(rest, ts, mid, i);
        assert(lanes[i].tf != lanes[last].tf);
    }
    if let Some(n) = lane_note(lanes.last(), ts, mid) {
        assert(before.push(n).drop_last() =~= before);
        if i == last {
            assert(rows_of_period(lane_notes(lanes, ts, mid), tf) =~= seq![n.candle]);
        }
    }
}

proof fn lemma_periods(kind: RecorderKind)
    ensures
        forall|i: int| 0 <= i < periods_of(kind).len() ==> (#[trigger] periods_of(kind)[i]) > 0,
        forall|i: int, j: int|
            0 <= i < j < periods_of(kind).len() ==> (#[trigger] periods_of(kind)[i]) < (#[trigger] periods_of(
                kind,
            )[j]),
{
}

/// The candle rows of a session are its complete candles: for every period, the rows that
/// were written down are the candles of the ticks so far, each once and in the order of
/// time, with the values of all ticks of their bucket, and all but the newest one, which is
/// still open. The clock must not go back.
pub proof fn law_complete_candles_are_written(
    kind: RecorderKind,
    msgs: Seq<MessageView>,
    stamps: Seq<u64>,
    i: int,
)
    requires
        stamps.len() == msgs.len(),
        never_back(stamps),
        0 <= i < periods_of(kind).len(),
    ensures
        ({
            let tf = periods_of(kind)[i];
            let lanes = session_lanes(kind, msgs, stamps);
            &&& lanes.len() == periods_of(kind).len()
            &&& lanes[i].tf == tf
            &&& crate::candle_agg::candles_over(lanes[i].candles, tf, session_ticks(msgs, stamps))
            &&& rows_of_period(session_candles(kind, msgs, stamps), tf) == completed(lanes[i].candles)
            &&& crate::candle_agg::in_order(rows_of_period(session_candles(kind, msgs, stamps), tf))
        }),
{
    lemma_session(kind, msgs, stamps, i);
}

proof fn lemma_session(kind: RecorderKind, msgs: Seq<MessageView>, stamps: Seq<u64>, i: int)
    requires
        stamps.len() == msgs.len(),
        never_back(stamps),
        0 <= i < periods_of(kind).len(),
    ensures
        ({
            let tf = periods_of(kind)[i];
            let lanes = session_lanes(kind, msgs, stamps);
            let ticks = session_ticks(msgs, stamps);
            &&& lanes.len() == periods_of(kind).len()
            &&& forall|j: int| 0 <= j < lanes.len() ==> (#[trigger] lanes[j]).tf == periods_of(kind)[j]
            &&& crate::candle_agg::candles_over(lanes[i].candles, tf, ticks)
            &&& rows_of_period(session_candles(kind, msgs, stamps), tf) == completed(lanes[i].candles)
            &&& crate::candle_agg::in_order(completed(lanes[i].candles))
            &&& ticks.len() > 0 ==> msgs.len() > 0 && ticks.last().ts <= stamps.last()
        }),
    decreases msgs.len(),
{
    lemma_periods(kind);
    if msgs.len() > 0 {
        let p = msgs.drop_last();
        let q = stamps.drop_last();
        assert(never_back(q)) by {
            assert forall|a: int, b: int| 0 <= a <= b < q.len() implies q[a] <= q[b] by {
                assert(stamps[a] <= stamps[b]);
            }
        }
        lemma_session(kind, p, q, i);
        let lanes = session_lanes(kind, p, q);
        let ticks = session_ticks(p, q);
        let book = session_book(msgs);
        let ts = stamps.last();
        let tf = periods_of(kind)[i];
        let rows = session_candles(kind, p, q);
        if ticks.len() > 0 {
            assert(stamps[q.len() - 1] <= stamps[q.len() as int]);
        }
        match crate::book::mid_of(book.bids, book.asks) {
            Some(mid) => {
                assert(periods_differ(lanes));
                lemma_lane_step(lanes[i], ticks, crate::candle_agg::Tick { ts, price: mid, volume: 0 });
                lemma_rows_of_both(rows, lane_notes(lanes, ts, mid), tf);
                lemma_rows_of_lane(lanes, ts, mid, i);
                assert(session_lanes(kind, msgs, stamps)[i] == lane_after(lanes[i], ts, mid));
                assert(rows_of_period(session_candles(kind, msgs, stamps), tf) =~= completed(
                    session_lanes(kind, msgs, stamps)[i].candles,
                ));
            },
            None => {
                lemma_rows_of_both(rows, Seq::empty(), tf);
                assert(session_candles(kind, msgs, stamps) =~= rows);
            },
        }
    }
}

/// A recorder that starts anew has an empty book and no candles.
pub proof fn law_a_new_session_starts_empty(kind: RecorderKind, i: int)
    requires
        0 <= i < periods_of(kind).len(),
    ensures
        session_book(Seq::empty()) == no_levels(),
        fresh_lanes(periods_of(kind))[i].candles.len() == 0,
{
}

/// A first snapshot forgets the book before it; an update changes a side only by its own
/// levels, and leaves a side that it does not name as it was.
pub proof fn law_sides_do_not_mix(b: BookView, c: BookView, bids: Seq<Quote>, asks: Seq<Quote>)
    ensures
        book_after(b, MessageView::Initial { bids, asks }) == book_after(c, MessageView::Initial { bids, asks }),
        book_after(b, MessageView::Initial { bids, asks }).bids == crate::book::initial(bids),
        book_after(b, MessageView::Initial { bids, asks }).asks == crate::book::initial(asks),
        book_after(b, MessageView::Update { bids: None, asks: None }) == b,
        book_after(b, MessageView::Update { bids: Some(bids), asks: None }) == (BookView {
            bids: crate::book::updated_all(b.bids, bids),
            asks: b.asks,
        }),
        book_after(b, MessageView::Update { bids: None, asks: Some(asks) }) == (BookView {
            bids: b.bids,
            asks: crate::book::updated_all(b.asks, asks),
        }),
        book_after(b, MessageView::Update { bids: Some(bids), asks: Some(asks) }) == (BookView {
            bids: crate::book::updated_all(b.bids, bids),
            asks: crate::book::updated_all(b.asks, asks),
        }),
{
}

/// Every level of a message is written down once, in its order, the bids first, with its side,
/// price and size, and with the kind of the message.
pub proof fn law_every_level_is_written(m: MessageView, i: int)
    ensures
        ({
            let n = notes_of(m);
            let (bids, asks, initial) = match m {
                MessageView::Initial { bids, asks } => (bids, asks, true),
                MessageView::Update { bids, asks } => (
                    match bids {
                        Some(b) => b,
                        None => Seq::empty(),
                    },
                    match asks {
                        Some(a) => a,
                        None => Seq::empty(),
                    },
                    false,
                ),
            };
            &&& n.len() == bids.len() + asks.len()
            &&& 0 <= i < bids.len() ==> n[i].bid && n[i].quote == bids[i] && n[i].initial == initial
            &&& bids.len() <= i < n.len() ==> !n[i].bid && n[i].quote == asks[i - bids.len()] && n[i].initial
                == initial
        }),
{
}

/// A row of the book log holds what the level says: its time, market, kind and side, its price
/// and its size.
pub proof fn law_rows_hold_their_level(n: BookNote, ts: u64, ticker: Seq<char>)
    ensures
        ({
            let r = n.row(ts, ticker);
            &&& r.ts == ts && r.ticker == ticker
            &&& r.price == n.quote.price && r.size == n.quote.size
            &&& n.bid ==> r.side == "bid"@
            &&& !n.bid ==> r.side == "ask"@
            &&& n.initial ==> r.kind == "book_init"@
            &&& !n.initial ==> r.kind == "delta"@
        }),
{
}

/// The rows of both recorders hold the same candle; the short one names its market behind the
/// time.
pub proof fn law_candle_rows_agree(n: CandleNote, ticker: Seq<char>, i: int)
    requires
        0 <= i < 7,
    ensures
        ({
            let full = candle_line_fields(RecorderKind::Full, ticker, n);
            let short = candle_line_fields(RecorderKind::Short, ticker, n);
            &&& full.len() == 7 && short.len() == 8
            &&& short[1] == ticker
            &&& i == 0 ==> short[0] == full[0]
            &&& i > 0 ==> short[i + 1] == full[i]
        }),
{
}

} // verus!
