//! The live feed: which market is asked for, the book that it makes, and what is said.

use crate::book::BookState;
use crate::recorder::{level_notes, BookNote, FeedMessage};
use crate::text::{cat, concat, views};
use vstd::prelude::*;

verus! {

/// What the feed says: with or without its mark in front.
#[derive(Clone, Copy, Debug, PartialEq, Eq, Structural)]
pub enum LiveStyle {
    Unmarked,
    Marked,
}

/// What the feed waits for.
#[derive(Debug)]
pub enum LiveState {
    Config,
    Asking { ticker: String },
    Open { ticker: String, book: BookState },
    Stopped,
}

/// What happened.
#[derive(Debug)]
pub enum LiveEvent {
    /// What the feed waits for is there.
    Ready,
    /// It failed.
    Failed { error: String },
    /// A message came; whether another market was selected since.
    Message { msg: FeedMessage, changed: bool },
    /// The feed ended.
    Ended,
}

/// What a step leads to: what is said, the levels to be written down for which market, and
/// the book to be shown.
#[derive(Debug)]
pub struct LiveOutput {
    pub line: Option<String>,
    pub levels: Vec<BookNote>,
    pub shown: Option<BookState>,
}

pub ghost enum LiveView {
    Config,
    Asking { ticker: Seq<char> },
    Open { ticker: Seq<char>, book: crate::recorder::BookView },
    Stopped,
}

pub ghost enum LiveEventView {
    Ready,
    Failed { error: Seq<char> },
    Message { msg: crate::recorder::MessageView, changed: bool },
    Ended,
}

pub open spec fn book_view(b: BookState) -> crate::recorder::BookView {
    crate::recorder::BookView { bids: b.bids@, asks: b.asks@ }
}

pub open spec fn shown_view(b: Option<BookState>) -> Option<crate::recorder::BookView> {
    match b {
        Some(b) => Some(book_view(b)),
        None => None,
    }
}

impl View for LiveState {
    type V = LiveView;

    open spec fn view(&self) -> LiveView {
        match self {
            LiveState::Config => LiveView::Config,
            LiveState::Asking { ticker } => LiveView::Asking { ticker: ticker@ },
            LiveState::Open { ticker, book } => LiveView::Open { ticker: ticker@, book: book_view(*book) },
            LiveState::Stopped => LiveView::Stopped,
        }
    }
}

impl View for LiveEvent {
    type V = LiveEventView;

    open spec fn view(&self) -> LiveEventView {
        match self {
            LiveEvent::Ready => LiveEventView::Ready,
            LiveEvent::Failed { error } => LiveEventView::Failed { error: error@ },
            LiveEvent::Message { msg, changed } => LiveEventView::Message { msg: msg@, changed: *changed },
            LiveEvent::Ended => LiveEventView::Ended,
        }
    }
}

impl LiveState {
    pub open spec fn wf(&self) -> bool {
        self matches LiveState::Open { ticker, book } ==> book.wf()
    }
}

/// The state after an event. A feed that is refused stops; one that ends, or whose market
/// is no longer the selected one, is asked for anew with an empty book. An event that does
/// not fit changes nothing.
pub open spec fn next_live(s: LiveView, e: LiveEventView, selected: Seq<char>) -> LiveView {
    match (s, e) {
        (LiveView::Config, LiveEventView::Ready) => LiveView::Asking { ticker: selected },
        (LiveView::Config, LiveEventView::Failed { error }) => LiveView::Stopped,
        (LiveView::Asking { ticker }, LiveEventView::Ready) => LiveView::Open {
            ticker,
            book: crate::recorder::no_levels(),
        },
        (LiveView::Asking { ticker }, LiveEventView::Failed { error }) => LiveView::Stopped,
        (LiveView::Open { ticker, book }, LiveEventView::Message { msg, changed }) => if changed {
            LiveView::Asking { ticker: selected }
        } else {
            LiveView::Open { ticker, book: crate::recorder::book_after(book, msg) }
        },
        (LiveView::Open { ticker, book }, LiveEventView::Ended) => LiveView::Asking { ticker: selected },
        _ => s,
    }
}

pub open spec fn asking_line(style: LiveStyle, ticker: Seq<char>) -> Seq<char> {
    match style {
        LiveStyle::Unmarked => concat(seq!["Subscribing live feed for "@, ticker]),
        LiveStyle::Marked => concat(seq!["[live] Subscribing orders feed for "@, ticker]),
    }
}

pub open spec fn refused_line(style: LiveStyle, ticker: Seq<char>, error: Seq<char>) -> Seq<char> {
    match style {
        LiveStyle::Unmarked => concat(seq!["orders feed error for "@, ticker, ": "@, error]),
        LiveStyle::Marked => concat(seq!["[live] orders feed error for "@, ticker, ": "@, error]),
    }
}

/// What the feed says about an event.
pub open spec fn said(style: LiveStyle, s: LiveView, e: LiveEventView, selected: Seq<char>) -> Option<Seq<char>> {
    match (s, e) {
        (LiveView::Config, LiveEventView::Failed { error }) => Some(
            concat(seq!["Failed to load testnet.toml: "@, error]),
        ),
        (LiveView::Asking { ticker }, LiveEventView::Failed { error }) => Some(
            refused_line(style, ticker, error),
        ),
        (LiveView::Config, LiveEventView::Ready) => Some(asking_line(style, selected)),
        (LiveView::Open { ticker, book }, LiveEventView::Message { msg, changed: true }) => Some(
            asking_line(style, selected),
        ),
        (LiveView::Open { ticker, book }, LiveEventView::Ended) => Some(asking_line(style, selected)),
        _ => None,
    }
}

/// The levels that an event has written down.
pub open spec fn written(s: LiveView, e: LiveEventView) -> Seq<BookNote> {
    match (s, e) {
        (LiveView::Open { ticker, book }, LiveEventView::Message { msg, changed }) => crate::recorder::notes_of(
            msg,
        ),
        _ => Seq::empty(),
    }
}

/// The book that an event has shown: every message shows the book that it leads to.
pub open spec fn shown(s: LiveView, e: LiveEventView) -> Option<crate::recorder::BookView> {
    match (s, e) {
        (LiveView::Open { ticker, book }, LiveEventView::Message { msg, changed }) => Some(
            crate::recorder::book_after(book, msg),
        ),
        _ => None,
    }
}

fn asking_text(style: LiveStyle, ticker: &str) -> (r: String)
    ensures
        r@ == asking_line(style, ticker@),
{
    let head: &str = match style {
        LiveStyle::Unmarked => "Subscribing live feed for ",
        LiveStyle::Marked => "[live] Subscribing orders feed for ",
    };
    let parts: Vec<&str> = vec![head, ticker];
    assert(views(parts@) =~= seq![head@, ticker@]);
    cat(&parts)
}

fn refused_text(style: LiveStyle, ticker: &str, error: &str) -> (r: String)
    ensures
        r@ == refused_line(style, ticker@, error@),
{
    let head: &str = match style {
        LiveStyle::Unmarked => "orders feed error for ",
        LiveStyle::Marked => "[live] orders feed error for ",
    };
    let parts: Vec<&str> = vec![head, ticker, ": ", error];
    assert(views(parts@) =~= seq![head@, ticker@, ": "@, error@]);
    cat(&parts)
}

fn quiet(line: Option<String>) -> (r: LiveOutput)
    ensures
        r.line == line,
        r.levels@ == Seq::<BookNote>::empty(),
        r.shown is None,
{
    LiveOutput { line, levels: Vec::new(), shown: None }
}

/// One step of the feed, with the market that is selected now.
pub fn live_step(style: LiveStyle, state: LiveState, event: LiveEvent, selected: &str) -> (r: (
    LiveState,
    LiveOutput,
))
    requires
        state.wf(),
    ensures
        r.0.wf(),
        r.0@ == next_live(state@, event@, selected@),
        crate::script_host::text_view(r.1.line) == said(style, state@, event@, selected@),
        r.1.levels@ == written(state@, event@),
        shown_view(r.1.shown) == shown(state@, event@),
        r.1.shown matches Some(b) ==> b.wf(),
{
    match (state, event) {
        (LiveState::Config, LiveEvent::Ready) => (
            LiveState::Asking { ticker: selected.to_owned() },
            quiet(Some(asking_text(style, selected))),
        ),
        (LiveState::Config, LiveEvent::Failed { error }) => {
            let parts: Vec<&str> = vec!["Failed to load testnet.toml: ", error.as_str()];
            assert(views(parts@) =~= seq!["Failed to load testnet.toml: "@, error@]);
            (LiveState::Stopped, quiet(Some(cat(&parts))))
        },
        (LiveState::Asking { ticker }, LiveEvent::Ready) => (
            LiveState::Open { ticker, book: BookState::new() },
            quiet(None),
        ),
        (LiveState::Asking { ticker }, LiveEvent::Failed { error }) => (
            LiveState::Stopped,
            quiet(Some(refused_text(style, ticker.as_str(), error.as_str()))),
        ),
        (LiveState::Open { ticker, book }, LiveEvent::Message { msg, changed }) => {
            let mut book = book;
            let levels: Vec<BookNote> = level_notes(&msg);
            match &msg {
                FeedMessage::Initial { bids, asks } => {
                    book.apply_initial(bids, asks);
                },
                FeedMessage::Update { bids, asks } => {
                    book.apply_update(bids, asks);
                },
            }
            let copy: BookState = book.copy();
            if changed {
                (
                    LiveState::Asking { ticker: selected.to_owned() },
                    LiveOutput {
                        line: Some(asking_text(style, selected)),
                        levels,
                        shown: Some(copy),
                    },
                )
            } else {
                (
                    LiveState::Open { ticker, book },
                    LiveOutput { line: None, levels, shown: Some(copy) },
                )
            }
        },
        (LiveState::Open { .. }, LiveEvent::Ended) => (
            LiveState::Asking { ticker: selected.to_owned() },
            quiet(Some(asking_text(style, selected))),
        ),
        (state, _) => (state, quiet(None)),
    }
}

// ---------------------------------------------------------------------------
// Laws

/// Whenever a feed is asked for, it is the one of the selected market, and its book starts
/// empty.
pub proof fn law_a_new_feed_starts_empty(s: LiveView, e: LiveEventView, selected: Seq<char>)
    requires
        s !is Asking,
        next_live(s, e, selected) is Asking,
    ensures
        next_live(next_live(s, e, selected), LiveEventView::Ready, selected) == (LiveView::Open {
            ticker: selected,
            book: crate::recorder::no_levels(),
        }),
{
}

/// While a feed is open its market stays the same, and the book that is shown is the one
/// that the feed keeps.
pub proof fn law_shown_book_is_kept(s: LiveView, msg: crate::recorder::MessageView, selected: Seq<char>)
    requires
        s is Open,
    ensures
        ({
            let e = LiveEventView::Message { msg, changed: false };
            &&& next_live(s, e, selected) is Open
            &&& next_live(s, e, selected)->Open_ticker == s->Open_ticker
            &&& shown(s, e) == Some(next_live(s, e, selected)->book)
        }),
{
}

/// What a message says is written down and shown, whether or not another market was selected
/// since; where one was, the feed of that market is asked for next.
pub proof fn law_messages_are_shown_and_written(
    ticker: Seq<char>,
    book: crate::recorder::BookView,
    msg: crate::recorder::MessageView,
    changed: bool,
    selected: Seq<char>,
)
    ensures
        ({
            let s = LiveView::Open { ticker, book };
            let e = LiveEventView::Message { msg, changed };
            &&& written(s, e) == crate::recorder::notes_of(msg)
            &&& shown(s, e) == Some(crate::recorder::book_after(book, msg))
            &&& changed ==> next_live(s, e, selected) == (LiveView::Asking { ticker: selected })
            &&& !changed ==> next_live(s, e, selected) == (LiveView::Open {
                ticker,
                book: crate::recorder::book_after(book, msg),
            })
        }),
{
}

/// Nothing but a message is written down or shown. A feed that is refused stops for good, and
/// one that ends is asked for again.
pub proof fn law_only_messages_are_shown(s: LiveView, e: LiveEventView, selected: Seq<char>)
    ensures
        written(s, e).len() > 0 || shown(s, e) is Some ==> s is Open && e is Message,
        s is Asking && e is Failed ==> next_live(s, e, selected) is Stopped,
        s is Config && e is Failed ==> next_live(s, e, selected) is Stopped,
        s is Config && e is Ready ==> next_live(s, e, selected) == (LiveView::Asking { ticker: selected }),
        s is Open && e is Ended ==> next_live(s, e, selected) == (LiveView::Asking { ticker: selected }),
        s is Stopped ==> next_live(s, e, selected) is Stopped,
{
}

/// The feed names the market that it asks for and the one that was refused, with the reason.
pub proof fn law_feeds_are_named(style: LiveStyle, ticker: Seq<char>, error: Seq<char>)
    ensures
        crate::text::holds_part(asking_line(style, ticker), ticker),
        crate::text::holds_part(refused_line(style, ticker, error), ticker),
        crate::text::holds_part(refused_line(style, ticker, error), error),
{
    crate::text::lemma_holds_part(seq!["Subscribing live feed for "@, ticker], 1);
    crate::text::lemma_holds_part(seq!["[live] Subscribing orders feed for "@, ticker], 1);
    let u = seq!["orders feed error for "@, ticker, ": "@, error];
    let m = seq!["[live] orders feed error for "@, ticker, ": "@, error];
    crate::text::lemma_holds_part(u, 1);
    crate::text::lemma_holds_part(u, 3);
    crate::text::lemma_holds_part(m, 1);
    crate::text::lemma_holds_part(m, 3);
}

} // verus!
