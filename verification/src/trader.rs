//! The trader: from the start-up to each order, what it does next and what it says.

use crate::amount::{fixed_text, short_text, Amount};
use crate::orders::{OrderSide, PanelCmd, TradeCmd, TradeKind, TradeNote};
use crate::text::{cat, concat, join_words, views};
use vstd::prelude::*;

verus! {

/// The price that guards a market order.
pub const GUARD_PRICE: u64 = 100;

/// For how many blocks an order is good.
pub const BLOCKS_AHEAD: u32 = 10;

/// The number that the trader gives its orders.
pub const CLIENT_ID: u32 = 123456;

/// How a trader takes its orders and what it says about them.
#[derive(Clone, Copy, Debug, PartialEq, Eq, Structural)]
pub enum TraderStyle {
    /// Orders with a price guard of their own.
    Guarded,
    /// Like `Guarded`, with the configuration beside the program's directory.
    Beside,
    /// Market orders alone.
    Bare,
    /// Market orders with leverage; limit orders are only noted.
    Levered,
    /// Market orders with leverage that leave no row in the trade log.
    Plain,
}

/// An order in the trader's hands. The price of a limit order is decimal text.
#[derive(Debug)]
pub struct Job {
    pub ticker: String,
    pub side: OrderSide,
    pub size: String,
    pub kind: TradeKind,
    pub limit_price: Amount,
    pub price: String,
    pub leverage: Amount,
}

/// What the trader waits for.
#[derive(Debug)]
pub enum TraderState {
    Config,
    Phrase,
    Wallet { phrase: String },
    Node,
    Account,
    Subaccount,
    Idle,
    Market { job: Job },
    Height { job: Job },
    Built { job: Job },
    Placing { job: Job },
    Stopped,
}

/// What happened.
#[derive(Debug)]
pub enum TraderEvent {
    /// What the trader waits for is there.
    Ready,
    /// It failed.
    Failed { error: String },
    /// The words of the wallet, as they were given.
    Phrase { raw: String },
    /// An order came.
    Order { job: Job },
    /// There will be no more orders.
    Closed,
    /// The order was placed.
    Placed { hash: String },
}

/// How an order is to be built.
#[derive(Clone, Copy, Debug, PartialEq, Eq, Structural)]
pub struct OrderTerms {
    pub reduce_only: bool,
    pub guard: Option<u64>,
    pub blocks_ahead: u32,
    pub client_id: u32,
}

/// What the trader does next.
#[derive(Debug)]
pub enum TraderAction {
    ReadConfig,
    ReadPhrase,
    OpenWallet { phrase: String },
    Connect,
    SyncAccount,
    DeriveSubaccount,
    AwaitOrder,
    FetchMarket { ticker: String },
    FetchHeight,
    Build { ticker: String, side: OrderSide, size: String, terms: OrderTerms },
    Place,
    Stop,
}

/// What a step leaves to be said and written down.
#[derive(Debug)]
pub struct TraderOutput {
    pub line: Option<String>,
    pub note: Option<TradeNote>,
}

pub ghost struct JobView {
    pub ticker: Seq<char>,
    pub side: OrderSide,
    pub size: Seq<char>,
    pub kind: TradeKind,
    pub limit_price: Amount,
    pub price: Seq<char>,
    pub leverage: Amount,
}

pub ghost enum StateView {
    Config,
    Phrase,
    Wallet { phrase: Seq<char> },
    Node,
    Account,
    Subaccount,
    Idle,
    Market { job: JobView },
    Height { job: JobView },
    Built { job: JobView },
    Placing { job: JobView },
    Stopped,
}

pub ghost enum EventView {
    Ready,
    Failed { error: Seq<char> },
    Phrase { raw: Seq<char> },
    Order { job: JobView },
    Closed,
    Placed { hash: Seq<char> },
}

pub ghost enum ActionView {
    ReadConfig,
    ReadPhrase,
    OpenWallet { phrase: Seq<char> },
    Connect,
    SyncAccount,
    DeriveSubaccount,
    AwaitOrder,
    FetchMarket { ticker: Seq<char> },
    FetchHeight,
    Build { ticker: Seq<char>, side: OrderSide, size: Seq<char>, terms: OrderTerms },
    Place,
    Stop,
}

impl View for Job {
    type V = JobView;

    open spec fn view(&self) -> JobView {
        JobView {
            ticker: self.ticker@,
            side: self.side,
            size: self.size@,
            kind: self.kind,
            limit_price: self.limit_price,
            price: self.price@,
            leverage: self.leverage,
        }
    }
}

impl View for TraderState {
    type V = StateView;

    open spec fn view(&self) -> StateView {
        match self {
            TraderState::Config => StateView::Config,
            TraderState::Phrase => StateView::Phrase,
            TraderState::Wallet { phrase } => StateView::Wallet { phrase: phrase@ },
            TraderState::Node => StateView::Node,
            TraderState::Account => StateView::Account,
            TraderState::Subaccount => StateView::Subaccount,
            TraderState::Idle => StateView::Idle,
            TraderState::Market { job } => StateView::Market { job: job@ },
            TraderState::Height { job } => StateView::Height { job: job@ },
            TraderState::Built { job } => StateView::Built { job: job@ },
            TraderState::Placing { job } => StateView::Placing { job: job@ },
            TraderState::Stopped => StateView::Stopped,
        }
    }
}

impl View for TraderEvent {
    type V = EventView;

    open spec fn view(&self) -> EventView {
        match self {
            TraderEvent::Ready => EventView::Ready,
            TraderEvent::Failed { error } => EventView::Failed { error: error@ },
            TraderEvent::Phrase { raw } => EventView::Phrase { raw: raw@ },
            TraderEvent::Order { job } => EventView::Order { job: job@ },
            TraderEvent::Closed => EventView::Closed,
            TraderEvent::Placed { hash } => EventView::Placed { hash: hash@ },
        }
    }
}

impl View for TraderAction {
    type V = ActionView;

    open spec fn view(&self) -> ActionView {
        match self {
            TraderAction::ReadConfig => ActionView::ReadConfig,
            TraderAction::ReadPhrase => ActionView::ReadPhrase,
            TraderAction::OpenWallet { phrase } => ActionView::OpenWallet { phrase: phrase@ },
            TraderAction::Connect => ActionView::Connect,
            TraderAction::SyncAccount => ActionView::SyncAccount,
            TraderAction::DeriveSubaccount => ActionView::DeriveSubaccount,
            TraderAction::AwaitOrder => ActionView::AwaitOrder,
            TraderAction::FetchMarket { ticker } => ActionView::FetchMarket { ticker: ticker@ },
            TraderAction::FetchHeight => ActionView::FetchHeight,
            TraderAction::Build { ticker, side, size, terms } => ActionView::Build {
                ticker: ticker@,
                side: *side,
                size: size@,
                terms: *terms,
            },
            TraderAction::Place => ActionView::Place,
            TraderAction::Stop => ActionView::Stop,
        }
    }
}

/// Whether an order is only noted.
pub open spec fn only_noted(style: TraderStyle, job: JobView) -> bool {
    style is Levered && job.kind is Limit
}

/// What the trader waits for next. A failure during the start-up stops it; a failure with
/// an order ends this order; an event that does not fit changes nothing.
pub open spec fn next_state(style: TraderStyle, s: StateView, e: EventView) -> StateView {
    match (s, e) {
        (StateView::Config, EventView::Ready) => StateView::Phrase,
        (StateView::Phrase, EventView::Phrase { raw }) => StateView::Wallet {
            phrase: crate::text::join(crate::text::words(raw), ' '),
        },
        (StateView::Wallet { phrase }, EventView::Ready) => StateView::Node,
        (StateView::Node, EventView::Ready) => StateView::Account,
        (StateView::Account, EventView::Ready) => StateView::Subaccount,
        (StateView::Subaccount, EventView::Ready) => StateView::Idle,
        (StateView::Config, EventView::Failed { error }) => StateView::Stopped,
        (StateView::Phrase, EventView::Failed { error }) => StateView::Stopped,
        (StateView::Wallet { phrase }, EventView::Failed { error }) => StateView::Stopped,
        (StateView::Node, EventView::Failed { error }) => StateView::Stopped,
        (StateView::Account, EventView::Failed { error }) => StateView::Stopped,
        (StateView::Subaccount, EventView::Failed { error }) => StateView::Stopped,
        (StateView::Idle, EventView::Order { job }) => if only_noted(style, job) {
            StateView::Idle
        } else {
            StateView::Market { job }
        },
        (StateView::Idle, EventView::Closed) => StateView::Stopped,
        (StateView::Market { job }, EventView::Ready) => StateView::Height { job },
        (StateView::Height { job }, EventView::Ready) => StateView::Built { job },
        (StateView::Built { job }, EventView::Ready) => StateView::Placing { job },
        (StateView::Placing { job }, EventView::Placed { hash }) => StateView::Idle,
        (StateView::Market { job }, EventView::Failed { error }) => StateView::Idle,
        (StateView::Height { job }, EventView::Failed { error }) => StateView::Idle,
        (StateView::Built { job }, EventView::Failed { error }) => StateView::Idle,
        (StateView::Placing { job }, EventView::Failed { error }) => StateView::Idle,
        _ => s,
    }
}

/// The price that guards an order: the guarded traders set one where the order has a limit
/// price, the others always.
pub open spec fn guard_of(style: TraderStyle, job: JobView) -> Option<u64> {
    match style {
        TraderStyle::Guarded | TraderStyle::Beside => if job.limit_price > 0 {
            Some(GUARD_PRICE)
        } else {
            None
        },
        _ => Some(GUARD_PRICE),
    }
}

pub open spec fn terms_of(style: TraderStyle, job: JobView) -> OrderTerms {
    OrderTerms {
        reduce_only: false,
        guard: guard_of(style, job),
        blocks_ahead: BLOCKS_AHEAD,
        client_id: CLIENT_ID,
    }
}

/// What the trader does in a state.
pub open spec fn action_in(style: TraderStyle, s: StateView) -> ActionView {
    match s {
        StateView::Config => ActionView::ReadConfig,
        StateView::Phrase => ActionView::ReadPhrase,
        StateView::Wallet { phrase } => ActionView::OpenWallet { phrase },
        StateView::Node => ActionView::Connect,
        StateView::Account => ActionView::SyncAccount,
        StateView::Subaccount => ActionView::DeriveSubaccount,
        StateView::Idle => ActionView::AwaitOrder,
        StateView::Market { job } => ActionView::FetchMarket { ticker: job.ticker },
        StateView::Height { job } => ActionView::FetchHeight,
        StateView::Built { job } => ActionView::Build {
            ticker: job.ticker,
            side: job.side,
            size: job.size,
            terms: terms_of(style, job),
        },
        StateView::Placing { job } => ActionView::Place,
        StateView::Stopped => ActionView::Stop,
    }
}

pub open spec fn config_error(style: TraderStyle) -> Seq<char> {
    match style {
        TraderStyle::Guarded => "[trader] failed to load testnet.toml: "@,
        TraderStyle::Beside => "[trader] failed to load ../client/tests/testnet.toml: "@,
        _ => "[trader] Failed to load testnet.toml: "@,
    }
}

/// What is said about an order when it comes.
pub open spec fn order_line(style: TraderStyle, job: JobView) -> Seq<char> {
    match style {
        TraderStyle::Guarded | TraderStyle::Beside => concat(
            seq![
                "[trader] "@,
                job.kind.text(),
                " "@,
                job.side.text(),
                " "@,
                job.ticker,
                " size "@,
                job.size,
                " (limit guard: "@,
                crate::amount::short(job.limit_price as int),
                ")"@,
            ],
        ),
        TraderStyle::Bare => concat(
            seq!["[trader] market "@, job.side.text(), " "@, job.ticker, " size "@, job.size],
        ),
        TraderStyle::Plain => concat(
            seq![
                "[trader] market "@,
                job.side.text(),
                " "@,
                job.ticker,
                " size "@,
                job.size,
                " lev "@,
                crate::amount::short(job.leverage as int),
            ],
        ),
        TraderStyle::Levered => match job.kind {
            TradeKind::Market => concat(
                seq![
                    "[trader] MARKET "@,
                    job.side.text(),
                    " "@,
                    job.ticker,
                    " size "@,
                    job.size,
                    " lev "@,
                    crate::amount::fixed(job.leverage as int, 1),
                    "x"@,
                ],
            ),
            TradeKind::Limit => concat(
                seq![
                    "[trader] LIMIT (placeholder) "@,
                    job.side.text(),
                    " "@,
                    job.ticker,
                    " size "@,
                    job.size,
                    " price "@,
                    job.price,
                    " lev "@,
                    crate::amount::fixed(job.leverage as int, 1),
                    "x"@,
                ],
            ),
        },
    }
}

/// What is said about an order that was placed.
pub open spec fn placed_line(style: TraderStyle, job: JobView, hash: Seq<char>) -> Seq<char> {
    match style {
        TraderStyle::Levered => concat(
            seq![
                "[trader] placed MARKET "@,
                job.side.text(),
                " "@,
                job.ticker,
                " size "@,
                job.size,
                " lev "@,
                crate::amount::fixed(job.leverage as int, 1),
                "x tx="@,
                hash,
            ],
        ),
        TraderStyle::Plain => concat(
            seq![
                "[trader] placed "@,
                job.side.text(),
                " "@,
                job.ticker,
                " size "@,
                job.size,
                " lev "@,
                crate::amount::short(job.leverage as int),
                " tx="@,
                hash,
            ],
        ),
        _ => concat(
            seq![
                "[trader] placed "@,
                job.side.text(),
                " "@,
                job.ticker,
                " size "@,
                job.size,
                " tx="@,
                hash,
            ],
        ),
    }
}

/// What the trader says about an event.
pub open spec fn said(style: TraderStyle, s: StateView, e: EventView) -> Option<Seq<char>> {
    match (s, e) {
        (StateView::Config, EventView::Failed { error }) => Some(
            concat(seq![config_error(style), error]),
        ),
        (StateView::Phrase, EventView::Failed { error }) => Some(
            "[trader] DYDX_TESTNET_MNEMONIC not set; trading disabled"@,
        ),
        (StateView::Wallet { phrase }, EventView::Failed { error }) => Some(
            concat(seq!["[trader] invalid mnemonic: "@, error]),
        ),
        (StateView::Node, EventView::Failed { error }) => Some(
            concat(seq!["[trader] node connect failed: "@, error]),
        ),
        (StateView::Account, EventView::Failed { error }) => Some(
            concat(seq!["[trader] account sync failed: "@, error]),
        ),
        (StateView::Subaccount, EventView::Failed { error }) => Some(
            concat(seq!["[trader] subaccount derive failed: "@, error]),
        ),
        (StateView::Idle, EventView::Order { job }) => Some(order_line(style, job)),
        (StateView::Market { job }, EventView::Failed { error }) => Some(
            concat(seq!["[trader] market meta error for "@, job.ticker, ": "@, error]),
        ),
        (StateView::Height { job }, EventView::Failed { error }) => Some(
            concat(seq!["[trader] height error: "@, error]),
        ),
        (StateView::Built { job }, EventView::Failed { error }) => Some(
            concat(seq!["[trader] build order error: "@, error]),
        ),
        (StateView::Placing { job }, EventView::Failed { error }) => Some(
            concat(seq!["[trader] place_order error: "@, error]),
        ),
        (StateView::Placing { job }, EventView::Placed { hash }) => Some(placed_line(style, job, hash)),
        _ => None,
    }
}

/// Where a placed order is said to come from in the trade log.
pub open spec fn source_of(style: TraderStyle) -> Option<Seq<char>> {
    match style {
        TraderStyle::Guarded | TraderStyle::Beside => Some("trader"@),
        TraderStyle::Bare => Some("gui_live"@),
        TraderStyle::Levered => Some("gui_live_market"@),
        TraderStyle::Plain => None,
    }
}

/// The row that an event leaves in the trade log: a placed order leaves one, and an order
/// that is only noted.
pub open spec fn noted(style: TraderStyle, s: StateView, e: EventView) -> Option<crate::orders::NoteView> {
    match (s, e) {
        (StateView::Placing { job }, EventView::Placed { hash }) => match source_of(style) {
            Some(source) => Some(
                crate::orders::NoteView { source, side: job.side.text(), size_str: job.size },
            ),
            None => None,
        },
        (StateView::Idle, EventView::Order { job }) => if only_noted(style, job) {
            Some(
                crate::orders::NoteView {
                    source: "gui_live_limit_placeholder"@,
                    side: job.side.text(),
                    size_str: concat(seq!["size="@, job.size, "@"@, job.price]),
                },
            )
        } else {
            None
        },
        _ => None,
    }
}

/// The order in the trader's hands.
pub open spec fn job_of(s: StateView) -> Option<JobView> {
    match s {
        StateView::Market { job } => Some(job),
        StateView::Height { job } => Some(job),
        StateView::Built { job } => Some(job),
        StateView::Placing { job } => Some(job),
        _ => None,
    }
}

/// The market whose log holds the row of an event: that of the order which comes, or of the
/// one in the trader's hands.
pub open spec fn noted_market(s: StateView, e: EventView) -> Option<Seq<char>> {
    match (s, e) {
        (StateView::Idle, EventView::Order { job }) => Some(job.ticker),
        _ => match job_of(s) {
            Some(job) => Some(job.ticker),
            None => None,
        },
    }
}

/// The order of the guarded panels in the trader's hands.
pub open spec fn job_of_trade(o: crate::orders::OrderView) -> JobView {
    JobView {
        ticker: o.ticker,
        side: o.side,
        size: o.size,
        kind: o.kind,
        limit_price: o.limit_price,
        price: ""@,
        leverage: o.leverage,
    }
}

/// The order of the two-kind panel in the trader's hands.
pub open spec fn job_of_panel(o: crate::orders::PanelView) -> JobView {
    JobView {
        ticker: o.ticker,
        side: o.side,
        size: o.size,
        kind: if o.price is Some {
            TradeKind::Limit
        } else {
            TradeKind::Market
        },
        limit_price: 0,
        price: match o.price {
            Some(p) => p,
            None => ""@,
        },
        leverage: o.leverage,
    }
}

impl Job {
    /// An order of the guarded panels.
    pub fn from_trade(cmd: TradeCmd) -> (r: Self)
        ensures
            r@ == (JobView {
                ticker: cmd@.ticker,
                side: cmd@.side,
                size: cmd@.size,
                kind: cmd@.kind,
                limit_price: cmd@.limit_price,
                price: ""@,
                leverage: cmd@.leverage,
            }),
            r@ == job_of_trade(cmd@),
    {
        Job {
            ticker: cmd.ticker,
            side: cmd.side,
            size: cmd.size,
            kind: cmd.kind,
            limit_price: cmd.limit_price,
            price: "".to_owned(),
            leverage: cmd.leverage,
        }
    }

    /// An order of the two-kind panel.
    pub fn from_panel(cmd: PanelCmd) -> (r: Self)
        ensures
            r@ == (JobView {
                ticker: cmd@.ticker,
                side: cmd@.side,
                size: cmd@.size,
                kind: if cmd@.price is Some {
                    TradeKind::Limit
                } else {
                    TradeKind::Market
                },
                limit_price: 0,
                price: match cmd@.price {
                    Some(p) => p,
                    None => ""@,
                },
                leverage: cmd@.leverage,
            }),
            r@ == job_of_panel(cmd@),
    {
        match cmd {
            PanelCmd::MarketOrder { ticker, side, size, leverage } => Job {
                ticker,
                side,
                size,
                kind: TradeKind::Market,
                limit_price: 0,
                price: "".to_owned(),
                leverage,
            },
            PanelCmd::LimitOrder { ticker, side, size, price, leverage } => Job {
                ticker,
                side,
                size,
                kind: TradeKind::Limit,
                limit_price: 0,
                price,
                leverage,
            },
        }
    }
}

fn two(a: &str, b: &str) -> (r: String)
    ensures
        r@ == concat(seq![a@, b@]),
{
    let parts: Vec<&str> = vec![a, b];
    assert(views(parts@) =~= seq![a@, b@]);
    cat(&parts)
}

fn order_text(style: TraderStyle, job: &Job) -> (r: String)
    ensures
        r@ == order_line(style, job@),
{
    let side: &str = job.side.as_str();
    match style {
        TraderStyle::Guarded | TraderStyle::Beside => {
            let price: String = short_text(job.limit_price);
            let kind: &str = job.kind.as_str();
            let parts: Vec<&str> = vec![
                "[trader] ",
                kind,
                " ",
                side,
                " ",
                job.ticker.as_str(),
                " size ",
                job.size.as_str(),
                " (limit guard: ",
                price.as_str(),
                ")",
            ];
            assert(views(parts@) =~= seq![
                "[trader] "@,
                kind@,
                " "@,
                side@,
                " "@,
                job.ticker@,
                " size "@,
                job.size@,
                " (limit guard: "@,
                price@,
                ")"@,
            ]);
            cat(&parts)
        },
        TraderStyle::Bare => {
            let parts: Vec<&str> = vec![
                "[trader] market ",
                side,
                " ",
                job.ticker.as_str(),
                " size ",
                job.size.as_str(),
            ];
            assert(views(parts@) =~= seq!["[trader] market "@, side@, " "@, job.ticker@, " size "@, job.size@]);
            cat(&parts)
        },
        TraderStyle::Plain => {
            let leverage: String = short_text(job.leverage);
            let parts: Vec<&str> = vec![
                "[trader] market ",
                side,
                " ",
                job.ticker.as_str(),
                " size ",
                job.size.as_str(),
                " lev ",
                leverage.as_str(),
            ];
            assert(views(parts@) =~= seq![
                "[trader] market "@,
                side@,
                " "@,
                job.ticker@,
                " size "@,
                job.size@,
                " lev "@,
                leverage@,
            ]);
            cat(&parts)
        },
        TraderStyle::Levered => {
            let leverage: String = fixed_text(job.leverage, 1);
            match job.kind {
                TradeKind::Market => {
                    let parts: Vec<&str> = vec![
                        "[trader] MARKET ",
                        side,
                        " ",
                        job.ticker.as_str(),
                        " size ",
                        job.size.as_str(),
                        " lev ",
                        leverage.as_str(),
                        "x",
                    ];
                    assert(views(parts@) =~= seq![
                        "[trader] MARKET "@,
                        side@,
                        " "@,
                        job.ticker@,
                        " size "@,
                        job.size@,
                        " lev "@,
                        leverage@,
                        "x"@,
                    ]);
                    cat(&parts)
                },
                TradeKind::Limit => {
                    let parts: Vec<&str> = vec![
                        "[trader] LIMIT (placeholder) ",
                        side,
                        " ",
                        job.ticker.as_str(),
                        " size ",
                        job.size.as_str(),
                        " price ",
                        job.price.as_str(),
                        " lev ",
                        leverage.as_str(),
                        "x",
                    ];
                    assert(views(parts@) =~= seq![
                        "[trader] LIMIT (placeholder) "@,
                        side@,
                        " "@,
                        job.ticker@,
                        " size "@,
                        job.size@,
                        " price "@,
                        job.price@,
                        " lev "@,
                        leverage@,
                        "x"@,
                    ]);
                    cat(&parts)
                },
            }
        },
    }
}

fn placed_text(style: TraderStyle, job: &Job, hash: &str) -> (r: String)
    ensures
        r@ == placed_line(style, job@, hash@),
{
    let side: &str = job.side.as_str();
    match style {
        TraderStyle::Levered => {
            let leverage: String = fixed_text(job.leverage, 1);
            let parts: Vec<&str> = vec![
                "[trader] placed MARKET ",
                side,
                " ",
                job.ticker.as_str(),
                " size ",
                job.size.as_str(),
                " lev ",
                leverage.as_str(),
                "x tx=",
                hash,
            ];
            assert(views(parts@) =~= seq![
                "[trader] placed MARKET "@,
                side@,
                " "@,
                job.ticker@,
                " size "@,
                job.size@,
                " lev "@,
                leverage@,
                "x tx="@,
                hash@,
            ]);
            cat(&parts)
        },
        TraderStyle::Plain => {
            let leverage: String = short_text(job.leverage);
            let parts: Vec<&str> = vec![
                "[trader] placed ",
                side,
                " ",
                job.ticker.as_str(),
                " size ",
                job.size.as_str(),
                " lev ",
                leverage.as_str(),
                " tx=",
                hash,
            ];
            assert(views(parts@) =~= seq![
                "[trader] placed "@,
                side@,
                " "@,
                job.ticker@,
                " size "@,
                job.size@,
                " lev "@,
                leverage@,
                " tx="@,
                hash@,
            ]);
            cat(&parts)
        },
        _ => {
            let parts: Vec<&str> = vec![
                "[trader] placed ",
                side,
                " ",
                job.ticker.as_str(),
                " size ",
                job.size.as_str(),
                " tx=",
                hash,
            ];
            assert(views(parts@) =~= seq![
                "[trader] placed "@,
                side@,
                " "@,
                job.ticker@,
                " size "@,
                job.size@,
                " tx="@,
                hash@,
            ]);
            cat(&parts)
        },
    }
}

/// What the trader says about an event.
pub fn line_for(style: TraderStyle, state: &TraderState, event: &TraderEvent) -> (r: Option<String>)
    ensures
        crate::script_host::text_view(r) == said(style, state@, event@),
{
    match (state, event) {
        (TraderState::Config, TraderEvent::Failed { error }) => {
            let head: &str = match style {
                TraderStyle::Guarded => "[trader] failed to load testnet.toml: ",
                TraderStyle::Beside => "[trader] failed to load ../client/tests/testnet.toml: ",
                _ => "[trader] Failed to load testnet.toml: ",
            };
            Some(two(head, error.as_str()))
        },
        (TraderState::Phrase, TraderEvent::Failed { .. }) => Some(
            "[trader] DYDX_TESTNET_MNEMONIC not set; trading disabled".to_owned(),
        ),
        (TraderState::Wallet { .. }, TraderEvent::Failed { error }) => Some(
            two("[trader] invalid mnemonic: ", error.as_str()),
        ),
        (TraderState::Node, TraderEvent::Failed { error }) => Some(
            two("[trader] node connect failed: ", error.as_str()),
        ),
        (TraderState::Account, TraderEvent::Failed { error }) => Some(
            two("[trader] account sync failed: ", error.as_str()),
        ),
        (TraderState::Subaccount, TraderEvent::Failed { error }) => Some(
            two("[trader] subaccount derive failed: ", error.as_str()),
        ),
        (TraderState::Idle, TraderEvent::Order { job }) => Some(order_text(style, job)),
        (TraderState::Market { job }, TraderEvent::Failed { error }) => {
            let parts: Vec<&str> = vec![
                "[trader] market meta error for ",
                job.ticker.as_str(),
                ": ",
                error.as_str(),
            ];
            assert(views(parts@) =~= seq!["[trader] market meta error for "@, job.ticker@, ": "@, error@]);
            Some(cat(&parts))
        },
        (TraderState::Height { .. }, TraderEvent::Failed { error }) => Some(
            two("[trader] height error: ", error.as_str()),
        ),
        (TraderState::Built { .. }, TraderEvent::Failed { error }) => Some(
            two("[trader] build order error: ", error.as_str()),
        ),
        (TraderState::Placing { .. }, TraderEvent::Failed { error }) => Some(
            two("[trader] place_order error: ", error.as_str()),
        ),
        (TraderState::Placing { job }, TraderEvent::Placed { hash }) => Some(
            placed_text(style, job, hash.as_str()),
        ),
        _ => None,
    }
}

/// The row that an event leaves in the trade log.
pub fn note_for(style: TraderStyle, state: &TraderState, event: &TraderEvent) -> (r: Option<TradeNote>)
    ensures
        crate::orders::note_view(r) == noted(style, state@, event@),
{
    match (state, event) {
        (TraderState::Placing { job }, TraderEvent::Placed { .. }) => {
            let source: &str = match style {
                TraderStyle::Guarded | TraderStyle::Beside => "trader",
                TraderStyle::Bare => "gui_live",
                TraderStyle::Levered => "gui_live_market",
                TraderStyle::Plain => {
                    return None;
                },
            };
            Some(
                TradeNote {
                    source: source.to_owned(),
                    side: job.side.as_str().to_owned(),
                    size_str: job.size.clone(),
                },
            )
        },
        (TraderState::Idle, TraderEvent::Order { job }) => match (style, job.kind) {
            (TraderStyle::Levered, TradeKind::Limit) => {
                let parts: Vec<&str> = vec!["size=", job.size.as_str(), "@", job.price.as_str()];
                assert(views(parts@) =~= seq!["size="@, job.size@, "@"@, job.price@]);
                Some(
                    TradeNote {
                        source: "gui_live_limit_placeholder".to_owned(),
                        side: job.side.as_str().to_owned(),
                        size_str: cat(&parts),
                    },
                )
            },
            _ => None,
        },
        _ => None,
    }
}

/// The market whose log holds the row of an event.
pub fn ticker_in(state: &TraderState, event: &TraderEvent) -> (r: Option<String>)
    ensures
        crate::script_host::text_view(r) == noted_market(state@, event@),
{
    match (state, event) {
        (TraderState::Idle, TraderEvent::Order { job }) => Some(job.ticker.clone()),
        _ => match state {
            TraderState::Market { job } | TraderState::Height { job } | TraderState::Built { job }
            | TraderState::Placing { job } => Some(job.ticker.clone()),
            _ => None,
        },
    }
}

/// What the trader does in a state.
pub fn action_for(style: TraderStyle, state: &TraderState) -> (r: TraderAction)
    ensures
        r@ == action_in(style, state@),
{
    match state {
        TraderState::Config => TraderAction::ReadConfig,
        TraderState::Phrase => TraderAction::ReadPhrase,
        TraderState::Wallet { phrase } => TraderAction::OpenWallet { phrase: phrase.clone() },
        TraderState::Node => TraderAction::Connect,
        TraderState::Account => TraderAction::SyncAccount,
        TraderState::Subaccount => TraderAction::DeriveSubaccount,
        TraderState::Idle => TraderAction::AwaitOrder,
        TraderState::Market { job } => TraderAction::FetchMarket { ticker: job.ticker.clone() },
        TraderState::Height { .. } => TraderAction::FetchHeight,
        TraderState::Built { job } => {
            let guard: Option<u64> = match style {
                TraderStyle::Guarded | TraderStyle::Beside => if job.limit_price > 0 {
                    Some(GUARD_PRICE)
                } else {
                    None
                },
                _ => Some(GUARD_PRICE),
            };
            TraderAction::Build {
                ticker: job.ticker.clone(),
                side: job.side,
                size: job.size.clone(),
                terms: OrderTerms {
                    reduce_only: false,
                    guard,
                    blocks_ahead: BLOCKS_AHEAD,
                    client_id: CLIENT_ID,
                },
            }
        },
        TraderState::Placing { .. } => TraderAction::Place,
        TraderState::Stopped => TraderAction::Stop,
    }
}

/// The state after an event.
fn advance(style: TraderStyle, state: TraderState, event: TraderEvent) -> (r: TraderState)
    ensures
        r@ == next_state(style, state@, event@),
{
    match (state, event) {
        (TraderState::Config, TraderEvent::Ready) => TraderState::Phrase,
        (TraderState::Phrase, TraderEvent::Phrase { raw }) => TraderState::Wallet {
            phrase: join_words(raw.as_str()),
        },
        (TraderState::Wallet { .. }, TraderEvent::Ready) => TraderState::Node,
        (TraderState::Node, TraderEvent::Ready) => TraderState::Account,
        (TraderState::Account, TraderEvent::Ready) => TraderState::Subaccount,
        (TraderState::Subaccount, TraderEvent::Ready) => TraderState::Idle,
        (TraderState::Config, TraderEvent::Failed { .. }) => TraderState::Stopped,
        (TraderState::Phrase, TraderEvent::Failed { .. }) => TraderState::Stopped,
        (TraderState::Wallet { .. }, TraderEvent::Failed { .. }) => TraderState::Stopped,
        (TraderState::Node, TraderEvent::Failed { .. }) => TraderState::Stopped,
        (TraderState::Account, TraderEvent::Failed { .. }) => TraderState::Stopped,
        (TraderState::Subaccount, TraderEvent::Failed { .. }) => TraderState::Stopped,
        (TraderState::Idle, TraderEvent::Order { job }) => match (style, job.kind) {
            (TraderStyle::Levered, TradeKind::Limit) => TraderState::Idle,
            _ => TraderState::Market { job },
        },
        (TraderState::Idle, TraderEvent::Closed) => TraderState::Stopped,
        (TraderState::Market { job }, TraderEvent::Ready) => TraderState::Height { job },
        (TraderState::Height { job }, TraderEvent::Ready) => TraderState::Built { job },
        (TraderState::Built { job }, TraderEvent::Ready) => TraderState::Placing { job },
        (TraderState::Placing { .. }, TraderEvent::Placed { .. }) => TraderState::Idle,
        (TraderState::Market { .. }, TraderEvent::Failed { .. }) => TraderState::Idle,
        (TraderState::Height { .. }, TraderEvent::Failed { .. }) => TraderState::Idle,
        (TraderState::Built { .. }, TraderEvent::Failed { .. }) => TraderState::Idle,
        (TraderState::Placing { .. }, TraderEvent::Failed { .. }) => TraderState::Idle,
        (state, _) => state,
    }
}

/// One step of the trader.
pub fn step(style: TraderStyle, state: TraderState, event: TraderEvent) -> (r: (TraderState, TraderOutput))
    ensures
        r.0@ == next_state(style, state@, event@),
        crate::script_host::text_view(r.1.line) == said(style, state@, event@),
        crate::orders::note_view(r.1.note) == noted(style, state@, event@),
{
    let line = line_for(style, &state, &event);
    let note = note_for(style, &state, &event);
    (advance(style, state, event), TraderOutput { line, note })
}

// ---------------------------------------------------------------------------
// Laws

/// The state after a run of events.
pub open spec fn run(style: TraderStyle, s: StateView, events: Seq<EventView>) -> StateView
    decreases events.len(),
{
    if events.len() == 0 {
        s
    } else {
        next_state(style, run(style, s, events.drop_last()), events.last())
    }
}

/// A trader that stopped stays stopped, says nothing and writes nothing down.
pub proof fn law_a_stopped_trader_stays_so(style: TraderStyle, events: Seq<EventView>, e: EventView)
    ensures
        run(style, StateView::Stopped, events) == StateView::Stopped,
        said(style, StateView::Stopped, e) is None,
        noted(style, StateView::Stopped, e) is None,
    decreases events.len(),
{
    if events.len() > 0 {
        law_a_stopped_trader_stays_so(style, events.drop_last(), e);
    }
}

/// While an order is in the trader's hands, no event changes it: the trader keeps it,
/// or is done with it and waits for the next one.
pub proof fn law_orders_are_not_mixed_up(style: TraderStyle, s: StateView, e: EventView)
    requires
        job_of(s) is Some,
    ensures
        job_of(next_state(style, s, e)) == job_of(s) || next_state(style, s, e) == StateView::Idle,
{
}

/// An order that meets no failure goes through market, height, building and placing, in
/// this order, and is then written down as the style says, in the log of its market.
pub proof fn law_an_order_goes_through(style: TraderStyle, job: JobView, hash: Seq<char>)
    requires
        !only_noted(style, job),
    ensures
        ({
            let s1 = next_state(style, StateView::Idle, EventView::Order { job });
            let s2 = next_state(style, s1, EventView::Ready);
            let s3 = next_state(style, s2, EventView::Ready);
            let s4 = next_state(style, s3, EventView::Ready);
            let placed = EventView::Placed { hash };
            &&& action_in(style, s1) == (ActionView::FetchMarket { ticker: job.ticker })
            &&& action_in(style, s2) == ActionView::FetchHeight
            &&& action_in(style, s3) is Build
            &&& action_in(style, s4) == ActionView::Place
            &&& next_state(style, s4, placed) == StateView::Idle
            &&& noted(style, s4, placed) is Some == (source_of(style) is Some)
            &&& noted_market(s4, placed) == Some(job.ticker)
        }),
{
}

/// Every row that the trader leaves belongs to the log of a market: that of its order.
pub proof fn law_rows_belong_to_a_market(style: TraderStyle, s: StateView, e: EventView)
    requires
        noted(style, s, e) is Some,
    ensures
        noted_market(s, e) is Some,
        job_of(s) matches Some(job) ==> noted_market(s, e) == Some(job.ticker),
        e matches EventView::Order { job } ==> noted_market(s, e) == Some(job.ticker),
{
}

/// A failure with an order leaves no row in the trade log, is said, and the trader waits
/// for the next order.
pub proof fn law_a_failed_order_is_not_recorded(style: TraderStyle, s: StateView, error: Seq<char>)
    requires
        job_of(s) is Some,
    ensures
        noted(style, s, EventView::Failed { error }) is None,
        said(style, s, EventView::Failed { error }) is Some,
        next_state(style, s, EventView::Failed { error }) == StateView::Idle,
{
}

/// Before the start-up is done no order is taken.
pub proof fn law_no_order_before_the_start(style: TraderStyle, s: StateView, job: JobView)
    requires
        job_of(s) is None,
        s != StateView::Idle,
    ensures
        next_state(style, s, EventView::Order { job }) == s,
{
}

/// The state of a trader after an order came and two replies to it.
pub open spec fn at_building(style: TraderStyle, job: JobView) -> StateView {
    next_state(
        style,
        next_state(
            style,
            next_state(style, StateView::Idle, EventView::Order { job }),
            EventView::Ready,
        ),
        EventView::Ready,
    )
}

/// An order is built for the market, with the side and of the size that it came with; it is
/// never reduce-only, and the same side and size stand in the row of the trade log. Only a
/// limit order of the two-kind trader is not built.
pub proof fn law_orders_are_built_as_they_came(style: TraderStyle, job: JobView, hash: Seq<char>)
    requires
        !(style is Levered && job.kind is Limit),
    ensures
        ({
            let s = at_building(style, job);
            let placing = next_state(style, s, EventView::Ready);
            let row = noted(style, placing, EventView::Placed { hash });
            &&& action_in(style, s) matches ActionView::Build { ticker, side, size, terms } && {
                &&& ticker == job.ticker
                &&& side == job.side
                &&& size == job.size
                &&& !terms.reduce_only
                &&& terms.blocks_ahead == 10
                &&& (style is Guarded || style is Beside) ==> (terms.guard is Some <==> job.limit_price > 0)
                &&& !(style is Guarded || style is Beside) ==> terms.guard is Some
                &&& terms.guard matches Some(g) ==> g == 100
            }
            &&& row matches Some(n) ==> n.side == job.side.text() && n.size_str == job.size
            &&& row is None <==> style is Plain
            &&& noted_market(placing, EventView::Placed { hash }) == Some(job.ticker)
        }),
{
}

/// Two orders that differ in their side are built and written down with different sides.
pub proof fn law_buys_and_sells_stay_apart(style: TraderStyle, job: JobView, hash: Seq<char>)
    requires
        !(style is Levered && job.kind is Limit),
    ensures
        ({
            let buy = at_building(style, JobView { side: OrderSide::Buy, ..job });
            let sell = at_building(style, JobView { side: OrderSide::Sell, ..job });
            let placed = EventView::Placed { hash };
            &&& action_in(style, buy) != action_in(style, sell)
            &&& !(style is Plain) ==> noted(style, next_state(style, buy, EventView::Ready), placed) != noted(
                style,
                next_state(style, sell, EventView::Ready),
                placed,
            )
        }),
{
    reveal_strlit("Buy");
    reveal_strlit("Sell");
    assert("Buy"@.len() != "Sell"@.len());
    let b = JobView { side: OrderSide::Buy, ..job };
    let s = JobView { side: OrderSide::Sell, ..job };
    law_orders_are_built_as_they_came(style, b, hash);
    law_orders_are_built_as_they_came(style, s, hash);
    if !(style is Plain) {
        let placed = EventView::Placed { hash };
        let x = noted(style, next_state(style, at_building(style, b), EventView::Ready), placed);
        let y = noted(style, next_state(style, at_building(style, s), EventView::Ready), placed);
        assert(x->0.side != y->0.side);
    }
}

/// What a panel asked for is what is built: its market, its side and its size, whichever
/// panel it was; a limit order of the two-kind panel is only noted, at its price.
pub proof fn law_panel_orders_reach_the_trader(
    style: TraderStyle,
    o: crate::orders::OrderView,
    p: crate::orders::PanelView,
)
    ensures
        !(style is Levered && o.kind is Limit) ==> (action_in(style, at_building(style, job_of_trade(o)))
            matches ActionView::Build { ticker, side, size, terms } && ticker == o.ticker && side == o.side
            && size == o.size && (terms.guard is None ==> o.limit_price <= 0)),
        !(style is Levered && p.price is Some) ==> (action_in(style, at_building(style, job_of_panel(p)))
            matches ActionView::Build { ticker, side, size, .. } && ticker == p.ticker && side == p.side
            && size == p.size),
        style is Levered && p.price is Some ==> {
            let e = EventView::Order { job: job_of_panel(p) };
            &&& next_state(style, StateView::Idle, e) == StateView::Idle
            &&& noted_market(StateView::Idle, e) == Some(p.ticker)
            &&& noted(style, StateView::Idle, e) matches Some(n) && n.side == p.side.text() && n.size_str == concat(
                seq!["size="@, p.size, "@"@, p.price->0],
            )
        },
        job_of_trade(o).leverage == o.leverage,
        job_of_panel(p).leverage == p.leverage,
{
}

/// The trader starts up step by step: configuration, words, wallet, node, account and
/// subaccount, and then waits for orders. The wallet is opened with the words that were
/// given, with one blank between each two.
pub proof fn law_the_start_goes_step_by_step(style: TraderStyle, raw: Seq<char>)
    ensures
        ({
            let s1 = next_state(style, StateView::Config, EventView::Ready);
            let s2 = next_state(style, s1, EventView::Phrase { raw });
            let s3 = next_state(style, s2, EventView::Ready);
            let s4 = next_state(style, s3, EventView::Ready);
            let s5 = next_state(style, s4, EventView::Ready);
            let s6 = next_state(style, s5, EventView::Ready);
            &&& action_in(style, StateView::Config) is ReadConfig
            &&& action_in(style, s1) is ReadPhrase
            &&& action_in(style, s2) == (ActionView::OpenWallet {
                phrase: crate::text::join(crate::text::words(raw), ' '),
            })
            &&& action_in(style, s3) is Connect
            &&& action_in(style, s4) is SyncAccount
            &&& action_in(style, s5) is DeriveSubaccount
            &&& action_in(style, s6) is AwaitOrder
            &&& s6 == StateView::Idle
            &&& action_in(style, next_state(style, s6, EventView::Closed)) is Stop
        }),
{
}

/// A failure before the start-up is done stops the trader.
pub proof fn law_a_failed_start_stops(style: TraderStyle, s: StateView, error: Seq<char>)
    requires
        job_of(s) is None,
        s != StateView::Idle,
    ensures
        next_state(style, s, EventView::Failed { error }) == StateView::Stopped,
        noted(style, s, EventView::Failed { error }) is None,
{
}

/// The trader names an order when it comes and when it was placed: its side, its market and its
/// size, and with the latter the transaction.
pub proof fn law_orders_are_named(style: TraderStyle, job: JobView, hash: Seq<char>)
    ensures
        job.side is Buy ==> crate::orders::names_order(order_line(style, job), "Buy"@, job.ticker, job.size),
        job.side is Sell ==> crate::orders::names_order(order_line(style, job), "Sell"@, job.ticker, job.size),
        job.side is Buy ==> crate::orders::names_order(placed_line(style, job, hash), "Buy"@, job.ticker, job.size),
        job.side is Sell ==> crate::orders::names_order(placed_line(style, job, hash), "Sell"@, job.ticker, job.size),
        crate::text::holds_part(placed_line(style, job, hash), hash),
        style is Levered && job.kind is Limit ==> crate::text::holds_part(order_line(style, job), job.price),
        style is Levered ==> crate::text::holds_part(
            order_line(style, job),
            crate::amount::fixed(job.leverage as int, 1),
        ),
        style is Levered ==> crate::text::holds_part(
            placed_line(style, job, hash),
            crate::amount::fixed(job.leverage as int, 1),
        ),
        style is Plain ==> crate::text::holds_part(order_line(style, job), crate::amount::short(job.leverage as int)),
        style is Plain ==> crate::text::holds_part(
            placed_line(style, job, hash),
            crate::amount::short(job.leverage as int),
        ),
{
    let side = job.side.text();
    match style {
        TraderStyle::Guarded | TraderStyle::Beside => {
            let o = seq![
                "[trader] "@,
                job.kind.text(),
                " "@,
                side,
                " "@,
                job.ticker,
                " size "@,
                job.size,
                " (limit guard: "@,
                crate::amount::short(job.limit_price as int),
                ")"@,
            ];
            crate::orders::lemma_names_order(o, 3);
        },
        TraderStyle::Bare => {
            let o = seq!["[trader] market "@, side, " "@, job.ticker, " size "@, job.size];
            crate::orders::lemma_names_order(o, 1);
        },
        TraderStyle::Plain => {
            let lev = crate::amount::short(job.leverage as int);
            let o = seq!["[trader] market "@, side, " "@, job.ticker, " size "@, job.size, " lev "@, lev];
            let p = seq![
                "[trader] placed "@,
                side,
                " "@,
                job.ticker,
                " size "@,
                job.size,
                " lev "@,
                lev,
                " tx="@,
                hash,
            ];
            crate::orders::lemma_names_order(o, 1);
            crate::text::lemma_holds_part(o, 7);
            crate::orders::lemma_names_order(p, 1);
            crate::text::lemma_holds_part(p, 7);
            crate::text::lemma_holds_part(p, 9);
        },
        TraderStyle::Levered => {
            let lev = crate::amount::fixed(job.leverage as int, 1);
            let p = seq![
                "[trader] placed MARKET "@,
                side,
                " "@,
                job.ticker,
                " size "@,
                job.size,
                " lev "@,
                lev,
                "x tx="@,
                hash,
            ];
            crate::orders::lemma_names_order(p, 1);
            crate::text::lemma_holds_part(p, 7);
            crate::text::lemma_holds_part(p, 9);
            match job.kind {
                TradeKind::Market => {
                    let o = seq![
                        "[trader] MARKET "@,
                        side,
                        " "@,
                        job.ticker,
                        " size "@,
                        job.size,
                        " lev "@,
                        lev,
                        "x"@,
                    ];
                    crate::orders::lemma_names_order(o, 1);
                    crate::text::lemma_holds_part(o, 7);
                },
                TradeKind::Limit => {
                    let o = seq![
                        "[trader] LIMIT (placeholder) "@,
                        side,
                        " "@,
                        job.ticker,
                        " size "@,
                        job.size,
                        " price "@,
                        job.price,
                        " lev "@,
                        lev,
                        "x"@,
                    ];
                    crate::orders::lemma_names_order(o, 1);
                    crate::text::lemma_holds_part(o, 7);
                    crate::text::lemma_holds_part(o, 9);
                },
            }
        },
    }
    if style is Guarded || style is Beside || style is Bare {
        let p = seq!["[trader] placed "@, side, " "@, job.ticker, " size "@, job.size, " tx="@, hash];
        crate::orders::lemma_names_order(p, 1);
        crate::text::lemma_holds_part(p, 7);
    }
}

} // verus!
