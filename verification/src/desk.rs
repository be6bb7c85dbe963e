//! The state of the desk window: the market, the bot, the receipts and the simulated
//! balance, and what the window shows of them.

use crate::amount::{fixed_text, key_to_price, Amount, ONE};
use crate::book::{Level, Side};
use crate::bot::{Bot, BotOrder};
use crate::clock::{format_ts, TimeMode};
use crate::events::{TickerData, TradeCsvEvent};
use crate::ledger::{Ledger, TradeReceipt};
use crate::metrics::{best_of, compute_bubble_metrics, BubbleMetrics, LadderRow};
use crate::orders::{order_size, OrderSide, TradeCmd, TradeKind, TradeNote};
use crate::session::{range_label, saturated, Mode};
use crate::snapshot::{compute_snapshot_for, Snapshot};
use crate::store::TickerStore;
use crate::text::{cat, concat, same_lower, same_text, views};
use crate::timeline::{TimePos, TimeRange};
use vstd::prelude::*;

verus! {

/// How many levels of each side the window shows.
pub const SHOWN_LEVELS: usize = 20;

/// How many trades the window shows.
pub const SHOWN_TRADES: usize = 50;

/// The state of the desk window.
#[derive(Debug)]
pub struct AppCore {
    pub store: TickerStore,
    pub tickers: Vec<String>,
    pub current_ticker: String,
    pub mode: Mode,
    pub time_mode: TimeMode,
    pub pos: TimePos,
    pub reload_secs: u64,
    pub last_reload_ts: u64,
    pub tf_secs: u64,
    pub history_candles: usize,
    pub script_text: String,
    pub bot: Bot,
    pub trade_leverage: Amount,
    pub ledger: Ledger,
    pub order_message: String,
}

/// An order of the desk, with its row for the trade log.
#[derive(Debug)]
pub struct DeskOrder {
    pub cmd: TradeCmd,
    pub note: TradeNote,
}

/// What the window shows.
#[derive(Debug)]
pub struct WindowView {
    pub data_range: String,
    pub current_time: String,
    pub metrics: BubbleMetrics,
    pub balance_usdc: Amount,
    pub balance_pnl: Amount,
    pub bids: Vec<LadderRow>,
    pub asks: Vec<LadderRow>,
    /// Newest first.
    pub recent_trades: Vec<TradeCsvEvent>,
    /// Newest first.
    pub receipts: Vec<TradeReceipt>,
}

/// The receipt of an order.
pub open spec fn order_receipt(
    ts: u64,
    ticker: Seq<char>,
    side: OrderSide,
    kind: Seq<char>,
    size: Seq<char>,
    comment: Seq<char>,
) -> crate::ledger::ReceiptView {
    crate::ledger::ReceiptView {
        ts,
        ticker,
        side: side.text(),
        kind,
        size,
        status: "submitted"@,
        comment,
    }
}

/// The side that the order form names: buying, unless it says to sell.
pub open spec fn form_side(s: Seq<char>) -> OrderSide {
    if s == "Sell"@ || s == "sell"@ {
        OrderSide::Sell
    } else {
        OrderSide::Buy
    }
}

/// The side that the order button names: selling, unless it says to buy in any case.
pub open spec fn button_side(s: Seq<char>) -> OrderSide {
    if crate::text::lower_text(s) == "buy"@ {
        OrderSide::Buy
    } else {
        OrderSide::Sell
    }
}

pub open spec fn sent_message(side: OrderSide, ticker: Seq<char>, size: Seq<char>) -> Seq<char> {
    concat(seq!["Sent "@, side.text(), " "@, ticker, " size "@, size])
}

/// The market order of the desk.
pub open spec fn desk_order(ticker: Seq<char>, side: OrderSide, units: Amount, leverage: Amount) -> crate::orders::OrderView {
    crate::orders::OrderView {
        ticker,
        side,
        size: crate::orders::size_decimal(units),
        kind: TradeKind::Market,
        limit_price: 0,
        leverage,
    }
}

/// A row of the window's ladder: the price with two decimals, the size with four.
pub open spec fn is_plain_row(r: LadderRow, l: Level) -> bool {
    &&& r.price@ == crate::amount::fixed(l.key * crate::amount::TICK, 2)
    &&& r.size@ == crate::amount::fixed(l.size as int, 4)
}

pub open spec fn is_plain_ladder(v: Seq<LadderRow>, levels: Seq<Level>) -> bool {
    v.len() == levels.len() && forall|i: int| 0 <= i < v.len() ==> is_plain_row(#[trigger] v[i], levels[i])
}

fn plain_ladder(side: &Side, bids: bool) -> (r: Vec<LadderRow>)
    requires
        side.wf(),
    ensures
        is_plain_ladder(r@, crate::metrics::best_levels(side@, bids, SHOWN_LEVELS as nat)),
{
    let v: Vec<Level> = best_of(side, bids, SHOWN_LEVELS);
    let n: usize = v.len();
    let mut out: Vec<LadderRow> = Vec::new();
    let mut i: usize = 0;
    while i < n
        invariant
            i <= n,
            n == v@.len(),
            out@.len() == i,
            forall|j: int| 0 <= j < i ==> is_plain_row(#[trigger] out@[j], v@[j]),
        decreases n - i,
    {
        let row = LadderRow {
            price: fixed_text(key_to_price(v[i].key), 2),
            size: fixed_text(v[i].size, 4),
        };
        assert(is_plain_row(row, v@[i as int]));
        out.push(row);
        i += 1;
    }
    out
}

/// The newest trades, newest first.
pub fn newest_trades(trades: &Vec<TradeCsvEvent>, count: usize) -> (r: Vec<TradeCsvEvent>)
    ensures
        crate::events::trade_rows(r@) == crate::window::newest(
            crate::events::trade_rows(trades@),
            count as nat,
        ).reverse(),
{
    let n: usize = trades.len();
    let low: usize = if n > count {
        n - count
    } else {
        0
    };
    let mut out: Vec<TradeCsvEvent> = Vec::new();
    let mut i: usize = n;
    while i > low
        invariant
            low <= i <= n,
            n == trades@.len(),
            out@.len() == n - i,
            forall|j: int| 0 <= j < n - i ==> (#[trigger] out@[j])@ == trades@[n - 1 - j]@,
        decreases i,
    {
        i -= 1;
        out.push(trades[i].copy());
    }
    assert(crate::events::trade_rows(out@) =~= crate::window::newest(
        crate::events::trade_rows(trades@),
        count as nat,
    ).reverse());
    out
}

impl AppCore {
    /// The markets are well-formed and candles have a period.
    pub open spec fn wf(&self) -> bool {
        self.store.wf() && self.tf_secs > 0
    }

    /// The data of the market that is shown.
    pub open spec fn current_data(&self) -> Option<TickerData> {
        self.store.data(self.current_ticker@)
    }

    /// The desk at the start: live, at the end of the first market, with one thousand in its
    /// simulated balance.
    pub fn new(store: TickerStore, tickers: Vec<String>, script_text: String, now: u64) -> (r: Self)
        requires
            store.wf(),
        ensures
            r.wf(),
            r.store == store,
            r.tickers == tickers,
            r.current_ticker@ == crate::session::first_ticker(tickers@),
            r.mode == Mode::Live,
            r.time_mode == TimeMode::Local,
            r.pos == crate::session::first_times(
                store.data(crate::session::first_ticker(tickers@)),
                now,
            ),
            r.reload_secs == 5,
            r.last_reload_ts == now,
            r.tf_secs == 60,
            r.history_candles == 200,
            r.script_text@ == script_text@,
            r.bot@ == crate::bot::idle_bot(),
            r.trade_leverage == ONE,
            r.ledger.entries() == Seq::<crate::ledger::ReceiptView>::empty(),
            r.ledger.balance_usdc == crate::ledger::START_BALANCE,
            r.ledger.balance_pnl == 0,
            r.order_message@ == Seq::<char>::empty(),
    {
        let current_ticker: String = if tickers.len() > 0 {
            tickers[0].clone()
        } else {
            "ETH-USD".to_owned()
        };
        let pos: TimePos = match store.range(current_ticker.as_str()) {
            Some(r) => TimePos { live_ts: r.max_ts, replay_ts: r.max_ts },
            None => TimePos { live_ts: now, replay_ts: now },
        };
        AppCore {
            store,
            tickers,
            current_ticker,
            mode: Mode::Live,
            time_mode: TimeMode::Local,
            pos,
            reload_secs: 5,
            last_reload_ts: now,
            tf_secs: 60,
            history_candles: 200,
            script_text,
            bot: Bot::new(),
            trade_leverage: ONE,
            ledger: Ledger::new(),
            order_message: String::new(),
        }
    }

    /// The range of the market that is shown.
    pub fn ticker_range(&self) -> (r: Option<TimeRange>)
        requires
            self.wf(),
        ensures
            r == crate::store::range_of(self.current_data()),
            r matches Some(t) ==> t.wf(),
    {
        self.store.range(self.current_ticker.as_str())
    }

    /// The range of the market that is shown.
    pub fn current_range(&self) -> (r: Option<TimeRange>)
        requires
            self.wf(),
        ensures
            r == crate::store::range_of(self.current_data()),
            r matches Some(t) ==> t.wf(),
    {
        self.ticker_range()
    }

    /// Takes over the logs of the market that is shown, read anew; nothing where they hold
    /// no event.
    pub fn reload_current_ticker(&mut self, loaded: Option<TickerData>)
        requires
            old(self).wf(),
            loaded matches Some(d) ==> d.wf() && d.ticker@ == old(self).current_ticker@,
        ensures
            final(self).wf(),
            match loaded {
                Some(d) => {
                    &&& *final(self) == (AppCore {
                        store: final(self).store,
                        pos: crate::timeline::reloaded(
                            old(self).pos,
                            TimeRange { min_ts: d.min_ts, max_ts: d.max_ts },
                        ),
                        ..*old(self)
                    })
                    &&& final(self).current_data() == Some(d)
                    &&& forall|t: Seq<char>|
                        t != old(self).current_ticker@ ==> #[trigger] final(self).store.data(t)
                            == old(self).store.data(t)
                },
                None => *final(self) == *old(self),
            },
    {
        if let Some(d) = loaded {
            let r = TimeRange { min_ts: d.min_ts, max_ts: d.max_ts };
            self.pos.reload_current_ticker(&r);
            self.store.insert(d);
        }
    }

    /// Takes over the logs of one market of the list.
    pub fn load_ticker(&mut self, d: TickerData)
        requires
            old(self).wf(),
            d.wf(),
        ensures
            final(self).wf(),
            *final(self) == (AppCore { store: final(self).store, ..*old(self) }),
            final(self).store.data(d.ticker@) == Some(d),
            forall|t: Seq<char>|
                t != d.ticker@ ==> #[trigger] final(self).store.data(t) == old(self).store.data(t),
    {
        self.store.insert(d);
    }

    /// Shows another market; one that is not on the list changes nothing.
    pub fn select_ticker(&mut self, ticker: &str) -> (known: bool)
        ensures
            known == (exists|i: int| 0 <= i < old(self).tickers@.len() && #[trigger] old(self).tickers@[i]@ == ticker@),
            known ==> final(self).current_ticker@ == ticker@ && *final(self) == (AppCore {
                current_ticker: final(self).current_ticker,
                ..*old(self)
            }),
            !known ==> *final(self) == *old(self),
    {
        let n: usize = self.tickers.len();
        let mut i: usize = 0;
        let mut known = false;
        while i < n && !known
            invariant
                i <= n,
                n == self.tickers@.len(),
                *self == *old(self),
                known ==> i > 0 && self.tickers@[i - 1]@ == ticker@,
                !known ==> forall|j: int| 0 <= j < i ==> #[trigger] self.tickers@[j]@ != ticker@,
            decreases n - i,
        {
            if same_text(self.tickers[i].as_str(), ticker) {
                known = true;
            }
            i += 1;
        }
        if known {
            self.current_ticker = ticker.to_owned();
        }
        known
    }

    /// The market that is shown as it stands at its end.
    pub fn current_snapshot(&self) -> (r: Option<Snapshot>)
        requires
            self.wf(),
        ensures
            match self.current_data() {
                Some(d) => r matches Some(s) && crate::session::is_snapshot_of(s, d, d.max_ts, self.tf_secs),
                None => r is None,
            },
    {
        match self.store.get(self.current_ticker.as_str()) {
            Some(d) => Some(compute_snapshot_for(d, d.max_ts, self.tf_secs)),
            None => None,
        }
    }

    /// Appends a receipt.
    pub fn push_receipt(&mut self, receipt: TradeReceipt)
        ensures
            *final(self) == (AppCore { ledger: final(self).ledger, ..*old(self) }),
            final(self).ledger.entries() == crate::ledger::with_receipt(
                old(self).ledger.entries(),
                receipt@,
            ),
            final(self).ledger.balance_usdc == old(self).ledger.balance_usdc,
            final(self).ledger.balance_pnl == old(self).ledger.balance_pnl,
    {
        self.ledger.push_receipt(receipt);
    }

    /// Sends a market order and gives its receipt.
    fn submit(&mut self, side: OrderSide, size_units: Amount, leverage: Amount, kind: &str, now: u64) -> (r: Option<
        DeskOrder,
    >)
        ensures
            *final(self) == (AppCore {
                ledger: final(self).ledger,
                order_message: final(self).order_message,
                ..*old(self)
            }),
            r is Some,
            r matches Some(o) ==> {
                &&& o.cmd@ == desk_order(old(self).current_ticker@, side, size_units, leverage)
                &&& o.note@ == (crate::orders::NoteView {
                    source: "gui_manual"@,
                    side: side.text(),
                    size_str: crate::orders::size_text(size_units),
                })
            },
            final(self).order_message@ == sent_message(
                side,
                old(self).current_ticker@,
                crate::orders::size_text(size_units),
            ),
            final(self).ledger.entries() == crate::ledger::with_receipt(
                old(self).ledger.entries(),
                order_receipt(
                    now,
                    old(self).current_ticker@,
                    side,
                    kind@,
                    crate::orders::size_text(size_units),
                    "manual"@,
                ),
            ),
            final(self).ledger.balance_usdc == old(self).ledger.balance_usdc,
            final(self).ledger.balance_pnl == old(self).ledger.balance_pnl,
    {
        let (size_str, parsed) = order_size(size_units);
        let size: String = match parsed {
            Some(s) => s,
            None => {
                return None;
            },
        };
        let parts: Vec<&str> = vec![
            "Sent ",
            side.as_str(),
            " ",
            self.current_ticker.as_str(),
            " size ",
            size_str.as_str(),
        ];
        assert(views(parts@) =~= seq![
            "Sent "@,
            side.text(),
            " "@,
            self.current_ticker@,
            " size "@,
            size_str@,
        ]);
        let message: String = cat(&parts);
        self.order_message = message;
        self.push_receipt(
            TradeReceipt {
                ts: now,
                ticker: self.current_ticker.clone(),
                side: side.as_str().to_owned(),
                kind: kind.to_owned(),
                size: size_str.clone(),
                status: "submitted".to_owned(),
                comment: "manual".to_owned(),
            },
        );
        Some(
            DeskOrder {
                cmd: TradeCmd {
                    ticker: self.current_ticker.clone(),
                    side,
                    size,
                    kind: TradeKind::Market,
                    limit_price: 0,
                    leverage,
                },
                note: TradeNote {
                    source: "gui_manual".to_owned(),
                    side: side.as_str().to_owned(),
                    size_str,
                },
            },
        )
    }

    /// The order form: a market order, its receipt and its message.
    pub fn send_manual_order(&mut self, size_units: Amount, leverage: Amount, side_text: &str, now: u64) -> (r: Option<
        DeskOrder,
    >)
        ensures
            *final(self) == (AppCore {
                ledger: final(self).ledger,
                order_message: final(self).order_message,
                ..*old(self)
            }),
            r matches Some(o) && {
                &&& o.cmd@ == desk_order(
                    old(self).current_ticker@,
                    form_side(side_text@),
                    size_units,
                    leverage,
                )
                &&& o.note@ == (crate::orders::NoteView {
                    source: "gui_manual"@,
                    side: form_side(side_text@).text(),
                    size_str: crate::orders::size_text(size_units),
                })
            },
            final(self).ledger.balance_usdc == old(self).ledger.balance_usdc,
            final(self).ledger.balance_pnl == old(self).ledger.balance_pnl,
            final(self).order_message@ == sent_message(
                form_side(side_text@),
                old(self).current_ticker@,
                crate::orders::size_text(size_units),
            ),
            final(self).ledger.entries() == crate::ledger::with_receipt(
                old(self).ledger.entries(),
                order_receipt(
                    now,
                    old(self).current_ticker@,
                    form_side(side_text@),
                    "ManualMarket"@,
                    crate::orders::size_text(size_units),
                    "manual"@,
                ),
            ),
    {
        let side: OrderSide = if same_text(side_text, "Sell") || same_text(side_text, "sell") {
            OrderSide::Sell
        } else {
            OrderSide::Buy
        };
        self.submit(side, size_units, leverage, "ManualMarket", now)
    }

    /// The order button: a market order at the desk's leverage, its receipt and its message.
    pub fn send_order(&mut self, size_units: Amount, side_text: &str, now: u64) -> (r: Option<DeskOrder>)
        ensures
            *final(self) == (AppCore {
                ledger: final(self).ledger,
                order_message: final(self).order_message,
                ..*old(self)
            }),
            r matches Some(o) && {
                &&& o.cmd@ == desk_order(
                    old(self).current_ticker@,
                    button_side(side_text@),
                    size_units,
                    old(self).trade_leverage,
                )
                &&& o.note@ == (crate::orders::NoteView {
                    source: "gui_manual"@,
                    side: button_side(side_text@).text(),
                    size_str: crate::orders::size_text(size_units),
                })
            },
            final(self).ledger.balance_usdc == old(self).ledger.balance_usdc,
            final(self).ledger.balance_pnl == old(self).ledger.balance_pnl,
            final(self).order_message@ == sent_message(
                button_side(side_text@),
                old(self).current_ticker@,
                crate::orders::size_text(size_units),
            ),
            final(self).ledger.entries() == crate::ledger::with_receipt(
                old(self).ledger.entries(),
                order_receipt(
                    now,
                    old(self).current_ticker@,
                    button_side(side_text@),
                    "Manual"@,
                    crate::orders::size_text(size_units),
                    "manual"@,
                ),
            ),
    {
        let side: OrderSide = if same_lower(side_text, "buy") {
            OrderSide::Buy
        } else {
            OrderSide::Sell
        };
        let leverage: Amount = self.trade_leverage;
        self.submit(side, size_units, leverage, "Manual", now)
    }

    /// A simulated deposit.
    pub fn deposit(&mut self, amount: Amount, now: u64)
        ensures
            *final(self) == (AppCore { ledger: final(self).ledger, ..*old(self) }),
            final(self).ledger.balance_usdc == crate::ledger::deposited(
                old(self).ledger.balance_usdc,
                amount,
            ),
            final(self).ledger.balance_pnl == old(self).ledger.balance_pnl,
            final(self).ledger.entries() == crate::ledger::with_receipt(
                old(self).ledger.entries(),
                crate::ledger::transfer_receipt(
                    now,
                    old(self).current_ticker@,
                    "DepositSim"@,
                    amount,
                    "ok"@,
                    "Sim deposit"@,
                ),
            ),
    {
        self.ledger.deposit(amount, now, self.current_ticker.as_str());
    }

    /// A simulated withdrawal; tells whether the balance sufficed.
    pub fn withdraw(&mut self, amount: Amount, now: u64) -> (ok: bool)
        ensures
            ok == (old(self).ledger.balance_usdc >= crate::ledger::transfer(amount)),
            *final(self) == (AppCore { ledger: final(self).ledger, ..*old(self) }),
            final(self).ledger.balance_usdc == crate::ledger::withdrawn(
                old(self).ledger.balance_usdc,
                amount,
            ),
            final(self).ledger.balance_pnl == old(self).ledger.balance_pnl,
            final(self).ledger.entries() == crate::ledger::with_receipt(
                old(self).ledger.entries(),
                crate::ledger::transfer_receipt(
                    now,
                    old(self).current_ticker@,
                    "WithdrawSim"@,
                    amount,
                    if ok {
                        "ok"@
                    } else {
                        "fail"@
                    },
                    if ok {
                        "Sim withdraw"@
                    } else {
                        "Insufficient sim balance"@
                    },
                ),
            ),
    {
        self.ledger.withdraw(amount, now, self.current_ticker.as_str())
    }

    /// What becomes of the desk once the bot's script ran: an order that the bot sends also
    /// leaves a receipt.
    pub fn finish_bot_run(&mut self, outcome: crate::bot::ScriptOutcome, now: u64) -> (r: Option<BotOrder>)
        ensures
            *final(self) == (AppCore {
                bot: final(self).bot,
                ledger: final(self).ledger,
                ..*old(self)
            }),
            final(self).bot@ == crate::bot::after_run(
                old(self).bot@,
                outcome@,
                old(self).current_ticker@,
                now,
            ),
            crate::bot::bot_order_view(r) == crate::bot::order_of_run(
                old(self).bot@,
                outcome@,
                old(self).current_ticker@,
                old(self).trade_leverage,
            ),
            r matches Some(b) ==> b.note@ == crate::bot::auto_note(
                crate::bot::ran(old(self).bot@, outcome@),
            ),
            final(self).ledger.entries() == receipts_after_run(
                old(self).ledger.entries(),
                old(self).bot@,
                outcome@,
                old(self).current_ticker@,
                now,
            ),
            final(self).ledger.balance_usdc == old(self).ledger.balance_usdc,
            final(self).ledger.balance_pnl == old(self).ledger.balance_pnl,
    {
        let leverage: Amount = self.trade_leverage;
        let r = self.bot.finish_run(outcome, self.current_ticker.as_str(), leverage, now);
        if let Some(o) = &r {
            let receipt = TradeReceipt {
                ts: now,
                ticker: self.current_ticker.clone(),
                side: o.note.side.clone(),
                kind: "BotAuto".to_owned(),
                size: o.note.size_str.clone(),
                status: "submitted".to_owned(),
                comment: self.bot.comment.clone(),
            };
            self.push_receipt(receipt);
        }
        r
    }

    /// Runs the bot's script on a snapshot. Whatever the script does, the desk ends as
    /// `finish_bot_run` says for some outcome.
    pub fn run_bot_script(&mut self, engine: &rhai::Engine, snap: &Snapshot, now: u64) -> (r: Option<BotOrder>)
        requires
            crate::script_host::tame(crate::script_host::limits_of(*engine)),
            snap.bids.wf(),
            snap.asks.wf(),
        ensures
            *final(self) == (AppCore {
                bot: final(self).bot,
                ledger: final(self).ledger,
                ..*old(self)
            }),
            final(self).ledger.balance_usdc == old(self).ledger.balance_usdc,
            final(self).ledger.balance_pnl == old(self).ledger.balance_pnl,
            bot_ran(crate::script_host::limits_of(*engine), *old(self), *snap, *final(self), r, now),
    {
        let tf: i64 = saturated(self.tf_secs);
        let history: i64 = saturated(self.history_candles as u64);
        let outcome = self.bot.evaluate(
            engine,
            self.script_text.as_str(),
            snap,
            self.current_ticker.as_str(),
            self.mode,
            tf,
            history,
        );
        self.finish_bot_run(outcome, now)
    }

    /// One second passes: where the interval has passed the logs, read anew, are taken
    /// over, and the times move on.
    pub fn on_timer(&mut self, now: u64, loaded: Option<TickerData>)
        requires
            old(self).wf(),
            loaded matches Some(d) ==> d.wf() && d.ticker@ == old(self).current_ticker@,
        ensures
            final(self).wf(),
            ({
                let due = interval_passed(old(self).last_reload_ts, old(self).reload_secs, now);
                let taken = due && loaded is Some;
                &&& *final(self) == (AppCore {
                    store: final(self).store,
                    pos: final(self).pos,
                    last_reload_ts: if due {
                        now
                    } else {
                        old(self).last_reload_ts
                    },
                    ..*old(self)
                })
                &&& final(self).current_data() == (if taken {
                    loaded
                } else {
                    old(self).current_data()
                })
                &&& forall|t: Seq<char>|
                    t != old(self).current_ticker@ ==> #[trigger] final(self).store.data(t) == old(
                        self,
                    ).store.data(t)
                &&& final(self).pos == (match crate::store::range_of(final(self).current_data()) {
                    Some(r) => crate::timeline::ticked(
                        if taken {
                            crate::timeline::reloaded(old(self).pos, r)
                        } else {
                            old(self).pos
                        },
                        r,
                        old(self).mode,
                    ),
                    None => old(self).pos,
                })
            }),
    {
        if self.reload_is_due(now) {
            self.reload_current_ticker(loaded);
            self.last_reload_ts = now;
        }
        if let Some(r) = self.ticker_range() {
            self.pos.tick(&r, self.mode);
        }
    }

    /// Whether the interval of the reloads has passed.
    pub fn reload_is_due(&self, now: u64) -> (r: bool)
        ensures
            r == interval_passed(self.last_reload_ts, self.reload_secs, now),
    {
        now.saturating_sub(self.last_reload_ts) >= self.reload_secs
    }

    /// The times once the window is shown.
    pub open spec fn moved(&self, d: TickerData) -> TimePos {
        crate::timeline::followed(
            self.pos,
            TimeRange { min_ts: d.min_ts, max_ts: d.max_ts },
            self.mode,
        )
    }

    /// The time that the window shows.
    pub open spec fn shown_ts(&self, d: TickerData) -> u64 {
        match self.mode {
            Mode::Live => d.max_ts,
            Mode::Replay => self.moved(d).replay_ts,
        }
    }

    /// What the window shows: nothing where the market has no events. The times are first
    /// moved as the mode asks for, and the snapshot is the one of the mode's time.
    pub fn update_ui_from_state(&mut self) -> (r: Option<(WindowView, Snapshot)>)
        requires
            old(self).wf(),
        ensures
            final(self).wf(),
            match old(self).current_data() {
                None => r is None && *final(self) == *old(self),
                Some(d) => {
                    &&& *final(self) == (AppCore { pos: old(self).moved(d), ..*old(self) })
                    &&& r matches Some((w, s)) && window_shows(w, s, *old(self), d)
                },
            },
    {
        let range: TimeRange = match self.ticker_range() {
            Some(r) => r,
            None => {
                return None;
            },
        };
        self.pos.follow(&range, self.mode);
        let ts: u64 = match self.mode {
            Mode::Live => range.max_ts,
            Mode::Replay => self.pos.replay_ts,
        };
        let snap: Snapshot = match self.store.get(self.current_ticker.as_str()) {
            Some(d) => compute_snapshot_for(d, ts, self.tf_secs),
            None => {
                return None;
            },
        };
        let display = self.time_mode.display();
        let view = WindowView {
            data_range: range_label(display, &range),
            current_time: format_ts(display, ts),
            metrics: compute_bubble_metrics(&snap.bids, &snap.asks),
            balance_usdc: self.ledger.balance_usdc,
            balance_pnl: self.ledger.balance_pnl,
            bids: plain_ladder(&snap.bids, true),
            asks: plain_ladder(&snap.asks, false),
            recent_trades: newest_trades(&snap.trades, SHOWN_TRADES),
            receipts: self.ledger.shown(),
        };
        Some((view, snap))
    }

    /// Shows the window and then runs the bot's script on what it shows.
    pub fn refresh(&mut self, engine: &rhai::Engine, now: u64) -> (r: Option<(WindowView, Option<BotOrder>)>)
        requires
            crate::script_host::tame(crate::script_host::limits_of(*engine)),
            old(self).wf(),
        ensures
            final(self).wf(),
            match old(self).current_data() {
                None => r is None && *final(self) == *old(self),
                Some(d) => {
                    let shown = AppCore { pos: old(self).moved(d), ..*old(self) };
                    &&& *final(self) == (AppCore {
                        bot: final(self).bot,
                        ledger: final(self).ledger,
                        ..shown
                    })
                    &&& final(self).ledger.balance_usdc == old(self).ledger.balance_usdc
                    &&& final(self).ledger.balance_pnl == old(self).ledger.balance_pnl
                    &&& r matches Some((w, order)) && shown_and_ran(
                        crate::script_host::limits_of(*engine),
                        w,
                        *old(self),
                        d,
                        shown,
                        *final(self),
                        order,
                        now,
                    )
                },
            },
    {
        match self.update_ui_from_state() {
            Some((view, snap)) => {
                let ghost shown = *self;
                let order = self.run_bot_script(engine, &snap, now);
                proof {
                    let d = old(self).current_data()->0;
                    let limits = crate::script_host::limits_of(*engine);
                    assert(window_shows(view, snap, *old(self), d));
                    assert(bot_ran(limits, shown, snap, *self, order, now));
                    assert(shown_and_ran(limits, view, *old(self), d, shown, *self, order, now));
                }
                Some((view, order))
            },
            None => None,
        }
    }
}

/// Whether a window shows a snapshot of the market's data, as the desk stands.
pub open spec fn window_shows(w: WindowView, s: Snapshot, core: AppCore, d: TickerData) -> bool {
    let mode = core.time_mode.display_mode();
    &&& crate::session::is_snapshot_of(s, d, core.shown_ts(d), core.tf_secs)
    &&& w.metrics == crate::metrics::bubble_metrics(s.bids@, s.asks@)
    &&& w.balance_usdc == core.ledger.balance_usdc
    &&& w.balance_pnl == core.ledger.balance_pnl
    &&& is_plain_ladder(w.bids@, crate::metrics::best_levels(s.bids@, true, SHOWN_LEVELS as nat))
    &&& is_plain_ladder(w.asks@, crate::metrics::best_levels(s.asks@, false, SHOWN_LEVELS as nat))
    &&& crate::events::trade_rows(w.recent_trades@) == crate::window::newest(
        crate::events::trade_rows(s.trades@),
        SHOWN_TRADES as nat,
    ).reverse()
    &&& crate::ledger::receipt_views(w.receipts@) == crate::window::newest(
        core.ledger.entries(),
        crate::ledger::SHOWN_RECEIPTS as nat,
    ).reverse()
    &&& crate::session::shows_range(
        mode,
        TimeRange { min_ts: d.min_ts, max_ts: d.max_ts },
        w.data_range@,
    )
    &&& crate::clock::shows(mode, core.shown_ts(d), w.current_time@)
}

/// Whether a desk, its bot's order and its receipts are what a run of the bot on a snapshot
/// leaves behind.
pub open spec fn bot_ran(
    limits: crate::script_host::Limits,
    before: AppCore,
    s: Snapshot,
    after: AppCore,
    r: Option<BotOrder>,
    now: u64,
) -> bool {
    exists|o: crate::bot::OutcomeView| #[trigger]
        crate::bot::may_come_to(
            limits,
            before.script_text@,
            crate::bot::inputs_on(
                before.bot@,
                s,
                before.current_ticker@,
                before.mode,
                crate::session::script_int(before.tf_secs),
                crate::session::script_int(before.history_candles as u64),
            ),
            o,
        ) && after.bot@ == crate::bot::after_run(before.bot@, o, before.current_ticker@, now)
            && crate::bot::bot_order_view(r) == crate::bot::order_of_run(
            before.bot@,
            o,
            before.current_ticker@,
            before.trade_leverage,
        ) && (r matches Some(b) ==> b.note@ == crate::bot::auto_note(crate::bot::ran(before.bot@, o)))
            && after.ledger.entries() == receipts_after_run(
            before.ledger.entries(),
            before.bot@,
            o,
            before.current_ticker@,
            now,
        )
}

/// Whether a window shows a snapshot and the bot ran on that snapshot.
pub open spec fn shown_and_ran(
    limits: crate::script_host::Limits,
    w: WindowView,
    core: AppCore,
    d: TickerData,
    before: AppCore,
    after: AppCore,
    r: Option<BotOrder>,
    now: u64,
) -> bool {
    exists|s: Snapshot| #[trigger] window_shows(w, s, core, d) && bot_ran(
        limits,
        before,
        s,
        after,
        r,
        now,
    )
}

/// Whether the interval of the reloads has passed. A clock that went back counts as no
/// time passed.
pub open spec fn interval_passed(last: u64, interval: u64, now: u64) -> bool {
    (if now > last {
        now - last
    } else {
        0
    }) >= interval
}

/// The receipts after a run of the bot: one more where it sent an order.
pub open spec fn receipts_after_run(
    s: Seq<crate::ledger::ReceiptView>,
    b: crate::bot::BotView,
    o: crate::bot::OutcomeView,
    ticker: Seq<char>,
    now: u64,
) -> Seq<crate::ledger::ReceiptView> {
    let r = crate::bot::ran(b, o);
    if o is Done && crate::bot::fires(r) {
        crate::ledger::with_receipt(
            s,
            order_receipt(
                now,
                ticker,
                crate::bot::side_of(r.signal)->0,
                "BotAuto"@,
                crate::orders::size_text(r.size),
                r.comment,
            ),
        )
    } else {
        s
    }
}

// ---------------------------------------------------------------------------
// Laws

/// The order form buys unless it says to sell; the order button sells unless it says to buy.
/// Both take each other's words for the side at their word.
pub proof fn law_sides_are_taken_at_their_word(s: Seq<char>)
    ensures
        form_side("Buy"@) == OrderSide::Buy && form_side("Sell"@) == OrderSide::Sell,
        form_side("buy"@) == OrderSide::Buy && form_side("sell"@) == OrderSide::Sell,
        button_side("Buy"@) == OrderSide::Buy && button_side("Sell"@) == OrderSide::Sell,
        form_side(s) == OrderSide::Sell <==> s == "Sell"@ || s == "sell"@,
        button_side(s) == OrderSide::Buy <==> crate::text::lower_text(s) == "buy"@,
{
    reveal_strlit("Buy");
    reveal_strlit("Sell");
    reveal_strlit("buy");
    reveal_strlit("sell");
    assert("Buy"@.len() == 3 && "Sell"@.len() == 4 && "buy"@.len() == 3 && "sell"@.len() == 4);
    assert(crate::text::lower_text("Buy"@) =~= "buy"@);
    assert(crate::text::lower_text("Sell"@).len() == 4);
}

/// An order of the desk is a market order for its market, on its side, of its size and with
/// its leverage, and its receipt says so too.
pub proof fn law_desk_orders_keep_their_terms(
    ticker: Seq<char>,
    side: OrderSide,
    units: Amount,
    leverage: Amount,
    ts: u64,
    kind: Seq<char>,
    size: Seq<char>,
    comment: Seq<char>,
)
    ensures
        ({
            let o = desk_order(ticker, side, units, leverage);
            &&& o.ticker == ticker && o.side == side && o.leverage == leverage
            &&& o.kind is Market && o.limit_price == 0
            &&& units > 0 ==> (crate::orders::decimal_text(crate::amount::fixed(units as int, 8)) matches Some(d)
                ==> o.size == d)
        }),
        ({
            let r = order_receipt(ts, ticker, side, kind, size, comment);
            &&& r.ts == ts && r.ticker == ticker && r.kind == kind && r.size == size && r.comment == comment
            &&& side == OrderSide::Buy ==> r.side == "Buy"@
            &&& side == OrderSide::Sell ==> r.side == "Sell"@
        }),
{
}

/// The bot of the desk leaves a receipt exactly where it sent an order, with the side and the
/// size of the order.
pub proof fn law_bot_orders_leave_a_receipt(
    s: Seq<crate::ledger::ReceiptView>,
    b: crate::bot::BotView,
    o: crate::bot::OutcomeView,
    ticker: Seq<char>,
    leverage: Amount,
    now: u64,
)
    requires
        s.len() < crate::ledger::KEPT_RECEIPTS,
    ensures
        ({
            let r = receipts_after_run(s, b, o, ticker, now);
            let sent = crate::bot::order_of_run(b, o, ticker, leverage);
            &&& sent is None ==> r == s
            &&& sent matches Some(c) ==> {
                &&& r.len() == s.len() + 1
                &&& r.last().ts == now && r.last().ticker == c.ticker && r.last().side == c.side.text()
                &&& r.last().kind == "BotAuto"@
                &&& r.last().size == crate::bot::auto_note(crate::bot::ran(b, o)).size_str
                &&& r.last().comment == crate::bot::ran(b, o).comment
            }
        }),
{
}

/// The desk shows the newest row of its market while it is live, and the replay time, brought
/// into the range, while it replays.
pub proof fn law_the_desk_shows_its_time(core: AppCore, d: TickerData)
    requires
        d.min_ts <= d.max_ts,
    ensures
        core.mode is Live ==> core.shown_ts(d) == d.max_ts && core.moved(d).live_ts == d.max_ts,
        core.mode is Replay && d.min_ts <= core.pos.replay_ts <= d.max_ts ==> core.shown_ts(d) == core.pos.replay_ts
            && core.moved(d) == core.pos,
        core.mode is Replay && core.pos.replay_ts < d.min_ts ==> core.shown_ts(d) == d.min_ts,
        core.mode is Replay && core.pos.replay_ts > d.max_ts ==> core.shown_ts(d) == d.max_ts,
{
}

/// Reloads of the desk are due once their interval has passed.
pub proof fn law_desk_reloads_are_due(last: u64, interval: u64, now: u64)
    requires
        last <= now,
    ensures
        interval_passed(last, interval, now) <==> now - last >= interval,
{
}

/// The desk says the side, the market and the size of the order that it sent.
pub proof fn law_desk_orders_are_named(side: OrderSide, ticker: Seq<char>, size: Seq<char>)
    ensures
        side is Buy ==> crate::orders::names_order(sent_message(side, ticker, size), "Buy"@, ticker, size),
        side is Sell ==> crate::orders::names_order(sent_message(side, ticker, size), "Sell"@, ticker, size),
{
    crate::orders::lemma_names_order(seq!["Sent "@, side.text(), " "@, ticker, " size "@, size], 1);
}

} // verus!
