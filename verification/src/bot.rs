//! The script bot: what a run of its script leaves behind, and the orders that it sends
//! by itself.

use crate::amount::Amount;
use crate::metrics::{compute_bubble_metrics, BubbleMetrics};
use crate::orders::{clip_negative, order_size, OrderSide, TradeCmd, TradeKind, TradeNote};
use crate::script_host::{eval_unit, get_amount, get_text, new_scope, set_amount, set_int, set_text, RunEnd, ScriptValue};
use crate::session::Mode;
use crate::snapshot::Snapshot;
use crate::text::{cat, concat, same_text, views};
use vstd::prelude::*;

verus! {

/// The state of the bot.
#[derive(Debug)]
pub struct Bot {
    pub signal: String,
    pub size: Amount,
    pub comment: String,
    /// Whether the bot sends orders by itself.
    pub auto_trade: bool,
    /// The signal of the last order that the bot sent by itself.
    pub last_executed: String,
    pub last_error: Option<String>,
    pub last_run_ts: u64,
    /// What was last said about an order.
    pub order_msg: String,
}

/// What a run of the script came to.
#[derive(Debug)]
pub enum ScriptOutcome {
    Failed { error: String },
    Done { signal: Option<String>, size: Option<Amount>, comment: Option<String> },
}

/// An order of the bot, with its row for the trade log.
#[derive(Debug)]
pub struct BotOrder {
    pub cmd: TradeCmd,
    pub note: TradeNote,
}

pub ghost struct BotView {
    pub signal: Seq<char>,
    pub size: Amount,
    pub comment: Seq<char>,
    pub auto_trade: bool,
    pub last_executed: Seq<char>,
    pub last_error: Option<Seq<char>>,
    pub last_run_ts: u64,
    pub order_msg: Seq<char>,
}

pub ghost enum OutcomeView {
    Failed { error: Seq<char> },
    Done { signal: Option<Seq<char>>, size: Option<Amount>, comment: Option<Seq<char>> },
}

impl View for Bot {
    type V = BotView;

    open spec fn view(&self) -> BotView {
        BotView {
            signal: self.signal@,
            size: self.size,
            comment: self.comment@,
            auto_trade: self.auto_trade,
            last_executed: self.last_executed@,
            last_error: crate::script_host::text_view(self.last_error),
            last_run_ts: self.last_run_ts,
            order_msg: self.order_msg@,
        }
    }
}

impl View for ScriptOutcome {
    type V = OutcomeView;

    open spec fn view(&self) -> OutcomeView {
        match self {
            ScriptOutcome::Failed { error } => OutcomeView::Failed { error: error@ },
            ScriptOutcome::Done { signal, size, comment } => OutcomeView::Done {
                signal: crate::script_host::text_view(*signal),
                size: *size,
                comment: crate::script_host::text_view(*comment),
            },
        }
    }
}

/// What the bot is at the start.
pub open spec fn idle_bot() -> BotView {
    BotView {
        signal: "none"@,
        size: 0,
        comment: ""@,
        auto_trade: false,
        last_executed: "none"@,
        last_error: None,
        last_run_ts: 0,
        order_msg: ""@,
    }
}

/// The bot after reading a script's variables: what is missing is no signal, no size and
/// no comment.
pub open spec fn with_outputs(
    b: BotView,
    signal: Option<Seq<char>>,
    size: Option<Amount>,
    comment: Option<Seq<char>>,
) -> BotView {
    BotView {
        signal: match signal {
            Some(s) => s,
            None => "none"@,
        },
        size: match size {
            Some(a) => crate::orders::not_negative(a),
            None => 0,
        },
        comment: match comment {
            Some(c) => c,
            None => ""@,
        },
        ..b
    }
}

/// The side of a signal.
pub open spec fn side_of(signal: Seq<char>) -> Option<OrderSide> {
    if signal == "buy"@ {
        Some(OrderSide::Buy)
    } else if signal == "sell"@ {
        Some(OrderSide::Sell)
    } else {
        None
    }
}

/// Whether the bot sends an order by itself: it may, its signal is a buy or a sell, not
/// the one that it sent last, and its size is above zero.
pub open spec fn fires(b: BotView) -> bool {
    b.auto_trade && side_of(b.signal) is Some && b.signal != b.last_executed && b.size > 0
}

pub open spec fn auto_message(side: OrderSide, ticker: Seq<char>, size: Seq<char>) -> Seq<char> {
    concat(seq!["[BOT] auto "@, side.text(), " "@, ticker, " size "@, size])
}

/// The order that the bot sends.
pub open spec fn auto_order(b: BotView, ticker: Seq<char>, leverage: Amount) -> crate::orders::OrderView {
    crate::orders::OrderView {
        ticker,
        side: side_of(b.signal)->0,
        size: crate::orders::size_decimal(b.size),
        kind: TradeKind::Market,
        limit_price: 0,
        leverage,
    }
}

/// The row that the bot's order leaves in the trade log.
pub open spec fn auto_note(b: BotView) -> crate::orders::NoteView {
    crate::orders::NoteView {
        source: "bot_auto"@,
        side: (side_of(b.signal)->0).text(),
        size_str: crate::orders::size_text(b.size),
    }
}

/// The bot after it considered sending an order.
pub open spec fn after_trade(b: BotView, ticker: Seq<char>) -> BotView {
    if fires(b) {
        BotView {
            last_executed: b.signal,
            order_msg: auto_message(
                side_of(b.signal)->0,
                ticker,
                crate::orders::size_text(b.size),
            ),
            ..b
        }
    } else {
        b
    }
}

/// The bot after a run of its script.
pub open spec fn after_run(b: BotView, o: OutcomeView, ticker: Seq<char>, now: u64) -> BotView {
    match o {
        OutcomeView::Failed { error } => BotView { last_error: Some(error), last_run_ts: now, ..b },
        OutcomeView::Done { signal, size, comment } => {
            let r = BotView { last_error: None, ..with_outputs(b, signal, size, comment) };
            BotView { last_run_ts: now, ..after_trade(r, ticker) }
        },
    }
}

/// The bot with a script's variables read, before it considers an order.
pub open spec fn ran(b: BotView, o: OutcomeView) -> BotView {
    match o {
        OutcomeView::Failed { error } => b,
        OutcomeView::Done { signal, size, comment } => with_outputs(b, signal, size, comment),
    }
}

/// The order of a run, if it sends one.
pub open spec fn order_of_run(b: BotView, o: OutcomeView, ticker: Seq<char>, leverage: Amount) -> Option<
    crate::orders::OrderView,
> {
    if o is Done && fires(ran(b, o)) {
        Some(auto_order(ran(b, o), ticker, leverage))
    } else {
        None
    }
}

pub open spec fn bot_order_view(r: Option<BotOrder>) -> Option<crate::orders::OrderView> {
    match r {
        Some(r) => Some(r.cmd@),
        None => None,
    }
}

/// The bot after a run that does not trade; a failed one resets it.
pub open spec fn after_single_run(b: BotView, o: OutcomeView) -> BotView {
    match o {
        OutcomeView::Failed { error } => BotView {
            signal: "none"@,
            size: 0,
            comment: ""@,
            last_error: Some(error),
            ..b
        },
        OutcomeView::Done { signal, size, comment } => BotView {
            last_error: None,
            ..with_outputs(b, signal, size, comment)
        },
    }
}

/// The variables that a script is given.
pub open spec fn inputs(
    b: BotView,
    m: BubbleMetrics,
    ticker: Seq<char>,
    mode: Mode,
    tf_secs: i64,
    history: i64,
) -> Map<Seq<char>, ScriptValue> {
    crate::script_host::no_values()
        .insert("ticker"@, ScriptValue::Text(ticker))
        .insert("mode"@, ScriptValue::Text(mode.script_text()))
        .insert("best_bid"@, crate::script_host::amount_value(m.best_bid))
        .insert("best_ask"@, crate::script_host::amount_value(m.best_ask))
        .insert("mid"@, crate::script_host::amount_value(m.mid))
        .insert("spread"@, crate::script_host::amount_value(m.spread))
        .insert("bid_liquidity_near"@, crate::script_host::amount_value(m.bid_liq))
        .insert("ask_liquidity_near"@, crate::script_host::amount_value(m.ask_liq))
        .insert("tf_secs"@, ScriptValue::Int(tf_secs))
        .insert("history_candles"@, ScriptValue::Int(history))
        .insert("bot_signal"@, ScriptValue::Text(b.signal))
        .insert("bot_size"@, crate::script_host::amount_value(b.size))
        .insert("bot_comment"@, ScriptValue::Text(b.comment))
}

/// The variables that the script of a bot that does not trade is given.
pub open spec fn single_inputs(b: BotView, m: BubbleMetrics, ticker: Seq<char>) -> Map<Seq<char>, ScriptValue> {
    crate::script_host::no_values()
        .insert("ticker"@, ScriptValue::Text(ticker))
        .insert("best_bid"@, crate::script_host::amount_value(m.best_bid))
        .insert("best_ask"@, crate::script_host::amount_value(m.best_ask))
        .insert("mid"@, crate::script_host::amount_value(m.mid))
        .insert("spread"@, crate::script_host::amount_value(m.spread))
        .insert("bid_liquidity_near"@, crate::script_host::amount_value(m.bid_liq))
        .insert("ask_liquidity_near"@, crate::script_host::amount_value(m.ask_liq))
        .insert("bot_signal"@, ScriptValue::Text(b.signal))
        .insert("bot_size"@, crate::script_host::amount_value(b.size))
        .insert("bot_comment"@, ScriptValue::Text(b.comment))
}

/// What a script's variables say about the bot.
pub open spec fn outputs(v: Map<Seq<char>, ScriptValue>) -> OutcomeView {
    OutcomeView::Done {
        signal: crate::script_host::text_in(v, "bot_signal"@),
        size: crate::script_host::amount_in(v, "bot_size"@),
        comment: crate::script_host::text_in(v, "bot_comment"@),
    }
}

/// Whether a script that is given these variables may come to this outcome within the
/// limits of its engine.
pub open spec fn may_come_to(
    limits: crate::script_host::Limits,
    script: Seq<char>,
    given: Map<Seq<char>, ScriptValue>,
    o: OutcomeView,
) -> bool {
    exists|after: Map<Seq<char>, ScriptValue>, end: RunEnd| #[trigger]
        crate::script_host::may_end(limits, script, given, after, end) && o == (match end {
            RunEnd::Failed { error } => OutcomeView::Failed { error },
            _ => outputs(after),
        })
}

/// The variables that a script is given on a snapshot.
pub open spec fn inputs_on(
    b: BotView,
    snap: Snapshot,
    ticker: Seq<char>,
    mode: Mode,
    tf_secs: i64,
    history: i64,
) -> Map<Seq<char>, ScriptValue> {
    inputs(
        b,
        crate::metrics::bubble_metrics(snap.bids@, snap.asks@),
        ticker,
        mode,
        tf_secs,
        history,
    )
}

impl Bot {
    pub fn new() -> (r: Self)
        ensures
            r@ == idle_bot(),
    {
        Bot {
            signal: "none".to_owned(),
            size: 0,
            comment: "".to_owned(),
            auto_trade: false,
            last_executed: "none".to_owned(),
            last_error: None,
            last_run_ts: 0,
            order_msg: "".to_owned(),
        }
    }

    /// Sets the variables that a script is given.
    pub fn feed_scope_from_snapshot(
        &self,
        scope: &mut rhai::Scope<'static>,
        m: &BubbleMetrics,
        ticker: &str,
        mode: Mode,
        tf_secs: i64,
        history: i64,
    )
        requires
            crate::script_host::scope_values(*old(scope)) == crate::script_host::no_values(),
        ensures
            crate::script_host::scope_values(*final(scope)) == inputs(
                self@,
                *m,
                ticker@,
                mode,
                tf_secs,
                history,
            ),
    {
        set_text(scope, "ticker", ticker);
        set_text(scope, "mode", mode.script_name());
        set_amount(scope, "best_bid", m.best_bid);
        set_amount(scope, "best_ask", m.best_ask);
        set_amount(scope, "mid", m.mid);
        set_amount(scope, "spread", m.spread);
        set_amount(scope, "bid_liquidity_near", m.bid_liq);
        set_amount(scope, "ask_liquidity_near", m.ask_liq);
        set_int(scope, "tf_secs", tf_secs);
        set_int(scope, "history_candles", history);
        set_text(scope, "bot_signal", self.signal.as_str());
        set_amount(scope, "bot_size", self.size);
        set_text(scope, "bot_comment", self.comment.as_str());
    }

    /// Reads a script's variables into the bot.
    fn take_outputs(&mut self, signal: Option<String>, size: Option<Amount>, comment: Option<String>)
        ensures
            final(self)@ == with_outputs(
                old(self)@,
                crate::script_host::text_view(signal),
                size,
                crate::script_host::text_view(comment),
            ),
    {
        self.signal = match signal {
            Some(s) => s,
            None => "none".to_owned(),
        };
        self.size = match size {
            Some(a) => clip_negative(a),
            None => 0,
        };
        self.comment = match comment {
            Some(c) => c,
            None => "".to_owned(),
        };
    }

    /// Sends an order where the signal calls for one.
    fn auto_trade_now(&mut self, ticker: &str, leverage: Amount) -> (r: Option<BotOrder>)
        ensures
            final(self)@ == after_trade(old(self)@, ticker@),
            bot_order_view(r) == (if fires(old(self)@) {
                Some(auto_order(old(self)@, ticker@, leverage))
            } else {
                None
            }),
            r matches Some(o) ==> o.note@ == auto_note(old(self)@),
    {
        if !self.auto_trade || self.size <= 0 || same_text(
            self.signal.as_str(),
            self.last_executed.as_str(),
        ) {
            return None;
        }
        proof {
            lemma_signals_differ();
        }
        let side: OrderSide = if same_text(self.signal.as_str(), "buy") {
            OrderSide::Buy
        } else if same_text(self.signal.as_str(), "sell") {
            OrderSide::Sell
        } else {
            return None;
        };
        let (size_str, parsed) = order_size(self.size);
        let size: String = match parsed {
            Some(s) => s,
            None => {
                return None;
            },
        };
        let parts: Vec<&str> = vec![
            "[BOT] auto ",
            side.as_str(),
            " ",
            ticker,
            " size ",
            size_str.as_str(),
        ];
        assert(views(parts@) =~= seq![
            "[BOT] auto "@,
            side.text(),
            " "@,
            ticker@,
            " size "@,
            size_str@,
        ]);
        self.order_msg = cat(&parts);
        self.last_executed = self.signal.clone();
        Some(
            BotOrder {
                cmd: TradeCmd {
                    ticker: ticker.to_owned(),
                    side,
                    size,
                    kind: TradeKind::Market,
                    limit_price: 0,
                    leverage,
                },
                note: TradeNote {
                    source: "bot_auto".to_owned(),
                    side: side.as_str().to_owned(),
                    size_str,
                },
            },
        )
    }

    /// What becomes of the bot once its script ran: it reads the variables and sends an
    /// order where the signal calls for one.
    pub fn finish_run(&mut self, outcome: ScriptOutcome, ticker: &str, leverage: Amount, now: u64) -> (r:
        Option<BotOrder>)
        ensures
            final(self)@ == after_run(old(self)@, outcome@, ticker@, now),
            bot_order_view(r) == order_of_run(old(self)@, outcome@, ticker@, leverage),
            r matches Some(o) ==> o.note@ == auto_note(ran(old(self)@, outcome@)),
    {
        match outcome {
            ScriptOutcome::Failed { error } => {
                self.last_error = Some(error);
                self.last_run_ts = now;
                None
            },
            ScriptOutcome::Done { signal, size, comment } => {
                self.last_error = None;
                self.take_outputs(signal, size, comment);
                let r = self.auto_trade_now(ticker, leverage);
                self.last_run_ts = now;
                r
            },
        }
    }

    /// What becomes of a bot that does not trade once its script ran: a failed run resets
    /// it.
    pub fn finish_single_run(&mut self, outcome: ScriptOutcome)
        ensures
            final(self)@ == after_single_run(old(self)@, outcome@),
    {
        match outcome {
            ScriptOutcome::Failed { error } => {
                self.last_error = Some(error);
                self.signal = "none".to_owned();
                self.size = 0;
                self.comment = "".to_owned();
            },
            ScriptOutcome::Done { signal, size, comment } => {
                self.last_error = None;
                self.take_outputs(signal, size, comment);
            },
        }
    }

    /// Runs a script on a snapshot: it is given the bot's variables, and what it leaves
    /// behind, or its error, is handed on to the bot.
    pub(crate) fn evaluate(
        &self,
        engine: &rhai::Engine,
        script: &str,
        snap: &Snapshot,
        ticker: &str,
        mode: Mode,
        tf_secs: i64,
        history: i64,
    ) -> (r: ScriptOutcome)
        requires
            crate::script_host::tame(crate::script_host::limits_of(*engine)),
            snap.bids.wf(),
            snap.asks.wf(),
        ensures
            may_come_to(
                crate::script_host::limits_of(*engine),
                script@,
                inputs_on(self@, *snap, ticker@, mode, tf_secs, history),
                r@,
            ),
    {
        let metrics: BubbleMetrics = compute_bubble_metrics(&snap.bids, &snap.asks);
        let mut scope = new_scope();
        self.feed_scope_from_snapshot(&mut scope, &metrics, ticker, mode, tf_secs, history);
        outcome_of(engine, &mut scope, script)
    }

    /// Runs the bot's script on a snapshot. Whatever the script does, the bot ends as
    /// `finish_run` says for some outcome, and sends an order only as it says.
    pub fn run_script(
        &mut self,
        engine: &rhai::Engine,
        script: &str,
        snap: &Snapshot,
        ticker: &str,
        mode: Mode,
        tf_secs: i64,
        history: i64,
        leverage: Amount,
        now: u64,
    ) -> (r: Option<BotOrder>)
        requires
            crate::script_host::tame(crate::script_host::limits_of(*engine)),
            snap.bids.wf(),
            snap.asks.wf(),
        ensures
            exists|o: OutcomeView| #[trigger]
                may_come_to(
                    crate::script_host::limits_of(*engine),
                    script@,
                    inputs_on(old(self)@, *snap, ticker@, mode, tf_secs, history),
                    o,
                ) && final(self)@ == after_run(old(self)@, o, ticker@, now) && bot_order_view(r)
                    == order_of_run(old(self)@, o, ticker@, leverage) && (r matches Some(b) ==> b.note@
                    == auto_note(ran(old(self)@, o))),
    {
        let outcome = self.evaluate(engine, script, snap, ticker, mode, tf_secs, history);
        let r = self.finish_run(outcome, ticker, leverage, now);
        r
    }

    /// Runs the script of a bot that does not trade.
    pub fn run_script_once(&mut self, engine: &rhai::Engine, script: &str, snap: &Snapshot, ticker: &str)
        requires
            crate::script_host::tame(crate::script_host::limits_of(*engine)),
            snap.bids.wf(),
            snap.asks.wf(),
        ensures
            exists|o: OutcomeView| #[trigger]
                may_come_to(
                    crate::script_host::limits_of(*engine),
                    script@,
                    single_inputs(
                        old(self)@,
                        crate::metrics::bubble_metrics(snap.bids@, snap.asks@),
                        ticker@,
                    ),
                    o,
                ) && final(self)@ == after_single_run(old(self)@, o),
    {
        let m: BubbleMetrics = compute_bubble_metrics(&snap.bids, &snap.asks);
        let mut scope = new_scope();
        set_text(&mut scope, "ticker", ticker);
        set_amount(&mut scope, "best_bid", m.best_bid);
        set_amount(&mut scope, "best_ask", m.best_ask);
        set_amount(&mut scope, "mid", m.mid);
        set_amount(&mut scope, "spread", m.spread);
        set_amount(&mut scope, "bid_liquidity_near", m.bid_liq);
        set_amount(&mut scope, "ask_liquidity_near", m.ask_liq);
        set_text(&mut scope, "bot_signal", self.signal.as_str());
        set_amount(&mut scope, "bot_size", self.size);
        set_text(&mut scope, "bot_comment", self.comment.as_str());
        assert(crate::script_host::scope_values(scope) == single_inputs(self@, m, ticker@));
        let outcome = outcome_of(engine, &mut scope, script);
        self.finish_single_run(outcome);
    }
}

/// Runs a script and reads what it left behind.
fn outcome_of(engine: &rhai::Engine, scope: &mut rhai::Scope<'static>, script: &str) -> (r: ScriptOutcome)
    requires
        crate::script_host::tame(crate::script_host::limits_of(*engine)),
    ensures
        may_come_to(
            crate::script_host::limits_of(*engine),
            script@,
            crate::script_host::scope_values(*old(scope)),
            r@,
        ),
{
    let ghost given = crate::script_host::scope_values(*scope);
    let end = eval_unit(engine, scope, script);
    assert(crate::script_host::may_end(
        crate::script_host::limits_of(*engine),
        script@,
        given,
        crate::script_host::scope_values(*scope),
        crate::script_host::unit_end(end),
    ));
    match end {
        Ok(()) => read_bot_from_scope(scope),
        Err(error) => ScriptOutcome::Failed { error },
    }
}

/// What a script's variables say about the bot.
pub fn read_bot_from_scope(scope: &rhai::Scope<'static>) -> (r: ScriptOutcome)
    ensures
        r@ == outputs(crate::script_host::scope_values(*scope)),
{
    ScriptOutcome::Done {
        signal: get_text(scope, "bot_signal"),
        size: get_amount(scope, "bot_size"),
        comment: get_text(scope, "bot_comment"),
    }
}

proof fn lemma_signals_differ()
    ensures
        "buy"@ != "sell"@,
{
    reveal_strlit("buy");
    reveal_strlit("sell");
    assert("buy"@.len() != "sell"@.len());
}

// ---------------------------------------------------------------------------
// Laws

/// The bot never sends the same signal twice in a row: once it sent one, a run with the
/// same signal sends nothing.
pub proof fn law_no_signal_fires_twice(
    b: BotView,
    first: OutcomeView,
    second: OutcomeView,
    ticker: Seq<char>,
    leverage: Amount,
    now: u64,
)
    requires
        order_of_run(b, first, ticker, leverage) is Some,
        second is Done,
        ran(after_run(b, first, ticker, now), second).signal == ran(b, first).signal,
    ensures
        order_of_run(after_run(b, first, ticker, now), second, ticker, leverage) is None,
{
}

/// A bot that may not trade by itself never does.
pub proof fn law_no_order_without_consent(b: BotView, o: OutcomeView, ticker: Seq<char>, leverage: Amount)
    requires
        !b.auto_trade,
    ensures
        order_of_run(b, o, ticker, leverage) is None,
{
}

/// A failed run changes nothing but the error and the time of the run.
pub proof fn law_failed_run_keeps_the_bot(b: BotView, error: Seq<char>, ticker: Seq<char>, now: u64)
    ensures
        after_run(b, OutcomeView::Failed { error }, ticker, now) == (BotView {
            last_error: Some(error),
            last_run_ts: now,
            ..b
        }),
{
}

/// A size is never negative after a run.
pub proof fn law_size_is_not_negative(b: BotView, o: OutcomeView, ticker: Seq<char>, now: u64)
    requires
        b.size >= 0,
    ensures
        after_run(b, o, ticker, now).size >= 0,
        after_single_run(b, o).size >= 0,
{
}

/// The bot sends an order by itself exactly where it may, its script left a buy or a sell that
/// is not the signal it sent last, and a size above zero. The order is a market order on the
/// side of the signal, of the script's size and with the leverage of the window, and the row
/// of the trade log says the same.
pub proof fn law_the_bot_follows_its_script(
    b: BotView,
    signal: Option<Seq<char>>,
    size: Option<Amount>,
    comment: Option<Seq<char>>,
    ticker: Seq<char>,
    leverage: Amount,
    now: u64,
)
    ensures
        ({
            let o = OutcomeView::Done { signal, size, comment };
            let sent = order_of_run(b, o, ticker, leverage);
            let after = after_run(b, o, ticker, now);
            let buys = signal == Some("buy"@);
            let sells = signal == Some("sell"@);
            &&& sent is Some <==> b.auto_trade && (buys || sells) && signal != Some(b.last_executed) && (size
                matches Some(n) && n > 0)
            &&& sent matches Some(c) ==> {
                &&& c.ticker == ticker
                &&& buys ==> c.side == OrderSide::Buy
                &&& sells ==> c.side == OrderSide::Sell
                &&& c.kind is Market && c.limit_price == 0
                &&& c.leverage == leverage
                &&& crate::orders::decimal_text(crate::amount::fixed(size->0 as int, 8)) matches Some(d) ==> c.size
                    == d
                &&& Some(after.last_executed) == signal
                &&& auto_note(ran(b, o)).side == c.side.text()
                &&& auto_note(ran(b, o)).size_str == crate::amount::fixed(size->0 as int, 8)
            }
            &&& sent is None ==> after.last_executed == b.last_executed && after.order_msg == b.order_msg
            &&& after.last_error is None && after.last_run_ts == now && after.auto_trade == b.auto_trade
            &&& signal matches Some(s) ==> after.signal == s
            &&& signal is None ==> after.signal == "none"@
            &&& size matches Some(n) ==> after.size == (if n >= 0 {
                n
            } else {
                0
            })
            &&& size is None ==> after.size == 0
            &&& comment matches Some(c) ==> after.comment == c
            &&& comment is None ==> after.comment == Seq::<char>::empty()
        }),
{
    reveal_strlit("none");
    reveal_strlit("buy");
    reveal_strlit("sell");
    reveal_strlit("");
    assert("buy"@.len() == 3 && "sell"@.len() == 4 && "none"@.len() == 4);
    assert("none"@[0] == 'n' && "sell"@[0] == 's');
    assert(""@ =~= Seq::<char>::empty());
}

/// The names of the variables that a script of the bot is given are all different.
proof fn lemma_input_names()
    ensures
        "ticker"@.len() == 6 && "ticker"@[0] == 't',
        "spread"@.len() == 6 && "spread"@[0] == 's',
        "mode"@.len() == 4,
        "mid"@.len() == 3,
        "tf_secs"@.len() == 7,
        "best_bid"@.len() == 8 && "best_bid"@[5] == 'b',
        "best_ask"@.len() == 8 && "best_ask"@[5] == 'a',
        "bot_size"@.len() == 8 && "bot_size"@[5] == 'i',
        "bot_signal"@.len() == 10,
        "bot_comment"@.len() == 11,
        "history_candles"@.len() == 15,
        "bid_liquidity_near"@.len() == 18 && "bid_liquidity_near"@[0] == 'b',
        "ask_liquidity_near"@.len() == 18 && "ask_liquidity_near"@[0] == 'a',
{
    reveal_strlit("ticker");
    reveal_strlit("spread");
    reveal_strlit("mode");
    reveal_strlit("mid");
    reveal_strlit("tf_secs");
    reveal_strlit("best_bid");
    reveal_strlit("best_ask");
    reveal_strlit("bot_size");
    reveal_strlit("bot_signal");
    reveal_strlit("bot_comment");
    reveal_strlit("history_candles");
    reveal_strlit("bid_liquidity_near");
    reveal_strlit("ask_liquidity_near");
}

/// A script of the bot finds under each name what the name says: the market, the mode, the
/// figures of the book, the chart's settings, and what the bot was before.
pub proof fn law_scripts_find_what_they_look_for(
    b: BotView,
    m: BubbleMetrics,
    ticker: Seq<char>,
    mode: Mode,
    tf_secs: i64,
    history: i64,
)
    ensures
        ({
            let v = inputs(b, m, ticker, mode, tf_secs, history);
            &&& v["ticker"@] == ScriptValue::Text(ticker)
            &&& v["mode"@] == ScriptValue::Text(mode.script_text())
            &&& v["best_bid"@] == crate::script_host::amount_value(m.best_bid)
            &&& v["best_ask"@] == crate::script_host::amount_value(m.best_ask)
            &&& v["mid"@] == crate::script_host::amount_value(m.mid)
            &&& v["spread"@] == crate::script_host::amount_value(m.spread)
            &&& v["bid_liquidity_near"@] == crate::script_host::amount_value(m.bid_liq)
            &&& v["ask_liquidity_near"@] == crate::script_host::amount_value(m.ask_liq)
            &&& v["tf_secs"@] == ScriptValue::Int(tf_secs)
            &&& v["history_candles"@] == ScriptValue::Int(history)
            &&& v["bot_signal"@] == ScriptValue::Text(b.signal)
            &&& v["bot_size"@] == crate::script_host::amount_value(b.size)
            &&& v["bot_comment"@] == ScriptValue::Text(b.comment)
        }),
        ({
            let v = single_inputs(b, m, ticker);
            &&& v["ticker"@] == ScriptValue::Text(ticker)
            &&& v["best_bid"@] == crate::script_host::amount_value(m.best_bid)
            &&& v["best_ask"@] == crate::script_host::amount_value(m.best_ask)
            &&& v["mid"@] == crate::script_host::amount_value(m.mid)
            &&& v["spread"@] == crate::script_host::amount_value(m.spread)
            &&& v["bid_liquidity_near"@] == crate::script_host::amount_value(m.bid_liq)
            &&& v["ask_liquidity_near"@] == crate::script_host::amount_value(m.ask_liq)
            &&& v["bot_signal"@] == ScriptValue::Text(b.signal)
            &&& v["bot_size"@] == crate::script_host::amount_value(b.size)
            &&& v["bot_comment"@] == ScriptValue::Text(b.comment)
        }),
{
    lemma_input_names();
}

/// A script that leaves its variables as it found them leaves the bot as it was: what it
/// reads is what it writes.
pub proof fn law_outputs_are_read_where_inputs_stand(
    b: BotView,
    m: BubbleMetrics,
    ticker: Seq<char>,
    mode: Mode,
    tf_secs: i64,
    history: i64,
)
    ensures
        outputs(inputs(b, m, ticker, mode, tf_secs, history)) matches OutcomeView::Done {
            signal,
            size,
            comment,
        } && signal == Some(b.signal) && comment == Some(b.comment) && size == crate::amount::parsed_amount(
            crate::script_host::float_text(crate::amount::short(b.size as int)),
        ),
        forall|v: Map<Seq<char>, ScriptValue>, s: Seq<char>, c: Seq<char>|
            #![trigger v.insert("bot_signal"@, ScriptValue::Text(s)), v.insert("bot_comment"@, ScriptValue::Text(c))]
            outputs(v.insert("bot_signal"@, ScriptValue::Text(s)).insert("bot_comment"@, ScriptValue::Text(c)))
                matches OutcomeView::Done { signal, size, comment } && signal == Some(s) && comment == Some(c)
                && size == crate::script_host::amount_in(v, "bot_size"@),
{
    lemma_input_names();
}

/// The bot says the side, the market and the size of the order that it sent by itself.
pub proof fn law_bot_orders_are_named(side: OrderSide, ticker: Seq<char>, size: Seq<char>)
    ensures
        side is Buy ==> crate::orders::names_order(auto_message(side, ticker, size), "Buy"@, ticker, size),
        side is Sell ==> crate::orders::names_order(auto_message(side, ticker, size), "Sell"@, ticker, size),
{
    crate::orders::lemma_names_order(seq!["[BOT] auto "@, side.text(), " "@, ticker, " size "@, size], 1);
}

} // verus!
