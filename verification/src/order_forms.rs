//! The order forms of the other panels, and the orders that scripts ask for.

use crate::amount::{fixed_text, mul_amounts, short_text, Amount, ONE};
use crate::metrics::ratio;
use crate::orders::{clip_negative, order_price, order_size, LoggedCmd, OrderSide, PanelCmd, TradeCmd, TradeKind};
use crate::text::{cat, concat, contains, same_text, starts_with, views};
use vstd::prelude::*;

verus! {

// ---------------------------------------------------------------------------
// The two-kind panel

/// What the two-kind panel leads to.
#[derive(Debug)]
pub struct PanelResult {
    pub cmd: Option<PanelCmd>,
    pub message: String,
}

pub open spec fn panel_view(c: Option<PanelCmd>) -> Option<crate::orders::PanelView> {
    match c {
        Some(c) => Some(c@),
        None => None,
    }
}

pub open spec fn price_text(price: Amount) -> Seq<char> {
    crate::amount::fixed(price as int, 4)
}

pub open spec fn market_message(side: OrderSide, ticker: Seq<char>, size: Seq<char>, leverage: Amount) -> Seq<
    char,
> {
    concat(
        seq![
            "Sent MARKET "@,
            side.text(),
            " "@,
            ticker,
            " size "@,
            size,
            "x (lev "@,
            crate::amount::fixed(leverage as int, 1),
            "x). Check terminal + trades CSV."@,
        ],
    )
}

pub open spec fn limit_message(
    side: OrderSide,
    ticker: Seq<char>,
    size: Seq<char>,
    price: Seq<char>,
    leverage: Amount,
) -> Seq<char> {
    concat(
        seq![
            "Requested LIMIT "@,
            side.text(),
            " "@,
            ticker,
            " size "@,
            size,
            " @ "@,
            price,
            " (lev "@,
            crate::amount::fixed(leverage as int, 1),
            "x). NOTE: Limit wiring is placeholder, see terminal."@,
        ],
    )
}

/// The order of the two-kind panel, if there is one.
pub open spec fn panel_cmd(
    ticker: Seq<char>,
    side: OrderSide,
    kind: TradeKind,
    size_units: Amount,
    limit_price: Amount,
    leverage: Amount,
) -> Option<crate::orders::PanelView> {
    if size_units <= 0 || (kind is Limit && limit_price <= 0) {
        None
    } else {
        Some(
            crate::orders::PanelView {
                ticker,
                side,
                size: crate::orders::size_decimal(size_units),
                price: if kind is Limit {
                    Some(crate::orders::decimal_text(price_text(limit_price))->0)
                } else {
                    None
                },
                leverage,
            },
        )
    }
}

/// The order of the two-kind panel. Without a size, or with a limit order without a
/// price, there is none.
pub fn send_order(
    ticker: &str,
    side: OrderSide,
    kind: TradeKind,
    size_units: Amount,
    limit_price: Amount,
    leverage: Amount,
) -> (r: PanelResult)
    ensures
        panel_view(r.cmd) == panel_cmd(ticker@, side, kind, size_units, limit_price, leverage),
        size_units <= 0 ==> r.cmd is None && r.message@ == "Size cannot be zero"@,
        size_units > 0 && kind == TradeKind::Market ==> {
            &&& panel_view(r.cmd) == Some(
                crate::orders::PanelView {
                    ticker: ticker@,
                    side,
                    size: crate::orders::size_decimal(size_units),
                    price: None,
                    leverage,
                },
            )
            &&& r.message@ == market_message(
                side,
                ticker@,
                crate::orders::size_text(size_units),
                leverage,
            )
        },
        size_units > 0 && kind == TradeKind::Limit && limit_price <= 0 ==> r.cmd is None && r.message@
            == "Limit price must be > 0"@,
        size_units > 0 && kind == TradeKind::Limit && limit_price > 0 ==> {
            &&& panel_view(r.cmd) == Some(
                crate::orders::PanelView {
                    ticker: ticker@,
                    side,
                    size: crate::orders::size_decimal(size_units),
                    price: Some(crate::orders::decimal_text(price_text(limit_price))->0),
                    leverage,
                },
            )
            &&& r.message@ == limit_message(
                side,
                ticker@,
                crate::orders::size_text(size_units),
                price_text(limit_price),
                leverage,
            )
        },
{
    if clip_negative(size_units) == 0 {
        return PanelResult { cmd: None, message: "Size cannot be zero".to_owned() };
    }
    let (size_str, parsed) = order_size(size_units);
    let size: String = match parsed {
        Some(s) => s,
        None => {
            return PanelResult { cmd: None, message: "Invalid size".to_owned() };
        },
    };
    let lev: String = fixed_text(leverage, 1);
    match kind {
        TradeKind::Market => {
            let parts: Vec<&str> = vec![
                "Sent MARKET ",
                side.as_str(),
                " ",
                ticker,
                " size ",
                size_str.as_str(),
                "x (lev ",
                lev.as_str(),
                "x). Check terminal + trades CSV.",
            ];
            assert(views(parts@) =~= seq![
                "Sent MARKET "@,
                side.text(),
                " "@,
                ticker@,
                " size "@,
                size_str@,
                "x (lev "@,
                lev@,
                "x). Check terminal + trades CSV."@,
            ]);
            PanelResult {
                cmd: Some(PanelCmd::MarketOrder { ticker: ticker.to_owned(), side, size, leverage }),
                message: cat(&parts),
            }
        },
        TradeKind::Limit => {
            if limit_price <= 0 {
                return PanelResult { cmd: None, message: "Limit price must be > 0".to_owned() };
            }
            let (price_str, parsed_price) = order_price(limit_price);
            let price: String = match parsed_price {
                Some(p) => p,
                None => {
                    return PanelResult { cmd: None, message: "Invalid limit price".to_owned() };
                },
            };
            let parts: Vec<&str> = vec![
                "Requested LIMIT ",
                side.as_str(),
                " ",
                ticker,
                " size ",
                size_str.as_str(),
                " @ ",
                price_str.as_str(),
                " (lev ",
                lev.as_str(),
                "x). NOTE: Limit wiring is placeholder, see terminal.",
            ];
            assert(views(parts@) =~= seq![
                "Requested LIMIT "@,
                side.text(),
                " "@,
                ticker@,
                " size "@,
                size_str@,
                " @ "@,
                price_str@,
                " (lev "@,
                lev@,
                "x). NOTE: Limit wiring is placeholder, see terminal."@,
            ]);
            PanelResult {
                cmd: Some(PanelCmd::LimitOrder { ticker: ticker.to_owned(), side, size, price, leverage }),
                message: cat(&parts),
            }
        },
    }
}

// ---------------------------------------------------------------------------
// The testnet panel

pub open spec fn at_least_one(leverage: Amount) -> Amount {
    if leverage > ONE {
        leverage
    } else {
        ONE
    }
}

pub open spec fn testnet_order(ticker: Seq<char>, side: OrderSide, units: Amount, leverage: Amount) -> crate::orders::OrderView {
    crate::orders::OrderView {
        ticker,
        side,
        size: crate::orders::size_decimal(units),
        kind: TradeKind::Market,
        limit_price: 0,
        leverage: at_least_one(leverage),
    }
}

fn testnet_cmd(ticker: &str, side: OrderSide, units: Amount, leverage: Amount) -> (r: Option<TradeCmd>)
    ensures
        crate::orders::order_view(r) == Some(testnet_order(ticker@, side, units, leverage)),
{
    let (_text, parsed) = order_size(units);
    match parsed {
        Some(size) => Some(
            TradeCmd {
                ticker: ticker.to_owned(),
                side,
                size,
                kind: TradeKind::Market,
                limit_price: 0,
                leverage: if leverage > ONE {
                    leverage
                } else {
                    ONE
                },
            },
        ),
        None => None,
    }
}

/// The order of the testnet panel: there is one for every size above zero.
pub fn send_manual_order(ticker: &str, side: OrderSide, size_units: Amount, leverage: Amount) -> (r: Result<
    TradeCmd,
    String,
>)
    ensures
        match r {
            Ok(c) => size_units > 0 && c@ == testnet_order(ticker@, side, size_units, leverage),
            Err(m) => size_units <= 0 && m@ == "Size must be > 0"@,
        },
{
    if size_units <= 0 {
        return Err("Size must be > 0".to_owned());
    }
    match testnet_cmd(ticker, side, size_units, leverage) {
        Some(c) => Ok(c),
        None => Err("Invalid size".to_owned()),
    }
}

pub open spec fn manual_sent_message(ticker: Seq<char>, side: OrderSide, units: Amount, leverage: Amount) -> Seq<
    char,
> {
    concat(
        seq![
            "Sent "@,
            side.text(),
            " "@,
            ticker,
            " size "@,
            crate::orders::size_text(units),
            " lev "@,
            crate::amount::short(at_least_one(leverage) as int),
            " (see terminal)"@,
        ],
    )
}

/// What the testnet panel says once the trader's queue took the order or did not.
pub fn manual_order_message(ticker: &str, side: OrderSide, size_units: Amount, leverage: Amount, queued: bool) -> (r:
    String)
    ensures
        r@ == (if queued {
            manual_sent_message(ticker@, side, size_units, leverage)
        } else {
            "Trade channel full/busy"@
        }),
{
    if !queued {
        return "Trade channel full/busy".to_owned();
    }
    let size: String = fixed_text(clip_negative(size_units), 8);
    let lev: String = short_text(if leverage > ONE { leverage } else { ONE });
    let parts: Vec<&str> = vec![
        "Sent ",
        side.as_str(),
        " ",
        ticker,
        " size ",
        size.as_str(),
        " lev ",
        lev.as_str(),
        " (see terminal)",
    ];
    assert(views(parts@) =~= seq![
        "Sent "@,
        side.text(),
        " "@,
        ticker@,
        " size "@,
        size@,
        " lev "@,
        lev@,
        " (see terminal)"@,
    ]);
    cat(&parts)
}

/// The order that a bot's size asks for: there is one for every size above zero.
pub fn send_bot_order(ticker: &str, side: OrderSide, bot_size: Amount, leverage: Amount) -> (r: Result<
    TradeCmd,
    String,
>)
    ensures
        match r {
            Ok(c) => bot_size > 0 && c@ == testnet_order(ticker@, side, bot_size, leverage),
            Err(m) => bot_size <= 0 && m@ == "Bot size <= 0; nothing to send"@,
        },
{
    if bot_size <= 0 {
        return Err("Bot size <= 0; nothing to send".to_owned());
    }
    match testnet_cmd(ticker, side, bot_size, leverage) {
        Some(c) => Ok(c),
        None => Err("Bot size invalid".to_owned()),
    }
}

pub open spec fn bot_sent_message(
    ticker: Seq<char>,
    side: OrderSide,
    units: Amount,
    leverage: Amount,
    comment: Seq<char>,
) -> Seq<char> {
    concat(
        seq![
            "BOT "@,
            side.text(),
            " "@,
            ticker,
            " size "@,
            crate::orders::size_text(units),
            " lev "@,
            crate::amount::short(at_least_one(leverage) as int),
            " (see terminal) :: "@,
            comment,
        ],
    )
}

/// What the panel says once the trader's queue took the bot's order or did not.
pub fn bot_order_message(
    ticker: &str,
    side: OrderSide,
    bot_size: Amount,
    leverage: Amount,
    comment: &str,
    queued: bool,
) -> (r: String)
    ensures
        r@ == (if queued {
            bot_sent_message(ticker@, side, bot_size, leverage, comment@)
        } else {
            "Trade channel full/busy for bot"@
        }),
{
    if !queued {
        return "Trade channel full/busy for bot".to_owned();
    }
    let size: String = fixed_text(clip_negative(bot_size), 8);
    let lev: String = short_text(if leverage > ONE { leverage } else { ONE });
    let parts: Vec<&str> = vec![
        "BOT ",
        side.as_str(),
        " ",
        ticker,
        " size ",
        size.as_str(),
        " lev ",
        lev.as_str(),
        " (see terminal) :: ",
        comment,
    ];
    assert(views(parts@) =~= seq![
        "BOT "@,
        side.text(),
        " "@,
        ticker@,
        " size "@,
        size@,
        " lev "@,
        lev@,
        " (see terminal) :: "@,
        comment@,
    ]);
    cat(&parts)
}

/// A text in upper case.
pub uninterp spec fn upper_text(s: Seq<char>) -> Seq<char>;

/// `str::to_uppercase`: the Unicode upper-case form of the text.
pub assume_specification[ str::to_uppercase ](s: &str) -> (r: String)
    ensures
        r@ == upper_text(s@),
;

/// Whether a bot's button sends: its signal, in upper case, names the side, and its size
/// is above zero.
pub fn upper_names_side(upper: &str, side: OrderSide, bot_size: Amount) -> (r: bool)
    ensures
        r == (crate::text::contains_text(upper@, crate::orders::upper_side(side)) && bot_size > 0),
{
    let word: &str = match side {
        OrderSide::Buy => "BUY",
        OrderSide::Sell => "SELL",
    };
    contains(upper, word) && bot_size > 0
}

/// Whether a bot's button sends, whatever the case of the signal.
pub fn bot_button_sends(signal: &str, side: OrderSide, bot_size: Amount) -> (r: bool)
    ensures
        r == (crate::text::contains_text(upper_text(signal@), crate::orders::upper_side(side)) && bot_size > 0),
{
    let upper: String = signal.to_uppercase();
    upper_names_side(upper.as_str(), side, bot_size)
}

// ---------------------------------------------------------------------------
// The logging panel

pub open spec fn logged_order(
    ticker: Seq<char>,
    side: Seq<char>,
    size: Amount,
    price: Option<Amount>,
    leverage: Amount,
    source: Seq<char>,
) -> crate::orders::LoggedView {
    crate::orders::LoggedView {
        ticker,
        side,
        size,
        price,
        leverage: crate::orders::not_negative(leverage),
        source,
    }
}

/// The order of the logging panel, or why there is none.
pub fn send_manual_trade(
    ticker: &str,
    side: &str,
    is_limit: bool,
    size: Amount,
    price: Amount,
    leverage: Amount,
) -> (r: Result<LoggedCmd, String>)
    ensures
        match r {
            Ok(c) => {
                &&& size > 0
                &&& is_limit ==> price > 0
                &&& c@ == logged_order(
                    ticker@,
                    side@,
                    size,
                    if is_limit {
                        Some(price)
                    } else {
                        None
                    },
                    leverage,
                    "manual"@,
                )
            },
            Err(m) => {
                ||| size <= 0 && m@ == "Size must be > 0"@
                ||| size > 0 && is_limit && price <= 0 && m@ == "Limit price must be > 0"@
            },
        },
{
    if size <= 0 {
        return Err("Size must be > 0".to_owned());
    }
    if is_limit && price <= 0 {
        return Err("Limit price must be > 0".to_owned());
    }
    Ok(
        LoggedCmd {
            ticker: ticker.to_owned(),
            side: side.to_owned(),
            size,
            price: if is_limit {
                Some(price)
            } else {
                None
            },
            leverage: clip_negative(leverage),
            source: "manual".to_owned(),
        },
    )
}

pub open spec fn logged_message(
    head: Seq<char>,
    side: Seq<char>,
    ticker: Seq<char>,
    size: Amount,
    leverage: Amount,
    kind: Seq<char>,
) -> Seq<char> {
    concat(
        seq![
            head,
            side,
            " "@,
            ticker,
            " size "@,
            crate::amount::fixed(size as int, 6),
            " lev "@,
            crate::amount::fixed(leverage as int, 1),
            " ("@,
            kind,
            ")"@,
        ],
    )
}

fn logged_text(head: &str, side: &str, ticker: &str, size: Amount, leverage: Amount, kind: &str) -> (r: String)
    ensures
        r@ == logged_message(head@, side@, ticker@, size, leverage, kind@),
{
    let size_str: String = fixed_text(size, 6);
    let lev: String = fixed_text(leverage, 1);
    let parts: Vec<&str> = vec![
        head,
        side,
        " ",
        ticker,
        " size ",
        size_str.as_str(),
        " lev ",
        lev.as_str(),
        " (",
        kind,
        ")",
    ];
    assert(views(parts@) =~= seq![
        head@,
        side@,
        " "@,
        ticker@,
        " size "@,
        size_str@,
        " lev "@,
        lev@,
        " ("@,
        kind@,
        ")"@,
    ]);
    cat(&parts)
}

/// What the logging panel says once the queue took the order or did not.
pub fn manual_trade_message(cmd: &LoggedCmd, queued: bool) -> (r: String)
    ensures
        r@ == (if queued {
            logged_message(
                "Manual "@,
                cmd.side@,
                cmd.ticker@,
                cmd.size,
                cmd.leverage,
                if cmd.price is Some {
                    "limit"@
                } else {
                    "market"@
                },
            )
        } else {
            "Failed to send trade (channel full?)"@
        }),
{
    if queued {
        let kind: &str = if cmd.price.is_some() {
            "limit"
        } else {
            "market"
        };
        logged_text("Manual ", cmd.side.as_str(), cmd.ticker.as_str(), cmd.size, cmd.leverage, kind)
    } else {
        "Failed to send trade (channel full?)".to_owned()
    }
}

// ---------------------------------------------------------------------------
// Signals of a script

/// What a script's variables ask for.
#[derive(Debug)]
pub struct SignalRequest {
    pub signal: Option<String>,
    pub kind: Option<String>,
    pub size: Option<Amount>,
    pub leverage: Option<Amount>,
    pub price: Option<Amount>,
}

/// What becomes of a script's signal.
#[derive(Debug)]
pub enum SignalDecision {
    /// There is no signal.
    Quiet,
    /// The signal cannot be followed, for this reason.
    Refused { info: String },
    /// The order to send, and the kind that the script named.
    Send { cmd: LoggedCmd, kind: String },
}

pub open spec fn signal_side(sig: Seq<char>) -> Option<Seq<char>> {
    if crate::text::starts_with_text(sig, "buy"@) {
        Some("buy"@)
    } else if crate::text::starts_with_text(sig, "sell"@) {
        Some("sell"@)
    } else {
        None
    }
}

pub open spec fn amount_or_default(a: Option<Amount>, default: Amount) -> Amount {
    match a {
        Some(v) => v,
        None => default,
    }
}

pub open spec fn kind_or_market(kind: Option<Seq<char>>) -> Seq<char> {
    match kind {
        Some(k) => k,
        None => "market"@,
    }
}

/// Whether a signal asks for a limit order: by its kind or by its own name.
pub open spec fn wants_limit(sig: Seq<char>, kind: Seq<char>) -> bool {
    kind == "limit"@ || crate::text::contains_text(sig, "limit"@)
}

pub ghost struct RequestView {
    pub signal: Option<Seq<char>>,
    pub kind: Option<Seq<char>>,
    pub size: Option<Amount>,
    pub leverage: Option<Amount>,
    pub price: Option<Amount>,
}

pub ghost enum DecisionView {
    Quiet,
    Refused { info: Seq<char> },
    Send { cmd: crate::orders::LoggedView, kind: Seq<char> },
}

impl View for SignalRequest {
    type V = RequestView;

    open spec fn view(&self) -> RequestView {
        RequestView {
            signal: crate::script_host::text_view(self.signal),
            kind: crate::script_host::text_view(self.kind),
            size: self.size,
            leverage: self.leverage,
            price: self.price,
        }
    }
}

impl View for SignalDecision {
    type V = DecisionView;

    open spec fn view(&self) -> DecisionView {
        match self {
            SignalDecision::Quiet => DecisionView::Quiet,
            SignalDecision::Refused { info } => DecisionView::Refused { info: info@ },
            SignalDecision::Send { cmd, kind } => DecisionView::Send { cmd: cmd@, kind: kind@ },
        }
    }
}

/// What becomes of a signal that is neither missing nor `none`.
pub open spec fn decided_on(sig: Seq<char>, req: RequestView, ticker: Seq<char>) -> DecisionView {
    let size = amount_or_default(req.size, 0);
    let price = amount_or_default(req.price, 0);
    let kind = kind_or_market(req.kind);
    match signal_side(sig) {
        None => DecisionView::Refused {
            info: concat(seq!["Script: unknown signal '"@, sig, "'"@]),
        },
        Some(side) => if size <= 0 {
            DecisionView::Refused { info: "Script: signal_size <= 0, not sending"@ }
        } else if wants_limit(sig, kind) && price <= 0 {
            DecisionView::Refused { info: "Script: limit signal but price <= 0"@ }
        } else {
            DecisionView::Send {
                cmd: logged_order(
                    ticker,
                    side,
                    size,
                    if wants_limit(sig, kind) {
                        Some(price)
                    } else {
                        None
                    },
                    amount_or_default(req.leverage, ONE),
                    "script"@,
                ),
                kind,
            }
        },
    }
}

/// What becomes of a script's signal. One that is missing, empty or `none` is quiet; one
/// that is neither a buy nor a sell, has no size or is a limit without a price is refused;
/// every other one is sent.
pub open spec fn decided(req: RequestView, ticker: Seq<char>) -> DecisionView {
    match req.signal {
        None => DecisionView::Quiet,
        Some(sig) => if sig == "none"@ || sig.len() == 0 {
            DecisionView::Quiet
        } else {
            decided_on(sig, req, ticker)
        },
    }
}

/// Decides on a script's signal.
pub fn handle_script_signal(req: &SignalRequest, ticker: &str) -> (r: SignalDecision)
    ensures
        r@ == decided(req@, ticker@),
{
    let sig: &str = match &req.signal {
        Some(s) => s.as_str(),
        None => {
            return SignalDecision::Quiet;
        },
    };
    if same_text(sig, "none") || sig.is_empty() {
        return SignalDecision::Quiet;
    }
    let side: &str = if starts_with(sig, "buy") {
        "buy"
    } else if starts_with(sig, "sell") {
        "sell"
    } else {
        let parts: Vec<&str> = vec!["Script: unknown signal '", sig, "'"];
        assert(views(parts@) =~= seq!["Script: unknown signal '"@, sig@, "'"@]);
        return SignalDecision::Refused { info: cat(&parts) };
    };
    let kind: String = match &req.kind {
        Some(k) => k.clone(),
        None => "market".to_owned(),
    };
    let size: Amount = match req.size {
        Some(v) => v,
        None => 0,
    };
    if size <= 0 {
        return SignalDecision::Refused { info: "Script: signal_size <= 0, not sending".to_owned() };
    }
    let leverage: Amount = match req.leverage {
        Some(v) => clip_negative(v),
        None => ONE,
    };
    let price: Amount = match req.price {
        Some(v) => v,
        None => 0,
    };
    let limit: bool = same_text(kind.as_str(), "limit") || contains(sig, "limit");
    if limit && price <= 0 {
        return SignalDecision::Refused { info: "Script: limit signal but price <= 0".to_owned() };
    }
    SignalDecision::Send {
        cmd: LoggedCmd {
            ticker: ticker.to_owned(),
            side: side.to_owned(),
            size,
            price: if limit {
                Some(price)
            } else {
                None
            },
            leverage,
            source: "script".to_owned(),
        },
        kind,
    }
}

/// A script's order always has a size above zero, a price above zero where it has one, and
/// no negative leverage.
pub proof fn law_script_orders_are_sound(req: RequestView, ticker: Seq<char>)
    ensures
        decided(req, ticker) matches DecisionView::Send { cmd, kind } ==> {
            &&& cmd.size > 0
            &&& cmd.leverage >= 0
            &&& cmd.price matches Some(p) ==> p > 0
            &&& cmd.ticker == ticker
            &&& cmd.side == "buy"@ || cmd.side == "sell"@
        },
{
}

/// What is said once the queue took a script's order or did not.
pub fn script_order_message(cmd: &LoggedCmd, kind: &str, queued: bool) -> (r: String)
    ensures
        r@ == (if queued {
            logged_message("Script sent "@, cmd.side@, cmd.ticker@, cmd.size, cmd.leverage, kind@)
        } else {
            "Script: failed to send TradeCmd (channel full?)"@
        }),
{
    if queued {
        logged_text("Script sent ", cmd.side.as_str(), cmd.ticker.as_str(), cmd.size, cmd.leverage, kind)
    } else {
        "Script: failed to send TradeCmd (channel full?)".to_owned()
    }
}

// ---------------------------------------------------------------------------
// The preview

pub open spec fn preview(size: Amount, mid: Amount, leverage: Amount) -> Seq<char> {
    let notional = crate::amount::product(crate::orders::not_negative(size), mid);
    let lev = at_least_one(leverage);
    concat(
        seq![
            "Mid: "@,
            crate::amount::fixed(mid as int, 2),
            " | Notional \u{2248} "@,
            crate::amount::fixed(notional, 4),
            " | Implied margin @ x"@,
            crate::amount::fixed(lev as int, 1),
            " \u{2248} "@,
            crate::amount::fixed(crate::metrics::ratio_of(notional, lev as int), 4),
        ],
    )
}

/// The preview of an order at the current middle.
pub fn order_preview(size: Amount, mid: Amount, leverage: Amount) -> (r: String)
    ensures
        r@ == preview(size, mid, leverage),
{
    let notional: Amount = mul_amounts(clip_negative(size), mid);
    let lev: Amount = if leverage > ONE {
        leverage
    } else {
        ONE
    };
    let margin: Amount = ratio(notional, lev);
    let mid_str: String = fixed_text(mid, 2);
    let notional_str: String = fixed_text(notional, 4);
    let lev_str: String = fixed_text(lev, 1);
    let margin_str: String = fixed_text(margin, 4);
    let parts: Vec<&str> = vec![
        "Mid: ",
        mid_str.as_str(),
        " | Notional \u{2248} ",
        notional_str.as_str(),
        " | Implied margin @ x",
        lev_str.as_str(),
        " \u{2248} ",
        margin_str.as_str(),
    ];
    assert(views(parts@) =~= seq![
        "Mid: "@,
        mid_str@,
        " | Notional \u{2248} "@,
        notional_str@,
        " | Implied margin @ x"@,
        lev_str@,
        " \u{2248} "@,
        margin_str@,
    ]);
    cat(&parts)
}

// ---------------------------------------------------------------------------
// Laws

/// Whether a signal begins with a word.
pub open spec fn begins(sig: Seq<char>, word: Seq<char>) -> bool {
    word.len() <= sig.len() && forall|i: int| 0 <= i < word.len() ==> #[trigger] sig[i] == word[i]
}

/// Whether a word stands somewhere in a signal.
pub open spec fn mentions(sig: Seq<char>, word: Seq<char>) -> bool {
    exists|i: int| 0 <= i && i + word.len() <= sig.len() && #[trigger] sig.subrange(i, i + word.len()) == word
}

/// Whether a script asks for a limit order: it names the kind, or its signal mentions it.
pub open spec fn asks_for_limit(req: RequestView) -> bool {
    req.kind == Some("limit"@) || (req.signal matches Some(sig) && mentions(sig, "limit"@))
}

/// A script's order is sent exactly where its signal begins with a buy or a sell, its size is
/// above zero, and its price is too where it asks for a limit. What is sent is what the script
/// set: the side, the size, the leverage, and for a limit order, and only for one, the price.
pub proof fn law_scripts_get_the_order_they_ask_for(req: RequestView, ticker: Seq<char>)
    ensures
        ({
            let d = decided(req, ticker);
            let buys = req.signal matches Some(sig) && begins(sig, "buy"@);
            let sells = req.signal matches Some(sig) && begins(sig, "sell"@);
            let sized = req.size matches Some(n) && n > 0;
            let priced = req.price matches Some(p) && p > 0;
            &&& d is Send <==> (buys || sells) && sized && (asks_for_limit(req) ==> priced)
            &&& d matches DecisionView::Send { cmd, kind } ==> {
                &&& cmd.ticker == ticker
                &&& buys ==> cmd.side == "buy"@
                &&& sells ==> cmd.side == "sell"@
                &&& Some(cmd.size) == req.size
                &&& cmd.price is Some <==> asks_for_limit(req)
                &&& cmd.price is Some ==> cmd.price == req.price
                &&& req.leverage matches Some(l) ==> cmd.leverage == (if l >= 0 {
                    l
                } else {
                    0
                })
                &&& req.leverage is None ==> cmd.leverage == 100_000_000
                &&& req.kind matches Some(k) ==> kind == k
                &&& req.kind is None ==> kind == "market"@
                &&& cmd.source == "script"@
            }
            &&& d is Quiet <==> req.signal is None || req.signal == Some("none"@) || req.signal == Some(
                Seq::<char>::empty(),
            )
        }),
{
    reveal_strlit("buy");
    reveal_strlit("sell");
    reveal_strlit("none");
    reveal_strlit("market");
    reveal_strlit("limit");
    assert("market"@ != "limit"@) by {
        assert("market"@.len() != "limit"@.len());
    }
    if let Some(sig) = req.signal {
        lemma_begins(sig, "buy"@);
        lemma_begins(sig, "sell"@);
        assert(begins(sig, "buy"@) ==> sig[0] == 'b');
        assert(begins(sig, "sell"@) ==> sig[0] == 's');
        assert("none"@[0] == 'n');
        assert(sig.len() == 0 ==> sig =~= Seq::<char>::empty());
        if sig == "none"@ {
            assert(sig[0] == 'n');
        }
    }
}

proof fn lemma_begins(sig: Seq<char>, word: Seq<char>)
    ensures
        begins(sig, word) <==> crate::text::starts_with_text(sig, word),
{
    if begins(sig, word) {
        assert(sig.subrange(0, word.len() as int) =~= word);
    }
    if crate::text::starts_with_text(sig, word) {
        assert forall|i: int| 0 <= i < word.len() implies #[trigger] sig[i] == word[i] by {
            assert(sig.subrange(0, word.len() as int)[i] == word[i]);
        }
    }
}

/// Two scripts that differ in the price of their limit orders send different orders, and a
/// market order does not depend on the price.
pub proof fn law_a_price_matters_to_limits_alone(req: RequestView, price: Amount, ticker: Seq<char>)
    requires
        decided(req, ticker) is Send,
        price > 0,
    ensures
        ({
            let other = RequestView { price: Some(price), ..req };
            &&& decided(other, ticker) is Send
            &&& asks_for_limit(req) && req.price != Some(price) ==> decided(other, ticker) != decided(req, ticker)
            &&& !asks_for_limit(req) ==> decided(other, ticker) == decided(req, ticker)
        }),
{
    let other = RequestView { price: Some(price), ..req };
    law_scripts_get_the_order_they_ask_for(req, ticker);
    law_scripts_get_the_order_they_ask_for(other, ticker);
    assert(asks_for_limit(other) == asks_for_limit(req));
}

/// The two-kind panel sends an order exactly where its size is above zero, and the price of a
/// limit order too. It is for the market, with the side and the leverage of the panel, and has
/// a price exactly where it is a limit order.
pub proof fn law_the_panel_sends_what_it_shows(
    ticker: Seq<char>,
    side: OrderSide,
    kind: TradeKind,
    size: Amount,
    price: Amount,
    leverage: Amount,
)
    ensures
        ({
            let c = panel_cmd(ticker, side, kind, size, price, leverage);
            &&& c is Some <==> size > 0 && (kind is Limit ==> price > 0)
            &&& c matches Some(o) ==> {
                &&& o.ticker == ticker
                &&& o.side == side
                &&& o.leverage == leverage
                &&& o.price is Some <==> kind is Limit
                &&& crate::orders::decimal_text(crate::amount::fixed(size as int, 8)) matches Some(d) ==> o.size == d
                &&& kind is Limit ==> (crate::orders::decimal_text(crate::amount::fixed(price as int, 4)) matches Some(
                    d,
                ) ==> o.price == Some(d))
            }
        }),
{
}

/// An order of the testnet panel or of its bot is a market order of the given size, with a
/// leverage of at least one.
pub proof fn law_testnet_orders_are_market_orders(ticker: Seq<char>, side: OrderSide, units: Amount, leverage: Amount)
    ensures
        ({
            let o = testnet_order(ticker, side, units, leverage);
            &&& o.ticker == ticker && o.side == side
            &&& o.kind is Market && o.limit_price == 0
            &&& o.leverage >= 100_000_000 && o.leverage >= leverage
            &&& o.leverage == leverage || o.leverage == 100_000_000
            &&& units > 0 ==> (crate::orders::decimal_text(crate::amount::fixed(units as int, 8)) matches Some(d)
                ==> o.size == d)
        }),
{
}

/// A logged order holds what it was made of; only a negative leverage becomes zero.
pub proof fn law_logged_orders_keep_their_terms(
    ticker: Seq<char>,
    side: Seq<char>,
    size: Amount,
    price: Option<Amount>,
    leverage: Amount,
    source: Seq<char>,
)
    ensures
        ({
            let o = logged_order(ticker, side, size, price, leverage, source);
            &&& o.ticker == ticker && o.side == side && o.size == size && o.price == price && o.source == source
            &&& o.leverage >= 0 && (leverage >= 0 ==> o.leverage == leverage) && (leverage < 0 ==> o.leverage == 0)
        }),
{
}

/// The two-kind panel says the side, the market and the size of the order that it sent, its
/// leverage, and the price of a limit order.
pub proof fn law_sent_orders_are_named(side: OrderSide, ticker: Seq<char>, size: Seq<char>, price: Seq<char>, leverage: Amount)
    ensures
        side is Buy ==> crate::orders::names_order(market_message(side, ticker, size, leverage), "Buy"@, ticker, size),
        side is Sell ==> crate::orders::names_order(market_message(side, ticker, size, leverage), "Sell"@, ticker, size),
        side is Buy ==> crate::orders::names_order(limit_message(side, ticker, size, price, leverage), "Buy"@, ticker, size),
        side is Sell ==> crate::orders::names_order(limit_message(side, ticker, size, price, leverage), "Sell"@, ticker, size),
        crate::text::holds_part(limit_message(side, ticker, size, price, leverage), price),
        crate::text::holds_part(market_message(side, ticker, size, leverage), crate::amount::fixed(leverage as int, 1)),
        crate::text::holds_part(
            limit_message(side, ticker, size, price, leverage),
            crate::amount::fixed(leverage as int, 1),
        ),
{
    let lev = crate::amount::fixed(leverage as int, 1);
    let m = seq![
        "Sent MARKET "@,
        side.text(),
        " "@,
        ticker,
        " size "@,
        size,
        "x (lev "@,
        lev,
        "x). Check terminal + trades CSV."@,
    ];
    let l = seq![
        "Requested LIMIT "@,
        side.text(),
        " "@,
        ticker,
        " size "@,
        size,
        " @ "@,
        price,
        " (lev "@,
        lev,
        "x). NOTE: Limit wiring is placeholder, see terminal."@,
    ];
    crate::orders::lemma_names_order(m, 1);
    crate::orders::lemma_names_order(l, 1);
    crate::text::lemma_holds_part(m, 7);
    crate::text::lemma_holds_part(l, 7);
    crate::text::lemma_holds_part(l, 9);
}

/// The testnet panel says the side, the market, the size and the leverage of the order that
/// it sent, and the comment of a bot's order.
pub proof fn law_testnet_orders_are_named(side: OrderSide, ticker: Seq<char>, units: Amount, leverage: Amount, comment: Seq<char>)
    requires
        units >= 0,
        leverage >= ONE,
    ensures
        side is Buy ==> crate::orders::names_order(manual_sent_message(ticker, side, units, leverage), "Buy"@, ticker, crate::amount::fixed(units as int, 8)),
        side is Sell ==> crate::orders::names_order(manual_sent_message(ticker, side, units, leverage), "Sell"@, ticker, crate::amount::fixed(units as int, 8)),
        side is Buy ==> crate::orders::names_order(bot_sent_message(ticker, side, units, leverage, comment), "Buy"@, ticker, crate::amount::fixed(units as int, 8)),
        side is Sell ==> crate::orders::names_order(bot_sent_message(ticker, side, units, leverage, comment), "Sell"@, ticker, crate::amount::fixed(units as int, 8)),
        crate::text::holds_part(
            manual_sent_message(ticker, side, units, leverage),
            crate::amount::short(leverage as int),
        ),
        crate::text::holds_part(
            bot_sent_message(ticker, side, units, leverage, comment),
            crate::amount::short(leverage as int),
        ),
        crate::text::holds_part(bot_sent_message(ticker, side, units, leverage, comment), comment),
{
    let lev = crate::amount::short(at_least_one(leverage) as int);
    let size = crate::orders::size_text(units);
    let m = seq!["Sent "@, side.text(), " "@, ticker, " size "@, size, " lev "@, lev, " (see terminal)"@];
    let b = seq!["BOT "@, side.text(), " "@, ticker, " size "@, size, " lev "@, lev, " (see terminal) :: "@, comment];
    crate::orders::lemma_names_order(m, 1);
    crate::orders::lemma_names_order(b, 1);
    crate::text::lemma_holds_part(m, 7);
    crate::text::lemma_holds_part(b, 7);
    crate::text::lemma_holds_part(b, 9);
}

/// The message of a logged order names its side, market, size, leverage and kind.
pub proof fn law_logged_orders_are_named(
    head: Seq<char>,
    side: Seq<char>,
    ticker: Seq<char>,
    size: Amount,
    leverage: Amount,
    kind: Seq<char>,
)
    ensures
        ({
            let m = logged_message(head, side, ticker, size, leverage, kind);
            &&& crate::orders::names_order(m, side, ticker, crate::amount::fixed(size as int, 6))
            &&& crate::text::holds_part(m, crate::amount::fixed(leverage as int, 1))
            &&& crate::text::holds_part(m, kind)
        }),
{
    let parts = seq![
        head,
        side,
        " "@,
        ticker,
        " size "@,
        crate::amount::fixed(size as int, 6),
        " lev "@,
        crate::amount::fixed(leverage as int, 1),
        " ("@,
        kind,
        ")"@,
    ];
    crate::orders::lemma_names_order(parts, 1);
    crate::text::lemma_holds_part(parts, 7);
    crate::text::lemma_holds_part(parts, 9);
}

/// The preview shows the middle, what the order is worth at it, the leverage, and that worth
/// divided by the leverage.
pub proof fn law_previews_show_worth_and_margin(size: Amount, mid: Amount, leverage: Amount)
    requires
        0 <= size <= 1_000_000_000_000_000,
        0 <= mid <= 1_000_000_000_000_000,
        ONE <= leverage <= 1_000_000_000_000,
    ensures
        ({
            let worth = size * mid / 100_000_000;
            let margin = worth * 100_000_000 / (leverage as int);
            let text = preview(size, mid, leverage);
            &&& crate::text::holds_part(text, crate::amount::fixed(mid as int, 2))
            &&& crate::text::holds_part(text, crate::amount::fixed(worth, 4))
            &&& crate::text::holds_part(text, crate::amount::fixed(leverage as int, 1))
            &&& crate::text::holds_part(text, crate::amount::fixed(margin, 4))
        }),
{
    let notional = crate::amount::product(crate::orders::not_negative(size), mid);
    assert(0 <= size * mid <= 1_000_000_000_000_000 * 1_000_000_000_000_000) by (nonlinear_arith)
        requires
            0 <= size <= 1_000_000_000_000_000,
            0 <= mid <= 1_000_000_000_000_000,
    ;
    let worth = size * mid / 100_000_000;
    assert(notional == worth);
    assert(0 <= worth * 100_000_000 / (leverage as int) <= worth) by (nonlinear_arith)
        requires
            worth >= 0,
            leverage >= 100_000_000,
    ;
    let lev = at_least_one(leverage);
    let parts = seq![
        "Mid: "@,
        crate::amount::fixed(mid as int, 2),
        " | Notional \u{2248} "@,
        crate::amount::fixed(notional, 4),
        " | Implied margin @ x"@,
        crate::amount::fixed(lev as int, 1),
        " \u{2248} "@,
        crate::amount::fixed(crate::metrics::ratio_of(notional, lev as int), 4),
    ];
    crate::text::lemma_holds_part(parts, 1);
    crate::text::lemma_holds_part(parts, 3);
    crate::text::lemma_holds_part(parts, 5);
    crate::text::lemma_holds_part(parts, 7);
}

} // verus!
