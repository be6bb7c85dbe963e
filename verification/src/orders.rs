//! Orders: what the panels and the bots send, and what they say about it.

use crate::amount::{fixed_text, short_text, Amount};
use crate::text::{cat, concat, views};
use vstd::prelude::*;

verus! {

#[derive(Clone, Copy, Debug, PartialEq, Eq, Structural)]
pub enum OrderSide {
    Buy,
    Sell,
}

#[derive(Clone, Copy, Debug, PartialEq, Eq, Structural)]
pub enum TradeKind {
    Market,
    Limit,
}

/// The order type that a panel shows.
#[derive(Clone, Copy, Debug, PartialEq, Eq, Structural)]
pub enum UiOrderType {
    Market,
    Limit,
}

/// An order for the trader. The size is the text of an arbitrary-precision decimal.
#[derive(Debug)]
pub struct TradeCmd {
    pub ticker: String,
    pub side: OrderSide,
    pub size: String,
    pub kind: TradeKind,
    pub limit_price: Amount,
    pub leverage: Amount,
}

/// An order of the two-kind panel, the price of a limit order as decimal text.
#[derive(Debug)]
pub enum PanelCmd {
    MarketOrder { ticker: String, side: OrderSide, size: String, leverage: Amount },
    LimitOrder { ticker: String, side: OrderSide, size: String, price: String, leverage: Amount },
}

/// An order that is only logged, with where it came from.
#[derive(Debug)]
pub struct LoggedCmd {
    pub ticker: String,
    pub side: String,
    pub size: Amount,
    /// The price of a limit order.
    pub price: Option<Amount>,
    pub leverage: Amount,
    pub source: String,
}

/// A row for the trade log.
#[derive(Debug)]
pub struct TradeNote {
    pub source: String,
    pub side: String,
    pub size_str: String,
}

/// What a panel's button leads to: an order or none, the message, and the log row.
#[derive(Debug)]
pub struct Submission {
    pub cmd: Option<TradeCmd>,
    pub message: String,
    pub note: Option<TradeNote>,
}

/// What an order says.
pub ghost struct OrderView {
    pub ticker: Seq<char>,
    pub side: OrderSide,
    pub size: Seq<char>,
    pub kind: TradeKind,
    pub limit_price: Amount,
    pub leverage: Amount,
}

/// What an order of the two-kind panel says.
pub ghost struct PanelView {
    pub ticker: Seq<char>,
    pub side: OrderSide,
    pub size: Seq<char>,
    pub price: Option<Seq<char>>,
    pub leverage: Amount,
}

/// What a logged order says.
pub ghost struct LoggedView {
    pub ticker: Seq<char>,
    pub side: Seq<char>,
    pub size: Amount,
    pub price: Option<Amount>,
    pub leverage: Amount,
    pub source: Seq<char>,
}

/// What a row of the trade log says.
pub ghost struct NoteView {
    pub source: Seq<char>,
    pub side: Seq<char>,
    pub size_str: Seq<char>,
}

impl View for TradeCmd {
    type V = OrderView;

    open spec fn view(&self) -> OrderView {
        OrderView {
            ticker: self.ticker@,
            side: self.side,
            size: self.size@,
            kind: self.kind,
            limit_price: self.limit_price,
            leverage: self.leverage,
        }
    }
}

impl View for PanelCmd {
    type V = PanelView;

    open spec fn view(&self) -> PanelView {
        match self {
            PanelCmd::MarketOrder { ticker, side, size, leverage } => PanelView {
                ticker: ticker@,
                side: *side,
                size: size@,
                price: None,
                leverage: *leverage,
            },
            PanelCmd::LimitOrder { ticker, side, size, price, leverage } => PanelView {
                ticker: ticker@,
                side: *side,
                size: size@,
                price: Some(price@),
                leverage: *leverage,
            },
        }
    }
}

impl View for LoggedCmd {
    type V = LoggedView;

    open spec fn view(&self) -> LoggedView {
        LoggedView {
            ticker: self.ticker@,
            side: self.side@,
            size: self.size,
            price: self.price,
            leverage: self.leverage,
            source: self.source@,
        }
    }
}

impl View for TradeNote {
    type V = NoteView;

    open spec fn view(&self) -> NoteView {
        NoteView { source: self.source@, side: self.side@, size_str: self.size_str@ }
    }
}

pub open spec fn order_view(c: Option<TradeCmd>) -> Option<OrderView> {
    match c {
        Some(c) => Some(c@),
        None => None,
    }
}

pub open spec fn note_view(n: Option<TradeNote>) -> Option<NoteView> {
    match n {
        Some(n) => Some(n@),
        None => None,
    }
}

impl OrderSide {
    pub open spec fn text(self) -> Seq<char> {
        match self {
            OrderSide::Buy => "Buy"@,
            OrderSide::Sell => "Sell"@,
        }
    }

    /// The side in words.
    pub fn as_str(self) -> (r: &'static str)
        ensures
            r@ == self.text(),
    {
        match self {
            OrderSide::Buy => "Buy",
            OrderSide::Sell => "Sell",
        }
    }
}

impl TradeKind {
    pub open spec fn text(self) -> Seq<char> {
        match self {
            TradeKind::Market => "Market"@,
            TradeKind::Limit => "Limit"@,
        }
    }

    /// The kind in words.
    pub fn as_str(self) -> (r: &'static str)
        ensures
            r@ == self.text(),
    {
        match self {
            TradeKind::Market => "Market",
            TradeKind::Limit => "Limit",
        }
    }
}

impl UiOrderType {
    pub open spec fn label_text(self) -> Seq<char> {
        match self {
            UiOrderType::Market => "Market"@,
            UiOrderType::Limit => "Limit"@,
        }
    }

    pub fn label(self) -> (r: &'static str)
        ensures
            r@ == self.label_text(),
    {
        match self {
            UiOrderType::Market => "Market",
            UiOrderType::Limit => "Limit",
        }
    }
}

// ---------------------------------------------------------------------------
// Decimals

/// The text of the arbitrary-precision decimal that a text denotes, if it denotes one.
pub uninterp spec fn decimal_text(s: Seq<char>) -> Option<Seq<char>>;

/// `bigdecimal::BigDecimal::from_str`, with the `Display` text of the decimal that it
/// reads. A plain decimal number always reads.
#[verifier::external_body]
fn read_decimal(text: &str) -> (r: Option<String>)
    ensures
        crate::script_host::text_view(r) == decimal_text(text@),
        crate::amount::is_number(text@) && !crate::amount::has_exponent(text@) ==> r is Some,
{
    <bigdecimal::BigDecimal as std::str::FromStr>::from_str(text).ok().map(|value| value.to_string())
}

pub open spec fn not_negative(a: Amount) -> Amount {
    if a > 0 {
        a
    } else {
        0
    }
}

/// `a`, but nothing below zero.
pub fn clip_negative(a: Amount) -> (r: Amount)
    ensures
        r == not_negative(a),
{
    if a > 0 {
        a
    } else {
        0
    }
}

/// The text of an order's size: eight decimals, nothing below zero.
pub open spec fn size_text(units: Amount) -> Seq<char> {
    crate::amount::fixed(not_negative(units) as int, 8)
}

/// The decimal of an order's size.
pub open spec fn size_decimal(units: Amount) -> Seq<char> {
    decimal_text(size_text(units))->0
}

/// The text of an order's size, and the decimal that it denotes: there always is one.
pub fn order_size(units: Amount) -> (r: (String, Option<String>))
    ensures
        r.0@ == size_text(units),
        r.1 is Some,
        crate::script_host::text_view(r.1) == decimal_text(size_text(units)),
        crate::script_host::text_view(r.1) == Some(size_decimal(units)),
{
    let text: String = fixed_text(clip_negative(units), 8);
    proof {
        crate::amount::lemma_fixed_is_number(not_negative(units));
    }
    let decimal: Option<String> = read_decimal(text.as_str());
    (text, decimal)
}

/// The decimal of a text with four decimals: there always is one.
pub fn order_price(price: Amount) -> (r: (String, Option<String>))
    ensures
        r.0@ == crate::amount::fixed(price as int, 4),
        r.1 is Some,
        crate::script_host::text_view(r.1) == decimal_text(crate::amount::fixed(price as int, 4)),
{
    let text: String = fixed_text(price, 4);
    proof {
        crate::amount::lemma_fixed4_is_number(price);
    }
    let decimal: Option<String> = read_decimal(text.as_str());
    (text, decimal)
}

// ---------------------------------------------------------------------------
// The trading panel

pub open spec fn panel_message(kind: TradeKind, side: OrderSide, ticker: Seq<char>, size: Seq<char>) -> Seq<
    char,
> {
    concat(seq!["Sent "@, kind.text(), " "@, side.text(), " "@, ticker, " size "@, size])
}

/// What the panel's button leads to, for a size that did or did not read as a decimal.
pub fn submit_panel_order(
    ticker: &str,
    side: OrderSide,
    kind: TradeKind,
    size_str: &str,
    size: Option<String>,
    limit_price: Amount,
    leverage: Amount,
) -> (r: Submission)
    ensures
        match size {
            Some(size) => {
                &&& order_view(r.cmd) == Some(
                    OrderView { ticker: ticker@, side, size: size@, kind, limit_price, leverage },
                )
                &&& r.message@ == panel_message(kind, side, ticker@, size_str@)
                &&& note_view(r.note) == Some(
                    NoteView { source: "gui_manual"@, side: side.text(), size_str: size_str@ },
                )
            },
            None => {
                &&& r.cmd is None
                &&& r.message@ == "Invalid size for order"@
                &&& r.note is None
            },
        },
{
    match size {
        Some(size) => {
            let parts: Vec<&str> = vec![
                "Sent ",
                kind.as_str(),
                " ",
                side.as_str(),
                " ",
                ticker,
                " size ",
                size_str,
            ];
            assert(views(parts@) =~= seq![
                "Sent "@,
                kind.text(),
                " "@,
                side.text(),
                " "@,
                ticker@,
                " size "@,
                size_str@,
            ]);
            Submission {
                cmd: Some(
                    TradeCmd { ticker: ticker.to_owned(), side, size, kind, limit_price, leverage },
                ),
                message: cat(&parts),
                note: Some(
                    TradeNote {
                        source: "gui_manual".to_owned(),
                        side: side.as_str().to_owned(),
                        size_str: size_str.to_owned(),
                    },
                ),
            }
        },
        None => Submission { cmd: None, message: "Invalid size for order".to_owned(), note: None },
    }
}

/// The order of the trading panel: it is always sent.
pub fn panel_order(
    ticker: &str,
    side: OrderSide,
    kind: TradeKind,
    size_units: Amount,
    limit_price: Amount,
    leverage: Amount,
) -> (r: Submission)
    ensures
        order_view(r.cmd) == Some(
            OrderView { ticker: ticker@, side, size: size_decimal(size_units), kind, limit_price, leverage },
        ),
        r.message@ == panel_message(kind, side, ticker@, size_text(size_units)),
        note_view(r.note) == Some(
            NoteView { source: "gui_manual"@, side: side.text(), size_str: size_text(size_units) },
        ),
{
    let (size_str, size) = order_size(size_units);
    submit_panel_order(ticker, side, kind, size_str.as_str(), size, limit_price, leverage)
}

// ---------------------------------------------------------------------------
// The market buttons

pub open spec fn upper_side(side: OrderSide) -> Seq<char> {
    match side {
        OrderSide::Buy => "BUY"@,
        OrderSide::Sell => "SELL"@,
    }
}

fn upper(side: OrderSide) -> (r: &'static str)
    ensures
        r@ == upper_side(side),
{
    match side {
        OrderSide::Buy => "BUY",
        OrderSide::Sell => "SELL",
    }
}

pub open spec fn button_tag(order_type: UiOrderType) -> Seq<char> {
    match order_type {
        UiOrderType::Market => "MKT"@,
        UiOrderType::Limit => "LMT(UI)"@,
    }
}

pub open spec fn price_or_none(limit_price: Amount) -> Seq<char> {
    if limit_price > 0 {
        crate::amount::short(limit_price as int)
    } else {
        "n/a"@
    }
}

pub open spec fn flag_text(b: bool) -> Seq<char> {
    if b {
        "true"@
    } else {
        "false"@
    }
}

pub open spec fn button_message(
    order_type: UiOrderType,
    side: OrderSide,
    ticker: Seq<char>,
    size: Seq<char>,
    reduce_only: bool,
    limit_price: Amount,
) -> Seq<char> {
    concat(
        seq![
            "["@,
            button_tag(order_type),
            "] "@,
            upper_side(side),
            " "@,
            ticker,
            " size "@,
            size,
            " (exec: MARKET; reduce_only="@,
            flag_text(reduce_only),
            ", limit_price="@,
            price_or_none(limit_price),
            " [UI only])"@,
        ],
    )
}

/// What a market button leads to, for a size that did or did not read as a decimal.
pub fn submit_market_button(
    order_type: UiOrderType,
    side: OrderSide,
    ticker: &str,
    size_str: &str,
    size: Option<String>,
    reduce_only: bool,
    limit_price: Amount,
) -> (r: Submission)
    ensures
        r.note is None,
        match size {
            Some(size) => {
                &&& order_view(r.cmd) == Some(
                    OrderView {
                        ticker: ticker@,
                        side,
                        size: size@,
                        kind: TradeKind::Market,
                        limit_price: 0,
                        leverage: 0,
                    },
                )
                &&& r.message@ == button_message(
                    order_type,
                    side,
                    ticker@,
                    size_str@,
                    reduce_only,
                    limit_price,
                )
            },
            None => {
                &&& r.cmd is None
                &&& r.message@ == concat(seq!["Invalid size for "@, upper_side(side)])
            },
        },
{
    match size {
        Some(size) => {
            let tag: &str = match order_type {
                UiOrderType::Market => "MKT",
                UiOrderType::Limit => "LMT(UI)",
            };
            let flag: &str = if reduce_only {
                "true"
            } else {
                "false"
            };
            let price: String = if limit_price > 0 {
                short_text(limit_price)
            } else {
                "n/a".to_owned()
            };
            let parts: Vec<&str> = vec![
                "[",
                tag,
                "] ",
                upper(side),
                " ",
                ticker,
                " size ",
                size_str,
                " (exec: MARKET; reduce_only=",
                flag,
                ", limit_price=",
                price.as_str(),
                " [UI only])",
            ];
            assert(views(parts@) =~= seq![
                "["@,
                button_tag(order_type),
                "] "@,
                upper_side(side),
                " "@,
                ticker@,
                " size "@,
                size_str@,
                " (exec: MARKET; reduce_only="@,
                flag_text(reduce_only),
                ", limit_price="@,
                price_or_none(limit_price),
                " [UI only])"@,
            ]);
            Submission {
                cmd: Some(
                    TradeCmd {
                        ticker: ticker.to_owned(),
                        side,
                        size,
                        kind: TradeKind::Market,
                        limit_price: 0,
                        leverage: 0,
                    },
                ),
                message: cat(&parts),
                note: None,
            }
        },
        None => {
            let parts: Vec<&str> = vec!["Invalid size for ", upper(side)];
            assert(views(parts@) =~= seq!["Invalid size for "@, upper_side(side)]);
            Submission { cmd: None, message: cat(&parts), note: None }
        },
    }
}

/// A market button: its order is always sent.
pub fn market_button(
    order_type: UiOrderType,
    side: OrderSide,
    ticker: &str,
    size_units: Amount,
    reduce_only: bool,
    limit_price: Amount,
) -> (r: Submission)
    ensures
        r.note is None,
        order_view(r.cmd) == Some(
            OrderView {
                ticker: ticker@,
                side,
                size: size_decimal(size_units),
                kind: TradeKind::Market,
                limit_price: 0,
                leverage: 0,
            },
        ),
        r.message@ == button_message(
            order_type,
            side,
            ticker@,
            size_text(size_units),
            reduce_only,
            limit_price,
        ),
{
    let (size_str, size) = order_size(size_units);
    submit_market_button(order_type, side, ticker, size_str.as_str(), size, reduce_only, limit_price)
}

/// Whether a text names an order: its side, its market and its size, in this order.
pub open spec fn names_order(text: Seq<char>, side: Seq<char>, ticker: Seq<char>, size: Seq<char>) -> bool {
    exists|a: Seq<char>, b: Seq<char>| text == #[trigger] (a + (side + " "@ + ticker + " size "@ + size) + b)
}

pub proof fn lemma_names_order(parts: Seq<Seq<char>>, i: int)
    requires
        0 <= i < parts.len() - 4,
        parts[i + 1] == " "@,
        parts[i + 3] == " size "@,
    ensures
        names_order(concat(parts), parts[i], parts[i + 2], parts[i + 4]),
{
    crate::text::law_parts_stand_in_their_order(parts, i + 4);
    assert(parts.take(i + 4).drop_last() =~= parts.take(i + 3));
    assert(parts.take(i + 3).drop_last() =~= parts.take(i + 2));
    assert(parts.take(i + 2).drop_last() =~= parts.take(i + 1));
    assert(parts.take(i + 1).drop_last() =~= parts.take(i));
    let a = concat(parts.take(i));
    assert(concat(parts.take(i + 1)) == a + parts[i]);
    assert(concat(parts.take(i + 2)) == concat(parts.take(i + 1)) + parts[i + 1]);
    assert(concat(parts.take(i + 3)) == concat(parts.take(i + 2)) + parts[i + 2]);
    assert(concat(parts.take(i + 4)) == concat(parts.take(i + 3)) + parts[i + 3]);
    let b = concat(parts.skip(i + 5));
    assert(concat(parts) =~= a + (parts[i] + " "@ + parts[i + 2] + " size "@ + parts[i + 4]) + b);
}

/// The panel says the side, the market and the size of the order that it sent.
pub proof fn law_panel_messages_name_the_order(kind: TradeKind, ticker: Seq<char>, size: Seq<char>)
    ensures
        names_order(panel_message(kind, OrderSide::Buy, ticker, size), "Buy"@, ticker, size),
        names_order(panel_message(kind, OrderSide::Sell, ticker, size), "Sell"@, ticker, size),
        crate::text::holds_part(panel_message(TradeKind::Market, OrderSide::Buy, ticker, size), "Market"@),
        crate::text::holds_part(panel_message(TradeKind::Limit, OrderSide::Buy, ticker, size), "Limit"@),
{
    lemma_names_order(seq!["Sent "@, kind.text(), " "@, "Buy"@, " "@, ticker, " size "@, size], 3);
    lemma_names_order(seq!["Sent "@, kind.text(), " "@, "Sell"@, " "@, ticker, " size "@, size], 3);
    crate::text::lemma_holds_part(seq!["Sent "@, "Market"@, " "@, "Buy"@, " "@, ticker, " size "@, size], 1);
    crate::text::lemma_holds_part(seq!["Sent "@, "Limit"@, " "@, "Buy"@, " "@, ticker, " size "@, size], 1);
}

/// A market button says the side, the market and the size of the order that it sent, and the
/// price that the form shows, where it shows one.
pub proof fn law_button_messages_name_the_order(
    t: UiOrderType,
    side: OrderSide,
    ticker: Seq<char>,
    size: Seq<char>,
    reduce_only: bool,
    limit_price: Amount,
)
    ensures
        ({
            let m = button_message(t, side, ticker, size, reduce_only, limit_price);
            &&& side is Buy ==> names_order(m, "BUY"@, ticker, size)
            &&& side is Sell ==> names_order(m, "SELL"@, ticker, size)
            &&& limit_price > 0 ==> crate::text::holds_part(m, crate::amount::short(limit_price as int))
            &&& limit_price <= 0 ==> crate::text::holds_part(m, "n/a"@)
            &&& reduce_only ==> crate::text::holds_part(m, "true"@)
            &&& !reduce_only ==> crate::text::holds_part(m, "false"@)
        }),
{
    let parts = seq![
        "["@,
        button_tag(t),
        "] "@,
        upper_side(side),
        " "@,
        ticker,
        " size "@,
        size,
        " (exec: MARKET; reduce_only="@,
        flag_text(reduce_only),
        ", limit_price="@,
        price_or_none(limit_price),
        " [UI only])"@,
    ];
    lemma_names_order(parts, 3);
    crate::text::lemma_holds_part(parts, 9);
    crate::text::lemma_holds_part(parts, 11);
}

/// The size of an order is never negative: a positive one is itself, and any other is nothing.
pub proof fn law_sizes_are_not_negative(a: Amount)
    ensures
        a > 0 ==> not_negative(a) == a,
        a <= 0 ==> not_negative(a) == 0,
        crate::amount::parsed_amount(size_text(a)) == Some(not_negative(a)),
{
    crate::amount::law_fixed_reads_back(not_negative(a));
}

} // verus!
