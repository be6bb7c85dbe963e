//! The trading panels: what their controls set, and the orders of their buttons.

use crate::amount::{clamp_units, Amount, ONE};
use crate::orders::{clip_negative, OrderSide, TradeKind};
use crate::top_bar::WindowKind;
use vstd::prelude::*;

verus! {

/// The largest size that a panel takes.
pub const MAX_SIZE: Amount = 100_000_000_000;

/// The largest price that the live panels take.
pub const MAX_PRICE: Amount = 100_000_000_000_000;

/// What a panel holds.
#[derive(Clone, Copy, Debug, PartialEq, Eq, Structural)]
pub struct TradePanel {
    pub side: OrderSide,
    pub kind: TradeKind,
    pub size: Amount,
    pub leverage: Amount,
    pub limit_price: Amount,
    pub reduce_only: bool,
}

/// What the user does.
#[derive(Clone, Copy, Debug, PartialEq, Eq, Structural)]
pub enum PanelEvent {
    Side { side: OrderSide },
    Kind { kind: TradeKind },
    Size { units: Amount },
    Leverage { factor: Amount },
    LimitPrice { price: Amount },
    ReduceOnly { on: bool },
    /// Takes over the size of the bot.
    UseBotSize { units: Amount },
}

/// The leverage that a window's panel starts with.
pub open spec fn first_leverage(window: WindowKind) -> Amount {
    match window {
        WindowKind::Script => ONE,
        _ => 500_000_000,
    }
}

/// The smallest and the largest leverage of a window's panel.
pub open spec fn leverage_range(window: WindowKind) -> (Amount, Amount) {
    match window {
        WindowKind::Script => (0, 10_000_000_000),
        _ => (ONE, 5_000_000_000),
    }
}

/// The limit price that a window's panel takes over: the live panels keep it in range.
pub open spec fn limit_taken(window: WindowKind, price: Amount) -> Amount {
    match window {
        WindowKind::Feed | WindowKind::Panel => crate::amount::clamp_amount(price, 0, MAX_PRICE),
        _ => price,
    }
}

/// Whether a window's panel has a control.
pub open spec fn has_control(window: WindowKind, e: PanelEvent) -> bool {
    match e {
        PanelEvent::Side { side } => window is Bot,
        PanelEvent::Kind { kind } => window is Feed || window is Panel || window is Script || window is Bot,
        PanelEvent::LimitPrice { price } => window is Feed || window is Panel || window is Script
            || window is Bot,
        PanelEvent::ReduceOnly { on } => window is Feed || window is Panel,
        PanelEvent::UseBotSize { units } => window is Bot,
        _ => window is Feed || window is Panel || window is Script || window is Context || window is Bot,
    }
}

/// The panel after a control. The limit price is shown for limit orders only, and the bot's
/// size counts where it is above zero.
pub open spec fn panel_after(window: WindowKind, p: TradePanel, e: PanelEvent) -> TradePanel {
    if !has_control(window, e) {
        p
    } else {
        match e {
            PanelEvent::Side { side } => TradePanel { side, ..p },
            PanelEvent::Kind { kind } => TradePanel { kind, ..p },
            PanelEvent::Size { units } => TradePanel {
                size: crate::amount::clamp_amount(units, 0, MAX_SIZE),
                ..p
            },
            PanelEvent::Leverage { factor } => TradePanel {
                leverage: crate::amount::clamp_amount(
                    factor,
                    leverage_range(window).0,
                    leverage_range(window).1,
                ),
                ..p
            },
            PanelEvent::LimitPrice { price } => if p.kind is Limit {
                TradePanel { limit_price: limit_taken(window, price), ..p }
            } else {
                p
            },
            PanelEvent::ReduceOnly { on } => TradePanel { reduce_only: on, ..p },
            PanelEvent::UseBotSize { units } => if units > 0 {
                TradePanel { size: units, ..p }
            } else {
                p
            },
        }
    }
}

impl TradePanel {
    /// The panel of a window at the start.
    pub fn new(window: WindowKind) -> (r: Self)
        ensures
            r == (TradePanel {
                side: OrderSide::Buy,
                kind: TradeKind::Market,
                size: 1_000_000,
                leverage: first_leverage(window),
                limit_price: 0,
                reduce_only: false,
            }),
    {
        TradePanel {
            side: OrderSide::Buy,
            kind: TradeKind::Market,
            size: 1_000_000,
            leverage: match window {
                WindowKind::Script => ONE,
                _ => 500_000_000,
            },
            limit_price: 0,
            reduce_only: false,
        }
    }

    /// Whether a window's panel has a control.
    fn has(window: WindowKind, e: &PanelEvent) -> (r: bool)
        ensures
            r == has_control(window, *e),
    {
        match e {
            PanelEvent::Side { .. } | PanelEvent::UseBotSize { .. } => matches!(window, WindowKind::Bot),
            PanelEvent::Kind { .. } | PanelEvent::LimitPrice { .. } => matches!(
                window,
                WindowKind::Feed | WindowKind::Panel | WindowKind::Script | WindowKind::Bot
            ),
            PanelEvent::ReduceOnly { .. } => matches!(window, WindowKind::Feed | WindowKind::Panel),
            _ => matches!(
                window,
                WindowKind::Feed | WindowKind::Panel | WindowKind::Script | WindowKind::Context
                | WindowKind::Bot
            ),
        }
    }

    /// Does what the user asked for.
    pub fn handle(&mut self, window: WindowKind, e: &PanelEvent)
        ensures
            *final(self) == panel_after(window, *old(self), *e),
    {
        if !Self::has(window, e) {
            return;
        }
        match e {
            PanelEvent::Side { side } => {
                self.side = *side;
            },
            PanelEvent::Kind { kind } => {
                self.kind = *kind;
            },
            PanelEvent::Size { units } => {
                self.size = clamp_units(*units, 0, MAX_SIZE);
            },
            PanelEvent::Leverage { factor } => {
                self.leverage = match window {
                    WindowKind::Script => clamp_units(*factor, 0, 10_000_000_000),
                    _ => clamp_units(*factor, ONE, 5_000_000_000),
                };
            },
            PanelEvent::LimitPrice { price } => {
                if matches!(self.kind, TradeKind::Limit) {
                    self.limit_price = match window {
                        WindowKind::Feed | WindowKind::Panel => clamp_units(*price, 0, MAX_PRICE),
                        _ => *price,
                    };
                }
            },
            PanelEvent::ReduceOnly { on } => {
                self.reduce_only = *on;
            },
            PanelEvent::UseBotSize { units } => {
                if *units > 0 {
                    self.size = *units;
                }
            },
        }
    }

    /// The size that the panel's buttons send.
    pub fn sent_size(&self) -> (r: Amount)
        ensures
            r == crate::orders::not_negative(self.size),
    {
        clip_negative(self.size)
    }
}

// ---------------------------------------------------------------------------
// Laws

/// Whatever the user does, a panel holds a size and a leverage that are not negative, once
/// it does.
pub proof fn law_panels_stay_sound(window: WindowKind, p: TradePanel, e: PanelEvent)
    requires
        p.size >= 0,
        p.leverage >= 0,
    ensures
        panel_after(window, p, e).size >= 0,
        panel_after(window, p, e).leverage >= 0,
{
}

/// A control of a panel sets what it names and nothing else: the side, the kind, the size and
/// the leverage within their bounds, the price of a limit order, and the flag.
pub proof fn law_panel_controls_set_what_they_name(
    window: WindowKind,
    p: TradePanel,
    side: OrderSide,
    kind: TradeKind,
    a: Amount,
    on: bool,
)
    ensures
        window is Bot ==> panel_after(window, p, PanelEvent::Side { side }) == (TradePanel { side, ..p }),
        window is Feed || window is Panel || window is Script || window is Bot ==> {
            &&& panel_after(window, p, PanelEvent::Kind { kind }) == (TradePanel { kind, ..p })
            &&& p.kind is Market ==> panel_after(window, p, PanelEvent::LimitPrice { price: a }) == p
            &&& p.kind is Limit && 0 <= a <= MAX_PRICE ==> panel_after(window, p, PanelEvent::LimitPrice { price: a })
                == (TradePanel { limit_price: a, ..p })
        },
        window is Feed || window is Panel || window is Script || window is Context || window is Bot ==> {
            let sized = panel_after(window, p, PanelEvent::Size { units: a });
            let levered = panel_after(window, p, PanelEvent::Leverage { factor: a });
            &&& sized == (TradePanel { size: sized.size, ..p })
            &&& 0 <= a <= MAX_SIZE ==> sized.size == a
            &&& a < 0 ==> sized.size == 0
            &&& a > MAX_SIZE ==> sized.size == MAX_SIZE
            &&& levered == (TradePanel { leverage: levered.leverage, ..p })
            &&& 100_000_000 <= a <= 5_000_000_000 ==> levered.leverage == a
        },
        window is Feed || window is Panel ==> panel_after(window, p, PanelEvent::ReduceOnly { on }) == (TradePanel {
            reduce_only: on,
            ..p
        }),
        window is Bot && a > 0 ==> panel_after(window, p, PanelEvent::UseBotSize { units: a }) == (TradePanel {
            size: a,
            ..p
        }),
        window is Bot && a <= 0 ==> panel_after(window, p, PanelEvent::UseBotSize { units: a }) == p,
{
}

} // verus!
