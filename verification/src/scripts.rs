//! The scripts that the windows start with.

use vstd::prelude::*;

verus! {

/// The first script of the bot window.
pub const BOT_SCRIPT: &'static str = r##"
// Rhai bot script.
// Inputs (set by Rust):
//   ticker:            String
//   mode:              "live" | "replay"
//   best_bid, best_ask, mid, spread: f64
//   bid_liquidity_near, ask_liquidity_near: f64
//   tf_secs, history_candles: i64
//
// Outputs (you MUST set these):
//   bot_signal  = "none" | "buy" | "sell"
//   bot_size    = positive float (units)
//   bot_comment = string

let imbalance = if ask_liquidity_near > 0.0 {
    bid_liquidity_near / ask_liquidity_near
} else {
    0.0
};

bot_signal = "none";
bot_size = 0.0;
bot_comment = "";

if imbalance > 2.5 && spread < mid * 0.0005 {
    bot_signal = "buy";
    bot_size = 0.01;
    bot_comment = "Bid bubble detected";
} else if imbalance < 0.4 && spread < mid * 0.0005 {
    bot_signal = "sell";
    bot_size = 0.01;
    bot_comment = "Ask bubble detected";
}
"##;

/// The first script of the desk.
pub const DESK_SCRIPT: &'static str = r##"
// Rhai bot script.
// Inputs:
//   ticker, mode, best_bid, best_ask, mid, spread,
//   bid_liquidity_near, ask_liquidity_near, tf_secs, history_candles
// Outputs:
//   bot_signal, bot_size, bot_comment

let imbalance = if ask_liquidity_near > 0.0 {
    bid_liquidity_near / ask_liquidity_near
} else {
    0.0
};

bot_signal = "none";
bot_size = 0.0;
bot_comment = "";

if imbalance > 2.5 && spread < mid * 0.0005 {
    bot_signal = "buy";
    bot_size = 0.01;
    bot_comment = "Bid bubble detected";
} else if imbalance < 0.4 && spread < mid * 0.0005 {
    bot_signal = "sell";
    bot_size = 0.01;
    bot_comment = "Ask bubble detected";
}
"##;

/// The first script of a bot that does not trade.
pub const SINGLE_SCRIPT: &'static str = r##"
// Rhai bot script.
//
// Inputs set by Rust:
//   best_bid, best_ask, mid, spread, bid_liquidity_near, ask_liquidity_near
//
// Outputs:
//   bot_signal  = "none" | "buy" | "sell"
//   bot_size    = f64
//   bot_comment = string

let imbalance = if ask_liquidity_near > 0.0 {
    bid_liquidity_near / ask_liquidity_near
} else {
    0.0
};

bot_signal = "none";
bot_size = 0.0;
bot_comment = "";

if imbalance > 2.5 && spread < mid * 0.0005 {
    bot_signal = "buy";
    bot_size = 0.01;
    bot_comment = "Bid bubble detected";
} else if imbalance < 0.4 && spread < mid * 0.0005 {
    bot_signal = "sell";
    bot_size = 0.01;
    bot_comment = "Ask bubble detected";
}
"##;

/// The first script of the script window.
pub const WINDOW_SCRIPT: &'static str = r##"
// === Rhai script ===
// See Rust header for full list of inputs/outputs.

// Example: simple ETH-USD breakout bot + UI tweaks

signal = "none";

if mode == "live" && ticker == "ETH-USD" {

    // UI preferences
    tf        = 60;      // 1m candles
    history   = 300;
    auto_y    = true;
    theme     = "dark";
    show_depth   = true;
    show_ladders = true;
    show_trades  = true;
    show_volume  = true;

    let breakout_up   = 4500.0;
    let breakout_down = 4400.0;
    let sz            = 0.01;
    let lev           = 3.0;

    if last_price > breakout_up && spread < 5.0 {
        signal          = "buy";
        signal_kind     = "market";
        signal_size     = sz;
        signal_leverage = lev;
    } else if last_price < breakout_down && spread < 5.0 {
        signal          = "sell";
        signal_kind     = "market";
        signal_size     = sz;
        signal_leverage = lev;
    }
}
"##;

/// The first script of the object window.
pub const OBJECT_SCRIPT: &'static str = r##"
// Example script for layout + bot signal
//
// Inputs:
//   last_close, last_volume, mid, mode, ticker,
//   bot_signal_prev, bot_size_prev
//
// Return a map #{ ... } with any of:
//
//   tf: 30|60|180|300
//   history: number of candles
//   auto_y: bool
//   y_min, y_max: floats
//   show_depth, show_ladders, show_trades, show_volume: bool
//   reload_secs: float
//   theme: "Dark" | "Light" | "Ocean" | "Matrix" | "Pastel"
//   bot_signal: string
//   bot_size: float

let signal = "";
let size = 0.0;

if mode == "live" && last_close > mid {
    signal = "buy";
    size = 0.01;
} else if mode == "live" && last_close < mid {
    signal = "sell";
    size = 0.01;
}

#{ tf: 60,
   history: 200,
   auto_y: true,
   show_depth: true,
   show_ladders: true,
   show_trades: true,
   show_volume: true,
   reload_secs: 5.0,
   theme: "Dark",
   bot_signal: signal,
   bot_size: size }
"##;

/// The first script of the context window.
pub const CONTEXT_SCRIPT: &'static str = r##"
// Example script:
//
//  - Reads ctx map
//  - Tweaks some UI params
//  - Emits a bot signal when mid > 4000
//
// Everything is optional; if you don't set a variable, the GUI keeps its own value.

let mid      = ctx["mid"];
let tf_now   = ctx["tf"];
let history_now = ctx["history"];

if mid > 0.0 {
    // make things a bit denser in replay/live
    tf       = tf_now;       // keep same tf
    history  = history_now;  // keep same history

    auto_y        = true;
    show_depth    = true;
    show_ladders  = true;
    show_trades   = true;
    show_volume   = true;
    reload_secs   = 3.0;

    if ctx["mode"] == "live" && mid > 4000.0 {
        bot_signal  = "BUY";
        bot_size    = 0.01;
        bot_comment = "mid > 4000";
    } else {
        bot_signal = "FLAT";
        bot_size   = 0.0;
    }
}
"##;

/// The first script of the wall window.
pub const WALL_SCRIPT: &'static str = r##"
// ===== Orderbook Bubble Detector Bot =====
//
// Reads:
//   ctx["mode"], ctx["ticker"], ctx["mid"], ctx["last_vol"]
//   ctx["best_bid"], ctx["best_ask"]
//   ctx["bid_wall_price"], ctx["bid_wall_size"], ctx["bid_wall_score"]
//   ctx["ask_wall_price"], ctx["ask_wall_size"], ctx["ask_wall_score"]
//
// Controls:
//   auto_y, show_depth, show_ladders, show_trades, show_volume, reload_secs
//
// Emits:
//   bot_signal, bot_size, bot_comment
// =========================================

let mode      = ctx["mode"];
let ticker    = ctx["ticker"];
let mid       = ctx["mid"];
let last_vol  = ctx["last_vol"];

let best_bid       = ctx["best_bid"];
let best_ask       = ctx["best_ask"];
let bid_wp         = ctx["bid_wall_price"];
let bid_ws         = ctx["bid_wall_size"];
let bid_score      = ctx["bid_wall_score"];
let ask_wp         = ctx["ask_wall_price"];
let ask_ws         = ctx["ask_wall_size"];
let ask_score      = ctx["ask_wall_score"];

// defaults
auto_y      = true;
show_depth   = true;
show_ladders = true;
show_trades  = true;
show_volume  = true;
reload_secs  = 2.0;

bot_signal  = "FLAT";
bot_size    = 0.0;
bot_comment = "idle";

if mode != "live" {
    bot_comment = "not live mode";
    return;
}

if mid <= 0.0 || best_bid <= 0.0 || best_ask <= 0.0 {
    bot_comment = "bad mid / best prices";
    return;
}

// parameters
let score_th    = 2.5;
let base_min_sz = 5.0;
let max_dist_pct = 0.2;

let bid_min_sz = base_min_sz;
let ask_min_sz = base_min_sz;

if ticker == "BTC-USD" {
    bid_min_sz = 0.01;
    ask_min_sz = 0.01;
} else if ticker == "ETH-USD" {
    bid_min_sz = 0.1;
    ask_min_sz = 0.1;
} else if ticker == "SOL-USD" {
    bid_min_sz = 5.0;
    ask_min_sz = 5.0;
}

fn dist_pct(price, mid) {
    if mid <= 0.0 { return 9999.0; }
    return (price - mid).abs() * 100.0 / mid;
}

let bid_pct = dist_pct(bid_wp, mid);
let ask_pct = dist_pct(ask_wp, mid);

let has_bid = bid_score >= score_th && bid_ws >= bid_min_sz && bid_pct <= max_dist_pct;
let has_ask = ask_score >= score_th && ask_ws >= ask_min_sz && ask_pct <= max_dist_pct;

if !has_bid && !has_ask {
    bot_signal  = "FLAT";
    bot_size    = 0.0;
    bot_comment = "no strong bubbles";
    return;
}

let sug_size = if ticker == "BTC-USD" {
    0.002
} else if ticker == "ETH-USD" {
    0.05
} else if ticker == "SOL-USD" {
    2.0
} else {
    1.0
};

if has_bid && has_ask {
    bot_signal = "BOTH_BUBBLES";
    bot_size   = 0.0;
    bot_comment = `Both sides bubble: BID @ ${bid_wp} (size=${bid_ws},score=${bid_score}), \
ASK @ ${ask_wp} (size=${ask_ws},score=${ask_score}), mid=${mid}`;
    return;
}

if has_bid {
    bot_signal = "BID_BUBBLE";
    bot_size   = sug_size;
    bot_comment = `BID bubble @ ${bid_wp} (size=${bid_ws},score=${bid_score},dist=${bid_pct}%), mid=${mid}`;
    return;
}

if has_ask {
    bot_signal = "ASK_BUBBLE";
    bot_size   = sug_size;
    bot_comment = `ASK bubble @ ${ask_wp} (size=${ask_ws},score=${ask_score},dist=${ask_pct}%), mid=${mid}`;
    return;
}
"##;

/// The first script of the grid window.
pub const GRID_SCRIPT: &'static str = r##"// Example bot script (Rhai)
// Available: mid, best_bid, best_ask, tf, history
// Return a map: #{ tf: 60, history: 300, auto_y: true, signal: "none", size: 0.0 }

let out = #{};

// change tf based on volatility
if mid > 0.0 {
    out.tf = 60;
    out.history = 300;
    out.auto_y = true;
}

// simple bubble detector: big gap between best bid and best ask
if best_ask - best_bid > mid * 0.001 {
    out.signal = "bubble";
    out.size = 0.01;
    out.comment = "Spread wider than 0.1%";    
}

out;"##;

/// The script that the grid window goes back to.
pub const GRID_EXAMPLE: &'static str = r##"// Example bot script (Rhai)
// Available: mid, best_bid, best_ask, tf, history
// Return a map: #{ tf: 60, history: 300, auto_y: true, signal: "none", size: 0.0 }

let out = #{};

if mid > 0.0 {
out.tf = 60;
out.history = 300;
out.auto_y = true;
}

if best_ask - best_bid > mid * 0.001 {
out.signal = "bubble";
out.size = 0.01;
out.comment = "Spread wider than 0.1%";
}

out;
"##;

/// The script that the context window starts with.
pub fn default_script_text() -> (r: String)
    ensures
        r@ == CONTEXT_SCRIPT@,
{
    CONTEXT_SCRIPT.to_owned()
}

/// The script that the wall window starts with.
pub fn default_rhai_script() -> (r: String)
    ensures
        r@ == WALL_SCRIPT@,
{
    WALL_SCRIPT.to_owned()
}

} // verus!
