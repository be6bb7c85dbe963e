//! The logic of an order-book ladder application: replaying recorded books into
//! candles, keeping the live book, reading and writing the CSV logs, deciding on
//! orders and driving the panels. Prices, sizes and volumes are exact fixed-point
//! numbers; every function states what it computes.

pub mod amount;
pub mod book;
pub mod bot;
pub mod candle_agg;
pub mod chart;
pub mod clock;
pub mod desk;
pub mod events;
pub mod layout;
pub mod ledger;
pub mod live;
pub mod metrics;
pub mod order_forms;
pub mod orders;
pub mod panes;
pub mod price_agg;
pub mod recorder;
pub mod script_host;
pub mod script_rules;
pub mod scripts;
pub mod session;
pub mod snapshot;
pub mod start;
pub mod store;
pub mod text;
pub mod theme;
pub mod timeframe;
pub mod timeline;
pub mod top_bar;
pub mod trade_panel;
pub mod trader;
pub mod volume_agg;
pub mod window;
pub mod windows;
