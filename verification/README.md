# ladder_app

The logic of a trading desk for perpetual markets: order-book ladders, candles, replayed
and live logs, scripted windows and bots, order forms and the state machines that record
a market and trade on it. Every rule stands in `src/` with a contract that Verus proves.

## Layout

- `src/amount.rs`, `text.rs`, `clock.rs`: fixed-point amounts, text, timestamps.
- `src/book.rs`, `metrics.rs`, `candle_agg.rs`, `price_agg.rs`, `volume_agg.rs`: the book, what is
  read off it, and the candles.
- `src/events.rs`, `store.rs`, `snapshot.rs`, `recorder.rs`: the logs, read, replayed and written.
- `src/timeline.rs`, `timeframe.rs`, `session.rs`, `desk.rs`, `windows.rs`, `window.rs`, `start.rs`: the
  state of each window and how it moves through time.
- `src/chart.rs`, `panes.rs`, `layout.rs`, `theme.rs`, `top_bar.rs`, `trade_panel.rs`: what a window
  shows and what its controls do.
- `src/orders.rs`, `order_forms.rs`, `ledger.rs`, `trader.rs`, `live.rs`: orders, receipts, the trader
  and the live feed as machines from event to action.
- `src/script_host.rs`, `script_rules.rs`, `scripts.rs`, `bot.rs`: scripts, what they may set, and the
  bot that follows them.
- `tests/`: runs of the library on concrete values.
- `app/`: the windows, the files and the network around it.

An amount is a whole number of units of 1e-8, a ladder key one of ticks of 1e-4. Public proof
functions named `law_...` state what holds across several functions.
