use ladder_app::candle_agg::{Candle, CandleAgg};
use ladder_app::price_agg;
use ladder_app::timeframe::{
    chart_tf_list, grid_tf_choices, menu_label, panel_tf_choices, short_tfs, tf_choices, tf_label, tf_opts,
};
use ladder_app::volume_agg;
use ladder_app::window::{keep_newest, push_bounded};

const ONE: i128 = 100_000_000;

#[test]
fn ticks_make_candles() {
    let mut agg = CandleAgg::new(60);
    agg.update(61, 10 * ONE, ONE);
    agg.update(65, 12 * ONE, 2 * ONE);
    agg.update(119, 9 * ONE, 0);
    agg.update(120, 11 * ONE, ONE);
    assert_eq!(agg.tf(), 60);
    assert_eq!(
        *agg.series(),
        vec![
            Candle { t: 60, open: 10 * ONE, high: 12 * ONE, low: 9 * ONE, close: 9 * ONE, volume: 3 * ONE },
            Candle { t: 120, open: 11 * ONE, high: 11 * ONE, low: 11 * ONE, close: 11 * ONE, volume: ONE },
        ]
    );
}

#[test]
fn ticks_keep_the_shape_of_candles() {
    let mut agg = CandleAgg::new(5);
    for i in 0..50u64 {
        agg.update(i, ((i * 7) % 11) as i128, 1);
    }
    let mut total = 0;
    for c in agg.series() {
        assert!(c.low <= c.open && c.open <= c.high && c.low <= c.close && c.close <= c.high);
        assert_eq!(c.t % 5, 0);
        total += c.volume;
    }
    assert_eq!(total, 50);
    assert!(agg.series().windows(2).all(|w| w[0].t < w[1].t));
}

#[test]
fn a_tick_of_an_older_bucket_opens_a_new_candle() {
    let mut agg = CandleAgg::new(60);
    agg.update(120, ONE, 0);
    agg.update(60, ONE, 0);
    let times: Vec<u64> = agg.series().iter().map(|c| c.t).collect();
    assert_eq!(times, vec![120, 60]);
}

#[test]
fn candles_read_back_from_their_log() {
    let mut agg = CandleAgg::new(60);
    agg.update(61, 1_050_000_000, 3);
    agg.update(185, 99, ONE);
    let lines = agg.save_to_csv();
    assert_eq!(lines[0], "ts,tf_secs,open,high,low,close,volume");
    assert_eq!(lines[1], "60,60,10.50000000,10.50000000,10.50000000,10.50000000,0.00000003");
    let mut back = CandleAgg::new(60);
    back.load_from_csv(&lines);
    assert_eq!(back.series(), agg.series());
    let mut other = CandleAgg::new(30);
    other.load_from_csv(&lines);
    assert!(other.series().is_empty());
}

#[test]
fn a_log_is_read_leniently() {
    let lines: Vec<String> = [
        "60,60,1,2,0.5,1.5,7",
        "ts,60,1,2,3,4,5",
        "x,60,1,2,3,4,5",
        "120,60,1,2,3,4",
        "180,60,bad,2,bad,4,bad",
    ]
    .iter()
    .map(|s| s.to_string())
    .collect();
    let mut agg = CandleAgg::new(60);
    agg.load_from_csv(&lines);
    assert_eq!(
        *agg.series(),
        vec![
            Candle { t: 60, open: ONE, high: 2 * ONE, low: ONE / 2, close: 150_000_000, volume: 7 * ONE },
            Candle { t: 180, open: 0, high: 2 * ONE, low: 0, close: 4 * ONE, volume: 0 },
        ]
    );
}

#[test]
fn the_series_can_be_changed_from_outside() {
    let mut agg = CandleAgg::new(60);
    agg.push_candle(Candle { t: 1, open: 1, high: 1, low: 1, close: 1, volume: 1 });
    agg.series_mut().clear();
    assert!(agg.series().is_empty());
}

#[test]
fn the_price_aggregator_closes_candles() {
    let mut agg = price_agg::CandleAgg::new(10);
    assert_eq!(agg.bucket_start(19), 10);
    agg.update(11, 5);
    agg.update(19, 7);
    agg.update(20, 6);
    let s = agg.get_series();
    assert_eq!(s.len(), 2);
    assert_eq!(s[0], price_agg::Candle { t: 10, open: 5, high: 7, low: 5, close: 7 });
    assert_eq!(s[1], price_agg::Candle { t: 20, open: 6, high: 6, low: 6, close: 6 });
}

#[test]
fn the_price_aggregator_is_bounded() {
    let mut agg = price_agg::CandleAgg::new(1);
    for i in 0..2100u64 {
        agg.update(i, i as i128);
    }
    let s = agg.get_series();
    assert_eq!(s.len(), 2001);
    assert_eq!(s[s.len() - 1].t, 2099);
    assert_eq!(s[0].t, 99);
}

#[test]
fn the_volume_aggregator_counts_no_negative_volume() {
    let mut agg = volume_agg::CandleAgg::new(10);
    assert_eq!(agg.bucket_start(9), 0);
    agg.update(11, 5, 3);
    agg.update(12, 4, -9);
    agg.update(13, 6, 2);
    let s = agg.get_series();
    assert_eq!(s, vec![volume_agg::Candle { t: 10, open: 5, high: 6, low: 4, close: 6, volume: 5 }]);
}

#[test]
fn the_newest_elements_stay() {
    let mut v = vec![1, 2, 3];
    push_bounded(&mut v, 4, 3);
    assert_eq!(v, vec![2, 3, 4]);
    keep_newest(&mut v, 2);
    assert_eq!(v, vec![3, 4]);
    keep_newest(&mut v, 5);
    assert_eq!(v, vec![3, 4]);
}

#[test]
fn periods_have_labels() {
    assert_eq!(tf_label(1), "1s");
    assert_eq!(tf_label(60), "1m");
    assert_eq!(tf_label(7200), "2h");
    assert_eq!(tf_label(86400), "1d");
    assert_eq!(tf_label(61), "custom");
    assert_eq!(tf_choices().len(), 18);
    assert_eq!(panel_tf_choices().len(), 12);
    assert_eq!(chart_tf_list().len(), 16);
    assert_eq!(grid_tf_choices().len(), 14);
    assert_eq!(tf_opts().len(), 13);
    assert_eq!(short_tfs(), vec![30, 60, 180, 300]);
    assert_eq!(menu_label(&tf_opts(), 60), "1m");
    assert_eq!(menu_label(&tf_opts(), 120), "custom");
}
