use ladder_app::book::{BookState, Level, Quote, Side};
use ladder_app::metrics::{
    align_right, all_from_best, best_of, compute_bubble_metrics, compute_bubbles, depth_points, ladder_rows, ratio,
    DepthPoint,
};

const ONE: i128 = 100_000_000;

fn side(levels: &[(i64, i128)]) -> Side {
    let mut s = Side::new();
    for (k, v) in levels {
        s.set(*k, *v);
    }
    s
}

fn q(price: i128, size: i128) -> Quote {
    Quote { price, size }
}

#[test]
fn levels_stand_in_the_order_of_their_keys() {
    let mut s = side(&[(5, 1), (1, 2), (9, 3), (5, 7)]);
    assert_eq!(*s.levels(), vec![Level { key: 1, size: 2 }, Level { key: 5, size: 7 }, Level { key: 9, size: 3 }]);
    assert_eq!(s.highest(), Some(Level { key: 9, size: 3 }));
    assert_eq!(s.lowest(), Some(Level { key: 1, size: 2 }));
    s.remove(1);
    s.remove(4);
    assert_eq!(s.lowest(), Some(Level { key: 5, size: 7 }));
    s.clear();
    assert_eq!(s.highest(), None);
}

#[test]
fn an_update_of_size_zero_removes_a_level() {
    let mut s = Side::new();
    s.apply(q(ONE, 5));
    s.apply(q(2 * ONE, 6));
    s.apply(q(ONE, 0));
    assert_eq!(*s.levels(), vec![Level { key: 20_000, size: 6 }]);
}

#[test]
fn a_first_snapshot_replaces_the_book() {
    let mut b = BookState::new();
    b.apply_initial(&vec![q(ONE, 1)], &vec![q(3 * ONE, 1)]);
    b.apply_initial(&vec![q(2 * ONE, 4), q(ONE, 0)], &vec![q(4 * ONE, 2), q(4 * ONE, 3)]);
    assert_eq!(*b.bids.levels(), vec![Level { key: 20_000, size: 4 }]);
    assert_eq!(*b.asks.levels(), vec![Level { key: 40_000, size: 3 }]);
    assert_eq!(b.mid(), Some(3 * ONE));
}

#[test]
fn an_update_leaves_a_side_that_it_does_not_name() {
    let mut b = BookState::new();
    b.apply_initial(&vec![q(ONE, 1)], &vec![q(3 * ONE, 1)]);
    b.apply_update(&None, &Some(vec![q(3 * ONE, 0), q(5 * ONE, 2)]));
    assert_eq!(*b.bids.levels(), vec![Level { key: 10_000, size: 1 }]);
    assert_eq!(*b.asks.levels(), vec![Level { key: 50_000, size: 2 }]);
    b.apply_update(&Some(vec![q(ONE, 0)]), &None);
    assert_eq!(b.mid(), None);
    let copy = b.copy();
    assert_eq!(copy.asks.levels(), b.asks.levels());
}

#[test]
fn texts_of_the_feed_are_read() {
    assert_eq!(Quote::read("4000.5", "0.25"), q(400_050_000_000, 25_000_000));
    assert_eq!(Quote::read("?", ""), q(0, 0));
}

#[test]
fn the_metrics_of_a_book() {
    let bids = side(&[(1_000_000, 3 * ONE), (999_900, ONE)]);
    let asks = side(&[(1_000_100, 2 * ONE)]);
    let m = compute_bubble_metrics(&bids, &asks);
    assert_eq!(m.best_bid, 100 * ONE);
    assert_eq!(m.best_ask, 10_001_000_000);
    assert_eq!(m.mid, 10_000_500_000);
    assert_eq!(m.spread, 1_000_000);
    assert_eq!(m.bid_liq, 4 * ONE);
    assert_eq!(m.ask_liq, 2 * ONE);
    assert_eq!(m.imbalance, 2 * ONE);
}

#[test]
fn the_metrics_of_an_empty_book_are_zero() {
    let m = compute_bubble_metrics(&Side::new(), &side(&[(10, ONE)]));
    assert_eq!((m.best_bid, m.mid, m.spread, m.imbalance), (0, 0, 0, 0));
    assert_eq!(m.best_ask, 100_000);
}

#[test]
fn only_the_ten_best_levels_count_as_near() {
    let levels: Vec<(i64, i128)> = (1..=12).map(|k| (k, ONE)).collect();
    let m = compute_bubble_metrics(&side(&levels), &Side::new());
    assert_eq!(m.bid_liq, 10 * ONE);
}

#[test]
fn the_wall_is_the_largest_level() {
    let bids = side(&[(100, ONE), (99, 6 * ONE), (98, 2 * ONE)]);
    let b = compute_bubbles(&bids, &Side::new(), 25);
    assert_eq!(b.bid_wall.price, 990_000);
    assert_eq!(b.bid_wall.size, 6 * ONE);
    assert_eq!(b.bid_wall.score, 2 * ONE);
    assert_eq!((b.ask_wall.price, b.ask_wall.size, b.ask_wall.score), (0, 0, 0));
    let near = compute_bubbles(&bids, &Side::new(), 1);
    assert_eq!(near.bid_wall.price, 1_000_000);
}

#[test]
fn the_depth_adds_up_from_the_best_level() {
    let bids = side(&[(10, 1), (20, 2), (30, 3)]);
    assert_eq!(
        depth_points(&bids, true),
        vec![
            DepthPoint { price: 300_000, cumulative: 3 },
            DepthPoint { price: 200_000, cumulative: 5 },
            DepthPoint { price: 100_000, cumulative: 6 },
        ]
    );
    assert_eq!(depth_points(&bids, false)[0], DepthPoint { price: 100_000, cumulative: 1 });
    assert_eq!(best_of(&bids, true, 2).len(), 2);
    assert_eq!(all_from_best(&bids, false)[0].key, 10);
}

#[test]
fn ladders_are_aligned() {
    let bids = side(&[(40_000_000, 25_000_000), (39_999_900, ONE)]);
    let rows = ladder_rows(&bids, true, 1, 8);
    assert_eq!(rows.len(), 1);
    assert_eq!(rows[0].price, "  4000.00");
    assert_eq!(rows[0].size, "  0.2500");
    assert_eq!(ladder_rows(&bids, true, 5, 10)[1].size, "    1.0000");
    assert_eq!(align_right("abcdef", 3), "abcdef");
    assert_eq!(ratio(ONE, 4 * ONE), 25_000_000);
}
