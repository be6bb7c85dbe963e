//! The periods of candles, and their labels.

use vstd::prelude::*;

verus! {

/// The label of a period.
pub open spec fn label_of(tf: u64) -> Seq<char> {
    if tf == 1 {
        "1s"@
    } else if tf == 5 {
        "5s"@
    } else if tf == 10 {
        "10s"@
    } else if tf == 15 {
        "15s"@
    } else if tf == 30 {
        "30s"@
    } else if tf == 60 {
        "1m"@
    } else if tf == 120 {
        "2m"@
    } else if tf == 180 {
        "3m"@
    } else if tf == 300 {
        "5m"@
    } else if tf == 600 {
        "10m"@
    } else if tf == 900 {
        "15m"@
    } else if tf == 1800 {
        "30m"@
    } else if tf == 3600 {
        "1h"@
    } else if tf == 7200 {
        "2h"@
    } else if tf == 14400 {
        "4h"@
    } else if tf == 28800 {
        "8h"@
    } else if tf == 43200 {
        "12h"@
    } else if tf == 86400 {
        "1d"@
    } else {
        "custom"@
    }
}

/// The label of a period; one without a label of its own is custom.
pub fn tf_label(tf: u64) -> (r: &'static str)
    ensures
        r@ == label_of(tf),
{
    match tf {
        1 => "1s",
        5 => "5s",
        10 => "10s",
        15 => "15s",
        30 => "30s",
        60 => "1m",
        120 => "2m",
        180 => "3m",
        300 => "5m",
        600 => "10m",
        900 => "15m",
        1800 => "30m",
        3600 => "1h",
        7200 => "2h",
        14400 => "4h",
        28800 => "8h",
        43200 => "12h",
        86400 => "1d",
        _ => "custom",
    }
}

/// The periods of the recorder and of the live chart.
pub fn tf_choices() -> (r: Vec<u64>)
    ensures
        r@ == seq![1u64, 5u64, 10u64, 15u64, 30u64, 60u64, 120u64, 180u64, 300u64, 600u64, 900u64, 1800u64, 3600u64, 7200u64, 14400u64, 28800u64, 43200u64, 86400u64],
        crate::snapshot::all_positive(r@),
{
    let r: Vec<u64> = vec![1, 5, 10, 15, 30, 60, 120, 180, 300, 600, 900, 1800, 3600, 7200, 14400, 28800, 43200, 86400];
    assert(r@ =~= seq![1u64, 5u64, 10u64, 15u64, 30u64, 60u64, 120u64, 180u64, 300u64, 600u64, 900u64, 1800u64, 3600u64, 7200u64, 14400u64, 28800u64, 43200u64, 86400u64]);
    r
}

/// The periods of the panel window.
pub fn panel_tf_choices() -> (r: Vec<u64>)
    ensures
        r@ == seq![1u64, 5u64, 15u64, 30u64, 60u64, 180u64, 300u64, 900u64, 1800u64, 3600u64, 14400u64, 86400u64],
        crate::snapshot::all_positive(r@),
{
    let r: Vec<u64> = vec![1, 5, 15, 30, 60, 180, 300, 900, 1800, 3600, 14400, 86400];
    assert(r@ =~= seq![1u64, 5u64, 15u64, 30u64, 60u64, 180u64, 300u64, 900u64, 1800u64, 3600u64, 14400u64, 86400u64]);
    r
}

/// The periods of the chart window.
pub fn chart_tf_list() -> (r: Vec<u64>)
    ensures
        r@ == seq![1u64, 5u64, 15u64, 30u64, 60u64, 120u64, 180u64, 300u64, 600u64, 900u64, 1800u64, 3600u64, 7200u64, 14400u64, 28800u64, 86400u64],
        crate::snapshot::all_positive(r@),
{
    let r: Vec<u64> = vec![1, 5, 15, 30, 60, 120, 180, 300, 600, 900, 1800, 3600, 7200, 14400, 28800, 86400];
    assert(r@ =~= seq![1u64, 5u64, 15u64, 30u64, 60u64, 120u64, 180u64, 300u64, 600u64, 900u64, 1800u64, 3600u64, 7200u64, 14400u64, 28800u64, 86400u64]);
    r
}

/// The periods of the grid window.
pub fn grid_tf_choices() -> (r: Vec<u64>)
    ensures
        r@ == seq![1u64, 5u64, 15u64, 30u64, 60u64, 120u64, 300u64, 900u64, 1800u64, 3600u64, 7200u64, 14400u64, 28800u64, 86400u64],
        crate::snapshot::all_positive(r@),
{
    let r: Vec<u64> = vec![1, 5, 15, 30, 60, 120, 300, 900, 1800, 3600, 7200, 14400, 28800, 86400];
    assert(r@ =~= seq![1u64, 5u64, 15u64, 30u64, 60u64, 120u64, 300u64, 900u64, 1800u64, 3600u64, 7200u64, 14400u64, 28800u64, 86400u64]);
    r
}

/// The periods of the bot window.
pub fn tf_opts() -> (r: Vec<u64>)
    ensures
        r@ == seq![1u64, 5u64, 10u64, 15u64, 30u64, 60u64, 180u64, 300u64, 900u64, 1800u64, 3600u64, 14400u64, 86400u64],
        crate::snapshot::all_positive(r@),
{
    let r: Vec<u64> = vec![1, 5, 10, 15, 30, 60, 180, 300, 900, 1800, 3600, 14400, 86400];
    assert(r@ =~= seq![1u64, 5u64, 10u64, 15u64, 30u64, 60u64, 180u64, 300u64, 900u64, 1800u64, 3600u64, 14400u64, 86400u64]);
    r
}

/// The four periods of the short recorder and of the script windows.
pub fn short_tfs() -> (r: Vec<u64>)
    ensures
        r@ == seq![30u64, 60u64, 180u64, 300u64],
        crate::snapshot::all_positive(r@),
{
    let r: Vec<u64> = vec![30, 60, 180, 300];
    assert(r@ =~= seq![30u64, 60u64, 180u64, 300u64]);
    r
}

/// The label of the selected period in a menu of periods: custom where the menu does not
/// offer it.
pub fn menu_label(menu: &Vec<u64>, tf: u64) -> (r: &'static str)
    ensures
        r@ == (if menu@.contains(tf) {
            label_of(tf)
        } else {
            "custom"@
        }),
{
    let n: usize = menu.len();
    let mut i: usize = 0;
    while i < n
        invariant
            i <= n,
            n == menu@.len(),
            forall|j: int| 0 <= j < i ==> menu@[j] != tf,
        decreases n - i,
    {
        if menu[i] == tf {
            assert(menu@[i as int] == tf);
            return tf_label(tf);
        }
        i += 1;
    }
    "custom"
}

/// The label of an offered period is its length in seconds, minutes, hours or days: a number
/// and its unit.
pub proof fn law_labels_are_lengths(tf: u64)
    requires
        seq![1u64, 5u64, 10u64, 15u64, 30u64, 60u64, 120u64, 180u64, 300u64, 600u64, 900u64, 1800u64, 3600u64, 7200u64, 14400u64, 28800u64, 43200u64, 86400u64].contains(tf),
    ensures
        tf < 60 ==> label_of(tf) == crate::text::nat_text(tf as nat).push('s'),
        60 <= tf < 3_600 ==> label_of(tf) == crate::text::nat_text((tf / 60) as nat).push('m'),
        3_600 <= tf < 86_400 ==> label_of(tf) == crate::text::nat_text((tf / 3_600) as nat).push('h'),
        86_400 <= tf ==> label_of(tf) == crate::text::nat_text((tf / 86_400) as nat).push('d'),
{
    reveal_strlit("1s");
    reveal_strlit("5s");
    reveal_strlit("10s");
    reveal_strlit("15s");
    reveal_strlit("30s");
    reveal_strlit("1m");
    reveal_strlit("2m");
    reveal_strlit("3m");
    reveal_strlit("5m");
    reveal_strlit("10m");
    reveal_strlit("15m");
    reveal_strlit("30m");
    reveal_strlit("1h");
    reveal_strlit("2h");
    reveal_strlit("4h");
    reveal_strlit("8h");
    reveal_strlit("12h");
    reveal_strlit("1d");
    crate::text::law_digits_count_by_ten(1, 0);
    crate::text::law_digits_count_by_ten(1, 2);
    crate::text::law_digits_count_by_ten(1, 5);
    crate::text::law_digits_count_by_ten(3, 0);
    crate::text::law_digits_count_by_ten(0, 0);
    assert(crate::text::nat_text(1) =~= seq!['1']);
    assert(label_of(1) =~= crate::text::nat_text(1).push('s'));
    assert(crate::text::nat_text(5) =~= seq!['5']);
    assert(label_of(5) =~= crate::text::nat_text(5).push('s'));
    assert(crate::text::nat_text(10) =~= seq!['1', '0']);
    assert(label_of(10) =~= crate::text::nat_text(10).push('s'));
    assert(crate::text::nat_text(15) =~= seq!['1', '5']);
    assert(label_of(15) =~= crate::text::nat_text(15).push('s'));
    assert(crate::text::nat_text(30) =~= seq!['3', '0']);
    assert(label_of(30) =~= crate::text::nat_text(30).push('s'));
    assert(crate::text::nat_text(1) =~= seq!['1']);
    assert(label_of(60) =~= crate::text::nat_text(1).push('m'));
    assert(crate::text::nat_text(2) =~= seq!['2']);
    assert(label_of(120) =~= crate::text::nat_text(2).push('m'));
    assert(crate::text::nat_text(3) =~= seq!['3']);
    assert(label_of(180) =~= crate::text::nat_text(3).push('m'));
    assert(crate::text::nat_text(5) =~= seq!['5']);
    assert(label_of(300) =~= crate::text::nat_text(5).push('m'));
    assert(crate::text::nat_text(10) =~= seq!['1', '0']);
    assert(label_of(600) =~= crate::text::nat_text(10).push('m'));
    assert(crate::text::nat_text(15) =~= seq!['1', '5']);
    assert(label_of(900) =~= crate::text::nat_text(15).push('m'));
    assert(crate::text::nat_text(30) =~= seq!['3', '0']);
    assert(label_of(1800) =~= crate::text::nat_text(30).push('m'));
    assert(crate::text::nat_text(1) =~= seq!['1']);
    assert(label_of(3600) =~= crate::text::nat_text(1).push('h'));
    assert(crate::text::nat_text(2) =~= seq!['2']);
    assert(label_of(7200) =~= crate::text::nat_text(2).push('h'));
    assert(crate::text::nat_text(4) =~= seq!['4']);
    assert(label_of(14400) =~= crate::text::nat_text(4).push('h'));
    assert(crate::text::nat_text(8) =~= seq!['8']);
    assert(label_of(28800) =~= crate::text::nat_text(8).push('h'));
    assert(crate::text::nat_text(12) =~= seq!['1', '2']);
    assert(label_of(43200) =~= crate::text::nat_text(12).push('h'));
    assert(crate::text::nat_text(1) =~= seq!['1']);
    assert(label_of(86400) =~= crate::text::nat_text(1).push('d'));
}

} // verus!
