//! Fixed-point amounts. A price, a size or a volume is a whole number of units of
//! 1e-8; a price on the ladder is a whole number of ticks of 1e-4.

use crate::text::{digit, push_digit, push_u128, to_chars};
use vstd::prelude::*;

verus! {

broadcast use vstd::seq::group_seq_axioms;

/// A price, size or volume in units of 1e-8.
pub type Amount = i128;

/// A price on the ladder in ticks of 1e-4.
pub type PriceKey = i64;

/// One, as an amount.
pub const ONE: Amount = 100_000_000;

/// One tick of the ladder, as an amount.
pub const TICK: Amount = 10_000;

/// The largest amount that text can denote.
pub const MAX_AMOUNT: Amount = 170141183460469231731687303715884105727;

pub open spec fn pow10(n: nat) -> nat
    decreases n,
{
    if n == 0 {
        1
    } else {
        10 * pow10((n - 1) as nat)
    }
}

pub open spec fn magnitude(a: int) -> nat {
    if a < 0 {
        (-a) as nat
    } else {
        a as nat
    }
}

/// The first place of `a` or `b` in `s`, or the length of `s`.
pub open spec fn find(s: Seq<char>, a: char, b: char) -> int
    decreases s.len(),
{
    if s.len() == 0 {
        0
    } else if s[0] == a || s[0] == b {
        0
    } else {
        1 + find(s.drop_first(), a, b)
    }
}

pub open spec fn signed(s: Seq<char>) -> bool {
    s.len() > 0 && (s[0] == '+' || s[0] == '-')
}

pub open spec fn negative(s: Seq<char>) -> bool {
    s.len() > 0 && s[0] == '-'
}

pub open spec fn unsigned(s: Seq<char>) -> Seq<char> {
    if signed(s) {
        s.drop_first()
    } else {
        s
    }
}

/// The digits before the point.
pub open spec fn whole_part(m: Seq<char>) -> Seq<char> {
    m.take(find(m, '.', '.'))
}

/// The digits behind the point.
pub open spec fn frac_part(m: Seq<char>) -> Seq<char> {
    let p = find(m, '.', '.');
    if p < m.len() {
        m.skip(p + 1)
    } else {
        Seq::empty()
    }
}

/// An optional sign and at least one digit.
pub open spec fn is_integer(s: Seq<char>) -> bool {
    unsigned(s).len() > 0 && crate::text::all_digits(unsigned(s))
}

pub open spec fn integer_value(s: Seq<char>) -> int {
    if negative(s) {
        -(crate::text::digits_value(unsigned(s)) as int)
    } else {
        crate::text::digits_value(unsigned(s)) as int
    }
}

/// Digits with at most one point among them, and at least one digit.
pub open spec fn is_mantissa(m: Seq<char>) -> bool {
    &&& crate::text::all_digits(whole_part(m))
    &&& crate::text::all_digits(frac_part(m))
    &&& whole_part(m).len() + frac_part(m).len() > 0
}

pub open spec fn mantissa_text(s: Seq<char>) -> Seq<char> {
    unsigned(s).take(find(unsigned(s), 'e', 'E'))
}

pub open spec fn has_exponent(s: Seq<char>) -> bool {
    find(unsigned(s), 'e', 'E') < unsigned(s).len()
}

pub open spec fn exponent_text(s: Seq<char>) -> Seq<char> {
    unsigned(s).skip(find(unsigned(s), 'e', 'E') + 1)
}

/// A decimal number: an optional sign, digits with an optional point, and an
/// optional exponent of ten.
pub open spec fn is_number(s: Seq<char>) -> bool {
    is_mantissa(mantissa_text(s)) && (has_exponent(s) ==> is_integer(exponent_text(s)))
}

pub open spec fn exponent_value(s: Seq<char>) -> int {
    if has_exponent(s) {
        integer_value(exponent_text(s))
    } else {
        0
    }
}

/// The digits of the number without sign, point and exponent.
pub open spec fn number_digits(s: Seq<char>) -> Seq<char> {
    whole_part(mantissa_text(s)) + frac_part(mantissa_text(s))
}

/// The power of ten by which `number_digits` is to be multiplied.
pub open spec fn number_scale(s: Seq<char>) -> int {
    exponent_value(s) - frac_part(mantissa_text(s)).len()
}

/// The whole number nearest to `m * 10^e`, upwards where two are equally near.
pub open spec fn nearest(m: nat, e: int) -> nat {
    if e >= 0 {
        m * pow10(e as nat)
    } else {
        (2 * m + pow10((-e) as nat)) / (2 * pow10((-e) as nat))
    }
}

/// `nearest`, kept above zero for what is not zero, and below the largest amount.
pub open spec fn bounded(m: nat, e: int) -> nat {
    let n = nearest(m, e);
    if m > 0 && n == 0 {
        1
    } else if n > MAX_AMOUNT {
        MAX_AMOUNT as nat
    } else {
        n
    }
}

/// The amount that a decimal number denotes: the nearest whole number of units,
/// away from zero where two are equally near. What is not zero never becomes zero,
/// and what is too large is the largest amount.
pub open spec fn parsed_amount(s: Seq<char>) -> Option<Amount> {
    if is_number(s) {
        let u = bounded(crate::text::digits_value(number_digits(s)), number_scale(s) + 8) as int;
        Some((if negative(s) { -u } else { u }) as Amount)
    } else {
        None
    }
}

/// The last `width` digits of `n`, with leading zeros.
pub open spec fn padded(n: nat, width: nat) -> Seq<char>
    decreases width,
{
    if width == 0 {
        Seq::empty()
    } else {
        padded(n / 10, (width - 1) as nat).push(crate::text::digit_char(n % 10))
    }
}

pub open spec fn sign_text(a: int) -> Seq<char> {
    if a < 0 {
        seq!['-']
    } else {
        Seq::empty()
    }
}

/// A magnitude of `n` units of 10^-d, with exactly `d` decimals.
pub open spec fn plain_text(n: nat, d: nat) -> Seq<char> {
    if d == 0 {
        crate::text::nat_text(n)
    } else {
        crate::text::nat_text(n / pow10(d)).push('.') + padded(n % pow10(d), d)
    }
}

/// `a` with `d` decimals, rounded away from zero where two are equally near.
pub open spec fn fixed(a: int, d: nat) -> Seq<char> {
    sign_text(a) + plain_text(nearest(magnitude(a), d - 8), d)
}

/// `n` units of 10^-d without trailing zeros behind the point.
pub open spec fn short_plain(n: nat, d: nat) -> Seq<char>
    decreases d,
{
    if d > 0 && n % 10 == 0 {
        short_plain(n / 10, (d - 1) as nat)
    } else {
        plain_text(n, d)
    }
}

/// `a` with as many decimals as it needs.
pub open spec fn short(a: int) -> Seq<char> {
    sign_text(a) + short_plain(magnitude(a), 8)
}

/// The tick nearest to a price, away from zero where two are equally near, kept in
/// the range of the keys.
pub open spec fn key_of(price: int) -> int {
    let n = (2 * magnitude(price) + TICK) / (2 * TICK);
    let k = if price < 0 {
        -n
    } else {
        n
    };
    if k < i64::MIN {
        i64::MIN as int
    } else if k > i64::MAX {
        i64::MAX as int
    } else {
        k
    }
}

/// The sum, kept in the range of the amounts.
pub open spec fn sat(a: int) -> int {
    if a < i128::MIN {
        i128::MIN as int
    } else if a > i128::MAX {
        i128::MAX as int
    } else {
        a
    }
}

// ---------------------------------------------------------------------------
// Powers and digits

pub proof fn lemma_pow10_positive(n: nat)
    ensures
        pow10(n) >= 1,
    decreases n,
{
    if n > 0 {
        lemma_pow10_positive((n - 1) as nat);
    }
}

pub proof fn lemma_pow10_monotonic(a: nat, b: nat)
    requires
        a <= b,
    ensures
        pow10(a) <= pow10(b),
    decreases b,
{
    if a < b {
        lemma_pow10_monotonic(a, (b - 1) as nat);
        lemma_pow10_positive((b - 1) as nat);
    }
}

pub proof fn lemma_pow10_sum(a: nat, b: nat)
    ensures
        pow10(a + b) == pow10(a) * pow10(b),
    decreases b,
{
    if b == 0 {
        assert(pow10(a) * 1 == pow10(a));
    } else {
        let c = (b - 1) as nat;
        lemma_pow10_sum(a, c);
        let x = pow10(a);
        let y = pow10(c);
        assert(10 * (x * y) == x * (10 * y)) by (nonlinear_arith);
        assert((a + b - 1) as nat == a + c);
    }
}

pub proof fn lemma_pow10_8()
    ensures
        pow10(8) == 100_000_000,
        pow10(4) == 10_000,
        pow10(1) == 10,
        pow10(0) == 1,
{
    reveal_with_fuel(pow10, 9);
}

proof fn lemma_pow10_39()
    ensures
        pow10(39) > MAX_AMOUNT,
{
    reveal_with_fuel(pow10, 40);
}

/// The digits of a concatenation, as a number.
pub proof fn lemma_digits_concat(a: Seq<char>, b: Seq<char>)
    ensures
        crate::text::digits_value(a + b) == crate::text::digits_value(a) * pow10(b.len())
            + crate::text::digits_value(b),
    decreases b.len(),
{
    if b.len() == 0 {
        assert(a + b =~= a);
        assert(crate::text::digits_value(a) * 1 == crate::text::digits_value(a));
    } else {
        let c = b.drop_last();
        lemma_digits_concat(a, c);
        assert((a + b).drop_last() =~= a + c);
        assert((a + b).last() == b.last());
        let x = crate::text::digits_value(a);
        let p = pow10(c.len());
        assert((x * p) * 10 == x * (10 * p)) by (nonlinear_arith);
    }
}

pub proof fn lemma_digits_bound(s: Seq<char>)
    requires
        crate::text::all_digits(s),
    ensures
        crate::text::digits_value(s) < pow10(s.len()),
    decreases s.len(),
{
    if s.len() > 0 {
        let p = s.drop_last();
        assert forall|i: int| 0 <= i < p.len() implies crate::text::is_digit(#[trigger] p[i]) by {
            assert(p[i] == s[i]);
        }
        lemma_digits_bound(p);
        assert(crate::text::is_digit(s[s.len() - 1]));
    }
}

/// Cutting digits off rounds by the first digit that is cut.
proof fn lemma_cut(s: Seq<char>, keep: int)
    requires
        crate::text::all_digits(s),
        0 <= keep < s.len(),
    ensures
        nearest(crate::text::digits_value(s), keep - s.len()) == crate::text::digits_value(s.take(keep)) + (if crate::text::digit_value(
            s[keep],
        ) >= 5 {
            1nat
        } else {
            0nat
        }),
{
    let t = (s.len() - keep) as nat;
    let q = pow10((t - 1) as nat);
    let p = pow10(t);
    assert(p == 10 * q);
    let head = s.take(keep);
    let tail = s.skip(keep);
    assert(head + tail =~= s);
    lemma_digits_concat(head, tail);
    let first = tail.take(1);
    let rest = tail.skip(1);
    assert(first + rest =~= tail);
    lemma_digits_concat(first, rest);
    assert(first.drop_last() =~= Seq::empty());
    assert(first.last() == s[keep]);
    reveal_with_fuel(crate::text::digits_value, 2);
    let d = crate::text::digit_value(s[keep]);
    assert(crate::text::digits_value(first) == d);
    assert forall|i: int| 0 <= i < rest.len() implies crate::text::is_digit(#[trigger] rest[i]) by {
        assert(rest[i] == s[keep + 1 + i]);
    }
    lemma_digits_bound(rest);
    let r = crate::text::digits_value(rest);
    let h = crate::text::digits_value(head);
    let v = crate::text::digits_value(s);
    let tv = d * q + r;
    assert(crate::text::is_digit(s[keep]));
    assert(d <= 9);
    assert(v == h * p + tv);
    let up: nat = if d >= 5 {
        1
    } else {
        0
    };
    assert(2 * tv + p >= 2 * p * up && 2 * tv + p < 2 * p * (up + 1)) by (nonlinear_arith)
        requires
            tv == d * q + r,
            r < q,
            p == 10 * q,
            d <= 9,
            up == (if d >= 5 {
                1nat
            } else {
                0nat
            }),
    ;
    assert((2 * v + p) / (2 * p) == h + up) by (nonlinear_arith)
        requires
            v == h * p + tv,
            2 * tv + p >= 2 * p * up,
            2 * tv + p < 2 * p * (up + 1),
            p > 0,
    {
        let x = 2 * v + p;
        let y = 2 * p;
        assert(x == y * (h + up) + (2 * tv + p - 2 * p * up));
        vstd::arithmetic::div_mod::lemma_fundamental_div_mod_converse(
            x as int,
            y as int,
            (h + up) as int,
            (2 * tv + p - 2 * p * up) as int,
        );
    }
    assert(-(keep - s.len()) == t);
}

/// What is smaller than `10^n` rounds to zero once more than `n` digits are cut.
proof fn lemma_cut_all(m: nat, n: nat, e: int)
    requires
        m < pow10(n),
        e < -(n as int),
    ensures
        nearest(m, e) == 0,
{
    let t = (-e) as nat;
    lemma_pow10_monotonic(n + 1, t);
    assert(pow10(n + 1) == 10 * pow10(n));
    let p = pow10(t);
    assert((2 * m + p) / (2 * p) == 0) by (nonlinear_arith)
        requires
            2 * m < p,
    {
        vstd::arithmetic::div_mod::lemma_basic_div((2 * m + p) as int, (2 * p) as int);
    }
}

/// Beyond thirty-nine digits every number but zero is too large.
proof fn lemma_too_large(m: nat, e: int)
    requires
        e >= 39,
        m > 0,
    ensures
        nearest(m, e) > MAX_AMOUNT,
{
    lemma_pow10_39();
    lemma_pow10_monotonic(39, e as nat);
    let p = pow10(e as nat);
    assert(m * p >= p) by (nonlinear_arith)
        requires
            m >= 1,
    ;
}

proof fn lemma_nearest_zero(e: int)
    ensures
        nearest(0, e) == 0,
{
    if e >= 0 {
        assert(0 * pow10(e as nat) == 0);
    } else {
        lemma_pow10_positive((-e) as nat);
        lemma_cut_all(0, 0, if e < 0 {
            e
        } else {
            -1
        });
    }
}

/// An exponent far out of range may be replaced by another one far out of range.
proof fn lemma_far_exponent(m: nat, n: nat, e1: int, e2: int)
    requires
        m < pow10(n),
        (e1 >= 39 && e2 >= 39) || (e1 < -(n as int) && e2 < -(n as int)),
    ensures
        bounded(m, e1) == bounded(m, e2),
{
    if e1 >= 39 {
        if m > 0 {
            lemma_too_large(m, e1);
            lemma_too_large(m, e2);
        } else {
            lemma_nearest_zero(e1);
            lemma_nearest_zero(e2);
        }
    } else {
        lemma_cut_all(m, n, e1);
        lemma_cut_all(m, n, e2);
    }
}

// ---------------------------------------------------------------------------
// Reading

fn find_char(v: &Vec<char>, from: usize, to: usize, a: char, b: char) -> (r: usize)
    requires
        from <= to <= v@.len(),
    ensures
        from <= r <= to,
        r - from == find(v@.subrange(from as int, to as int), a, b),
{
    let mut i: usize = from;
    while i < to
        invariant
            from <= i <= to <= v@.len(),
            find(v@.subrange(from as int, to as int), a, b) == (i - from) + find(
                v@.subrange(i as int, to as int),
                a,
                b,
            ),
        decreases to - i,
    {
        assert(v@.subrange(i as int, to as int)[0] == v@[i as int]);
        if v[i] == a || v[i] == b {
            return i;
        }
        assert(v@.subrange(i as int, to as int).drop_first() =~= v@.subrange(i + 1, to as int));
        i += 1;
    }
    i
}

fn digits_only(v: &Vec<char>, from: usize, to: usize) -> (r: bool)
    requires
        from <= to <= v@.len(),
    ensures
        r == crate::text::all_digits(v@.subrange(from as int, to as int)),
{
    let ghost s = v@.subrange(from as int, to as int);
    let mut i: usize = from;
    while i < to
        invariant
            from <= i <= to <= v@.len(),
            s == v@.subrange(from as int, to as int),
            forall|j: int| 0 <= j < i - from ==> crate::text::is_digit(#[trigger] s[j]),
        decreases to - i,
    {
        assert(s[i - from] == v@[i as int]);
        if digit(v[i]).is_none() {
            return false;
        }
        i += 1;
    }
    true
}

/// The digits as a number, kept at or below `cap`.
fn capped_value(v: &Vec<char>, from: usize, to: usize, cap: i128) -> (r: i128)
    requires
        from <= to <= v@.len(),
        crate::text::all_digits(v@.subrange(from as int, to as int)),
        9 <= cap,
    ensures
        r == (if crate::text::digits_value(v@.subrange(from as int, to as int)) > cap {
            cap as int
        } else {
            crate::text::digits_value(v@.subrange(from as int, to as int)) as int
        }),
{
    let ghost s = v@.subrange(from as int, to as int);
    let mut acc: i128 = 0;
    let mut i: usize = from;
    proof {
        assert(s.take(0) =~= Seq::empty());
    }
    while i < to
        invariant
            from <= i <= to <= v@.len(),
            9 <= cap,
            s == v@.subrange(from as int, to as int),
            crate::text::all_digits(s),
            0 <= acc <= cap,
            acc == (if crate::text::digits_value(s.take(i - from)) > cap {
                cap as int
            } else {
                crate::text::digits_value(s.take(i - from)) as int
            }),
        decreases to - i,
    {
        let ghost k = i - from;
        proof {
            assert(s[k] == v@[i as int]);
            assert(crate::text::is_digit(s[k]));
            assert(s.take(k + 1).drop_last() =~= s.take(k));
            assert(s.take(k + 1).last() == s[k]);
        }
        let d: i128 = match digit(v[i]) {
            Some(x) => x as i128,
            None => 0,
        };
        if acc > (cap - d) / 10 {
            assert(crate::text::digits_value(s.take(k + 1)) > cap);
            acc = cap;
        } else {
            acc = acc * 10 + d;
        }
        i += 1;
    }
    proof {
        assert(s.take(to - from) =~= s);
    }
    acc
}

/// `digits * 10^e`, rounded and bounded.
fn scaled(v: &Vec<char>, e: i128) -> (r: i128)
    requires
        crate::text::all_digits(v@),
        -10_000_000_000_000_000_000_000_000_000_000 <= e <= 10_000_000_000_000_000_000_000_000_000_000,
    ensures
        r == bounded(crate::text::digits_value(v@), e as int),
{
    let n: usize = v.len();
    let ghost m = crate::text::digits_value(v@);
    proof {
        assert(v@.subrange(0, n as int) =~= v@);
        lemma_digits_bound(v@);
    }
    let some: i128 = capped_value(v, 0, n, 9);
    if some == 0 {
        proof {
            lemma_nearest_zero(e as int);
        }
        return 0;
    }
    if e >= 0 {
        let mut acc: i128 = capped_value(v, 0, n, MAX_AMOUNT);
        let mut j: i128 = 0;
        proof {
            assert(m * 1 == m);
        }
        while j < e && acc < MAX_AMOUNT
            invariant
                0 <= j <= e,
                0 < acc <= MAX_AMOUNT,
                m > 0,
                acc == (if m * pow10(j as nat) > MAX_AMOUNT {
                    MAX_AMOUNT as int
                } else {
                    (m * pow10(j as nat)) as int
                }),
            decreases e - j,
        {
            proof {
                let p = pow10(j as nat);
                assert(pow10((j + 1) as nat) == 10 * p);
                assert(m * (10 * p) == 10 * (m * p)) by (nonlinear_arith);
            }
            if acc > MAX_AMOUNT / 10 {
                acc = MAX_AMOUNT;
            } else {
                acc = acc * 10;
            }
            j += 1;
        }
        proof {
            let p = pow10(j as nat);
            let q = pow10(e as nat);
            lemma_pow10_monotonic(j as nat, e as nat);
            assert(m * p <= m * q) by (nonlinear_arith)
                requires
                    p <= q,
            ;
            lemma_pow10_positive(e as nat);
            assert(m * q > 0) by (nonlinear_arith)
                requires
                    m > 0,
                    q >= 1,
            ;
        }
        return acc;
    }
    let keep: i128 = n as i128 + e;
    if keep < 0 {
        proof {
            lemma_cut_all(m, n as nat, e as int);
        }
        return 1;
    }
    let k: usize = keep as usize;
    proof {
        assert(v@.subrange(0, k as int) =~= v@.take(k as int));
        assert(crate::text::all_digits(v@.take(k as int)));
        lemma_cut(v@, k as int);
        assert(crate::text::is_digit(v@[k as int]));
    }
    let head: i128 = capped_value(v, 0, k, MAX_AMOUNT);
    let up: bool = match digit(v[k]) {
        Some(x) => x >= 5,
        None => false,
    };
    if !up {
        if head == 0 {
            1
        } else {
            head
        }
    } else if head == MAX_AMOUNT {
        head
    } else {
        head + 1
    }
}

/// The characters in the range from `a` to `b`, then those from `c` to `d`.
fn two_ranges(v: &Vec<char>, a: usize, b: usize, c: usize, d: usize) -> (r: Vec<char>)
    requires
        a <= b <= v@.len(),
        c <= d <= v@.len(),
    ensures
        r@ == v@.subrange(a as int, b as int) + v@.subrange(c as int, d as int),
{
    let mut ds: Vec<char> = Vec::new();
    let mut i: usize = a;
    while i < b
        invariant
            a <= i <= b <= v@.len(),
            ds@ == v@.subrange(a as int, i as int),
        decreases b - i,
    {
        ds.push(v[i]);
        assert(ds@ =~= v@.subrange(a as int, i + 1));
        i += 1;
    }
    let mut j: usize = c;
    assert(ds@ =~= v@.subrange(a as int, b as int) + v@.subrange(c as int, c as int));
    while j < d
        invariant
            a <= b <= v@.len(),
            c <= j <= d <= v@.len(),
            ds@ == v@.subrange(a as int, b as int) + v@.subrange(c as int, j as int),
        decreases d - j,
    {
        ds.push(v[j]);
        assert(ds@ =~= v@.subrange(a as int, b as int) + v@.subrange(c as int, j + 1));
        j += 1;
    }
    ds
}

/// The largest exponent that is told apart from larger ones.
const FAR: i128 = 1_000_000_000_000_000_000_000_000_000_000;

/// Reads an exponent, cut off at `FAR` on both sides.
fn read_exponent(v: &Vec<char>, from: usize) -> (r: Option<i128>)
    requires
        from <= v@.len(),
    ensures
        r is Some <==> is_integer(v@.subrange(from as int, v@.len() as int)),
        r matches Some(e) ==> {
            let t = integer_value(v@.subrange(from as int, v@.len() as int));
            e == (if t > FAR {
                FAR as int
            } else if t < -FAR {
                -FAR as int
            } else {
                t
            })
        },
{
    let n: usize = v.len();
    let ghost t = v@.subrange(from as int, n as int);
    let start: usize = if from < n && (v[from] == '+' || v[from] == '-') {
        from + 1
    } else {
        from
    };
    assert(v@.subrange(start as int, n as int) =~= unsigned(t));
    if start >= n || !digits_only(v, start, n) {
        return None;
    }
    let a: i128 = capped_value(v, start, n, FAR);
    if v[from] == '-' {
        Some(-a)
    } else {
        Some(a)
    }
}

/// Where the mantissa of an unsigned number ends, its point stands, and its decimals start.
fn read_mantissa(v: &Vec<char>, start: usize, x: usize) -> (r: Option<(Vec<char>, usize)>)
    requires
        start <= x <= v@.len(),
    ensures
        r is Some <==> is_mantissa(v@.subrange(start as int, x as int)),
        r matches Some((ds, frac)) ==> {
            let m = v@.subrange(start as int, x as int);
            &&& ds@ == whole_part(m) + frac_part(m)
            &&& frac == frac_part(m).len()
            &&& crate::text::all_digits(ds@)
        },
{
    let ghost m = v@.subrange(start as int, x as int);
    let p: usize = find_char(v, start, x, '.', '.');
    let f: usize = if p < x {
        p + 1
    } else {
        x
    };
    proof {
        assert(v@.subrange(start as int, p as int) =~= whole_part(m));
        assert(v@.subrange(f as int, x as int) =~= frac_part(m));
    }
    if !digits_only(v, start, p) || !digits_only(v, f, x) {
        return None;
    }
    if p == start && f == x {
        return None;
    }
    let ds: Vec<char> = two_ranges(v, start, p, f, x);
    proof {
        assert forall|q: int| 0 <= q < ds@.len() implies crate::text::is_digit(#[trigger] ds@[q]) by {
            let w = whole_part(m);
            if q < w.len() {
                assert(crate::text::is_digit(w[q]));
            } else {
                assert(crate::text::is_digit(frac_part(m)[q - w.len()]));
            }
        }
    }
    Some((ds, x - f))
}

/// Reads a decimal number as an amount.
pub fn parse_amount(s: &str) -> (r: Option<Amount>)
    ensures
        r == parsed_amount(s@),
{
    let v = to_chars(s);
    let n: usize = v.len();
    let start: usize = if n > 0 && (v[0] == '+' || v[0] == '-') {
        1
    } else {
        0
    };
    let neg: bool = n > 0 && v[0] == '-';
    proof {
        assert(v@.subrange(start as int, n as int) =~= unsigned(s@));
    }
    let x: usize = find_char(&v, start, n, 'e', 'E');
    proof {
        assert(v@.subrange(start as int, x as int) =~= mantissa_text(s@));
    }
    let (ds, frac): (Vec<char>, usize) = match read_mantissa(&v, start, x) {
        Some(t) => t,
        None => {
            return None;
        },
    };
    let mut exp: i128 = 0;
    if x < n {
        proof {
            assert(v@.subrange(x + 1, n as int) =~= exponent_text(s@));
        }
        match read_exponent(&v, x + 1) {
            Some(e) => {
                exp = e;
            },
            None => {
                return None;
            },
        }
    }
    let e: i128 = exp - frac as i128 + 8;
    let count: usize = ds.len();
    proof {
        assert(ds@.len() == count);
        let mv = crate::text::digits_value(number_digits(s@));
        lemma_digits_bound(ds@);
        if exponent_value(s@) != exp {
            lemma_far_exponent(mv, ds@.len(), e as int, number_scale(s@) + 8);
        }
    }
    let r: i128 = scaled(&ds, e);
    if neg {
        Some(-r)
    } else {
        Some(r)
    }
}

// ---------------------------------------------------------------------------
// Writing

fn push_padded(out: &mut String, n: u128, width: u32)
    ensures
        final(out)@ == old(out)@ + padded(n as nat, width as nat),
    decreases width,
{
    let ghost before = out@;
    if width > 0 {
        push_padded(out, n / 10, width - 1);
        push_digit(out, (n % 10) as u8);
    }
    assert(out@ =~= before + padded(n as nat, width as nat));
}

fn pow10_u128(d: u32) -> (r: u128)
    requires
        d <= 8,
    ensures
        r == pow10(d as nat),
        1 <= r <= 100_000_000,
{
    proof {
        lemma_pow10_positive(d as nat);
        lemma_pow10_monotonic(d as nat, 8);
        lemma_pow10_8();
    }
    let mut r: u128 = 1;
    let mut i: u32 = 0;
    while i < d
        invariant
            i <= d <= 8,
            r == pow10(i as nat),
            pow10(8) == 100_000_000,
        decreases d - i,
    {
        proof {
            lemma_pow10_monotonic((i + 1) as nat, 8);
        }
        r = r * 10;
        i += 1;
    }
    r
}

/// The magnitude of an amount.
pub fn abs_u128(a: Amount) -> (r: u128)
    ensures
        r == magnitude(a as int),
{
    if a >= 0 {
        a as u128
    } else {
        (-(a + 1)) as u128 + 1
    }
}

fn push_plain(out: &mut String, n: u128, d: u32)
    requires
        d <= 8,
    ensures
        final(out)@ == old(out)@ + plain_text(n as nat, d as nat),
{
    let ghost before = out@;
    if d == 0 {
        push_u128(out, n);
    } else {
        let p: u128 = pow10_u128(d);
        push_u128(out, n / p);
        proof {
            reveal_strlit(".");
        }
        out.append(".");
        push_padded(out, n % p, d);
        assert("."@ =~= seq!['.']);
        assert(out@ =~= before + plain_text(n as nat, d as nat));
    }
}

/// The amount with `d` decimals.
pub fn fixed_text(a: Amount, d: u32) -> (r: String)
    requires
        d <= 8,
    ensures
        r@ == fixed(a as int, d as nat),
{
    let mut out = String::new();
    if a < 0 {
        proof {
            reveal_strlit("-");
        }
        out.append("-");
        assert("-"@ =~= seq!['-']);
    }
    assert(out@ =~= sign_text(a as int));
    let m: u128 = abs_u128(a);
    let n: u128 = if d == 8 {
        proof {
            assert(m * 1 == m);
        }
        m
    } else {
        let p: u128 = pow10_u128(8 - d);
        let h: u128 = p / 2;
        proof {
            let pp = pow10((8 - d) as nat) as int;
            assert(pp == 10 * pow10((8 - d - 1) as nat));
            assert((2 * m + pp) / (2 * pp) == (m + h) / pp) by (nonlinear_arith)
                requires
                    pp == 2 * h,
                    pp > 0,
            {
                assert(2 * m + pp == 2 * (m + h));
                vstd::arithmetic::div_mod::lemma_div_denominator(2 * (m + h), 2, pp);
                assert((2 * (m + h)) / 2 == m + h);
            }
        }
        (m + h) / p
    };
    push_plain(&mut out, n, d);
    assert(out@ =~= fixed(a as int, d as nat));
    out
}

/// The amount with as many decimals as it needs.
pub fn short_text(a: Amount) -> (r: String)
    ensures
        r@ == short(a as int),
{
    let mut out = String::new();
    if a < 0 {
        proof {
            reveal_strlit("-");
        }
        out.append("-");
        assert("-"@ =~= seq!['-']);
    }
    assert(out@ =~= sign_text(a as int));
    let mut n: u128 = abs_u128(a);
    let mut d: u32 = 8;
    while d > 0 && n % 10 == 0
        invariant
            d <= 8,
            short_plain(magnitude(a as int), 8) == short_plain(n as nat, d as nat),
        decreases d,
    {
        n = n / 10;
        d -= 1;
    }
    push_plain(&mut out, n, d);
    assert(out@ =~= short(a as int));
    out
}

// ---------------------------------------------------------------------------
// Ladder keys and arithmetic

/// The ladder key of a price.
pub fn price_to_key(price: Amount) -> (r: PriceKey)
    ensures
        r == key_of(price as int),
{
    let m: u128 = abs_u128(price);
    let n: u128 = (m + 5_000) / 10_000;
    assert((2 * m + 10_000) / 20_000 == (m + 5_000) / 10_000);
    if price < 0 {
        if n > 9_223_372_036_854_775_808 {
            i64::MIN
        } else {
            (-(n as i128)) as i64
        }
    } else if n > 9_223_372_036_854_775_807 {
        i64::MAX
    } else {
        n as i64
    }
}

/// The price of a ladder key.
pub fn key_to_price(key: PriceKey) -> (r: Amount)
    ensures
        r == key * TICK,
{
    key as i128 * 10_000
}

/// The sum of two amounts, kept in range.
pub fn sat_add(a: Amount, b: Amount) -> (r: Amount)
    ensures
        r == sat(a + b),
{
    match a.checked_add(b) {
        Some(c) => c,
        None => if b > 0 {
            i128::MAX
        } else {
            i128::MIN
        },
    }
}

/// The difference of two amounts, kept in range.
pub fn sat_sub(a: Amount, b: Amount) -> (r: Amount)
    ensures
        r == sat(a - b),
{
    match a.checked_sub(b) {
        Some(c) => c,
        None => if b < 0 {
            i128::MAX
        } else {
            i128::MIN
        },
    }
}

/// The product of two numbers, kept in range.
pub fn sat_mul(a: i128, b: i128) -> (r: i128)
    ensures
        r == sat(a * b),
{
    match a.checked_mul(b) {
        Some(c) => c,
        None => {
            if (a < 0) == (b < 0) {
                assert(a * b >= 0) by (nonlinear_arith)
                    requires
                        (a < 0) == (b < 0),
                ;
                i128::MAX
            } else {
                assert(a * b <= 0) by (nonlinear_arith)
                    requires
                        (a < 0) != (b < 0),
                ;
                i128::MIN
            }
        },
    }
}

/// The product of two amounts, rounded towards zero and kept in range.
pub open spec fn product(a: Amount, b: Amount) -> int {
    let p = sat(a * b);
    if p < 0 {
        -((-p) / (ONE as int))
    } else {
        p / (ONE as int)
    }
}

/// The product of two amounts.
pub fn mul_amounts(a: Amount, b: Amount) -> (r: Amount)
    ensures
        r == product(a, b),
{
    let p: i128 = sat_mul(a, b);
    if p < 0 {
        if p == i128::MIN {
            -1_701_411_834_604_692_317_316_873_037_158
        } else {
            -((-p) / 100_000_000)
        }
    } else {
        p / 100_000_000
    }
}

/// The magnitude of an amount as an amount, kept in range.
pub fn sat_abs(a: Amount) -> (r: Amount)
    ensures
        r == sat(magnitude(a as int) as int),
{
    if a >= 0 {
        a
    } else if a == i128::MIN {
        i128::MAX
    } else {
        -a
    }
}

// ---------------------------------------------------------------------------
// Laws

/// A ladder key survives the way to its price and back.
pub proof fn law_key_reads_back(key: PriceKey)
    ensures
        key_of(key * TICK) == key,
{
    let m = magnitude(key * TICK);
    assert(m == magnitude(key as int) * 10_000);
    assert((2 * m + 10_000) / 20_000 == magnitude(key as int));
}

/// A larger price never has a smaller ladder key.
pub proof fn law_keys_keep_the_order(a: Amount, b: Amount)
    requires
        a <= b,
    ensures
        key_of(a as int) <= key_of(b as int),
{
    let x = magnitude(a as int);
    let y = magnitude(b as int);
    assert(x <= y ==> (2 * x + 10_000) / 20_000 <= (2 * y + 10_000) / 20_000);
    assert(y <= x ==> (2 * y + 10_000) / 20_000 <= (2 * x + 10_000) / 20_000);
}

/// An amount reads back from its text with eight decimals.
pub proof fn law_fixed_reads_back(a: Amount)
    requires
        a > i128::MIN,
    ensures
        parsed_amount(fixed(a as int, 8)) == Some(a),
{
    let m = magnitude(a as int);
    assert(m * 1 == m);
    lemma_plain_is_number(a as int, m, 8);
}

/// An amount reads back from its shortest text.
pub proof fn law_short_reads_back(a: Amount)
    requires
        a > i128::MIN,
    ensures
        parsed_amount(short(a as int)) == Some(a),
{
    let m = magnitude(a as int);
    let (n, d) = lemma_short_is_plain(m, 8);
    lemma_plain_is_number(a as int, n, d);
    if n > 0 {
        lemma_pow10_positive((8 - d) as nat);
        let p = pow10((8 - d) as nat);
        assert(n * p > 0) by (nonlinear_arith)
            requires
                n > 0,
                p >= 1,
        ;
    }
}

/// Neither text of an amount holds the separator of the logs.
pub proof fn law_amounts_hold_no_comma(a: Amount)
    ensures
        !fixed(a as int, 8).contains(','),
        !short(a as int).contains(','),
{
    let m = magnitude(a as int);
    assert(m * 1 == m);
    lemma_plain_chars(m, 8, ',');
    let (n, d) = lemma_short_is_plain(m, 8);
    lemma_plain_chars(n, d, ',');
    assert(!sign_text(a as int).contains(','));
    lemma_contains_concat(sign_text(a as int), plain_text(m, 8), ',');
    lemma_contains_concat(sign_text(a as int), plain_text(n, d), ',');
}

/// The text of an amount is a decimal number.
pub proof fn lemma_short_is_number(a: Amount)
    ensures
        is_number(short(a as int)),
{
    let (n, d) = lemma_short_is_plain(magnitude(a as int), 8);
    lemma_plain_is_number(a as int, n, d);
}

/// The text of an amount with eight decimals is a decimal number without an exponent.
pub proof fn lemma_fixed_is_number(a: Amount)
    ensures
        is_number(fixed(a as int, 8)),
        !has_exponent(fixed(a as int, 8)),
{
    let m = magnitude(a as int);
    assert(m * 1 == m);
    lemma_plain_is_number(a as int, m, 8);
}

/// The text of an amount with four decimals is a decimal number.
pub proof fn lemma_fixed4_is_number(a: Amount)
    ensures
        is_number(fixed(a as int, 4)),
        !has_exponent(fixed(a as int, 4)),
{
    lemma_plain_is_number(a as int, nearest(magnitude(a as int), -4), 4);
}

/// The shortest text of an amount ends in a digit.
pub proof fn lemma_short_ends(a: Amount)
    ensures
        short(a as int).len() > 0,
        crate::text::is_digit(short(a as int).last()),
{
    let (n, d) = lemma_short_is_plain(magnitude(a as int), 8);
    let t = plain_text(n, d);
    lemma_pow10_positive(d);
    crate::text::lemma_nat_text(n);
    if d == 0 {
        assert(crate::text::is_digit(t[t.len() - 1]));
    } else {
        let p = pow10(d);
        assert(n % p < p) by (nonlinear_arith)
            requires
                p >= 1,
        ;
        lemma_padded(n % p, d);
        let f = padded(n % p, d);
        assert(crate::text::is_digit(f[f.len() - 1]));
    }
}

proof fn lemma_contains_concat(a: Seq<char>, b: Seq<char>, c: char)
    requires
        !a.contains(c),
        !b.contains(c),
    ensures
        !(a + b).contains(c),
{
    assert forall|i: int| 0 <= i < (a + b).len() implies (a + b)[i] != c by {
        if i < a.len() {
            assert(a.contains(a[i]));
        } else {
            assert(b.contains(b[i - a.len()]));
        }
    }
}

proof fn lemma_find_none(s: Seq<char>, a: char, b: char)
    requires
        !s.contains(a),
        !s.contains(b),
    ensures
        find(s, a, b) == s.len(),
    decreases s.len(),
{
    if s.len() > 0 {
        assert(s.contains(s[0]));
        let t = s.drop_first();
        assert forall|i: int| 0 <= i < t.len() implies t[i] != a && t[i] != b by {
            assert(s.contains(s[i + 1]));
        }
        lemma_find_none(t, a, b);
    }
}

proof fn lemma_find_at(p: Seq<char>, q: Seq<char>, c: char)
    requires
        !p.contains(c),
    ensures
        find(p.push(c) + q, c, c) == p.len(),
    decreases p.len(),
{
    let s = p.push(c) + q;
    if p.len() == 0 {
        assert(s[0] == c);
    } else {
        assert(p.contains(p[0]));
        assert(s[0] == p[0]);
        let t = p.drop_first();
        assert forall|i: int| 0 <= i < t.len() implies t[i] != c by {
            assert(p.contains(p[i + 1]));
        }
        lemma_find_at(t, q, c);
        assert(s.drop_first() =~= t.push(c) + q);
    }
}

proof fn lemma_padded(n: nat, w: nat)
    requires
        n < pow10(w),
    ensures
        padded(n, w).len() == w,
        crate::text::all_digits(padded(n, w)),
        crate::text::digits_value(padded(n, w)) == n,
    decreases w,
{
    if w > 0 {
        lemma_padded(n / 10, (w - 1) as nat);
        let t = padded(n, w);
        assert(t.drop_last() =~= padded(n / 10, (w - 1) as nat));
        assert(t.last() == crate::text::digit_char(n % 10));
        assert(crate::text::digits_value(t) == (n / 10) * 10 + n % 10);
    }
}

proof fn lemma_plain_chars(n: nat, d: nat, c: char)
    requires
        !crate::text::is_digit(c),
        c != '.',
    ensures
        !plain_text(n, d).contains(c),
{
    if d == 0 {
        crate::text::lemma_nat_text(n);
        crate::text::lemma_digits_hold_no(plain_text(n, d), c);
    } else {
        let p = pow10(d);
        lemma_pow10_positive(d);
        crate::text::lemma_nat_text(n / p);
        assert(n % p < p) by (nonlinear_arith)
            requires
                p >= 1,
        ;
        lemma_padded(n % p, d);
        let w = crate::text::nat_text(n / p);
        let f = padded(n % p, d);
        crate::text::lemma_digits_hold_no(w, c);
        crate::text::lemma_digits_hold_no(f, c);
        assert forall|i: int| 0 <= i < w.push('.').len() implies w.push('.')[i] != c by {
            if i < w.len() {
                assert(w.contains(w[i]));
            }
        }
        lemma_contains_concat(w.push('.'), f, c);
    }
}

/// Signed plain text is a number with exactly the digits that were written.
proof fn lemma_plain_is_number(a: int, n: nat, d: nat)
    ensures
        ({
            let s = sign_text(a) + plain_text(n, d);
            &&& is_number(s)
            &&& !has_exponent(s)
            &&& negative(s) == (a < 0)
            &&& crate::text::digits_value(number_digits(s)) == n
            &&& number_scale(s) == -(d as int)
        }),
{
    let t = plain_text(n, d);
    let s = sign_text(a) + t;
    lemma_plain_chars(n, d, 'e');
    lemma_plain_chars(n, d, 'E');
    lemma_find_none(t, 'e', 'E');
    let p = pow10(d);
    lemma_pow10_positive(d);
    let w = if d == 0 {
        crate::text::nat_text(n)
    } else {
        crate::text::nat_text(n / p)
    };
    crate::text::lemma_nat_text(n);
    crate::text::lemma_nat_text(n / p);
    assert(crate::text::is_digit(w[0]));
    assert(t[0] == w[0]);
    assert(unsigned(s) =~= t);
    assert(t.take(t.len() as int) =~= t);
    assert(mantissa_text(s) == t);
    crate::text::lemma_digits_hold_no(w, '.');
    if d == 0 {
        lemma_find_none(t, '.', '.');
        assert(t.take(t.len() as int) =~= t);
        assert(whole_part(t) + frac_part(t) =~= t);
    } else {
        assert(n % p < p) by (nonlinear_arith)
            requires
                p >= 1,
        ;
        lemma_padded(n % p, d);
        let f = padded(n % p, d);
        lemma_find_at(w, f, '.');
        assert(whole_part(t) =~= w);
        assert(frac_part(t) =~= f);
        lemma_digits_concat(w, f);
        assert(n == p * (n / p) + n % p) by (nonlinear_arith)
            requires
                p >= 1,
        ;
        assert((n / p) * p == p * (n / p)) by (nonlinear_arith);
    }
}

/// Dropping trailing zeros keeps the number.
proof fn lemma_short_is_plain(n: nat, d: nat) -> (r: (nat, nat))
    ensures
        short_plain(n, d) == plain_text(r.0, r.1),
        r.1 <= d,
        n == r.0 * pow10((d - r.1) as nat),
    decreases d,
{
    if d > 0 && n % 10 == 0 {
        let r = lemma_short_is_plain(n / 10, (d - 1) as nat);
        let k = (d - 1 - r.1) as nat;
        let p = pow10(k);
        assert(pow10((d - r.1) as nat) == 10 * p);
        assert(r.0 * (10 * p) == 10 * (r.0 * p)) by (nonlinear_arith);
        r
    } else {
        assert(n * 1 == n);
        (n, d)
    }
}

// ---------------------------------------------------------------------------
// Bounds

/// `v` moved between `lo` and `hi` by the shortest way.
pub open spec fn clamp_amount(v: Amount, lo: Amount, hi: Amount) -> Amount {
    if v < lo {
        lo
    } else if v > hi {
        hi
    } else {
        v
    }
}

/// `v` moved between `lo` and `hi` by the shortest way.
pub fn clamp_units(v: Amount, lo: Amount, hi: Amount) -> (r: Amount)
    ensures
        r == clamp_amount(v, lo, hi),
{
    if v < lo {
        lo
    } else if v > hi {
        hi
    } else {
        v
    }
}

/// The ladder key of a price is the nearest one: no other is closer, and of two equally near
/// ones it is the one farther from zero.
pub proof fn law_a_key_is_the_nearest(price: Amount)
    requires
        -90_000_000_000_000_000_000_000 <= price <= 90_000_000_000_000_000_000_000,
    ensures
        -5_000 <= key_of(price as int) * 10_000 - price <= 5_000,
        price >= 0 ==> key_of(price as int) * 10_000 - price > -5_000,
        price <= 0 ==> key_of(price as int) * 10_000 - price < 5_000,
        i64::MIN <= key_of(price as int) <= i64::MAX,
{
    let m = magnitude(price as int) as int;
    let n = (2 * m + 10_000) / 20_000;
    assert(20_000 * n <= 2 * m + 10_000 < 20_000 * n + 20_000);
    assert(key_of(price as int) == (if price < 0 {
        -n
    } else {
        n
    }));
}

/// The text of an amount with up to eight decimals denotes the nearest number with that many
/// decimals, and has exactly that many digits behind the point.
pub proof fn law_fixed_is_the_nearest(a: Amount, d: nat)
    requires
        d <= 8,
        -1_000_000_000_000_000_000_000_000_000_000 <= a <= 1_000_000_000_000_000_000_000_000_000_000,
    ensures
        parsed_amount(fixed(a as int, d)) matches Some(b) && 2 * (b - a) <= pow10((8 - d) as nat) && 2 * (a - b)
            <= pow10((8 - d) as nat),
        d > 0 ==> fixed(a as int, d)[fixed(a as int, d).len() - 1 - d] == '.',
{
    let m = magnitude(a as int);
    let n = nearest(m, d - 8);
    let k = (8 - d) as nat;
    let p = pow10(k);
    lemma_pow10_positive(k);
    lemma_pow10_monotonic(k, 8);
    lemma_pow10_8();
    lemma_plain_is_number(a as int, n, d);
    if d == 8 {
        assert(m * 1 == m);
        assert(p == 1);
        assert(n == m);
        assert(n * p == n) by (nonlinear_arith)
            requires
                p == 1,
        ;
    } else {
        let q = 2 * p;
        assert(n == (2 * m + p) / q);
        assert(q * n <= 2 * m + p < q * n + q) by (nonlinear_arith)
            requires
                n == (2 * m + p) / q,
                q > 0,
        ;
        assert(q * n == 2 * (n * p)) by (nonlinear_arith)
            requires
                q == 2 * p,
        ;
    }
    assert(n > 0 ==> n * p > 0) by (nonlinear_arith)
        requires
            p >= 1,
    ;
    if d > 0 {
        let u = pow10(d);
        lemma_pow10_positive(d);
        assert(n % u < u) by (nonlinear_arith)
            requires
                u >= 1,
        ;
        lemma_padded(n % u, d);
        let w = crate::text::nat_text(n / u);
        let t = plain_text(n, d);
        assert(t == w.push('.') + padded(n % u, d));
        assert(t[t.len() - 1 - d] == '.');
    }
}

/// A product of amounts is cut towards zero.
pub proof fn law_products_are_cut_towards_zero(a: Amount, b: Amount)
    requires
        i128::MIN < a * b < i128::MAX,
    ensures
        a * b >= 0 ==> product(a, b) * ONE <= a * b < (product(a, b) + 1) * ONE,
        a * b <= 0 ==> (product(a, b) - 1) * ONE < a * b <= product(a, b) * ONE,
{
}

/// Amounts in range are not cut off, and others stop at the nearest end.
pub proof fn law_cutting_off_keeps_what_fits(x: int)
    ensures
        i128::MIN <= sat(x) <= i128::MAX,
        i128::MIN <= x <= i128::MAX ==> sat(x) == x,
        x < i128::MIN ==> sat(x) == i128::MIN,
        x > i128::MAX ==> sat(x) == i128::MAX,
{
}

/// A bounded amount lies within its bounds and is itself where it did before.
pub proof fn law_bounds_hold(v: Amount, lo: Amount, hi: Amount)
    requires
        lo <= hi,
    ensures
        lo <= clamp_amount(v, lo, hi) <= hi,
        lo <= v <= hi ==> clamp_amount(v, lo, hi) == v,
        v < lo ==> clamp_amount(v, lo, hi) == lo,
        v > hi ==> clamp_amount(v, lo, hi) == hi,
{
}

/// The power of ten that stands behind the digits: nothing, or a sign and digits.
pub open spec fn power_of(s: Seq<char>, k: int) -> bool {
    ||| s.len() == 0 && k == 0
    ||| exists|e: char, g: Seq<char>, x: Seq<char>|
        #![trigger seq![e] + g + x]
        s == seq![e] + g + x && (e == 'e' || e == 'E') && (g == Seq::<char>::empty() || g == seq!['+'] || g == seq!['-'])
            && x.len() > 0 && crate::text::all_digits(x) && k == (if g == seq!['-'] {
            -(crate::text::digits_value(x) as int)
        } else {
            crate::text::digits_value(x) as int
        })
}

/// An amount reads from a sign, digits, a point, digits and a power of ten. It is the number
/// that these make, counted in units and rounded to the nearest one.
pub proof fn law_decimals_are_read(sign: Seq<char>, w: Seq<char>, f: Seq<char>, power: Seq<char>, k: int)
    requires
        sign == Seq::<char>::empty() || sign == seq!['+'] || sign == seq!['-'],
        crate::text::all_digits(w),
        crate::text::all_digits(f),
        w.len() + f.len() > 0,
        power_of(power, k),
    ensures
        parsed_amount(sign + w + seq!['.'] + f + power) matches Some(a) && ({
            let b = if sign == seq!['-'] {
                -a
            } else {
                a as int
            };
            let v = crate::text::digits_value(w) * pow10(f.len()) + crate::text::digits_value(f);
            let e = k - f.len() + 8;
            &&& b >= 0
            &&& v == 0 <==> b == 0
            &&& e >= 0 && v * pow10(e as nat) <= MAX_AMOUNT ==> b == v * pow10(e as nat)
            &&& e >= 0 && v * pow10(e as nat) > MAX_AMOUNT ==> b == MAX_AMOUNT
            &&& e < 0 && 1 < b < MAX_AMOUNT ==> {
                let p = pow10((-e) as nat);
                2 * (b * p) - p <= 2 * v < 2 * (b * p) + p
            }
        }),
{
    let s = sign + w + seq!['.'] + f + power;
    lemma_decimal_parts(sign, w, f, power, k);
    let v = crate::text::digits_value(w) * pow10(f.len()) + crate::text::digits_value(f);
    let e = k - f.len() + 8;
    lemma_nearest_units(v, e);
}

/// The nearest number of units: exact where no digit is cut off.
proof fn lemma_nearest_units(v: nat, e: int)
    ensures
        v == 0 <==> bounded(v, e) == 0,
        e >= 0 && v * pow10(e as nat) <= MAX_AMOUNT ==> bounded(v, e) == v * pow10(e as nat),
        e >= 0 && v * pow10(e as nat) > MAX_AMOUNT ==> bounded(v, e) == MAX_AMOUNT,
        e < 0 && 1 < bounded(v, e) < MAX_AMOUNT ==> {
            let p = pow10((-e) as nat);
            2 * (bounded(v, e) * p) - p <= 2 * v < 2 * (bounded(v, e) * p) + p
        },
{
    if v == 0 {
        lemma_nearest_zero(e);
    }
    if e >= 0 {
        let p = pow10(e as nat);
        lemma_pow10_positive(e as nat);
        assert(v > 0 ==> v * p > 0) by (nonlinear_arith)
            requires
                p >= 1,
        ;
    } else {
        let p = pow10((-e) as nat);
        lemma_pow10_positive((-e) as nat);
        let q = 2 * p;
        let b = nearest(v, e);
        assert(q * b <= 2 * v + p < q * b + q) by (nonlinear_arith)
            requires
                b == (2 * v + p) / q,
                q > 0,
        ;
        assert(q * b == 2 * (b * p)) by (nonlinear_arith)
            requires
                q == 2 * p,
        ;
    }
}

proof fn lemma_decimal_parts(sign: Seq<char>, w: Seq<char>, f: Seq<char>, power: Seq<char>, k: int)
    requires
        sign == Seq::<char>::empty() || sign == seq!['+'] || sign == seq!['-'],
        crate::text::all_digits(w),
        crate::text::all_digits(f),
        w.len() + f.len() > 0,
        power_of(power, k),
    ensures
        ({
            let s = sign + w + seq!['.'] + f + power;
            &&& is_number(s)
            &&& negative(s) == (sign == seq!['-'])
            &&& crate::text::digits_value(number_digits(s)) == crate::text::digits_value(w) * pow10(f.len())
                + crate::text::digits_value(f)
            &&& number_scale(s) == k - f.len()
        }),
{
    let s = sign + w + seq!['.'] + f + power;
    let m = w.push('.') + f;
    crate::text::lemma_digits_hold_no(w, '.');
    crate::text::lemma_digits_hold_no(w, 'e');
    crate::text::lemma_digits_hold_no(w, 'E');
    crate::text::lemma_digits_hold_no(f, 'e');
    crate::text::lemma_digits_hold_no(f, 'E');
    assert forall|i: int| 0 <= i < m.len() implies m[i] != 'e' && m[i] != 'E' by {
        if i < w.len() {
            assert(w.contains(w[i]));
        } else if i > w.len() {
            assert(f.contains(f[i - w.len() - 1]));
        }
    }
    if sign.len() == 0 {
        assert(s =~= m + power);
        if w.len() > 0 {
            assert(s[0] == w[0]);
            assert(crate::text::is_digit(w[0]));
        } else {
            assert(s[0] == '.');
        }
    } else {
        assert(s[0] == sign[0]);
        assert(s.drop_first() =~= m + power);
    }
    assert(unsigned(s) == m + power);
    assert(negative(s) == (sign == seq!['-'])) by {
        assert(seq!['-'][0] == '-');
        assert(seq!['+'][0] == '+');
    }
    lemma_find_behind(m, power, 'e', 'E');
    assert((m + power).take(m.len() as int) =~= m);
    lemma_find_at(w, f, '.');
    assert(m.take(w.len() as int) =~= w);
    assert(m.skip(w.len() as int + 1) =~= f);
    lemma_digits_concat(w, f);
    if power.len() > 0 {
        let (e, g, x) = choose|e: char, g: Seq<char>, x: Seq<char>|
            #![trigger seq![e] + g + x]
            power == seq![e] + g + x && (e == 'e' || e == 'E') && (g == Seq::<char>::empty() || g == seq!['+'] || g
                == seq!['-']) && x.len() > 0 && crate::text::all_digits(x) && k == (if g == seq!['-'] {
                -(crate::text::digits_value(x) as int)
            } else {
                crate::text::digits_value(x) as int
            });
        assert((m + power).skip(m.len() as int + 1) =~= g + x);
        assert(crate::text::is_digit(x[0]));
        assert(seq!['-'][0] == '-');
        assert(seq!['+'][0] == '+');
        if g.len() == 0 {
            assert(g + x =~= x);
        } else {
            assert((g + x)[0] == g[0]);
            assert((g + x).drop_first() =~= x);
        }
        assert(exponent_value(s) == k);
    }
}

proof fn lemma_find_behind(p: Seq<char>, q: Seq<char>, a: char, b: char)
    requires
        forall|i: int| 0 <= i < p.len() ==> p[i] != a && p[i] != b,
        q.len() == 0 || q[0] == a || q[0] == b,
    ensures
        find(p + q, a, b) == p.len(),
    decreases p.len(),
{
    let s = p + q;
    if p.len() == 0 {
        assert(s =~= q);
    } else {
        assert(s[0] == p[0]);
        lemma_find_behind(p.drop_first(), q, a, b);
        assert(s.drop_first() =~= p.drop_first() + q);
    }
}

/// No amount reads from text without a digit, nor from text with a character that numbers
/// do not have.
pub proof fn law_other_text_is_no_amount(s: Seq<char>, i: int)
    requires
        0 <= i < s.len(),
        !crate::text::is_digit(s[i]),
        s[i] != '.' && s[i] != 'e' && s[i] != 'E' && s[i] != '+' && s[i] != '-',
    ensures
        parsed_amount(s) is None,
        parsed_amount(Seq::empty()) is None,
{
    let u = unsigned(s);
    let j = if signed(s) {
        i - 1
    } else {
        i
    };
    assert(u[j] == s[i]);
    let k = find(u, 'e', 'E');
    lemma_find_bounds(u, 'e', 'E');
    if is_number(s) {
        let m = mantissa_text(s);
        if j < k {
            assert(m[j] == u[j]);
            let p = find(m, '.', '.');
            lemma_find_bounds(m, '.', '.');
            if j < p {
                assert(crate::text::is_digit(whole_part(m)[j]));
            } else {
                assert(j > p);
                assert(crate::text::is_digit(frac_part(m)[j - p - 1]));
            }
        } else {
            assert(j > k);
            let x = exponent_text(s);
            assert(x[j - k - 1] == u[j]);
            if signed(x) {
                assert(crate::text::is_digit(unsigned(x)[j - k - 2]));
            } else {
                assert(crate::text::is_digit(unsigned(x)[j - k - 1]));
            }
        }
    }
    let z = Seq::<char>::empty();
    assert(unsigned(z) == z);
    assert(mantissa_text(z) =~= z);
    assert(whole_part(z).len() == 0);
}

proof fn lemma_find_bounds(s: Seq<char>, a: char, b: char)
    ensures
        0 <= find(s, a, b) <= s.len(),
        find(s, a, b) < s.len() ==> s[find(s, a, b)] == a || s[find(s, a, b)] == b,
    decreases s.len(),
{
    if s.len() > 0 {
        lemma_find_bounds(s.drop_first(), a, b);
    }
}

} // verus!
