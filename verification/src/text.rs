//! Text handling on sequences of characters: trimming, splitting on a separator,
//! joining, unsigned integers and case-insensitive comparison.

use vstd::prelude::*;

verus! {

/// Which characters a trim takes away at both ends.
#[derive(Clone, Copy, PartialEq, Eq, Structural, Debug)]
pub enum Strip {
    /// Every character with the Unicode property `White_Space`.
    Space,
    /// The double quote.
    Quote,
}

/// The characters with the Unicode property `White_Space`.
pub open spec fn is_space(c: char) -> bool {
    let u = c as u32;
    ||| 0x9 <= u <= 0xd
    ||| u == 0x20
    ||| u == 0x85
    ||| u == 0xa0
    ||| u == 0x1680
    ||| 0x2000 <= u <= 0x200a
    ||| u == 0x2028
    ||| u == 0x2029
    ||| u == 0x202f
    ||| u == 0x205f
    ||| u == 0x3000
}

pub open spec fn strippable(kind: Strip, c: char) -> bool {
    match kind {
        Strip::Space => is_space(c),
        Strip::Quote => c == '"',
    }
}

/// `s` without the strippable characters at its start.
pub open spec fn strip_start(kind: Strip, s: Seq<char>) -> Seq<char>
    decreases s.len(),
{
    if s.len() > 0 && strippable(kind, s[0]) {
        strip_start(kind, s.drop_first())
    } else {
        s
    }
}

/// `s` without the strippable characters at its end.
pub open spec fn strip_end(kind: Strip, s: Seq<char>) -> Seq<char>
    decreases s.len(),
{
    if s.len() > 0 && strippable(kind, s.last()) {
        strip_end(kind, s.drop_last())
    } else {
        s
    }
}

/// `s` without the strippable characters at both ends.
pub open spec fn strip(kind: Strip, s: Seq<char>) -> Seq<char> {
    strip_end(kind, strip_start(kind, s))
}

/// The fields between the separators of `s`: one more than there are separators.
pub open spec fn fields(s: Seq<char>, sep: char) -> Seq<Seq<char>>
    decreases s.len(),
{
    if s.len() == 0 {
        seq![Seq::empty()]
    } else {
        let f = fields(s.drop_last(), sep);
        if s.last() == sep {
            f.push(Seq::empty())
        } else {
            f.drop_last().push(f.last().push(s.last()))
        }
    }
}

/// The fields of `f` with one separator between neighbours.
pub open spec fn join(f: Seq<Seq<char>>, sep: char) -> Seq<char>
    decreases f.len(),
{
    if f.len() == 0 {
        Seq::empty()
    } else if f.len() == 1 {
        f[0]
    } else {
        join(f.drop_last(), sep).push(sep) + f.last()
    }
}

pub open spec fn is_digit(c: char) -> bool {
    '0' <= c <= '9'
}

pub open spec fn all_digits(s: Seq<char>) -> bool {
    forall|i: int| 0 <= i < s.len() ==> is_digit(#[trigger] s[i])
}

pub open spec fn digit_value(c: char) -> nat {
    (c as u32 - '0' as u32) as nat
}

pub open spec fn digit_char(d: nat) -> char {
    ('0' as u32 + d) as char
}

/// The number that a sequence of digits writes in base ten.
pub open spec fn digits_value(s: Seq<char>) -> nat
    decreases s.len(),
{
    if s.len() == 0 {
        0
    } else {
        digits_value(s.drop_last()) * 10 + digit_value(s.last())
    }
}

/// `n` in base ten, without leading zeros.
pub open spec fn nat_text(n: nat) -> Seq<char>
    decreases n,
{
    if n < 10 {
        seq![digit_char(n)]
    } else {
        nat_text(n / 10).push(digit_char(n % 10))
    }
}

/// What an unsigned 64-bit integer reads from: an optional `+` and at least one
/// digit, of a number that fits.
pub open spec fn parsed_u64(s: Seq<char>) -> Option<u64> {
    let d = if s.len() > 0 && s[0] == '+' {
        s.drop_first()
    } else {
        s
    };
    if d.len() > 0 && all_digits(d) && digits_value(d) <= u64::MAX {
        Some(digits_value(d) as u64)
    } else {
        None
    }
}

/// The lower-case form of a character, as far as it is an ASCII letter. The Kelvin
/// sign is the one other character whose lower-case form is a single ASCII letter.
pub open spec fn lower(c: char) -> char {
    if 'A' <= c <= 'Z' {
        (c as u32 + 32) as char
    } else if c as u32 == 0x212a {
        'k'
    } else {
        c
    }
}

pub open spec fn lower_text(s: Seq<char>) -> Seq<char> {
    s.map_values(|c: char| lower(c))
}

/// Whether `part` stands somewhere in `s`.
pub open spec fn contains_text(s: Seq<char>, part: Seq<char>) -> bool {
    exists|i: int| 0 <= i && i + part.len() <= s.len() && #[trigger] s.subrange(i, i + part.len()) == part
}

pub open spec fn starts_with_text(s: Seq<char>, part: Seq<char>) -> bool {
    part.len() <= s.len() && s.subrange(0, part.len() as int) == part
}

/// The views of a vector of strings.
pub open spec fn texts(v: Seq<String>) -> Seq<Seq<char>> {
    v.map_values(|s: String| s@)
}

// ---------------------------------------------------------------------------
// Laws

/// Splitting a line that was joined from separator-free fields gives the fields back.
pub proof fn law_split_undoes_join(f: Seq<Seq<char>>, sep: char)
    requires
        f.len() > 0,
        forall|i: int| 0 <= i < f.len() ==> !(#[trigger] f[i]).contains(sep),
    ensures
        fields(join(f, sep), sep) == f,
    decreases f.len(),
{
    if f.len() == 1 {
        lemma_fields_of_plain(f[0], sep);
        assert(f =~= seq![f[0]]);
    } else {
        let head = f.drop_last();
        assert forall|i: int| 0 <= i < head.len() implies !(#[trigger] head[i]).contains(sep) by {
            assert(head[i] == f[i]);
        }
        law_split_undoes_join(head, sep);
        let h = join(head, sep).push(sep);
        assert(h.drop_last() =~= join(head, sep));
        assert(fields(h, sep) == fields(join(head, sep), sep).push(Seq::empty()));
        lemma_fields_extend(h, f.last(), sep);
        assert(fields(h, sep).last() =~= Seq::<char>::empty());
        assert(Seq::<char>::empty() + f.last() =~= f.last());
        assert(fields(h, sep).drop_last() =~= head);
        assert(head.push(f.last()) =~= f);
    }
}

/// An unsigned integer reads back from its own decimal text.
pub proof fn law_u64_reads_back(n: u64)
    ensures
        parsed_u64(nat_text(n as nat)) == Some(n),
{
    lemma_nat_text(n as nat);
    let t = nat_text(n as nat);
    assert(is_digit(t[0]));
}

proof fn lemma_fields_of_plain(s: Seq<char>, sep: char)
    requires
        !s.contains(sep),
    ensures
        fields(s, sep) == seq![s],
    decreases s.len(),
{
    if s.len() > 0 {
        let p = s.drop_last();
        assert forall|i: int| 0 <= i < p.len() implies p[i] != sep by {
            assert(s.contains(s[i]));
        }
        lemma_fields_of_plain(p, sep);
        assert(s.contains(s.last()));
        assert(fields(s, sep) =~= seq![p.push(s.last())]);
        assert(p.push(s.last()) =~= s);
    } else {
        assert(s =~= Seq::empty());
    }
}

/// Appending separator-free text extends the last field.
proof fn lemma_fields_extend(s: Seq<char>, t: Seq<char>, sep: char)
    requires
        !t.contains(sep),
    ensures
        fields(s, sep).len() > 0,
        fields(s + t, sep) == fields(s, sep).drop_last().push(fields(s, sep).last() + t),
    decreases t.len(),
{
    lemma_fields_nonempty(s, sep);
    if t.len() == 0 {
        assert(s + t =~= s);
        assert(fields(s, sep).last() + t =~= fields(s, sep).last());
        assert(fields(s, sep) =~= fields(s, sep).drop_last().push(fields(s, sep).last()));
    } else {
        let p = t.drop_last();
        assert forall|i: int| 0 <= i < p.len() implies p[i] != sep by {
            assert(t.contains(t[i]));
        }
        assert(t.contains(t.last()));
        lemma_fields_extend(s, p, sep);
        assert((s + t).drop_last() =~= s + p);
        let f = fields(s + p, sep);
        assert(f.drop_last() =~= fields(s, sep).drop_last());
        assert(f.last().push(t.last()) =~= fields(s, sep).last() + t);
    }
}

pub proof fn lemma_fields_nonempty(s: Seq<char>, sep: char)
    ensures
        fields(s, sep).len() > 0,
    decreases s.len(),
{
    if s.len() > 0 {
        lemma_fields_nonempty(s.drop_last(), sep);
    }
}

/// The decimal text of a number is made of digits and denotes the number.
pub proof fn lemma_nat_text(n: nat)
    ensures
        nat_text(n).len() > 0,
        all_digits(nat_text(n)),
        digits_value(nat_text(n)) == n,
    decreases n,
{
    if n < 10 {
        let t = nat_text(n);
        assert(t.drop_last() =~= Seq::empty());
        reveal_with_fuel(digits_value, 2);
        assert(t.last() == digit_char(n));
    } else {
        lemma_nat_text(n / 10);
        let t = nat_text(n);
        assert(t.drop_last() =~= nat_text(n / 10));
        assert(t.last() == digit_char(n % 10));
        assert(digits_value(t) == (n / 10) * 10 + n % 10);
    }
}

/// Text made of digits holds no character that is not a digit.
pub proof fn lemma_digits_hold_no(s: Seq<char>, c: char)
    requires
        all_digits(s),
        !is_digit(c),
    ensures
        !s.contains(c),
{
    assert forall|i: int| 0 <= i < s.len() implies s[i] != c by {
        assert(is_digit(s[i]));
    }
}

// ---------------------------------------------------------------------------
// Executable functions

/// The characters of a text.
pub fn to_chars(s: &str) -> (r: Vec<char>)
    ensures
        r@ == s@,
{
    let mut v: Vec<char> = Vec::new();
    for c in it: s.chars()
        invariant
            v@ == it.seq().take(it.index() as int),
            it.seq() == s@,
    {
        v.push(c);
        assert(v@ =~= it.seq().take(it.index() as int + 1));
    }
    assert(v@ =~= s@);
    v
}

fn space(c: char) -> (r: bool)
    ensures
        r == is_space(c),
{
    let u: u32 = c as u32;
    (0x9 <= u && u <= 0xd) || u == 0x20 || u == 0x85 || u == 0xa0 || u == 0x1680 || (0x2000 <= u
        && u <= 0x200a) || u == 0x2028 || u == 0x2029 || u == 0x202f || u == 0x205f || u == 0x3000
}

fn strips(kind: Strip, c: char) -> (r: bool)
    ensures
        r == strippable(kind, c),
{
    match kind {
        Strip::Space => space(c),
        Strip::Quote => c == '"',
    }
}

/// `s` without the strippable characters at both ends.
pub fn trim<'a>(kind: Strip, s: &'a str) -> (r: &'a str)
    ensures
        r@ == strip(kind, s@),
{
    let v = to_chars(s);
    let n: usize = v.len();
    let mut lo: usize = 0;
    assert(s@.subrange(0, n as int) =~= s@);
    while lo < n && strips(kind, v[lo])
        invariant
            lo <= n,
            n == v@.len(),
            v@ == s@,
            strip_start(kind, s@) == strip_start(kind, s@.subrange(lo as int, n as int)),
        decreases n - lo,
    {
        assert(s@.subrange(lo as int, n as int).drop_first() =~= s@.subrange(lo + 1, n as int));
        lo += 1;
    }
    proof {
        assert(strip_start(kind, s@.subrange(lo as int, n as int)) == s@.subrange(lo as int, n as int));
    }
    let mut hi: usize = n;
    while hi > lo && strips(kind, v[hi - 1])
        invariant
            lo <= hi <= n,
            n == v@.len(),
            v@ == s@,
            strip(kind, s@) == strip_end(kind, s@.subrange(lo as int, hi as int)),
        decreases hi,
    {
        assert(s@.subrange(lo as int, hi as int).drop_last() =~= s@.subrange(lo as int, hi - 1));
        hi -= 1;
    }
    proof {
        assert(strip_end(kind, s@.subrange(lo as int, hi as int)) == s@.subrange(lo as int, hi as int));
    }
    s.substring_char(lo, hi)
}

/// The fields of `s` between the separators.
pub fn split(s: &str, sep: char) -> (r: Vec<String>)
    ensures
        texts(r@) == fields(s@, sep),
{
    let v = to_chars(s);
    let n: usize = v.len();
    let mut out: Vec<String> = Vec::new();
    let mut start: usize = 0;
    let mut i: usize = 0;
    proof {
        assert(s@.take(0) =~= Seq::empty());
        assert(texts(out@).push(s@.subrange(0, 0)) =~= fields(s@.take(0), sep));
    }
    while i < n
        invariant
            start <= i <= n,
            n == v@.len(),
            v@ == s@,
            texts(out@).push(s@.subrange(start as int, i as int)) == fields(s@.take(i as int), sep),
        decreases n - i,
    {
        let ghost before = texts(out@);
        proof {
            assert(s@.take(i + 1).drop_last() =~= s@.take(i as int));
            assert(s@.take(i + 1).last() == s@[i as int]);
        }
        if v[i] == sep {
            let field: String = s.substring_char(start, i).to_owned();
            out.push(field);
            start = i + 1;
            proof {
                assert(texts(out@) =~= before.push(field@));
                assert(s@.subrange(i + 1, i + 1) =~= Seq::empty());
            }
        } else {
            proof {
                let f = fields(s@.take(i as int), sep);
                assert(f.drop_last() =~= before);
                assert(f.last().push(s@[i as int]) =~= s@.subrange(start as int, i + 1));
            }
        }
        i += 1;
    }
    let ghost before = texts(out@);
    let field: String = s.substring_char(start, n).to_owned();
    out.push(field);
    proof {
        assert(s@.take(n as int) =~= s@);
        assert(texts(out@) =~= before.push(field@));
    }
    out
}

fn digit_of(c: char) -> (r: Option<u8>)
    ensures
        r == (if is_digit(c) {
            Some(digit_value(c) as u8)
        } else {
            None::<u8>
        }),
        is_digit(c) ==> digit_value(c) < 10,
{
    let u: u32 = c as u32;
    if 48 <= u && u <= 57 {
        Some((u - 48) as u8)
    } else {
        None
    }
}

/// The digit that a character writes.
pub fn digit(c: char) -> (r: Option<u8>)
    ensures
        r == (if is_digit(c) {
            Some(digit_value(c) as u8)
        } else {
            None::<u8>
        }),
        is_digit(c) ==> digit_value(c) < 10,
{
    digit_of(c)
}

/// Digits behind a prefix only make the number larger.
pub proof fn lemma_digits_value_grows(s: Seq<char>, k: int)
    requires
        0 <= k <= s.len(),
    ensures
        digits_value(s.take(k)) <= digits_value(s),
    decreases s.len(),
{
    if k == s.len() {
        assert(s.take(k) =~= s);
    } else {
        lemma_digits_value_grows(s.drop_last(), k);
        assert(s.drop_last().take(k) =~= s.take(k));
    }
}

/// Reads an unsigned 64-bit integer.
pub fn parse_u64(s: &str) -> (r: Option<u64>)
    ensures
        r == parsed_u64(s@),
{
    let v = to_chars(s);
    let n: usize = v.len();
    let first: usize = if n > 0 && v[0] == '+' {
        1
    } else {
        0
    };
    let ghost d = if first == 1 {
        s@.drop_first()
    } else {
        s@
    };
    proof {
        assert(d =~= s@.subrange(first as int, n as int));
    }
    if first >= n {
        return None;
    }
    let mut acc: u64 = 0;
    let mut i: usize = first;
    proof {
        assert(d.take(0) =~= Seq::empty());
    }
    while i < n
        invariant
            first <= i <= n,
            n == v@.len(),
            v@ == s@,
            d == s@.subrange(first as int, n as int),
            d == (if s@.len() > 0 && s@[0] == '+' {
                s@.drop_first()
            } else {
                s@
            }),
            acc == digits_value(d.take(i - first)),
            all_digits(d.take(i - first)),
        decreases n - i,
    {
        let ghost k = i - first;
        proof {
            assert(d.take(k + 1).drop_last() =~= d.take(k));
            assert(d.take(k + 1).last() == d[k]);
            assert(d[k] == v@[i as int]);
            lemma_digits_value_grows(d, k + 1);
        }
        match digit_of(v[i]) {
            None => {
                assert(!is_digit(d[k]));
                return None;
            },
            Some(x) => {
                if acc > (u64::MAX - x as u64) / 10 {
                    assert(acc * 10 + x > u64::MAX);
                    return None;
                }
                acc = acc * 10 + x as u64;
                proof {
                    assert forall|j: int| 0 <= j < k + 1 implies is_digit(#[trigger] d.take(k + 1)[j]) by {
                        if j < k {
                            assert(d.take(k)[j] == d[j]);
                        }
                    }
                }
            },
        }
        i += 1;
    }
    proof {
        assert(d.take(n - first) =~= d);
    }
    Some(acc)
}

/// Appends the digit `d`.
pub fn push_digit(out: &mut String, d: u8)
    requires
        d < 10,
    ensures
        final(out)@ == old(out)@.push(digit_char(d as nat)),
{
    let t: &str = match d {
        0 => "0",
        1 => "1",
        2 => "2",
        3 => "3",
        4 => "4",
        5 => "5",
        6 => "6",
        7 => "7",
        8 => "8",
        _ => "9",
    };
    proof {
        reveal_strlit("0");
        reveal_strlit("1");
        reveal_strlit("2");
        reveal_strlit("3");
        reveal_strlit("4");
        reveal_strlit("5");
        reveal_strlit("6");
        reveal_strlit("7");
        reveal_strlit("8");
        reveal_strlit("9");
        assert(t@ =~= seq![digit_char(d as nat)]);
    }
    let ghost before = out@;
    out.append(t);
    assert(out@ =~= before.push(digit_char(d as nat)));
}

/// Appends `n` in base ten.
pub fn push_u128(out: &mut String, n: u128)
    ensures
        final(out)@ == old(out)@ + nat_text(n as nat),
    decreases n,
{
    let ghost before = out@;
    if n < 10 {
        push_digit(out, n as u8);
        assert(out@ =~= before + nat_text(n as nat));
    } else {
        push_u128(out, n / 10);
        push_digit(out, (n % 10) as u8);
        assert(out@ =~= before + nat_text(n as nat));
    }
}

/// `n` in base ten.
pub fn u64_text(n: u64) -> (r: String)
    ensures
        r@ == nat_text(n as nat),
{
    let mut out = String::new();
    push_u128(&mut out, n as u128);
    assert(out@ =~= nat_text(n as nat));
    out
}

/// The lower-case form of a character, for comparison with ASCII words.
pub fn lower_char(c: char) -> (r: char)
    ensures
        r == lower(c),
{
    if 'A' <= c && c <= 'Z' {
        let u: u8 = c as u8;
        (u + 32) as char
    } else if c as u32 == 0x212a {
        'k'
    } else {
        c
    }
}

/// Whether two texts are equal.
pub fn same_text(a: &str, b: &str) -> (r: bool)
    ensures
        r == (a@ == b@),
{
    let x = to_chars(a);
    let y = to_chars(b);
    if x.len() != y.len() {
        return false;
    }
    let mut i: usize = 0;
    while i < x.len()
        invariant
            i <= x@.len(),
            x@.len() == y@.len(),
            x@ == a@,
            y@ == b@,
            forall|j: int| 0 <= j < i ==> x@[j] == y@[j],
        decreases x@.len() - i,
    {
        if x[i] != y[i] {
            return false;
        }
        i += 1;
    }
    assert(a@ =~= b@);
    true
}

/// Whether `a` in lower case is the text `b`.
pub fn same_lower(a: &str, b: &str) -> (r: bool)
    ensures
        r == (lower_text(a@) == b@),
{
    let x = to_chars(a);
    let y = to_chars(b);
    if x.len() != y.len() {
        return false;
    }
    let mut i: usize = 0;
    while i < x.len()
        invariant
            i <= x@.len(),
            x@.len() == y@.len(),
            x@ == a@,
            y@ == b@,
            forall|j: int| 0 <= j < i ==> lower(x@[j]) == y@[j],
        decreases x@.len() - i,
    {
        if lower_char(x[i]) != y[i] {
            assert(lower_text(a@)[i as int] != b@[i as int]);
            return false;
        }
        i += 1;
    }
    assert(lower_text(a@) =~= b@);
    true
}

/// Whether the exact text `s` starts with `part`.
pub fn starts_with(s: &str, part: &str) -> (r: bool)
    ensures
        r == starts_with_text(s@, part@),
{
    let n: usize = s.unicode_len();
    let k: usize = part.unicode_len();
    if k > n {
        return false;
    }
    same_text(s.substring_char(0, k), part)
}

/// The fields with a comma between neighbours.
pub fn join_fields(f: &Vec<String>) -> (r: String)
    ensures
        r@ == join(texts(f@), ','),
{
    let mut out = String::new();
    let mut i: usize = 0;
    let n: usize = f.len();
    proof {
        reveal_strlit(",");
        assert(texts(f@).take(0) =~= Seq::empty());
    }
    while i < n
        invariant
            i <= n,
            n == f@.len(),
            ","@ == seq![','],
            out@ == join(texts(f@).take(i as int), ','),
        decreases n - i,
    {
        let ghost before = out@;
        let ghost t = texts(f@).take(i + 1);
        proof {
            assert(t.drop_last() =~= texts(f@).take(i as int));
            assert(t.last() == f@[i as int]@);
        }
        if i > 0 {
            out.append(",");
        }
        out.append(f[i].as_str());
        i += 1;
        assert(out@ =~= join(t, ','));
    }
    assert(texts(f@).take(n as int) =~= texts(f@));
    out
}

/// The lower-case form of an ASCII letter; every other character stays as it is.
pub open spec fn ascii_lower(c: char) -> char {
    if 'A' <= c <= 'Z' {
        (c as u32 + 32) as char
    } else {
        c
    }
}

/// Whether `a`, its ASCII letters in lower case, is the text `b`.
pub fn same_ascii_lower(a: &str, b: &str) -> (r: bool)
    ensures
        r == (a@.map_values(|c: char| ascii_lower(c)) == b@),
{
    let x = to_chars(a);
    let y = to_chars(b);
    let ghost l = a@.map_values(|c: char| ascii_lower(c));
    if x.len() != y.len() {
        return false;
    }
    let mut i: usize = 0;
    while i < x.len()
        invariant
            i <= x@.len(),
            x@.len() == y@.len(),
            x@ == a@,
            y@ == b@,
            l == a@.map_values(|c: char| ascii_lower(c)),
            forall|j: int| 0 <= j < i ==> ascii_lower(x@[j]) == y@[j],
        decreases x@.len() - i,
    {
        let c: char = x[i];
        let lc: char = if 'A' <= c && c <= 'Z' {
            (c as u8 + 32) as char
        } else {
            c
        };
        if lc != y[i] {
            assert(l[i as int] != b@[i as int]);
            return false;
        }
        i += 1;
    }
    assert(l =~= b@);
    true
}

/// The texts one behind the other.
pub open spec fn concat(parts: Seq<Seq<char>>) -> Seq<char>
    decreases parts.len(),
{
    if parts.len() == 0 {
        Seq::empty()
    } else {
        concat(parts.drop_last()) + parts.last()
    }
}

/// The views of a vector of text slices.
pub open spec fn views(v: Seq<&str>) -> Seq<Seq<char>> {
    v.map_values(|s: &str| s@)
}

/// The texts one behind the other.
pub fn cat(parts: &Vec<&str>) -> (r: String)
    ensures
        r@ == concat(views(parts@)),
{
    let mut out = String::new();
    let n: usize = parts.len();
    let mut i: usize = 0;
    assert(views(parts@).take(0) =~= Seq::empty());
    while i < n
        invariant
            i <= n,
            n == parts@.len(),
            out@ == concat(views(parts@).take(i as int)),
        decreases n - i,
    {
        proof {
            assert(views(parts@).take(i + 1).drop_last() =~= views(parts@).take(i as int));
            assert(views(parts@).take(i + 1).last() == parts@[i as int]@);
        }
        out.append(parts[i]);
        i += 1;
    }
    assert(views(parts@).take(n as int) =~= views(parts@));
    out
}

/// Whether `s` holds `part`.
pub fn contains(s: &str, part: &str) -> (r: bool)
    ensures
        r == contains_text(s@, part@),
{
    let n: usize = s.unicode_len();
    let k: usize = part.unicode_len();
    if k > n {
        return false;
    }
    let last: usize = n - k;
    let mut i: usize = 0;
    while i < last
        invariant
            i <= last,
            last + k == n,
            n == s@.len(),
            k == part@.len(),
            forall|j: int| 0 <= j < i ==> #[trigger] s@.subrange(j, j + part@.len()) != part@,
        decreases last - i,
    {
        if same_text(s.substring_char(i, i + k), part) {
            assert(s@.subrange(i as int, i + part@.len()) == part@);
            return true;
        }
        i += 1;
    }
    let found = same_text(s.substring_char(last, n), part);
    assert(found == (s@.subrange(last as int, last + part@.len()) == part@));
    found
}

// ---------------------------------------------------------------------------
// Words

/// The words of a text: what stands between its blanks.
pub open spec fn words(s: Seq<char>) -> Seq<Seq<char>>
    decreases s.len(),
{
    if s.len() == 0 {
        Seq::empty()
    } else {
        let before = words(s.drop_last());
        if is_space(s.last()) {
            before
        } else if s.len() == 1 || is_space(s[s.len() - 2]) {
            before.push(seq![s.last()])
        } else {
            before.update(before.len() - 1, before.last().push(s.last()))
        }
    }
}

proof fn lemma_words(s: Seq<char>)
    ensures
        s.len() > 0 && !is_space(s.last()) ==> words(s).len() > 0,
        words(s).len() > 0 ==> words(s).last().len() > 0,
    decreases s.len(),
{
    if s.len() > 0 {
        lemma_words(s.drop_last());
    }
}

proof fn lemma_join_longer(f: Seq<Seq<char>>, sep: char, c: char)
    requires
        f.len() > 0,
    ensures
        join(f.update(f.len() - 1, f.last().push(c)), sep) == join(f, sep).push(c),
        join(f.push(seq![c]), sep) == join(f, sep).push(sep).push(c),
{
    let g = f.update(f.len() - 1, f.last().push(c));
    assert(g.drop_last() =~= f.drop_last());
    assert(join(g, sep) =~= join(f, sep).push(c));
    let h = f.push(seq![c]);
    assert(h.drop_last() =~= f);
    assert(join(h, sep) =~= join(f, sep).push(sep).push(c));
}

/// The words of a text with one blank between each two.
pub fn join_words(s: &str) -> (r: String)
    ensures
        r@ == join(words(s@), ' '),
{
    let v = to_chars(s);
    let n: usize = v.len();
    let mut out = String::new();
    let mut apart: bool = true;
    let mut i: usize = 0;
    proof {
        assert(v@.take(0) =~= Seq::empty());
    }
    while i < n
        invariant
            i <= n,
            n == v@.len(),
            v@ == s@,
            apart == (i == 0 || is_space(v@[i - 1])),
            out@ == join(words(v@.take(i as int)), ' '),
            i == 0 ==> out@.len() == 0,
        decreases n - i,
    {
        let c: char = v[i];
        let ghost p = v@.take(i as int);
        proof {
            assert(v@.take(i + 1).drop_last() =~= p);
            lemma_words(p);
            if words(p).len() > 0 {
                lemma_join_longer(words(p), ' ', c);
                lemma_join_is_long(words(p), ' ');
            }
        }
        if space(c) {
            apart = true;
        } else {
            if apart && !out.as_str().is_empty() {
                out.append(" ");
            }
            out.append(s.substring_char(i, i + 1));
            proof {
                reveal_strlit(" ");
                assert(" "@ =~= seq![' ']);
                assert(s@.subrange(i as int, i + 1) =~= seq![c]);
                assert(out@ =~= join(words(v@.take(i + 1)), ' '));
            }
            apart = false;
        }
        i += 1;
    }
    assert(v@.take(n as int) =~= v@);
    out
}

proof fn lemma_join_is_long(f: Seq<Seq<char>>, sep: char)
    requires
        f.len() > 0,
        f.last().len() > 0,
    ensures
        join(f, sep).len() > 0,
{
}

/// Whether every character of `s` can be stripped.
pub open spec fn all_strippable(kind: Strip, s: Seq<char>) -> bool {
    forall|i: int| 0 <= i < s.len() ==> strippable(kind, #[trigger] s[i])
}

/// Stripping takes away what can be stripped at both ends, and nothing else.
pub proof fn law_stripping_keeps_the_middle(kind: Strip, lead: Seq<char>, s: Seq<char>, tail: Seq<char>)
    requires
        all_strippable(kind, lead),
        all_strippable(kind, tail),
        s.len() > 0 ==> !strippable(kind, s[0]) && !strippable(kind, s.last()),
    ensures
        strip(kind, lead + s + tail) == s,
    decreases lead.len() + tail.len(),
{
    let t = lead + s + tail;
    if lead.len() > 0 {
        assert(strippable(kind, lead[0]));
        let l = lead.drop_first();
        assert forall|i: int| 0 <= i < l.len() implies strippable(kind, #[trigger] l[i]) by {
            assert(strippable(kind, lead[i + 1]));
        }
        law_stripping_keeps_the_middle(kind, l, s, tail);
        assert(t.drop_first() =~= l + s + tail);
        assert(t[0] == lead[0]);
    } else if tail.len() > 0 {
        assert(strippable(kind, tail[tail.len() - 1]));
        let r = tail.drop_last();
        assert forall|i: int| 0 <= i < r.len() implies strippable(kind, #[trigger] r[i]) by {
            assert(strippable(kind, tail[i]));
        }
        if s.len() > 0 {
            law_stripping_keeps_the_middle(kind, lead, s, r);
            assert(t[0] == s[0]);
            assert((lead + s + r)[0] == s[0]);
            assert(t.drop_last() =~= lead + s + r);
            assert(t.last() == tail.last());
        } else {
            let u = tail.drop_first();
            assert forall|i: int| 0 <= i < u.len() implies strippable(kind, #[trigger] u[i]) by {
                assert(strippable(kind, tail[i + 1]));
            }
            law_stripping_keeps_the_middle(kind, lead, s, u);
            assert(strippable(kind, tail[0]));
            assert(t[0] == tail[0]);
            assert(t.drop_first() =~= lead + s + u);
        }
    } else {
        assert(t =~= s);
    }
}

/// The ten digits stand for their numbers, and each further digit behind a number counts
/// ten times less.
pub proof fn law_digits_count_by_ten(n: nat, d: nat)
    requires
        d < 10,
    ensures
        nat_text(0) == seq!['0'],
        nat_text(1) == seq!['1'],
        nat_text(2) == seq!['2'],
        nat_text(3) == seq!['3'],
        nat_text(4) == seq!['4'],
        nat_text(5) == seq!['5'],
        nat_text(6) == seq!['6'],
        nat_text(7) == seq!['7'],
        nat_text(8) == seq!['8'],
        nat_text(9) == seq!['9'],
        n > 0 ==> nat_text(10 * n + d) == nat_text(n) + nat_text(d),
{
    if n > 0 {
        assert((10 * n + d) / 10 == n);
        assert(nat_text(10 * n + d) =~= nat_text(n) + nat_text(d));
    }
    assert(nat_text(0) =~= seq!['0']);
    assert(nat_text(1) =~= seq!['1']);
    assert(nat_text(2) =~= seq!['2']);
    assert(nat_text(3) =~= seq!['3']);
    assert(nat_text(4) =~= seq!['4']);
    assert(nat_text(5) =~= seq!['5']);
    assert(nat_text(6) =~= seq!['6']);
    assert(nat_text(7) =~= seq!['7']);
    assert(nat_text(8) =~= seq!['8']);
    assert(nat_text(9) =~= seq!['9']);
}

/// A number reads from its digits, with or without a plus sign and whatever zeros stand
/// before it; what holds anything else than digits behind the sign does not read.
pub proof fn law_numbers_read_from_digits(n: u64, zeros: Seq<char>, s: Seq<char>)
    requires
        forall|i: int| 0 <= i < zeros.len() ==> zeros[i] == '0',
    ensures
        parsed_u64(zeros + nat_text(n as nat)) == Some(n),
        parsed_u64(seq!['+'] + zeros + nat_text(n as nat)) == Some(n),
        parsed_u64(Seq::empty()) is None,
        parsed_u64(seq!['+']) is None,
        (exists|i: int| 0 <= i < s.len() && !is_digit(#[trigger] s[i]) && (i > 0 || s[i] != '+')) ==> parsed_u64(s) is None,
{
    lemma_nat_text(n as nat);
    lemma_zeros_count_nothing(zeros, nat_text(n as nat));
    let t = zeros + nat_text(n as nat);
    assert forall|i: int| 0 <= i < t.len() implies is_digit(#[trigger] t[i]) by {
        if i < zeros.len() {
            assert(t[i] == zeros[i]);
        } else {
            assert(t[i] == nat_text(n as nat)[i - zeros.len()]);
        }
    }
    assert(is_digit(t[0]));
    let p = seq!['+'] + zeros + nat_text(n as nat);
    assert(p[0] == '+');
    assert(p.drop_first() =~= t);
    assert(seq!['+'].drop_first().len() == 0);
    if exists|i: int| 0 <= i < s.len() && !is_digit(#[trigger] s[i]) && (i > 0 || s[i] != '+') {
        let i = choose|i: int| 0 <= i < s.len() && !is_digit(#[trigger] s[i]) && (i > 0 || s[i] != '+');
        if s[0] == '+' {
            assert(!is_digit(s.drop_first()[i - 1]));
        } else {
            assert(!is_digit(s[i]));
        }
    }
}

proof fn lemma_zeros_count_nothing(zeros: Seq<char>, t: Seq<char>)
    requires
        forall|i: int| 0 <= i < zeros.len() ==> zeros[i] == '0',
    ensures
        digits_value(zeros + t) == digits_value(t),
    decreases zeros.len() + t.len(),
{
    let s = zeros + t;
    if t.len() > 0 {
        lemma_zeros_count_nothing(zeros, t.drop_last());
        assert(s.drop_last() =~= zeros + t.drop_last());
        assert(s.last() == t.last());
    } else if zeros.len() > 0 {
        lemma_zeros_count_nothing(zeros.drop_last(), t);
        assert(s.drop_last() =~= zeros.drop_last() + t);
        assert(s.last() == '0');
    } else {
        assert(s =~= t);
    }
}

/// What is put together holds each of its parts, in their order: the parts before it, the
/// part itself and the parts behind it.
pub proof fn law_parts_stand_in_their_order(parts: Seq<Seq<char>>, i: int)
    requires
        0 <= i < parts.len(),
    ensures
        concat(parts) == concat(parts.take(i)) + parts[i] + concat(parts.skip(i + 1)),
        concat(Seq::empty()).len() == 0,
    decreases parts.len(),
{
    let p = parts.drop_last();
    if i < p.len() {
        law_parts_stand_in_their_order(p, i);
        assert(p.take(i) =~= parts.take(i));
        let tail = parts.skip(i + 1);
        assert(tail.drop_last() =~= p.skip(i + 1));
        assert(tail.last() == parts.last());
        assert(concat(parts) =~= concat(parts.take(i)) + parts[i] + concat(tail));
    } else {
        assert(parts.take(i) =~= p);
        assert(parts.skip(i + 1).len() == 0);
        assert(concat(parts) =~= concat(p) + parts[i] + concat(parts.skip(i + 1)));
    }
}

/// Whether a text holds this part.
pub open spec fn holds_part(s: Seq<char>, part: Seq<char>) -> bool {
    exists|a: Seq<char>, b: Seq<char>| s == #[trigger] (a + part + b)
}

/// Each of the parts stands in what is put together from them.
pub proof fn lemma_holds_part(parts: Seq<Seq<char>>, i: int)
    requires
        0 <= i < parts.len(),
    ensures
        holds_part(concat(parts), parts[i]),
{
    law_parts_stand_in_their_order(parts, i);
}

} // verus!
