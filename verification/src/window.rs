//! Sequences of bounded length that forget their oldest elements.

use vstd::prelude::*;

verus! {

/// The last `n` elements of `s`, or all of them where there are no more.
pub open spec fn newest<T>(s: Seq<T>, n: nat) -> Seq<T> {
    if s.len() > n {
        s.skip(s.len() - n)
    } else {
        s
    }
}

/// Drops the oldest elements until at most `n` are left.
pub fn keep_newest<T>(v: &mut Vec<T>, n: usize)
    ensures
        final(v)@ == newest(old(v)@, n as nat),
{
    let ghost all = v@;
    let ghost mut gone: int = 0;
    proof {
        assert(all.skip(0) =~= all);
    }
    while v.len() > n
        invariant
            0 <= gone <= all.len(),
            v@ == all.skip(gone),
            gone > 0 ==> v@.len() >= n,
        decreases v@.len(),
    {
        let _first: T = v.remove(0);
        proof {
            gone = gone + 1;
            assert(v@ =~= all.skip(gone));
        }
    }
    assert(v@ =~= newest(all, n as nat));
}

/// Appends an element and drops the oldest ones beyond `n`.
pub fn push_bounded<T>(v: &mut Vec<T>, x: T, n: usize)
    ensures
        final(v)@ == newest(old(v)@.push(x), n as nat),
{
    v.push(x);
    keep_newest(v, n);
}

/// A bounded sequence never holds more than its bound, and its newest element is the
/// one that was appended last.
pub proof fn law_bounded_push<T>(s: Seq<T>, x: T, n: nat)
    requires
        n > 0,
    ensures
        newest(s.push(x), n).len() <= n,
        newest(s.push(x), n).last() == x,
        s.len() < n ==> newest(s.push(x), n) == s.push(x),
{
}

} // verus!
