//! Operations on strings that are stated over their characters.

use vstd::prelude::*;

verus! {

/// `s` with every occurrence of `from` replaced by `to`, scanning from the left;
/// occurrences do not overlap, and what was put in is not scanned again.
pub open spec fn replaced(s: Seq<char>, from: Seq<char>, to: Seq<char>) -> Seq<char>
    decreases s.len(),
{
    if from.len() == 0 || s.len() == 0 {
        s
    } else if from.is_prefix_of(s) {
        to + replaced(s.skip(from.len() as int), from, to)
    } else {
        seq![s[0]] + replaced(s.skip(1), from, to)
    }
}

/// Whether `from` occurs somewhere in `s`.
pub open spec fn occurs(s: Seq<char>, from: Seq<char>) -> bool {
    exists|i: int| 0 <= i <= s.len() && #[trigger] from.is_prefix_of(s.skip(i))
}

/// Whether the two strings hold the same characters.
pub fn same(a: &str, b: &str) -> (r: bool)
    ensures
        r == (a@ == b@),
{
    a.to_owned() == b.to_owned()
}

/// Whether `s` begins with `prefix`.
pub fn starts_with(s: &str, prefix: &str) -> (r: bool)
    ensures
        r == prefix@.is_prefix_of(s@),
{
    let n: usize = prefix.unicode_len();
    if s.unicode_len() < n {
        return false;
    }
    same(s.substring_char(0, n), prefix)
}

/// Replaces every occurrence of `from` in `s` by `to`.
pub fn replace(s: &str, from: &str, to: &str) -> (r: String)
    requires
        from@.len() > 0,
    ensures
        r@ == replaced(s@, from@, to@),
{
    let n: usize = s.unicode_len();
    let m: usize = from.unicode_len();
    let mut out = String::new();
    let mut i: usize = 0;
    assert(s@.skip(0) == s@);
    while i < n
        invariant
            i <= n,
            n == s@.len(),
            m == from@.len(),
            m > 0,
            out@ + replaced(s@.skip(i as int), from@, to@) == replaced(s@, from@, to@),
        decreases n - i,
    {
        let ghost rest = s@.skip(i as int);
        if n - i >= m && same(s.substring_char(i, i + m), from) {
            assert(rest.take(m as int) == s@.subrange(i as int, i + m));
            assert(from@.is_prefix_of(rest));
            assert(rest.skip(m as int) == s@.skip(i + m));
            out.append(to);
            i = i + m;
        } else {
            assert(!from@.is_prefix_of(rest)) by {
                if from@.is_prefix_of(rest) {
                    assert(s@.subrange(i as int, i + m) == from@);
                }
            }
            assert(rest.skip(1) == s@.skip(i + 1));
            assert(s@.subrange(i as int, i + 1) == seq![rest[0]]);
            out.append(s.substring_char(i, i + 1));
            i = i + 1;
        }
    }
    assert(s@.skip(n as int).len() == 0);
    out
}

/// The two strings one after the other.
pub fn joined(a: &str, b: &str) -> (r: String)
    ensures
        r@ == a@ + b@,
{
    a.to_owned().concat(b)
}

/// A replacement leaves a string alone that does not hold what is replaced.
pub proof fn replaced_absent(s: Seq<char>, from: Seq<char>, to: Seq<char>)
    requires
        !occurs(s, from),
    ensures
        replaced(s, from, to) == s,
    decreases s.len(),
{
    if s.len() > 0 && from.len() > 0 {
        assert(s.skip(0) == s);
        assert(!from.is_prefix_of(s));
        assert(!occurs(s.skip(1), from)) by {
            if occurs(s.skip(1), from) {
                let i = choose|i: int|
                    0 <= i <= s.skip(1).len() && #[trigger] from.is_prefix_of(s.skip(1).skip(i));
                assert(s.skip(1).skip(i) == s.skip(i + 1));
            }
        }
        replaced_absent(s.skip(1), from, to);
        assert(seq![s[0]] + s.skip(1) == s);
    }
}

/// A stretch of text in which no occurrence begins is passed over unchanged.
pub proof fn replaced_passes_over(a: Seq<char>, rest: Seq<char>, from: Seq<char>, to: Seq<char>)
    requires
        forall|i: int| 0 <= i < a.len() ==> !from.is_prefix_of(#[trigger] (a + rest).skip(i)),
    ensures
        replaced(a + rest, from, to) == a + replaced(rest, from, to),
    decreases a.len(),
{
    if from.len() == 0 {
    } else if a.len() == 0 {
        assert(a + rest == rest);
        assert(a + replaced(rest, from, to) == replaced(rest, from, to));
    } else {
        let whole = a + rest;
        let tail = a.skip(1);
        assert(whole.skip(0) == whole);
        assert(whole.skip(1) == tail + rest);
        assert forall|i: int| 0 <= i < tail.len() implies !from.is_prefix_of(
            #[trigger] (tail + rest).skip(i),
        ) by {
            assert((tail + rest).skip(i) == whole.skip(i + 1));
        }
        replaced_passes_over(tail, rest, from, to);
        assert(seq![a[0]] + (tail + replaced(rest, from, to)) == a + replaced(rest, from, to));
    }
}

/// A string that begins with the text to replace begins with the new text instead.
pub proof fn replaced_at_front(rest: Seq<char>, from: Seq<char>, to: Seq<char>)
    requires
        from.len() > 0,
    ensures
        replaced(from + rest, from, to) == to + replaced(rest, from, to),
{
    let whole = from + rest;
    assert(from.is_prefix_of(whole));
    assert(whole.skip(from.len() as int) == rest);
}

/// There is nothing to replace in an empty string.
pub proof fn replaced_nothing(from: Seq<char>, to: Seq<char>)
    ensures
        replaced(Seq::empty(), from, to) == Seq::<char>::empty(),
{
}

/// A character at which no occurrence begins stays, and the rest is replaced by itself.
pub proof fn replaced_keeps_the_others(c: char, rest: Seq<char>, from: Seq<char>, to: Seq<char>)
    requires
        from.len() > 0,
        !from.is_prefix_of(seq![c] + rest),
    ensures
        replaced(seq![c] + rest, from, to) == seq![c] + replaced(rest, from, to),
{
    assert((seq![c] + rest).skip(1) == rest);
}

} // verus!
