//! IPv4 addresses as text: four numbers in decimal, with dots between them.

use vstd::prelude::*;

verus! {

/// A number in decimal digits.
pub open spec fn decimal(n: nat) -> Seq<char>
    decreases n,
{
    let digit = "0123456789"@[(n % 10) as int];
    if n < 10 {
        seq![digit]
    } else {
        decimal(n / 10).push(digit)
    }
}

/// An IPv4 address as text: its octets in decimal, with dots between them.
pub open spec fn ipv4_text(octets: Seq<u8>) -> Seq<char> {
    decimal(octets[0] as nat) + "."@ + decimal(octets[1] as nat) + "."@ + decimal(
        octets[2] as nat,
    ) + "."@ + decimal(octets[3] as nat)
}

/// Whether a text is an IPv4 address: four numbers below 256 in decimal, without
/// leading zeros, and nothing else.
pub open spec fn is_ipv4(text: Seq<char>) -> bool {
    exists|octets: Seq<u8>| octets.len() == 4 && text == #[trigger] ipv4_text(octets)
}

spec fn is_digit(c: char) -> bool {
    '0' as int <= c as int <= '9' as int
}

spec fn all_digits(s: Seq<char>) -> bool {
    forall|i: int| 0 <= i < s.len() ==> is_digit(#[trigger] s[i])
}

/// The number that digits stand for.
spec fn value(s: Seq<char>) -> nat
    decreases s.len(),
{
    if s.len() == 0 {
        0
    } else {
        (value(s.drop_last()) * 10 + (s.last() as int - '0' as int)) as nat
    }
}

/// Numbers in decimal with dots between them.
spec fn dotted(numbers: Seq<u8>) -> Seq<char>
    decreases numbers.len(),
{
    if numbers.len() == 0 {
        Seq::empty()
    } else if numbers.len() == 1 {
        decimal(numbers[0] as nat)
    } else {
        decimal(numbers[0] as nat) + "."@ + dotted(numbers.skip(1))
    }
}

/// Whether the text from `from` on is so many numbers with dots between them.
spec fn holds_numbers(text: Seq<char>, from: int, count: nat) -> bool {
    exists|numbers: Seq<u8>|
        numbers.len() == count && text.skip(from) == #[trigger] dotted(numbers)
}

/// Whether a number in decimal stands between two places and does not go on.
spec fn number_at(text: Seq<char>, from: int, end: int, n: u8) -> bool {
    &&& from <= end <= text.len()
    &&& text.subrange(from, end) == decimal(n as nat)
    &&& end < text.len() ==> !is_digit(text[end])
}

proof fn lemma_digit(d: int)
    requires
        0 <= d < 10,
    ensures
        "0123456789"@[d] as int == '0' as int + d,
{
    reveal_strlit("0123456789");
    if d == 0 {
    } else if d == 1 {
    } else if d == 2 {
    } else if d == 3 {
    } else if d == 4 {
    } else if d == 5 {
    } else if d == 6 {
    } else if d == 7 {
    } else if d == 8 {
    } else {
    }
}

proof fn lemma_decimal(n: nat)
    ensures
        decimal(n).len() > 0,
        all_digits(decimal(n)),
        value(decimal(n)) == n,
        n >= 10 ==> decimal(n).len() > 1,
        n > 0 ==> decimal(n)[0] != '0',
    decreases n,
{
    lemma_digit((n % 10) as int);
    if n < 10 {
        assert(decimal(n).drop_last() == Seq::<char>::empty());
        assert(value(Seq::<char>::empty()) == 0);
    } else {
        lemma_decimal(n / 10);
        assert(decimal(n).drop_last() == decimal(n / 10));
    }
}

proof fn lemma_short(n: u8)
    ensures
        decimal(n as nat).len() <= 3,
{
    reveal_with_fuel(decimal, 3);
}

proof fn lemma_positive(s: Seq<char>)
    requires
        s.len() > 0,
        all_digits(s),
        s[0] != '0',
    ensures
        value(s) > 0,
    decreases s.len(),
{
    let p = s.drop_last();
    if p.len() > 0 {
        assert(p[0] == s[0]);
        assert forall|i: int| 0 <= i < p.len() implies is_digit(#[trigger] p[i]) by {
            assert(p[i] == s[i]);
        }
        lemma_positive(p);
    }
    assert(is_digit(s[s.len() - 1]));
}

proof fn lemma_reads_back(s: Seq<char>)
    requires
        s.len() > 0,
        all_digits(s),
        s.len() == 1 || s[0] != '0',
    ensures
        s == decimal(value(s)),
    decreases s.len(),
{
    let p = s.drop_last();
    let d = s.last() as int - '0' as int;
    assert(is_digit(s[s.len() - 1]));
    lemma_digit(d);
    if s.len() == 1 {
        assert(value(p) == 0);
        assert(s == seq![s.last()]);
    } else {
        assert(p[0] == s[0]);
        assert forall|i: int| 0 <= i < p.len() implies is_digit(#[trigger] p[i]) by {
            assert(p[i] == s[i]);
        }
        lemma_positive(p);
        lemma_reads_back(p);
        assert(s == p.push(s.last()));
    }
}

/// Takes the number that stands at a place, where one does.
fn take_number(text: &str, from: usize) -> (r: Option<(u8, usize)>)
    requires
        from <= text@.len(),
    ensures
        match r {
            Some((n, end)) => from < end && number_at(text@, from as int, end as int, n),
            None => forall|n: u8, end: int| !#[trigger] number_at(text@, from as int, end, n),
        },
{
    let len: usize = text.unicode_len();
    let mut end: usize = from;
    let mut n: u32 = 0;
    let ghost s = text@;
    assert(s.subrange(from as int, from as int).len() == 0);
    while end < len && end - from < 3 && '0' <= text.get_char(end) && text.get_char(end) <= '9'
        invariant
            s == text@,
            len == s.len(),
            from <= end <= len,
            end - from <= 3,
            all_digits(s.subrange(from as int, end as int)),
            n == value(s.subrange(from as int, end as int)),
            end - from == 0 ==> n == 0,
            end - from == 1 ==> n < 10,
            end - from == 2 ==> n < 100,
            end - from == 3 ==> n < 1000,
        decreases len - end,
    {
        let d: u32 = text.get_char(end) as u32 - '0' as u32;
        proof {
            let before = s.subrange(from as int, end as int);
            let now = s.subrange(from as int, end + 1);
            assert(now.drop_last() == before);
            assert(now.last() == s[end as int]);
            assert forall|i: int| 0 <= i < now.len() implies is_digit(#[trigger] now[i]) by {
                if i < before.len() {
                    assert(now[i] == before[i]);
                }
            }
        }
        n = n * 10 + d;
        end = end + 1;
    }
    let ghost run = s.subrange(from as int, end as int);
    let more = end < len && '0' <= text.get_char(end) && text.get_char(end) <= '9';
    let padded = end - from > 1 && text.get_char(from) == '0';
    proof {
        assert forall|m: u8, e: int| #[trigger]
            number_at(s, from as int, e, m) implies e == end && m == n && !more && !padded by {
            let word = s.subrange(from as int, e);
            lemma_decimal(m as nat);
            lemma_short(m);
            if e > end {
                assert(word[end - from] == s[end as int]);
                assert(is_digit(word[end - from]));
            }
            if e < end {
                assert(run[e - from] == s[e]);
                assert(is_digit(run[e - from]));
            }
            assert(word == run);
            if padded {
                assert(run[0] == s[from as int]);
            }
        }
    }
    if end == from || more || padded || n > 255 {
        return None;
    }
    proof {
        assert(run[0] == s[from as int]);
        lemma_reads_back(run);
    }
    Some((n as u8, end))
}

proof fn lemma_numbers(text: Seq<char>, from: int, numbers: Seq<u8>)
    requires
        0 <= from <= text.len(),
        numbers.len() > 0,
        text.skip(from) == dotted(numbers),
    ensures
        ({
            let end = from + decimal(numbers[0] as nat).len();
            &&& number_at(text, from, end, numbers[0])
            &&& numbers.len() == 1 ==> end == text.len()
            &&& numbers.len() > 1 ==> end < text.len() && text[end] == '.' && text.skip(end + 1)
                == dotted(numbers.skip(1))
        }),
{
    reveal_strlit(".");
    let word = decimal(numbers[0] as nat);
    let end = from + word.len();
    let rest = text.skip(from);
    assert(rest.len() == text.len() - from);
    assert(rest.subrange(0, word.len() as int) == word);
    assert(text.subrange(from, end) == rest.subrange(0, word.len() as int));
    if numbers.len() > 1 {
        let tail = dotted(numbers.skip(1));
        assert(rest == word + "."@ + tail);
        assert(rest[word.len() as int] == '.');
        assert(text[end] == rest[word.len() as int]);
        assert(text.skip(end + 1) == rest.skip(word.len() as int + 1));
        assert(rest.skip(word.len() as int + 1) == tail);
    }
}

proof fn lemma_one_end(text: Seq<char>, from: int, a: int, m: u8, b: int, n: u8)
    requires
        0 <= from,
        number_at(text, from, a, m),
        number_at(text, from, b, n),
    ensures
        a == b,
{
    lemma_decimal(m as nat);
    lemma_decimal(n as nat);
    if a < b {
        assert(text.subrange(from, b)[a - from] == text[a]);
        assert(is_digit(text.subrange(from, b)[a - from]));
    }
    if b < a {
        assert(text.subrange(from, a)[b - from] == text[b]);
        assert(is_digit(text.subrange(from, a)[b - from]));
    }
}

/// Whether the text from `from` on is so many numbers with dots between them.
fn reads_numbers(text: &str, from: usize, count: usize) -> (r: bool)
    requires
        from <= text@.len(),
        count > 0,
    ensures
        r == holds_numbers(text@, from as int, count as nat),
    decreases count,
{
    let ghost s = text@;
    match take_number(text, from) {
        None => {
            proof {
                if holds_numbers(s, from as int, count as nat) {
                    let numbers = choose|numbers: Seq<u8>|
                        numbers.len() == count && s.skip(from as int) == #[trigger] dotted(numbers);
                    lemma_numbers(s, from as int, numbers);
                }
            }
            false
        },
        Some((n, end)) => {
            let len: usize = text.unicode_len();
            proof {
                reveal_strlit(".");
                assert forall|numbers: Seq<u8>|
                    numbers.len() == count && s.skip(from as int) == #[trigger] dotted(
                        numbers,
                    ) implies end == from + decimal(numbers[0] as nat).len() by {
                    lemma_numbers(s, from as int, numbers);
                    lemma_one_end(
                        s,
                        from as int,
                        end as int,
                        n,
                        from + decimal(numbers[0] as nat).len(),
                        numbers[0],
                    );
                }
            }
            if count == 1 {
                proof {
                    if end == len {
                        assert(s.skip(from as int) == s.subrange(from as int, end as int));
                        assert(s.skip(from as int) == dotted(seq![n]));
                    }
                    if holds_numbers(s, from as int, 1) {
                        let numbers = choose|numbers: Seq<u8>|
                            numbers.len() == 1 && s.skip(from as int) == #[trigger] dotted(numbers);
                        lemma_numbers(s, from as int, numbers);
                    }
                }
                return end == len;
            }
            let r = end < len && text.get_char(end) == '.' && reads_numbers(
                text,
                end + 1,
                count - 1,
            );
            proof {
                if r {
                    let others = choose|numbers: Seq<u8>|
                        numbers.len() == count - 1 && s.skip(end + 1) == #[trigger] dotted(numbers);
                    let numbers = seq![n] + others;
                    assert(numbers.skip(1) == others);
                    assert(s.skip(from as int) == s.subrange(from as int, end as int) + "."@
                        + s.skip(end + 1));
                    assert(s.skip(from as int) == dotted(numbers));
                }
                if holds_numbers(s, from as int, count as nat) {
                    let numbers = choose|numbers: Seq<u8>|
                        numbers.len() == count && s.skip(from as int) == #[trigger] dotted(numbers);
                    lemma_numbers(s, from as int, numbers);
                    assert(numbers.skip(1).len() == count - 1);
                    assert(holds_numbers(s, end + 1, (count - 1) as nat));
                }
            }
            r
        },
    }
}

proof fn lemma_four(octets: Seq<u8>)
    requires
        octets.len() == 4,
    ensures
        dotted(octets) == ipv4_text(octets),
{
    reveal_with_fuel(dotted, 4);
    let a = octets.skip(1);
    let b = a.skip(1);
    let c = b.skip(1);
    assert(dotted(octets) == decimal(octets[0] as nat) + "."@ + dotted(a));
    assert(dotted(a) == decimal(octets[1] as nat) + "."@ + dotted(b));
    assert(dotted(b) == decimal(octets[2] as nat) + "."@ + dotted(c));
    assert(dotted(c) == decimal(octets[3] as nat));
    assert(dotted(octets) == ipv4_text(octets));
}

/// Whether a text is an IPv4 address.
pub fn reads_as_ipv4(text: &str) -> (r: bool)
    ensures
        r == is_ipv4(text@),
{
    let r = reads_numbers(text, 0, 4);
    proof {
        let s = text@;
        assert(s.skip(0) == s);
        if r {
            let numbers = choose|numbers: Seq<u8>|
                numbers.len() == 4 && s.skip(0) == #[trigger] dotted(numbers);
            lemma_four(numbers);
        }
        if is_ipv4(s) {
            let octets = choose|octets: Seq<u8>|
                octets.len() == 4 && s == #[trigger] ipv4_text(octets);
            lemma_four(octets);
        }
    }
    r
}

/// The text of an IPv4 address is read as one.
pub proof fn ipv4_text_is_ipv4(octets: Seq<u8>)
    requires
        octets.len() == 4,
    ensures
        is_ipv4(ipv4_text(octets)),
{
}

/// Whatever is an IPv4 address is four numbers in decimal with dots between them: it has
/// no more than fifteen characters, all of them digits or dots.
pub proof fn what_an_ipv4_address_looks_like(text: Seq<char>)
    requires
        is_ipv4(text),
    ensures
        7 <= text.len() <= 15,
        forall|i: int|
            0 <= i < text.len() ==> (#[trigger] text[i] == '.' || '0' as int <= text[i] as int
                <= '9' as int),
        exists|a: u8, b: u8, c: u8, d: u8|
            text == #[trigger] decimal(a as nat) + "."@ + #[trigger] decimal(b as nat) + "."@
                + #[trigger] decimal(c as nat) + "."@ + #[trigger] decimal(d as nat),
{
    let o = choose|octets: Seq<u8>| octets.len() == 4 && text == #[trigger] ipv4_text(octets);
    reveal_strlit(".");
    lemma_decimal(o[0] as nat);
    lemma_decimal(o[1] as nat);
    lemma_decimal(o[2] as nat);
    lemma_decimal(o[3] as nat);
    lemma_short(o[0]);
    lemma_short(o[1]);
    lemma_short(o[2]);
    lemma_short(o[3]);
    let a = decimal(o[0] as nat);
    let b = a + "."@ + decimal(o[1] as nat);
    let c = b + "."@ + decimal(o[2] as nat);
    assert(text == c + "."@ + decimal(o[3] as nat));
    assert forall|i: int| 0 <= i < text.len() implies (#[trigger] text[i] == '.' || '0' as int
        <= text[i] as int <= '9' as int) by {
        if i < a.len() {
            assert(text[i] == a[i]);
        } else if i == a.len() || i == b.len() || i == c.len() {
        } else if i < b.len() {
            assert(is_digit(decimal(o[1] as nat)[i - a.len() - 1]));
        } else if i < c.len() {
            assert(is_digit(decimal(o[2] as nat)[i - b.len() - 1]));
        } else {
            assert(is_digit(decimal(o[3] as nat)[i - c.len() - 1]));
        }
    }
}

/// A number in decimal begins with no zero, but for zero itself, and its digits stand for
/// it: ten times the number of the others, and the last.
pub proof fn how_numbers_are_spelled(n: nat)
    ensures
        n < 10 ==> decimal(n).len() == 1 && decimal(n)[0] as int == '0' as int + n,
        n >= 10 ==> decimal(n) == decimal(n / 10).push(decimal(n % 10)[0]),
        n > 0 ==> decimal(n)[0] != '0',
{
    lemma_digit((n % 10) as int);
    lemma_decimal(n);
}

} // verus!
