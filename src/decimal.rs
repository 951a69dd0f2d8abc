//! Decimal numerals as ASCII bytes: writing them, and reading them back.
use vstd::prelude::*;

verus! {

pub open spec fn digit_byte(d: nat) -> u8 {
    (d + 48) as u8
}

pub open spec fn is_digit(b: u8) -> bool {
    48 <= b && b <= 57
}

/// The decimal digits of a natural number, most significant first, without
/// leading zeros.
pub open spec fn digits(n: nat) -> Seq<u8>
    decreases n,
{
    if n < 10 {
        seq![digit_byte(n)]
    } else {
        digits(n / 10).push(digit_byte(n % 10))
    }
}

/// The decimal numeral of an integer, with a leading `-` when negative.
pub open spec fn decimal(v: int) -> Seq<u8> {
    if v < 0 {
        seq![45u8] + digits((-v) as nat)
    } else {
        digits(v as nat)
    }
}

/// The absolute value of an integer.
pub open spec fn magnitude(v: int) -> nat {
    if v < 0 {
        (-v) as nat
    } else {
        v as nat
    }
}

/// The number that a run of digit bytes stands for.
pub open spec fn value_of(s: Seq<u8>) -> int
    decreases s.len(),
{
    if s.len() == 0 {
        0
    } else {
        value_of(s.drop_last()) * 10 + (s.last() as int - 48)
    }
}

/// The numeral of `v` stands in `b` at `start`, and no digit follows it.
pub open spec fn numeral_at(b: Seq<u8>, start: int, v: int) -> bool {
    let end = start + decimal(v).len();
    0 <= start && end <= b.len() && b.subrange(start, end) == decimal(v) && (end == b.len()
        || !is_digit(b[end]))
}

pub proof fn lemma_digits(n: nat)
    ensures
        digits(n).len() >= 1,
        forall|i: int| 0 <= i < digits(n).len() ==> is_digit(#[trigger] digits(n)[i]),
        value_of(digits(n)) == n,
    decreases n,
{
    if n < 10 {
        assert(digits(n) =~= Seq::<u8>::empty().push(digit_byte(n)));
        lemma_value_push(Seq::<u8>::empty(), digit_byte(n));
    } else {
        lemma_digits(n / 10);
        let d = digits(n / 10);
        lemma_value_push(d, digit_byte(n % 10));
        assert((n / 10) * 10 + n % 10 == n);
        assert forall|i: int| 0 <= i < digits(n).len() implies is_digit(
            #[trigger] digits(n)[i],
        ) by {
            if i < d.len() {
                assert(digits(n)[i] == d[i]);
            }
        }
    }
}

/// Every leading part of the digits of `n` stands for at most `n`.
pub proof fn lemma_prefix_value(n: nat, k: int)
    requires
        0 <= k <= digits(n).len(),
    ensures
        value_of(digits(n).subrange(0, k)) <= n,
    decreases n,
{
    lemma_digits(n);
    if k == 0 {
        assert(digits(n).subrange(0, 0).len() == 0);
    } else if k == digits(n).len() {
        assert(digits(n).subrange(0, k) =~= digits(n));
    } else {
        let d = digits(n / 10);
        assert(digits(n).subrange(0, k) =~= d.subrange(0, k));
        lemma_prefix_value(n / 10, k);
    }
}

proof fn lemma_value_push(s: Seq<u8>, b: u8)
    ensures
        value_of(s.push(b)) == value_of(s) * 10 + (b as int - 48),
{
    assert(s.push(b).drop_last() =~= s);
}

/// Where a numeral stands, its first byte tells its sign, and its digits follow.
proof fn lemma_numeral_digits(b: Seq<u8>, start: int, v: int)
    requires
        numeral_at(b, start, v),
    ensures
        start < b.len(),
        (b[start] == 45) == (v < 0),
        b.subrange(
            if v < 0 { start + 1 } else { start },
            start + decimal(v).len(),
        ) == digits(magnitude(v)),
        digits(magnitude(v)).len() >= 1,
        start + decimal(v).len() == (if v < 0 { start + 1 } else { start }) + digits(
            magnitude(v),
        ).len(),
        forall|i: int|
            0 <= i < digits(magnitude(v)).len() ==> is_digit(
                #[trigger] digits(magnitude(v))[i],
            ),
{
    let m: nat = magnitude(v);
    lemma_digits(m);
    let end = start + decimal(v).len();
    let w = b.subrange(start, end);
    assert(b[start] == w[0]);
    if v < 0 {
        assert(decimal(v)[0] == 45);
        assert(b.subrange(start + 1, end) =~= w.subrange(1, w.len() as int));
        assert(w.subrange(1, w.len() as int) =~= digits(m));
    } else {
        assert(is_digit(digits(m)[0]));
    }
}

/// Appends the digits of `n`.
pub fn push_digits(out: &mut Vec<u8>, n: u64)
    ensures
        final(out)@ == old(out)@ + digits(n as nat),
    decreases n,
{
    if n < 10 {
        out.push((n as u8) + 48);
        assert(final(out)@ =~= old(out)@ + digits(n as nat));
    } else {
        push_digits(out, n / 10);
        out.push(((n % 10) as u8) + 48);
        assert(final(out)@ =~= old(out)@ + digits(n as nat));
    }
}

/// Appends the decimal numeral of `v`.
pub fn push_decimal(out: &mut Vec<u8>, v: i64)
    ensures
        final(out)@ == old(out)@ + decimal(v as int),
{
    if v < 0 {
        out.push(45);
        let m: i128 = 0 - (v as i128);
        push_digits(out, m as u64);
        assert(final(out)@ =~= old(out)@ + decimal(v as int));
    } else {
        push_digits(out, v as u64);
    }
}

/// Reads the numeral at `start`: an optional `-` and a run of digits, read up
/// to the first byte that is not a digit. Whenever the numeral of some `v`
/// with `|v| <= 2^63` stands there, the result is `v` and the position after it.
pub fn read_decimal(b: &[u8], start: usize) -> (r: Option<(i128, usize)>)
    ensures
        r matches Some((_, end)) ==> start < end <= b@.len(),
        forall|v: int|
            #![trigger decimal(v)]
            -0x8000_0000_0000_0000 <= v <= 0x8000_0000_0000_0000 && numeral_at(b@, start as int, v)
                ==> r == Some((v as i128, (start + decimal(v).len()) as usize)),
{
    if start >= b.len() {
        proof {
            assert forall|v: int|
                #![trigger decimal(v)]
                -0x8000_0000_0000_0000 <= v <= 0x8000_0000_0000_0000 && numeral_at(
                    b@,
                    start as int,
                    v,
                ) implies false by {
                lemma_numeral_digits(b@, start as int, v);
            }
        }
        return None;
    }
    let neg = b[start] == 45;
    let ds: usize = if neg { start + 1 } else { start };
    let mut i: usize = ds;
    let mut acc: i128 = 0;
    while i < b.len() && 48 <= b[i] && b[i] <= 57
        invariant
            start < b@.len(),
            neg == (b@[start as int] == 45),
            ds == (if neg { start + 1 } else { start as int }),
            ds <= i <= b@.len(),
            0 <= acc <= 0x8000_0000_0000_0000,
            acc == value_of(b@.subrange(ds as int, i as int)),
            forall|j: int| ds <= j < i ==> is_digit(#[trigger] b@[j]),
        decreases b@.len() - i,
    {
        let next: i128 = acc * 10 + ((b[i] - 48) as i128);
        proof {
            lemma_value_push(b@.subrange(ds as int, i as int), b@[i as int]);
            assert(b@.subrange(ds as int, i + 1) =~= b@.subrange(ds as int, i as int).push(
                b@[i as int],
            ));
        }
        if next > 0x8000_0000_0000_0000 {
            proof {
                assert forall|v: int|
                    #![trigger decimal(v)]
                    -0x8000_0000_0000_0000 <= v <= 0x8000_0000_0000_0000 && numeral_at(
                        b@,
                        start as int,
                        v,
                    ) implies false by {
                    let m: nat = magnitude(v);
                    lemma_numeral_digits(b@, start as int, v);
                    let dl = digits(m).len() as int;
                    assert(b@.subrange(ds as int, ds + dl) == digits(m));
                    if ds + dl <= i {
                        assert(is_digit(b@[ds + dl]));
                    }
                    assert(b@.subrange(ds as int, i + 1) =~= digits(m).subrange(
                        0,
                        i + 1 - ds,
                    ));
                    lemma_prefix_value(m, i + 1 - ds);
                }
            }
            return None;
        }
        acc = next;
        i = i + 1;
    }
    proof {
        assert forall|v: int|
            #![trigger decimal(v)]
            -0x8000_0000_0000_0000 <= v <= 0x8000_0000_0000_0000 && numeral_at(
                b@,
                start as int,
                v,
            ) implies i > ds && i == start + decimal(v).len() && acc == magnitude(v) && neg == (v
                < 0) by {
            let m: nat = magnitude(v);
            lemma_numeral_digits(b@, start as int, v);
            let dl = digits(m).len() as int;
            assert(b@.subrange(ds as int, ds + dl) == digits(m));
            if i < ds + dl {
                assert(b@[i as int] == b@.subrange(ds as int, ds + dl)[i - ds]);
                assert(is_digit(digits(m)[i - ds]));
                assert(false);
            }
            if i > ds + dl {
                assert(is_digit(b@[ds + dl]));
                assert(false);
            }
            assert(i == ds + dl);
            assert(b@.subrange(ds as int, i as int) == digits(m));
            lemma_digits(m);
        }
    }
    if i == ds {
        return None;
    }
    let v: i128 = if neg { 0 - acc } else { acc };
    Some((v, i))
}

} // verus!
