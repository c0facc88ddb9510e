//! Text as characters and digits: what the readers of numbers are built on.

use vstd::prelude::*;

verus! {

/// The characters of `s`, in order.
pub fn chars_of(s: &str) -> (v: Vec<char>)
    ensures
        v@ == s@,
{
    let mut v: Vec<char> = Vec::new();
    for c in it: s.chars()
        invariant
            it.seq() == s@,
            v@ == it.seq().take(it.index()),
    {
        v.push(c);
    }
    v
}

/// Whether two strings hold the same characters.
pub fn same_text(a: &str, b: &str) -> (r: bool)
    ensures
        r == (a@ == b@),
{
    let x = a.as_bytes();
    let y = b.as_bytes();
    proof {
        vstd::utf8::encode_utf8_decode_utf8(a@);
        vstd::utf8::encode_utf8_decode_utf8(b@);
    }
    if x.len() != y.len() {
        return false;
    }
    let mut i: usize = 0;
    while i < x.len()
        invariant
            i <= x.len(),
            x.len() == y.len(),
            a@ == b@ ==> x@ == y@,
            forall|k: int| 0 <= k < i ==> x@[k] == y@[k],
        decreases x.len() - i,
    {
        if x[i] != y[i] {
            return false;
        }
        i = i + 1;
    }
    assert(x@ =~= y@);
    true
}

/// `c` is one of the ten decimal digits.
pub open spec fn is_digit(c: char) -> bool {
    '0' <= c && c <= '9'
}

/// The number that the digit `c` stands for.
pub open spec fn digit_of(c: char) -> u8 {
    (c as u32 - '0' as u32) as u8
}

/// The digits that the characters of `t` stand for, one for one.
pub open spec fn digits_of(t: Seq<char>) -> Seq<u8> {
    Seq::new(t.len(), |i: int| digit_of(t[i]))
}

/// Every character of `t` is a digit.
pub open spec fn all_digits(t: Seq<char>) -> bool {
    forall|i: int| 0 <= i < t.len() ==> is_digit(#[trigger] t[i])
}

/// Every element of `d` is below ten.
pub open spec fn all_below_ten(d: Seq<u8>) -> bool {
    forall|i: int| 0 <= i < d.len() ==> #[trigger] d[i] < 10
}

/// Ten to the power `n`.
pub open spec fn pow10(n: nat) -> nat
    decreases n,
{
    if n == 0 {
        1
    } else {
        10 * pow10((n - 1) as nat)
    }
}

/// The number written by the digits `d`, most significant first.
pub open spec fn digits_value(d: Seq<u8>) -> nat
    decreases d.len(),
{
    if d.len() == 0 {
        0
    } else {
        digits_value(d.drop_last()) * 10 + d.last() as nat
    }
}

/// A sequence of `n` zeros.
pub open spec fn zeros(n: nat) -> Seq<u8> {
    Seq::new(n, |i: int| 0u8)
}

/// Where the run of digits that starts at `from` ends: the index of the first
/// character at or after `from` that is no digit, or the length of `t`.
pub open spec fn digit_run_end(t: Seq<char>, from: int) -> int
    decreases t.len() - from,
{
    if 0 <= from < t.len() && is_digit(t[from]) {
        digit_run_end(t, from + 1)
    } else {
        from
    }
}

/// A power of ten is at least one.
pub proof fn lemma_pow10_positive(n: nat)
    ensures
        pow10(n) >= 1,
    decreases n,
{
    if n > 0 {
        lemma_pow10_positive((n - 1) as nat);
    }
}

/// One more digit at the end: ten times the value, plus the digit.
pub proof fn lemma_value_push(d: Seq<u8>, x: u8)
    ensures
        digits_value(d.push(x)) == digits_value(d) * 10 + x as nat,
{
    assert(d.push(x).drop_last() =~= d);
}

/// The value of a concatenation: the first part is shifted left by the length
/// of the second.
pub proof fn lemma_value_concat(a: Seq<u8>, b: Seq<u8>)
    ensures
        digits_value(a + b) == digits_value(a) * pow10(b.len()) + digits_value(b),
    decreases b.len(),
{
    if b.len() == 0 {
        assert(a + b =~= a);
        assert(digits_value(a) * pow10(0) == digits_value(a)) by (nonlinear_arith)
            requires
                pow10(0) == 1,
        ;
    } else {
        let b0 = b.drop_last();
        lemma_value_concat(a, b0);
        assert((a + b).drop_last() =~= a + b0);
        assert((a + b).last() == b.last());
        let va = digits_value(a);
        let p = pow10(b0.len());
        assert(pow10(b.len()) == 10 * p);
        assert((va * p + digits_value(b0)) * 10 + b.last() as nat == va * (10 * p) + (
        digits_value(b0) * 10 + b.last() as nat)) by (nonlinear_arith);
    }
}

/// Zeros alone write zero.
pub proof fn lemma_value_zeros(n: nat)
    ensures
        digits_value(zeros(n)) == 0,
    decreases n,
{
    if n > 0 {
        lemma_value_zeros((n - 1) as nat);
        assert(zeros(n).drop_last() =~= zeros((n - 1) as nat));
    }
}

/// Zeros in front do not change the value.
pub proof fn lemma_value_leading_zeros(n: nat, d: Seq<u8>)
    ensures
        digits_value(zeros(n) + d) == digits_value(d),
{
    lemma_value_concat(zeros(n), d);
    lemma_value_zeros(n);
    assert(0 * pow10(d.len()) == 0) by (nonlinear_arith);
}

/// Zeros behind multiply the value by a power of ten.
pub proof fn lemma_value_trailing_zeros(d: Seq<u8>, n: nat)
    ensures
        digits_value(d + zeros(n)) == digits_value(d) * pow10(n),
{
    lemma_value_concat(d, zeros(n));
    lemma_value_zeros(n);
}

/// A prefix is worth no more than the whole.
pub proof fn lemma_value_prefix(d: Seq<u8>, k: int)
    requires
        0 <= k <= d.len(),
    ensures
        digits_value(d.take(k)) <= digits_value(d),
{
    lemma_value_concat(d.take(k), d.skip(k));
    assert(d.take(k) + d.skip(k) =~= d);
    lemma_pow10_positive(d.skip(k).len());
    assert(digits_value(d.take(k)) * pow10(d.skip(k).len()) >= digits_value(d.take(k)))
        by (nonlinear_arith)
        requires
            pow10(d.skip(k).len()) >= 1,
    ;
}

/// A larger exponent gives no smaller power of ten.
pub proof fn lemma_pow10_monotonic(a: nat, b: nat)
    requires
        a <= b,
    ensures
        pow10(a) <= pow10(b),
    decreases b - a,
{
    if a < b {
        lemma_pow10_monotonic(a, (b - 1) as nat);
    }
}

/// Digits write a number below ten to the power of their count.
pub proof fn lemma_value_upper_bound(d: Seq<u8>)
    requires
        all_below_ten(d),
    ensures
        digits_value(d) < pow10(d.len()),
    decreases d.len(),
{
    if d.len() > 0 {
        assert(all_below_ten(d.drop_last())) by {
            assert forall|i: int| 0 <= i < d.drop_last().len() implies #[trigger] d.drop_last()[i]
                < 10 by {
                assert(d.drop_last()[i] == d[i]);
            }
        }
        lemma_value_upper_bound(d.drop_last());
        assert(d.last() < 10);
    }
}

/// Digits that start with no zero write a number of full length.
pub proof fn lemma_value_lower_bound(d: Seq<u8>)
    requires
        d.len() > 0,
        d[0] != 0,
    ensures
        digits_value(d) >= pow10((d.len() - 1) as nat),
    decreases d.len(),
{
    if d.len() == 1 {
        assert(d.drop_last() =~= Seq::<u8>::empty());
    } else {
        assert(d.drop_last()[0] == d[0]);
        lemma_value_lower_bound(d.drop_last());
    }
}

/// The last digit is the value modulo ten, and the digits before it write
/// the value divided by ten.
pub proof fn lemma_value_split(d: Seq<u8>)
    requires
        d.len() > 0,
        d.last() < 10,
    ensures
        digits_value(d) % 10 == d.last() as nat,
        digits_value(d) / 10 == digits_value(d.drop_last()),
{
    let h = digits_value(d.drop_last());
    let l = d.last() as nat;
    assert((h * 10 + l) % 10 == l && (h * 10 + l) / 10 == h) by (nonlinear_arith)
        requires
            l < 10,
    ;
}

/// Two rows of digits of one length that write the same number are the
/// same row.
pub proof fn lemma_value_injective(x: Seq<u8>, y: Seq<u8>)
    requires
        all_below_ten(x),
        all_below_ten(y),
        x.len() == y.len(),
        digits_value(x) == digits_value(y),
    ensures
        x == y,
    decreases x.len(),
{
    if x.len() == 0 {
        assert(x =~= y);
    } else {
        assert(x.last() < 10 && y.last() < 10);
        lemma_value_split(x);
        lemma_value_split(y);
        assert forall|i: int| 0 <= i < x.drop_last().len() implies #[trigger] x.drop_last()[i]
            < 10 by {
            assert(x.drop_last()[i] == x[i]);
        }
        assert forall|i: int| 0 <= i < y.drop_last().len() implies #[trigger] y.drop_last()[i]
            < 10 by {
            assert(y.drop_last()[i] == y[i]);
        }
        lemma_value_injective(x.drop_last(), y.drop_last());
        assert(x =~= x.drop_last().push(x.last()));
        assert(y =~= y.drop_last().push(y.last()));
    }
}

/// A run of digits that is followed by no digit ends where it ends.
pub proof fn lemma_digit_run(t: Seq<char>, from: int, to: int)
    requires
        0 <= from <= to <= t.len(),
        forall|i: int| from <= i < to ==> is_digit(#[trigger] t[i]),
        to == t.len() || !is_digit(t[to]),
    ensures
        digit_run_end(t, from) == to,
    decreases to - from,
{
    if from < to {
        lemma_digit_run(t, from + 1, to);
    }
}

/// What `digit_run_end` returns: the characters up to it are digits, the
/// one at it is none.
pub proof fn lemma_digit_run_end(t: Seq<char>, from: int)
    requires
        0 <= from <= t.len(),
    ensures
        from <= digit_run_end(t, from) <= t.len(),
        forall|i: int| from <= i < digit_run_end(t, from) ==> is_digit(#[trigger] t[i]),
        digit_run_end(t, from) == t.len() || !is_digit(t[digit_run_end(t, from)]),
    decreases t.len() - from,
{
    if from < t.len() && is_digit(t[from]) {
        lemma_digit_run_end(t, from + 1);
    }
}

/// The number that the digit `c` stands for.
pub(crate) fn digit_value(c: char) -> (d: u8)
    requires
        is_digit(c),
    ensures
        d == digit_of(c),
        d < 10,
{
    (c as u32 - '0' as u32) as u8
}

/// Reads the run of digits of `t` that starts at `from` and appends their
/// values to `out`. Returns where the run ends.
pub(crate) fn scan_digits(t: &Vec<char>, from: usize, out: &mut Vec<u8>) -> (end: usize)
    requires
        from <= t.len(),
    ensures
        end == digit_run_end(t@, from as int),
        from <= end <= t.len(),
        final(out)@ == old(out)@ + digits_of(t@.subrange(from as int, end as int)),
        all_below_ten(old(out)@) ==> all_below_ten(final(out)@),
{
    let mut pos: usize = from;
    proof {
        assert(out@ =~= old(out)@ + digits_of(t@.subrange(from as int, pos as int)));
    }
    while pos < t.len() && '0' <= t[pos] && t[pos] <= '9'
        invariant
            from <= pos <= t.len(),
            digit_run_end(t@, from as int) == digit_run_end(t@, pos as int),
            out@ == old(out)@ + digits_of(t@.subrange(from as int, pos as int)),
            all_below_ten(old(out)@) ==> all_below_ten(out@),
        decreases t.len() - pos,
    {
        let d = digit_value(t[pos]);
        let ghost before = out@;
        out.push(d);
        proof {
            assert(t@.subrange(from as int, pos + 1) =~= t@.subrange(from as int, pos as int).push(
                t@[pos as int],
            ));
            assert(out@ =~= old(out)@ + digits_of(t@.subrange(from as int, pos + 1)));
            if all_below_ten(old(out)@) {
                assert forall|i: int| 0 <= i < out@.len() implies #[trigger] out@[i] < 10 by {
                    if i < before.len() {
                        assert(out@[i] == before[i]);
                    }
                }
            }
        }
        pos = pos + 1;
    }
    pos
}

/// The number that the digits `d` write, where it is at most `bound`.
pub open spec fn bounded_value(d: Seq<u8>, bound: nat) -> Option<nat> {
    if digits_value(d) <= bound {
        Some(digits_value(d))
    } else {
        None
    }
}

/// Computes the number that the digits `d` write, as long as it stays within
/// `bound`.
pub(crate) fn number_within(d: &Vec<u8>, bound: u64) -> (r: Option<u64>)
    requires
        all_below_ten(d@),
    ensures
        r matches Some(v) ==> bounded_value(d@, bound as nat) == Some(v as nat),
        r is None ==> bounded_value(d@, bound as nat) is None,
{
    let mut acc: u64 = 0;
    let mut i: usize = 0;
    proof {
        assert(d@.take(0) =~= Seq::<u8>::empty());
    }
    while i < d.len()
        invariant
            i <= d.len(),
            all_below_ten(d@),
            acc as nat == digits_value(d@.take(i as int)),
            acc <= bound,
        decreases d.len() - i,
    {
        let x = d[i];
        proof {
            assert(d@.take(i + 1) =~= d@.take(i as int).push(x));
            lemma_value_push(d@.take(i as int), x);
            lemma_value_prefix(d@, i + 1);
        }
        if bound < x as u64 || acc > (bound - x as u64) / 10 {
            return None;
        }
        acc = acc * 10 + x as u64;
        i = i + 1;
    }
    proof {
        assert(d@.take(d.len() as int) =~= d@);
    }
    Some(acc)
}

} // verus!
