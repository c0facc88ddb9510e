//! Exact decimal numbers: their value, how they are written, and how they
//! are read.

use crate::error::DecodeError;
use crate::text::{
    all_below_ten, chars_of, digit_run_end, digits_of, digits_value, is_digit, lemma_digit_run,
    lemma_pow10_monotonic, lemma_value_injective, lemma_value_leading_zeros,
    lemma_value_lower_bound, lemma_value_split, lemma_value_trailing_zeros,
    lemma_value_upper_bound, number_within, pow10, scan_digits, zeros,
};
use vstd::prelude::*;
use vstd::std_specs::cmp::PartialEqSpecImpl;
use vstd::string::*;

verus! {

/// The largest magnitude of an exponent that a number may be written with.
/// A decimal holds every digit, so without a bound a number of a few
/// characters could ask for any amount of memory and time; with it, reading
/// a number takes time in proportion to its text. Every finite
/// double-precision number is written with a smaller exponent. A number
/// beyond the bound is refused as malformed.
pub const MAX_EXPONENT: u64 = 400;

/// The value of a decimal: `unscaled / 10^scale`, in lowest terms, so that
/// `unscaled` ends in no zero unless `scale` is zero.
pub struct DecimalView {
    pub unscaled: int,
    pub scale: nat,
}

/// An exact decimal number of any length.
#[derive(Debug, Eq)]
pub struct Decimal {
    negative: bool,
    int_digits: Vec<u8>,
    frac_digits: Vec<u8>,
}

/// Takes factors of ten out of `unscaled` as long as `scale` allows.
pub open spec fn normalize(unscaled: nat, scale: nat) -> (nat, nat)
    decreases scale,
{
    if scale > 0 && unscaled % 10 == 0 {
        normalize(unscaled / 10, (scale - 1) as nat)
    } else {
        (unscaled, scale)
    }
}

/// `unscaled / 10^scale` times `10^exponent`, again as a pair.
pub open spec fn shifted(unscaled: nat, scale: nat, exponent: int) -> (nat, nat) {
    if exponent <= scale {
        (unscaled, (scale - exponent) as nat)
    } else {
        (unscaled * pow10((exponent - scale) as nat), 0)
    }
}

/// The decimal with the given sign, digits and exponent, the last `scale`
/// digits standing behind the point.
pub open spec fn decimal_value(negative: bool, digits: Seq<u8>, scale: nat, exponent: int)
    -> DecimalView {
    let s = shifted(digits_value(digits), scale, exponent);
    let n = normalize(s.0, s.1);
    DecimalView { unscaled: if negative { -(n.0 as int) } else { n.0 as int }, scale: n.1 }
}

/// How many characters the sign at the start of `t` takes: one or none.
pub open spec fn sign_width(t: Seq<char>, at: int) -> int {
    if 0 <= at < t.len() && (t[at] == '-' || t[at] == '+') {
        1
    } else {
        0
    }
}

/// `t` has a minus sign at `at`.
pub open spec fn minus_at(t: Seq<char>, at: int) -> bool {
    0 <= at < t.len() && t[at] == '-'
}

/// Where the digits before the point end.
pub open spec fn int_end(t: Seq<char>) -> int {
    digit_run_end(t, sign_width(t, 0))
}

/// Where the digits behind the point start: after the point, if there is one.
pub open spec fn frac_start(t: Seq<char>) -> int {
    if int_end(t) < t.len() && t[int_end(t)] == '.' {
        int_end(t) + 1
    } else {
        int_end(t)
    }
}

/// Where the digits behind the point end, and with them the mantissa.
pub open spec fn frac_end(t: Seq<char>) -> int {
    digit_run_end(t, frac_start(t))
}

/// The digits of the mantissa, those before the point and those behind it.
pub open spec fn mantissa_digits(t: Seq<char>) -> Seq<u8> {
    digits_of(t.subrange(sign_width(t, 0), int_end(t)) + t.subrange(frac_start(t), frac_end(t)))
}

/// How many digits stand behind the point.
pub open spec fn mantissa_scale(t: Seq<char>) -> nat {
    (frac_end(t) - frac_start(t)) as nat
}

/// `t` starts with a mantissa: an optional sign, digits, and optionally a
/// point and more digits, with at least one digit in all.
pub open spec fn starts_with_mantissa(t: Seq<char>) -> bool {
    mantissa_digits(t).len() >= 1
}

/// Where the digits of the exponent start: behind the mark and its sign.
pub open spec fn exponent_start(t: Seq<char>) -> int {
    frac_end(t) + 1 + sign_width(t, frac_end(t) + 1)
}

/// The digits of the exponent.
pub open spec fn exponent_digits(t: Seq<char>) -> Seq<u8> {
    digits_of(t.subrange(exponent_start(t), digit_run_end(t, exponent_start(t))))
}

/// Behind the mantissa `t` holds an exponent and nothing else: `e` or `E`,
/// an optional sign, and at least one digit.
pub open spec fn ends_with_exponent(t: Seq<char>) -> bool {
    &&& frac_end(t) < t.len()
    &&& (t[frac_end(t)] == 'e' || t[frac_end(t)] == 'E')
    &&& exponent_start(t) < t.len()
    &&& digit_run_end(t, exponent_start(t)) == t.len()
}

/// The exponent that `t` ends with.
pub open spec fn exponent_of(t: Seq<char>) -> int {
    if minus_at(t, frac_end(t) + 1) {
        -(digits_value(exponent_digits(t)) as int)
    } else {
        digits_value(exponent_digits(t)) as int
    }
}

/// `t` is a number in plain decimal syntax: a mantissa and nothing else.
pub open spec fn plain_syntax(t: Seq<char>) -> bool {
    starts_with_mantissa(t) && frac_end(t) == t.len()
}

/// `t` is a mantissa followed by an exponent of at most `MAX_EXPONENT` in
/// magnitude.
pub open spec fn exponent_syntax(t: Seq<char>) -> bool {
    starts_with_mantissa(t) && ends_with_exponent(t) && digits_value(exponent_digits(t))
        <= MAX_EXPONENT
}

/// The decimal that `t` writes. With `scientific` an exponent may follow the
/// mantissa; without it `t` must be in plain syntax.
pub open spec fn decimal_of_text(t: Seq<char>, scientific: bool) -> Option<DecimalView> {
    if plain_syntax(t) {
        Some(decimal_value(minus_at(t, 0), mantissa_digits(t), mantissa_scale(t), 0))
    } else if scientific && exponent_syntax(t) {
        Some(decimal_value(minus_at(t, 0), mantissa_digits(t), mantissa_scale(t), exponent_of(t)))
    } else {
        None
    }
}

/// A pair from which no factor of ten can be taken stays as it is.
pub proof fn lemma_normalize_fixed(unscaled: nat, scale: nat)
    requires
        scale == 0 || unscaled % 10 != 0,
    ensures
        normalize(unscaled, scale) == (unscaled, scale),
{
}

/// Zeros at the end of the fraction do not change the number.
pub proof fn lemma_normalize_trailing(unscaled: nat, scale: nat, k: nat)
    ensures
        normalize(unscaled * pow10(k), scale + k) == normalize(unscaled, scale),
    decreases k,
{
    if k > 0 {
        let rest = unscaled * pow10((k - 1) as nat);
        assert(unscaled * pow10(k) == rest * 10) by (nonlinear_arith)
            requires
                pow10(k) == 10 * pow10((k - 1) as nat),
                rest == unscaled * pow10((k - 1) as nat),
        ;
        assert((rest * 10) % 10 == 0 && (rest * 10) / 10 == rest) by (nonlinear_arith);
        assert((scale + k - 1) as nat == scale + (k - 1) as nat);
        lemma_normalize_trailing(unscaled, scale, (k - 1) as nat);
    } else {
        assert(unscaled * pow10(0) == unscaled) by (nonlinear_arith)
            requires
                pow10(0) == 1,
        ;
    }
}

/// The character that writes the digit `d`.
pub open spec fn digit_char(d: u8) -> char {
    (d as u32 + '0' as u32) as char
}

/// The characters that write the digits `d`, one for one.
pub open spec fn digit_chars(d: Seq<u8>) -> Seq<char> {
    Seq::new(d.len(), |i: int| digit_char(d[i]))
}

/// The one-character string that writes the digit `d`.
fn digit_str(d: u8) -> (r: &'static str)
    requires
        d < 10,
    ensures
        r@ == seq![digit_char(d)],
{
    proof {
        reveal_strlit("0");
        reveal_strlit("1");
        reveal_strlit("2");
        reveal_strlit("3");
        reveal_strlit("4");
        reveal_strlit("5");
        reveal_strlit("6");
        reveal_strlit("7");
        reveal_strlit("8");
        reveal_strlit("9");
    }
    let r = match d {
        0 => "0",
        1 => "1",
        2 => "2",
        3 => "3",
        4 => "4",
        5 => "5",
        6 => "6",
        7 => "7",
        8 => "8",
        _ => "9",
    };
    proof {
        assert(r@ =~= seq![digit_char(d)]);
    }
    r
}

/// Appends the characters that write the digits `d` to `out`.
fn push_digits(out: &mut String, d: &Vec<u8>)
    requires
        all_below_ten(d@),
    ensures
        final(out)@ == old(out)@ + digit_chars(d@),
{
    let mut i: usize = 0;
    proof {
        assert(out@ =~= old(out)@ + digit_chars(d@.take(0)));
    }
    while i < d.len()
        invariant
            i <= d.len(),
            all_below_ten(d@),
            out@ == old(out)@ + digit_chars(d@.take(i as int)),
        decreases d.len() - i,
    {
        out.append(digit_str(d[i]));
        proof {
            assert(out@ =~= old(out)@ + digit_chars(d@.take(i + 1)));
        }
        i = i + 1;
    }
    proof {
        assert(d@.take(d.len() as int) =~= d@);
    }
}

/// Whether `a` and `b` hold the same digits.
fn same_digits(a: &Vec<u8>, b: &Vec<u8>) -> (r: bool)
    requires
        a.len() == b.len(),
    ensures
        r == (a@ == b@),
{
    let mut i: usize = 0;
    while i < a.len()
        invariant
            i <= a.len(),
            a.len() == b.len(),
            forall|k: int| 0 <= k < i ==> a@[k] == b@[k],
        decreases a.len() - i,
    {
        if a[i] != b[i] {
            return false;
        }
        i = i + 1;
    }
    proof {
        assert(a@ =~= b@);
    }
    true
}

/// A copy of the elements of `d` from `from` up to `to`.
fn copy_range(d: &Vec<u8>, from: usize, to: usize) -> (r: Vec<u8>)
    requires
        from <= to <= d.len(),
    ensures
        r@ == d@.subrange(from as int, to as int),
{
    let mut r: Vec<u8> = Vec::new();
    let mut i: usize = from;
    while i < to
        invariant
            from <= i <= to <= d.len(),
            r@ == d@.subrange(from as int, i as int),
        decreases to - i,
    {
        r.push(d[i]);
        proof {
            assert(r@ =~= d@.subrange(from as int, i + 1));
        }
        i = i + 1;
    }
    r
}

/// Appends `n` zeros to `v`.
fn push_zeros(v: &mut Vec<u8>, n: usize)
    ensures
        final(v)@ == old(v)@ + zeros(n as nat),
{
    let mut i: usize = 0;
    proof {
        assert(v@ =~= old(v)@ + zeros(0));
    }
    while i < n
        invariant
            i <= n,
            v@ == old(v)@ + zeros(i as nat),
        decreases n - i,
    {
        v.push(0u8);
        proof {
            assert(v@ =~= old(v)@ + zeros((i + 1) as nat));
        }
        i = i + 1;
    }
}

/// `d` without the zeros in front.
fn without_leading_zeros(d: &Vec<u8>) -> (r: Vec<u8>)
    ensures
        r.len() <= d.len(),
        d@ == zeros((d.len() - r.len()) as nat) + r@,
        r.len() > 0 ==> r@[0] != 0,
{
    let mut k: usize = 0;
    while k < d.len() && d[k] == 0
        invariant
            k <= d.len(),
            forall|i: int| 0 <= i < k ==> d@[i] == 0,
        decreases d.len() - k,
    {
        k = k + 1;
    }
    let r = copy_range(d, k, d.len());
    proof {
        assert(d@ =~= zeros(k as nat) + r@);
    }
    r
}

/// `d` without the zeros at the end.
fn without_trailing_zeros(d: &Vec<u8>) -> (r: Vec<u8>)
    ensures
        r.len() <= d.len(),
        d@ == r@ + zeros((d.len() - r.len()) as nat),
        r.len() > 0 ==> r@.last() != 0,
{
    let mut k: usize = d.len();
    while k > 0 && d[k - 1] == 0
        invariant
            k <= d.len(),
            forall|i: int| k <= i < d.len() ==> d@[i] == 0,
        decreases k,
    {
        k = k - 1;
    }
    let r = copy_range(d, 0, k);
    proof {
        assert(d@ =~= r@ + zeros((d.len() - k) as nat));
    }
    r
}

impl View for Decimal {
    type V = DecimalView;

    closed spec fn view(&self) -> DecimalView {
        let m = digits_value(self.int_digits@ + self.frac_digits@);
        DecimalView {
            unscaled: if self.negative { -(m as int) } else { m as int },
            scale: self.frac_digits@.len(),
        }
    }
}

impl PartialEq for Decimal {
    fn eq(&self, other: &Decimal) -> (r: bool) {
        self.same_value(other)
    }
}

impl PartialEqSpecImpl for Decimal {
    open spec fn obeys_eq_spec() -> bool {
        true
    }

    open spec fn eq_spec(&self, other: &Decimal) -> bool {
        self@ == other@
    }
}

impl Clone for Decimal {
    fn clone(&self) -> (r: Self)
        ensures
            r@ == self@,
    {
        proof {
            use_type_invariant(self);
        }
        Decimal {
            negative: self.negative,
            int_digits: self.int_digits.clone(),
            frac_digits: self.frac_digits.clone(),
        }
    }
}

impl Decimal {
    /// The digits are digits, none is superfluous, and zero has no sign.
    #[verifier::type_invariant]
    pub closed spec fn wf(&self) -> bool {
        &&& all_below_ten(self.int_digits@)
        &&& all_below_ten(self.frac_digits@)
        &&& self.int_digits@.len() > 0 ==> self.int_digits@[0] != 0
        &&& self.frac_digits@.len() > 0 ==> self.frac_digits@.last() != 0
        &&& self.negative ==> self.int_digits@.len() + self.frac_digits@.len() > 0
    }

    /// Zero.
    pub fn zero() -> (r: Decimal)
        ensures
            r@ == (DecimalView { unscaled: 0, scale: 0 }),
            r.wf(),
    {
        let r = Decimal { negative: false, int_digits: Vec::new(), frac_digits: Vec::new() };
        proof {
            assert(r.int_digits@ + r.frac_digits@ =~= Seq::<u8>::empty());
        }
        r
    }

    /// The decimal that has `int_part` before the point and `frac_part`
    /// behind it, superfluous zeros dropped.
    fn from_parts(negative: bool, int_part: &Vec<u8>, frac_part: &Vec<u8>) -> (r: Decimal)
        requires
            all_below_ten(int_part@),
            all_below_ten(frac_part@),
        ensures
            r.wf(),
            r@ == decimal_value(negative, int_part@ + frac_part@, frac_part@.len(), 0),
    {
        let i = without_leading_zeros(int_part);
        let f = without_trailing_zeros(frac_part);
        let sign = negative && (i.len() > 0 || f.len() > 0);
        proof {
            let a = (int_part.len() - i.len()) as nat;
            let b = (frac_part.len() - f.len()) as nat;
            let core = i@ + f@;
            assert(int_part@ + frac_part@ =~= zeros(a) + (core + zeros(b)));
            lemma_value_leading_zeros(a, core + zeros(b));
            lemma_value_trailing_zeros(core, b);
            lemma_normalize_trailing(digits_value(core), f@.len(), b);
            if f.len() > 0 {
                assert(core.last() == f@.last());
                assert(f@.last() == frac_part@[f.len() - 1]);
                lemma_value_split(core);
            }
            lemma_normalize_fixed(digits_value(core), f@.len());
            assert forall|k: int| 0 <= k < i@.len() implies #[trigger] i@[k] < 10 by {
                assert(i@[k] == int_part@[a + k]);
            }
            assert forall|k: int| 0 <= k < f@.len() implies #[trigger] f@[k] < 10 by {
                assert(f@[k] == frac_part@[k]);
            }
            if i.len() == 0 && f.len() == 0 {
                assert(core =~= Seq::<u8>::empty());
            }
        }
        Decimal { negative: sign, int_digits: i, frac_digits: f }
    }

    /// The decimal with the given sign and digits, the last `scale` of them
    /// behind the point, times ten to the given exponent.
    fn assemble(
        negative: bool,
        digits: &Vec<u8>,
        scale: usize,
        exp_negative: bool,
        exp_size: usize,
    ) -> (r: Decimal)
        requires
            all_below_ten(digits@),
            scale <= digits.len(),
        ensures
            r.wf(),
            r@ == decimal_value(
                negative,
                digits@,
                scale as nat,
                if exp_negative {
                    -(exp_size as int)
                } else {
                    exp_size as int
                },
            ),
    {
        let n = digits.len();
        let point = n - scale;
        let mut int_part: Vec<u8> = Vec::new();
        let mut frac_part: Vec<u8> = Vec::new();
        if !exp_negative && exp_size >= scale {
            int_part = copy_range(digits, 0, n);
            push_zeros(&mut int_part, exp_size - scale);
            proof {
                assert(digits@.subrange(0, n as int) =~= digits@);
                assert(int_part@ + frac_part@ =~= digits@ + zeros((exp_size - scale) as nat));
                lemma_value_trailing_zeros(digits@, (exp_size - scale) as nat);
                assert(digits_value(digits@) * pow10(0) == digits_value(digits@))
                    by (nonlinear_arith)
                    requires
                        pow10(0) == 1,
                ;
            }
        } else if exp_negative && exp_size >= point {
            push_zeros(&mut frac_part, exp_size - point);
            let mut i: usize = 0;
            while i < n
                invariant
                    i <= n,
                    n == digits.len(),
                    frac_part@ == zeros((exp_size - point) as nat) + digits@.subrange(0, i as int),
                decreases n - i,
            {
                frac_part.push(digits[i]);
                proof {
                    assert(frac_part@ =~= zeros((exp_size - point) as nat) + digits@.subrange(
                        0,
                        i + 1,
                    ));
                }
                i = i + 1;
            }
            proof {
                assert(digits@.subrange(0, n as int) =~= digits@);
                assert(int_part@ + frac_part@ =~= zeros((exp_size - point) as nat) + digits@);
                lemma_value_leading_zeros((exp_size - point) as nat, digits@);
            }
        } else {
            let cut = if exp_negative {
                point - exp_size
            } else {
                point + exp_size
            };
            int_part = copy_range(digits, 0, cut);
            frac_part = copy_range(digits, cut, n);
            proof {
                assert(int_part@ + frac_part@ =~= digits@);
            }
        }
        proof {
            assert forall|k: int| 0 <= k < int_part@.len() implies #[trigger] int_part@[k]
                < 10 by {
                if k < n {
                    assert(int_part@[k] == digits@[k]);
                }
            }
            assert forall|k: int| 0 <= k < frac_part@.len() implies #[trigger] frac_part@[k]
                < 10 by {
                if exp_negative && exp_size >= point {
                    if k >= exp_size - point {
                        assert(frac_part@[k] == digits@[k - (exp_size - point)]);
                    }
                } else {
                    assert(frac_part@[k] == digits@[k + int_part@.len()]);
                }
            }
        }
        Decimal::from_parts(negative, &int_part, &frac_part)
    }

    /// Reads the decimal that the characters `t` write.
    fn from_chars(t: &Vec<char>, scientific: bool) -> (r: Option<Decimal>)
        ensures
            r matches Some(d) ==> d.wf() && decimal_of_text(t@, scientific) == Some(d@),
            r is None ==> decimal_of_text(t@, scientific) is None,
    {
        let len = t.len();
        let negative = len > 0 && t[0] == '-';
        let start: usize = if len > 0 && (t[0] == '-' || t[0] == '+') {
            1
        } else {
            0
        };
        let mut digits: Vec<u8> = Vec::new();
        let after_int = scan_digits(t, start, &mut digits);
        let after_point: usize = if after_int < len && t[after_int] == '.' {
            after_int + 1
        } else {
            after_int
        };
        let before = digits.len();
        let mantissa_end = scan_digits(t, after_point, &mut digits);
        let scale = digits.len() - before;
        proof {
            assert(digits@ =~= mantissa_digits(t@));
        }
        if digits.len() == 0 {
            return None;
        }
        if mantissa_end == len {
            return Some(Decimal::assemble(negative, &digits, scale, false, 0));
        }
        if !scientific || !(t[mantissa_end] == 'e' || t[mantissa_end] == 'E') {
            return None;
        }
        let sign_at = mantissa_end + 1;
        let exp_negative = sign_at < len && t[sign_at] == '-';
        let exp_start: usize = if sign_at < len && (t[sign_at] == '-' || t[sign_at] == '+') {
            sign_at + 1
        } else {
            sign_at
        };
        if exp_start >= len {
            return None;
        }
        let mut exp_digits: Vec<u8> = Vec::new();
        let exp_end = scan_digits(t, exp_start, &mut exp_digits);
        if exp_end != len {
            return None;
        }
        proof {
            assert(exp_digits@ =~= exponent_digits(t@));
        }
        match number_within(&exp_digits, MAX_EXPONENT) {
            None => None,
            Some(size) => Some(
                Decimal::assemble(negative, &digits, scale, exp_negative, size as usize),
            ),
        }
    }

    /// All the digits of a well-formed decimal are below ten.
    proof fn lemma_digits_below_ten(&self)
        requires
            self.wf(),
        ensures
            all_below_ten(self.int_digits@ + self.frac_digits@),
    {
        let all = self.int_digits@ + self.frac_digits@;
        assert forall|i: int| 0 <= i < all.len() implies #[trigger] all[i] < 10 by {
            if i < self.int_digits@.len() {
                assert(all[i] == self.int_digits@[i]);
            } else {
                assert(all[i] == self.frac_digits@[i - self.int_digits@.len()]);
            }
        }
    }

    /// A well-formed decimal is zero exactly where it has no digit.
    proof fn lemma_zero_has_no_digit(&self)
        requires
            self.wf(),
        ensures
            digits_value(self.int_digits@ + self.frac_digits@) == 0 <==> self.int_digits@.len()
                + self.frac_digits@.len() == 0,
    {
        let all = self.int_digits@ + self.frac_digits@;
        if self.int_digits@.len() > 0 {
            assert(all[0] == self.int_digits@[0]);
            lemma_value_lower_bound(all);
            crate::text::lemma_pow10_positive((all.len() - 1) as nat);
        } else if self.frac_digits@.len() > 0 {
            assert(all.last() == self.frac_digits@.last());
            lemma_value_split(all);
        } else {
            assert(all =~= Seq::<u8>::empty());
        }
    }

    /// The value of a well-formed decimal is in lowest terms.
    pub proof fn lemma_view_is_normalized(&self)
        requires
            self.wf(),
        ensures
            self@.scale == 0 || self@.unscaled % 10 != 0,
    {
        let all = self.int_digits@ + self.frac_digits@;
        if self.frac_digits@.len() > 0 {
            assert(all.last() == self.frac_digits@.last());
            lemma_value_split(all);
            let m = digits_value(all) as int;
            assert((-m) % 10 != 0) by (nonlinear_arith)
                requires
                    m % 10 != 0,
            ;
        }
    }

    /// A well-formed decimal with more digits before the point than `other`
    /// has, and as many behind it, is larger in magnitude.
    proof fn lemma_longer_is_larger(&self, other: &Decimal)
        requires
            self.wf(),
            other.wf(),
            self.frac_digits@.len() == other.frac_digits@.len(),
            self.int_digits@.len() > other.int_digits@.len(),
        ensures
            digits_value(self.int_digits@ + self.frac_digits@) > digits_value(
                other.int_digits@ + other.frac_digits@,
            ),
    {
        let x = self.int_digits@ + self.frac_digits@;
        let y = other.int_digits@ + other.frac_digits@;
        assert(x[0] == self.int_digits@[0]);
        lemma_value_lower_bound(x);
        other.lemma_digits_below_ten();
        lemma_value_upper_bound(y);
        lemma_pow10_monotonic(y.len(), (x.len() - 1) as nat);
    }

    /// Two well-formed decimals of one value are written alike: a value is
    /// written in one way only.
    pub proof fn lemma_value_is_canonical(&self, other: &Decimal)
        requires
            self.wf(),
            other.wf(),
            self@ == other@,
        ensures
            self.text() == other.text(),
    {
        self.lemma_same_digits(other);
    }

    /// Two well-formed decimals of one value have the same sign and the same
    /// digits.
    proof fn lemma_same_digits(&self, other: &Decimal)
        requires
            self.wf(),
            other.wf(),
            self@ == other@,
        ensures
            self.negative == other.negative,
            self.int_digits@ == other.int_digits@,
            self.frac_digits@ == other.frac_digits@,
    {
        let x = self.int_digits@ + self.frac_digits@;
        let y = other.int_digits@ + other.frac_digits@;
        assert(digits_value(x) == digits_value(y));
        if self.int_digits@.len() > other.int_digits@.len() {
            self.lemma_longer_is_larger(other);
        }
        if other.int_digits@.len() > self.int_digits@.len() {
            other.lemma_longer_is_larger(self);
        }
        self.lemma_digits_below_ten();
        other.lemma_digits_below_ten();
        lemma_value_injective(x, y);
        assert(self.int_digits@ =~= x.take(self.int_digits@.len() as int));
        assert(other.int_digits@ =~= y.take(other.int_digits@.len() as int));
        assert(self.frac_digits@ =~= x.skip(self.int_digits@.len() as int));
        assert(other.frac_digits@ =~= y.skip(other.int_digits@.len() as int));
        self.lemma_zero_has_no_digit();
    }

    /// Whether the decimal is below zero.
    pub fn is_negative(&self) -> (r: bool)
        ensures
            r == (self@.unscaled < 0),
    {
        proof {
            use_type_invariant(self);
            self.lemma_zero_has_no_digit();
        }
        self.negative
    }

    /// Whether the decimal is zero.
    pub fn is_zero(&self) -> (r: bool)
        ensures
            r == (self@.unscaled == 0),
    {
        proof {
            use_type_invariant(self);
            self.lemma_zero_has_no_digit();
        }
        self.int_digits.len() == 0 && self.frac_digits.len() == 0
    }

    /// Whether this decimal and `other` have the same value.
    pub fn same_value(&self, other: &Decimal) -> (r: bool)
        ensures
            r == (self@ == other@),
    {
        proof {
            use_type_invariant(self);
            use_type_invariant(other);
            if self@ == other@ {
                self.lemma_same_digits(other);
            }
        }
        if self.negative != other.negative || self.int_digits.len() != other.int_digits.len()
            || self.frac_digits.len() != other.frac_digits.len() {
            return false;
        }
        if !same_digits(&self.int_digits, &other.int_digits) {
            return false;
        }
        same_digits(&self.frac_digits, &other.frac_digits)
    }

    /// How the decimal is written: a minus sign where it is negative, the
    /// digits before the point or one zero where there are none, and, where
    /// there is a fraction, the point and its digits.
    pub closed spec fn text(&self) -> Seq<char> {
        let sign = if self.negative {
            seq!['-']
        } else {
            Seq::<char>::empty()
        };
        let whole = if self.int_digits@.len() == 0 {
            seq!['0']
        } else {
            digit_chars(self.int_digits@)
        };
        let fraction = if self.frac_digits@.len() == 0 {
            Seq::<char>::empty()
        } else {
            seq!['.'] + digit_chars(self.frac_digits@)
        };
        sign + whole + fraction
    }

    /// Writing a decimal and reading it back gives the same decimal.
    pub proof fn lemma_text_round_trip(&self)
        requires
            self.wf(),
        ensures
            plain_syntax(self.text()),
            decimal_of_text(self.text(), false) == Some(self@),
            decimal_of_text(self.text(), true) == Some(self@),
    {
        let t = self.text();
        let i = self.int_digits@;
        let f = self.frac_digits@;
        let sw: int = if self.negative {
            1
        } else {
            0
        };
        let whole = if i.len() == 0 {
            seq![0u8]
        } else {
            i
        };
        let ie = sw + whole.len();
        assert(whole.len() >= 1);
        assert(is_digit(t[sw]));
        assert(sign_width(t, 0) == sw);
        assert forall|k: int| sw <= k < ie implies is_digit(#[trigger] t[k]) by {
            assert(t[k] == digit_char(whole[k - sw]));
        }
        lemma_digit_run(t, sw, ie);
        assert(int_end(t) == ie);
        if f.len() > 0 {
            assert(t[ie] == '.');
            assert forall|k: int| ie + 1 <= k < t.len() implies is_digit(#[trigger] t[k]) by {
                assert(t[k] == digit_char(f[k - ie - 1]));
            }
            lemma_digit_run(t, ie + 1, t.len() as int);
        } else {
            assert(ie == t.len());
            lemma_digit_run(t, ie, ie);
        }
        assert(frac_end(t) == t.len());
        assert(mantissa_digits(t) =~= whole + f) by {
            let m = mantissa_digits(t);
            assert(m.len() == whole.len() + f.len());
            assert forall|k: int| 0 <= k < m.len() implies m[k] == (whole + f)[k] by {
                if k < whole.len() {
                    assert(t[sw + k] == digit_char(whole[k]));
                } else {
                    assert(t[ie + 1 + (k - whole.len())] == digit_char(f[k - whole.len()]));
                }
            }
        }
        if i.len() == 0 {
            assert(whole + f =~= zeros(1) + (i + f));
            lemma_value_leading_zeros(1, i + f);
        }
        if f.len() > 0 {
            assert((i + f).last() == f.last());
            lemma_value_split(i + f);
        }
        lemma_normalize_fixed(digits_value(i + f), f.len());
    }

    /// Writes the decimal in plain syntax, so that `parse` reads the same
    /// decimal back.
    pub fn encode(&self) -> (r: String)
        ensures
            r@ == self.text(),
            decimal_of_text(r@, false) == Some(self@),
    {
        proof {
            use_type_invariant(self);
            self.lemma_text_round_trip();
        }
        let mut out = String::new();
        if self.negative {
            out.append("-");
        }
        if self.int_digits.len() == 0 {
            out.append("0");
        } else {
            push_digits(&mut out, &self.int_digits);
        }
        if self.frac_digits.len() > 0 {
            out.append(".");
            push_digits(&mut out, &self.frac_digits);
        }
        proof {
            reveal_strlit("-");
            reveal_strlit("0");
            reveal_strlit(".");
            assert(out@ =~= self.text());
        }
        out
    }

    /// Reads a decimal in plain syntax: an optional sign, digits, and
    /// optionally a point and more digits, with at least one digit in all.
    pub fn parse(text: &str) -> (r: Result<Decimal, DecodeError>)
        ensures
            r matches Ok(d) ==> d.wf() && decimal_of_text(text@, false) == Some(d@),
            r matches Err(e) ==> e == DecodeError::MalformedNumber && decimal_of_text(
                text@,
                false,
            ) is None,
    {
        let t = chars_of(text);
        match Decimal::from_chars(&t, false) {
            Some(d) => Ok(d),
            None => Err(DecodeError::MalformedNumber),
        }
    }

    /// Reads a decimal that may be followed by an exponent, as numbers are
    /// printed: `12`, `-0.5`, `1e-7`, `1.5E+300`.
    pub fn parse_scientific(text: &str) -> (r: Result<Decimal, DecodeError>)
        ensures
            r matches Ok(d) ==> d.wf() && decimal_of_text(text@, true) == Some(d@),
            r matches Err(e) ==> e == DecodeError::MalformedNumber && decimal_of_text(
                text@,
                true,
            ) is None,
    {
        let t = chars_of(text);
        match Decimal::from_chars(&t, true) {
            Some(d) => Ok(d),
            None => Err(DecodeError::MalformedNumber),
        }
    }
}

} // verus!
