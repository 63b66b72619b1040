//! Decimal numerals and their exact fixed-point value.
//!
//! A numeral is an optional sign, digits, an optional fraction and an optional
//! power of ten: `65`, `65.5`, `-0.25`, `1.5e-3`, `2E+1`. Its value is read
//! exactly, whatever the number of digits, and handed out as a count of
//! `10^-shift` parts, rounded down.

use vstd::prelude::*;
use vstd::arithmetic::power::*;
use vstd::arithmetic::div_mod::{lemma_basic_div, lemma_fundamental_div_mod_converse, lemma_small_mod};
use vstd::slice::slice_subrange;
use crate::text::{decimal_text, digit_char, joined};

verus! {

/// Whether `c` is one of the ten decimal digits.
pub open spec fn is_digit(c: char) -> bool {
    '0' <= c && c <= '9'
}

/// The number that the digit `c` stands for.
pub open spec fn digit_of(c: char) -> nat {
    (c as int - '0' as int) as nat
}

/// Whether `s` consists of digits only.
pub open spec fn all_digits(s: Seq<char>) -> bool {
    forall|i: int| 0 <= i < s.len() ==> is_digit(#[trigger] s[i])
}

/// How many digits `s` begins with.
pub open spec fn digit_run(s: Seq<char>) -> nat
    decreases s.len(),
{
    if s.len() > 0 && is_digit(s[0]) {
        1 + digit_run(s.skip(1))
    } else {
        0
    }
}

/// The number written by the digits `s`, most significant first.
pub open spec fn digits_value(s: Seq<char>) -> nat
    decreases s.len(),
{
    if s.len() == 0 {
        0
    } else {
        digits_value(s.drop_last()) * 10 + digit_of(s.last())
    }
}

/// One if `s` begins with a plus or minus sign, else zero.
pub open spec fn sign_len(s: Seq<char>) -> nat {
    if s.len() > 0 && (s[0] == '-' || s[0] == '+') {
        1
    } else {
        0
    }
}

/// The parts of a decimal numeral.
pub struct Numeral {
    /// Whether a minus sign leads.
    pub negative: bool,
    /// The digits before the point.
    pub whole: Seq<char>,
    /// The digits after the point; empty where there is no point.
    pub fraction: Seq<char>,
    /// The power of ten that follows `e`; zero where there is none.
    pub exponent: int,
}

/// The power of ten written by `s`, which is what follows the fraction: nothing,
/// or `e` or `E`, an optional sign and digits up to the end.
pub open spec fn exponent_of(s: Seq<char>) -> Option<int> {
    if s.len() == 0 {
        Some(0)
    } else if s[0] == 'e' || s[0] == 'E' {
        let t = s.skip(1);
        let d = t.skip(sign_len(t) as int);
        if d.len() == 0 || digit_run(d) != d.len() {
            None
        } else if sign_len(t) == 1 && t[0] == '-' {
            Some(-(digits_value(d) as int))
        } else {
            Some(digits_value(d) as int)
        }
    } else {
        None
    }
}

/// The numeral that `s` spells from its first to its last character, if it
/// spells one.
pub open spec fn numeral_of(s: Seq<char>) -> Option<Numeral> {
    let body = s.skip(sign_len(s) as int);
    let w = digit_run(body) as int;
    let after_whole = body.skip(w);
    let pointed = after_whole.len() > 0 && after_whole[0] == '.';
    let f = if pointed {
        digit_run(after_whole.skip(1)) as int
    } else {
        0
    };
    let tail = if pointed {
        after_whole.skip(1 + f)
    } else {
        after_whole
    };
    if w == 0 || (pointed && f == 0) {
        None
    } else {
        match exponent_of(tail) {
            None => None,
            Some(exponent) => Some(
                Numeral {
                    negative: sign_len(s) == 1 && s[0] == '-',
                    whole: body.take(w),
                    fraction: if pointed {
                        after_whole.subrange(1, 1 + f)
                    } else {
                        Seq::<char>::empty()
                    },
                    exponent,
                },
            ),
        }
    }
}

impl Numeral {
    /// All digits of the numeral, the point left out.
    pub open spec fn digits(self) -> Seq<char> {
        self.whole + self.fraction
    }

    /// By how many places the digits are moved to count `10^-shift` parts.
    pub open spec fn places(self, shift: nat) -> int {
        self.exponent - self.fraction.len() + shift
    }

    /// The size of the numeral in `10^-shift` parts, rounded down.
    pub open spec fn parts(self, shift: nat) -> nat {
        let k = self.places(shift);
        if k >= 0 {
            (digits_value(self.digits()) * pow(10, k as nat)) as nat
        } else {
            (digits_value(self.digits()) / (pow(10, (-k) as nat) as nat)) as nat
        }
    }

    /// Whether `parts` lost nothing in rounding down.
    pub open spec fn whole_parts(self, shift: nat) -> bool {
        let k = self.places(shift);
        k >= 0 || digits_value(self.digits()) % (pow(10, (-k) as nat) as nat) == 0
    }

    /// The parts of this numeral, if its value lies between zero and `limit`
    /// parts, both included: a value below zero or above the limit, by however
    /// little, has none.
    pub open spec fn within(self, shift: nat, limit: nat) -> Option<nat> {
        let p = self.parts(shift);
        let exact = self.whole_parts(shift);
        if self.negative && !(p == 0 && exact) {
            None
        } else if p < limit || (p == limit && exact) {
            Some(p)
        } else {
            None
        }
    }
}

/// The value of the numeral `s` in `10^-shift` parts, rounded down, if `s` is a
/// numeral whose value lies between zero and `limit` parts, both included.
/// Text that is no numeral has no value.
pub open spec fn fixed_point(s: Seq<char>, shift: nat, limit: nat) -> Option<nat> {
    match numeral_of(s) {
        None => None,
        Some(n) => n.within(shift, limit),
    }
}

/// The digits that `s` begins with are digits, and the run stops at the first
/// character that is none.
pub proof fn lemma_digit_run(s: Seq<char>)
    ensures
        digit_run(s) <= s.len(),
        all_digits(s.take(digit_run(s) as int)),
        digit_run(s) < s.len() ==> !is_digit(s[digit_run(s) as int]),
    decreases s.len(),
{
    if s.len() > 0 && is_digit(s[0]) {
        lemma_digit_run(s.skip(1));
        let n = digit_run(s) as int;
        assert forall|i: int| 0 <= i < n implies is_digit(#[trigger] s.take(n)[i]) by {
            if i > 0 {
                assert(s.skip(1).take(n - 1)[i - 1] == s[i]);
            }
        }
    }
}

/// A run of digits that fills `s` means that `s` is digits throughout.
pub proof fn lemma_full_run(s: Seq<char>)
    ensures
        digit_run(s) == s.len() <==> all_digits(s),
    decreases s.len(),
{
    lemma_digit_run(s);
    if digit_run(s) == s.len() {
        assert(s.take(s.len() as int) == s);
    }
    if all_digits(s) && s.len() > 0 {
        assert(is_digit(s[0]));
        assert forall|i: int| 0 <= i < s.skip(1).len() implies is_digit(#[trigger] s.skip(1)[i]) by {
            assert(s.skip(1)[i] == s[i + 1]);
        }
        lemma_full_run(s.skip(1));
    }
}

/// `n` digits write a number below `10^n`.
pub proof fn lemma_digits_bound(s: Seq<char>)
    requires
        all_digits(s),
    ensures
        digits_value(s) < pow(10, s.len()),
    decreases s.len(),
{
    reveal(pow);
    if s.len() > 0 {
        assert(all_digits(s.drop_last())) by {
            assert forall|i: int| 0 <= i < s.drop_last().len() implies is_digit(
                #[trigger] s.drop_last()[i],
            ) by {
                assert(s.drop_last()[i] == s[i]);
            }
        }
        lemma_digits_bound(s.drop_last());
        assert(is_digit(s.last()));
        assert(digit_of(s.last()) <= 9);
        assert(pow(10, s.len()) == 10 * pow(10, (s.len() - 1) as nat));
    }
}

/// Splitting the digits at `j`: the number is the head moved left by the length
/// of the tail, plus the tail.
pub proof fn lemma_digits_split(s: Seq<char>, j: int)
    requires
        0 <= j <= s.len(),
    ensures
        digits_value(s) == digits_value(s.take(j)) * pow(10, (s.len() - j) as nat) + digits_value(
            s.skip(j),
        ),
    decreases s.len() - j,
{
    reveal(pow);
    if j == s.len() {
        assert(s.take(j) == s);
        assert(s.skip(j).len() == 0);
        assert(pow(10, 0) == 1);
    } else {
        let t = s.drop_last();
        lemma_digits_split(t, j);
        assert(t.take(j) == s.take(j));
        assert(t.skip(j) == s.skip(j).drop_last());
        assert(s.skip(j).last() == s.last());
        let a = digits_value(s.take(j)) as int;
        let p = pow(10, (t.len() - j) as nat);
        assert(pow(10, (s.len() - j) as nat) == 10 * p);
        assert(a * (10 * p) == (a * p) * 10) by (nonlinear_arith);
    }
}

/// Cutting the digits at `j` divides the number by the power of ten that the
/// tail spans: the head is the quotient, the tail the remainder.
pub proof fn lemma_head_and_tail(s: Seq<char>, j: int)
    requires
        all_digits(s),
        0 <= j <= s.len(),
    ensures
        digits_value(s.take(j)) == digits_value(s) / (pow(10, (s.len() - j) as nat) as nat),
        digits_value(s.skip(j)) == digits_value(s) % (pow(10, (s.len() - j) as nat) as nat),
        pow(10, (s.len() - j) as nat) > 0,
{
    let m = (s.len() - j) as nat;
    lemma_pow_positive(10, m);
    lemma_digits_split(s, j);
    assert(all_digits(s.skip(j))) by {
        assert forall|i: int| 0 <= i < s.skip(j).len() implies is_digit(#[trigger] s.skip(j)[i]) by {
            assert(s.skip(j)[i] == s[i + j]);
        }
    }
    lemma_digits_bound(s.skip(j));
    lemma_fundamental_div_mod_converse(
        digits_value(s) as int,
        pow(10, m),
        digits_value(s.take(j)) as int,
        digits_value(s.skip(j)) as int,
    );
}

/// Ten to the twentieth exceeds every `u64`, and so does every higher power.
pub proof fn lemma_pow10_large(k: nat)
    requires
        k >= 20,
    ensures
        pow(10, k) > u64::MAX,
{
    assert(pow(10, 20) == 100_000_000_000_000_000_000int) by {
        reveal_with_fuel(pow, 21);
    }
    lemma_pow_increases(10, 20, k);
}

/// A ceiling for exponents while they are read: far above the length of any
/// text, so that an exponent at the ceiling decides the outcome by itself.
pub const EXPONENT_CEILING: u128 = 1_000_000_000_000_000_000_000_000_000_000;

/// The smaller of two numbers.
pub open spec fn least(a: int, b: int) -> int {
    if a <= b {
        a
    } else {
        b
    }
}

/// Whether `c` is a decimal digit.
fn digit(c: char) -> (r: bool)
    ensures
        r == is_digit(c),
{
    '0' <= c && c <= '9'
}

/// The number of digits that `s` begins with.
fn count_digits(s: &[char]) -> (n: usize)
    ensures
        n == digit_run(s@),
        n <= s.len(),
{
    let mut i: usize = 0;
    assert(s@.skip(0) == s@);
    while i < s.len() && digit(s[i])
        invariant
            i <= s.len(),
            digit_run(s@) == i + digit_run(s@.skip(i as int)),
        decreases s.len() - i,
    {
        assert(s@.skip(i as int).skip(1) == s@.skip(i + 1));
        i += 1;
    }
    i
}

/// The number that the digits `d` write, or `cap` if that is smaller.
fn capped_value(d: &[char], cap: u128) -> (r: u128)
    requires
        all_digits(d@),
        cap <= EXPONENT_CEILING,
    ensures
        r == least(digits_value(d@) as int, cap as int),
{
    let mut acc: u128 = 0;
    let mut i: usize = 0;
    assert(d@.take(0).len() == 0);
    while i < d.len()
        invariant
            i <= d.len(),
            all_digits(d@),
            cap <= EXPONENT_CEILING,
            acc == least(digits_value(d@.take(i as int)) as int, cap as int),
        decreases d.len() - i,
    {
        let c = d[i];
        assert(is_digit(d@[i as int]));
        let v: u128 = (c as u32 - '0' as u32) as u128;
        assert(d@.take(i + 1).drop_last() == d@.take(i as int));
        assert(d@.take(i + 1).last() == c);
        assert(v == digit_of(c));
        let next: u128 = acc * 10 + v;
        acc = if next > cap {
            cap
        } else {
            next
        };
        i += 1;
    }
    assert(d@.take(d.len() as int) == d@);
    acc
}

/// Whether `s` begins with a sign, and whether that sign is a minus.
fn read_sign(s: &[char]) -> (r: (usize, bool))
    ensures
        r.0 == sign_len(s@),
        r.1 == (sign_len(s@) == 1 && s@[0] == '-'),
{
    if s.len() > 0 && s[0] == '-' {
        (1, true)
    } else if s.len() > 0 && s[0] == '+' {
        (1, false)
    } else {
        (0, false)
    }
}

/// The power of ten that `s` writes: whether a minus sign leads it, and its
/// size, held at the ceiling.
fn read_exponent(s: &[char]) -> (r: Option<(bool, u128)>)
    ensures
        match exponent_of(s@) {
            None => r is None,
            Some(e) => r matches Some((minus, size)) && size == least(
                if e < 0 {
                    -e
                } else {
                    e
                },
                EXPONENT_CEILING as int,
            ) && (minus ==> e <= 0) && (!minus ==> e >= 0),
        },
{
    if s.len() == 0 {
        return Some((false, 0));
    }
    if s[0] != 'e' && s[0] != 'E' {
        return None;
    }
    let t = slice_subrange(s, 1, s.len());
    assert(t@ == s@.skip(1));
    let (skip, minus) = read_sign(t);
    let d = slice_subrange(t, skip, t.len());
    assert(d@ == t@.skip(skip as int));
    let run = count_digits(d);
    if d.len() == 0 || run != d.len() {
        return None;
    }
    proof {
        lemma_full_run(d@);
    }
    let size = capped_value(d, EXPONENT_CEILING);
    Some((minus, size))
}

/// The whole number that `s` writes: digits only, at least one, and a value
/// that a `u64` can hold.
pub open spec fn whole_number(s: Seq<char>) -> Option<u64> {
    if s.len() > 0 && all_digits(s) && digits_value(s) <= u64::MAX {
        Some(digits_value(s) as u64)
    } else {
        None
    }
}

/// The numeral that is written for `n` consists of digits and writes `n`.
pub proof fn lemma_decimal_text(n: nat)
    ensures
        decimal_text(n).len() > 0,
        all_digits(decimal_text(n)),
        digits_value(decimal_text(n)) == n,
    decreases n,
{
    let last = digit_char(n % 10);
    assert(is_digit(last) && digit_of(last) == n % 10);
    if n >= 10 {
        lemma_decimal_text(n / 10);
        let head = decimal_text(n / 10);
        assert(decimal_text(n) == head.push(last));
        assert(decimal_text(n).drop_last() == head);
        assert(decimal_text(n).last() == last);
        assert(digits_value(decimal_text(n)) == digits_value(head) * 10 + digit_of(last));
        assert forall|i: int| 0 <= i < decimal_text(n).len() implies is_digit(
            #[trigger] decimal_text(n)[i],
        ) by {
            if i < head.len() {
                assert(decimal_text(n)[i] == head[i]);
            }
        }
    } else {
        assert(decimal_text(n) == seq![last]);
        assert(decimal_text(n).last() == last);
        assert(digits_value(decimal_text(n).drop_last()) == 0);
        assert(digits_value(decimal_text(n)) == 0 * 10 + digit_of(last));
    }
}

/// What is written for a number is read back as that number.
pub proof fn law_written_numbers_read_back(n: u64)
    ensures
        whole_number(decimal_text(n as nat)) == Some(n),
{
    lemma_decimal_text(n as nat);
}

/// Reads `s` as a whole number.
pub fn parse_whole(s: &[char]) -> (r: Option<u64>)
    ensures
        r == whole_number(s@),
{
    let run = count_digits(s);
    proof {
        lemma_full_run(s@);
    }
    if s.len() == 0 || run != s.len() {
        return None;
    }
    let v = capped_value(s, u64::MAX as u128 + 1);
    if v > u64::MAX as u128 {
        None
    } else {
        Some(v as u64)
    }
}

/// Decides what `evaluate` hands out, from the parts held at one above the
/// limit and from whether they are exact.
fn settle(acc: u128, exact: bool, negative: bool, limit: u64) -> (r: Option<u64>)
    requires
        acc <= limit + 1,
    ensures
        r == if negative && !(acc == 0 && exact) {
            None::<u64>
        } else if acc < limit || (acc == limit && exact) {
            Some(acc as u64)
        } else {
            None::<u64>
        },
{
    if negative && !(acc == 0 && exact) {
        None
    } else if acc < limit as u128 || (acc == limit as u128 && exact) {
        Some(acc as u64)
    } else {
        None
    }
}

/// The outcome for a numeral whose pieces have been read: its digits, the
/// length of its fraction, and its power of ten as a sign and a size held at the
/// ceiling.
fn evaluate(
    digits: &[char],
    fraction_len: usize,
    minus: bool,
    size: u128,
    negative: bool,
    shift: u8,
    limit: u64,
    Ghost(n): Ghost<Numeral>,
) -> (r: Option<u64>)
    requires
        n.digits() == digits@,
        all_digits(digits@),
        n.fraction.len() == fraction_len,
        fraction_len <= digits.len(),
        n.negative == negative,
        size == least(
            if n.exponent < 0 {
                -n.exponent
            } else {
                n.exponent
            },
            EXPONENT_CEILING as int,
        ),
        minus ==> n.exponent <= 0,
        !minus ==> n.exponent >= 0,
    ensures
        match n.within(shift as nat, limit as nat) {
            Some(p) => r == Some(p as u64) && p <= limit,
            None => r is None,
        },
{
    let len = digits.len();
    let cap: u128 = limit as u128 + 1;
    let k: i128 = if minus {
        -(size as i128) - fraction_len as i128 + shift as i128
    } else {
        size as i128 - fraction_len as i128 + shift as i128
    };
    let ghost total = digits_value(digits@);
    let ghost places = n.places(shift as nat);
    proof {
        lemma_digits_bound(digits@);
        assert(size < EXPONENT_CEILING ==> k == places);
        assert(size == EXPONENT_CEILING && !minus ==> k >= 20 && places >= 20);
        assert(size == EXPONENT_CEILING && minus ==> k < 0 && -k >= len && places < 0 && -places
            >= len);
    }
    if k >= 0 {
        let head = capped_value(digits, cap);
        if head == 0 {
            proof {
                assert(0 * pow(10, places as nat) == 0) by (nonlinear_arith);
            }
            return settle(0, true, negative, limit);
        }
        if k >= 20 {
            proof {
                lemma_pow10_large(places as nat);
                let p = pow(10, places as nat);
                assert(total * p >= p) by (nonlinear_arith)
                    requires
                        total >= 1,
                        p > 0,
                ;
            }
            return None;
        }
        let mut acc: u128 = head;
        let mut j: i128 = 0;
        proof {
            reveal(pow);
            assert(pow(10, 0) == 1);
            assert(total * 1 == total);
        }
        while j < k
            invariant
                0 <= j <= k < 20,
                cap == limit + 1,
                acc == least(total * pow(10, j as nat), cap as int),
            decreases k - j,
        {
            proof {
                reveal(pow);
                let p = pow(10, j as nat);
                lemma_pow_positive(10, j as nat);
                assert(pow(10, (j + 1) as nat) == 10 * p);
                assert(total * (10 * p) == (total * p) * 10) by (nonlinear_arith);
            }
            let next = acc * 10;
            acc = if next > cap {
                cap
            } else {
                next
            };
            j += 1;
        }
        settle(acc, true, negative, limit)
    } else {
        let ghost m = (-places) as nat;
        proof {
            lemma_pow_positive(10, m);
        }
        if -k >= len as i128 {
            let zero = capped_value(digits, 1) == 0;
            proof {
                lemma_pow_increases(10, len as nat, m);
                lemma_basic_div(total as int, pow(10, m));
                lemma_small_mod(total, pow(10, m) as nat);
            }
            settle(0, zero, negative, limit)
        } else {
            let cut: usize = (len as i128 + k) as usize;
            let head_digits = slice_subrange(digits, 0, cut);
            let tail_digits = slice_subrange(digits, cut, len);
            proof {
                assert(head_digits@ == digits@.take(cut as int));
                assert(tail_digits@ == digits@.skip(cut as int));
                lemma_head_and_tail(digits@, cut as int);
                assert forall|i: int| 0 <= i < head_digits@.len() implies is_digit(
                    #[trigger] head_digits@[i],
                ) by {
                    assert(head_digits@[i] == digits@[i]);
                }
                assert forall|i: int| 0 <= i < tail_digits@.len() implies is_digit(
                    #[trigger] tail_digits@[i],
                ) by {
                    assert(tail_digits@[i] == digits@[i + cut]);
                }
            }
            let head = capped_value(head_digits, cap);
            let exact = capped_value(tail_digits, 1) == 0;
            settle(head, exact, negative, limit)
        }
    }
}

/// Reads `s` as a decimal numeral and hands out its value in `10^-shift` parts,
/// rounded down, if the value lies between zero and `limit` parts. It fails on
/// text that is no numeral from end to end and on a value outside that range.
pub fn parse_fixed(s: &[char], shift: u8, limit: u64) -> (r: Option<u64>)
    ensures
        match fixed_point(s@, shift as nat, limit as nat) {
            Some(p) => r == Some(p as u64) && p <= limit,
            None => r is None,
        },
{
    let (skip, negative) = read_sign(s);
    let body = slice_subrange(s, skip, s.len());
    assert(body@ == s@.skip(skip as int));
    let w = count_digits(body);
    if w == 0 {
        return None;
    }
    let whole = slice_subrange(body, 0, w);
    let after_whole = slice_subrange(body, w, body.len());
    assert(whole@ == body@.take(w as int));
    assert(after_whole@ == body@.skip(w as int));
    let pointed = after_whole.len() > 0 && after_whole[0] == '.';
    let mut f: usize = 0;
    if pointed {
        let after_point = slice_subrange(after_whole, 1, after_whole.len());
        assert(after_point@ == after_whole@.skip(1));
        f = count_digits(after_point);
        if f == 0 {
            return None;
        }
    }
    let fraction = if pointed {
        slice_subrange(after_whole, 1, 1 + f)
    } else {
        slice_subrange(after_whole, 0, 0)
    };
    let tail = if pointed {
        slice_subrange(after_whole, 1 + f, after_whole.len())
    } else {
        after_whole
    };
    assert(pointed ==> tail@ == after_whole@.skip(1 + f));
    let (minus, size) = match read_exponent(tail) {
        None => {
            return None;
        },
        Some(x) => x,
    };
    let digits = joined(whole, fraction);
    let ghost n = numeral_of(s@).unwrap();
    proof {
        assert(fraction@ == n.fraction);
        assert(whole@ == n.whole);
        lemma_digit_run(body@);
        if pointed {
            lemma_digit_run(after_whole@.skip(1));
            assert(after_whole@.skip(1).take(f as int) == fraction@);
        }
        assert forall|i: int| 0 <= i < digits@.len() implies is_digit(#[trigger] digits@[i]) by {
            if i < whole@.len() {
                assert(digits@[i] == whole@[i]);
            } else {
                assert(digits@[i] == fraction@[i - whole@.len()]);
            }
        }
    }
    evaluate(digits.as_slice(), f, minus, size, negative, shift, limit, Ghost(n))
}

} // verus!
