//! Number-to-text rendering shared by the `to_string` methods of the library:
//! unsigned integers in base 10 or 16 (upper-case digits), left-padded with
//! zeros to a minimum width, as `format!("{:0w$}")` and `format!("{:0w$X}")` do.

use vstd::prelude::*;

verus! {

/// The character that stands for digit `d` (`0`..`9`, then `A`..`F`).
pub open spec fn digit_char(d: nat) -> char {
    if d == 0 { '0' }
    else if d == 1 { '1' }
    else if d == 2 { '2' }
    else if d == 3 { '3' }
    else if d == 4 { '4' }
    else if d == 5 { '5' }
    else if d == 6 { '6' }
    else if d == 7 { '7' }
    else if d == 8 { '8' }
    else if d == 9 { '9' }
    else if d == 10 { 'A' }
    else if d == 11 { 'B' }
    else if d == 12 { 'C' }
    else if d == 13 { 'D' }
    else if d == 14 { 'E' }
    else { 'F' }
}

/// The digits of `n` written in `base`, most significant first, without
/// leading zeros (zero itself is the single digit `0`).
pub open spec fn digits(n: nat, base: nat) -> Seq<char>
    recommends
        2 <= base,
    decreases n,
{
    if base < 2 || n < base {
        seq![digit_char(n)]
    } else {
        proof {
            assert(n / base < n) by (nonlinear_arith)
                requires
                    base >= 2,
                    n >= base,
            ;
        }
        digits(n / base, base).push(digit_char(n % base))
    }
}

/// `count` copies of the character `0`.
pub open spec fn zeros(count: nat) -> Seq<char> {
    Seq::new(count, |i: int| '0')
}

/// The digits of `n` in `base`, left-padded with zeros to at least `width` characters.
pub open spec fn padded(n: nat, base: nat, width: nat) -> Seq<char> {
    let d = digits(n, base);
    if d.len() < width {
        zeros((width - d.len()) as nat) + d
    } else {
        d
    }
}

/// Appends one character to a string.
#[verifier::external_body]
pub(crate) fn push_char(s: &mut String, c: char)
    ensures
        final(s)@ == old(s)@.push(c),
{
    s.push(c);
}

fn digit_of(d: u64) -> (c: char)
    requires
        d < 16,
    ensures
        c == digit_char(d as nat),
{
    match d {
        0 => '0',
        1 => '1',
        2 => '2',
        3 => '3',
        4 => '4',
        5 => '5',
        6 => '6',
        7 => '7',
        8 => '8',
        9 => '9',
        10 => 'A',
        11 => 'B',
        12 => 'C',
        13 => 'D',
        14 => 'E',
        _ => 'F',
    }
}

/// The digits of `n` in `base` (2 to 16), most significant first.
pub fn digits_of(n: u64, base: u64) -> (r: Vec<char>)
    requires
        2 <= base <= 16,
    ensures
        r@ == digits(n as nat, base as nat),
{
    let mut m = n;
    let mut tail: Vec<char> = Vec::new();
    while m >= base
        invariant
            2 <= base <= 16,
            digits(n as nat, base as nat) == digits(m as nat, base as nat) + tail@,
        decreases m,
    {
        let d = m % base;
        let c = digit_of(d);
        proof {
            assert(digits(m as nat, base as nat) == digits((m / base) as nat, base as nat).push(
                digit_char(d as nat),
            ));
            assert(digits((m / base) as nat, base as nat).push(digit_char(d as nat)) + tail@
                =~= digits((m / base) as nat, base as nat) + seq![c].add(tail@));
        }
        tail.insert(0, c);
        m = m / base;
    }
    let c = digit_of(m);
    let ghost lower = tail@;
    tail.insert(0, c);
    proof {
        assert(digits(m as nat, base as nat) == seq![c]);
        assert(tail@ =~= seq![c] + lower);
    }
    tail
}

/// Appends the digits of `n` in `base`, left-padded with zeros to `width`.
pub fn push_padded(s: &mut String, n: u64, base: u64, width: usize)
    requires
        2 <= base <= 16,
    ensures
        final(s)@ == old(s)@ + padded(n as nat, base as nat, width as nat),
{
    let d = digits_of(n, base);
    let ghost start = s@;
    let mut i: usize = 0;
    if d.len() < width {
        let fill = width - d.len();
        while i < fill
            invariant
                i <= fill,
                s@ == start + zeros(i as nat),
            decreases fill - i,
        {
            push_char(s, '0');
            proof {
                assert(zeros(i as nat).push('0') =~= zeros((i + 1) as nat));
            }
            i = i + 1;
        }
    }
    let ghost mid = s@;
    let mut j: usize = 0;
    while j < d.len()
        invariant
            j <= d@.len(),
            s@ == mid + d@.take(j as int),
        decreases d@.len() - j,
    {
        push_char(s, d[j]);
        proof {
            assert(d@.take(j as int).push(d@[j as int]) =~= d@.take((j + 1) as int));
        }
        j = j + 1;
    }
    proof {
        assert(d@.take(d@.len() as int) =~= d@);
        if d@.len() < width {
            assert(s@ =~= start + (zeros((width - d@.len()) as nat) + d@));
        } else {
            assert(s@ =~= start + d@);
        }
    }
}

/// The value a numeral character stands for: `0`..`9` are 0 to 9 and the
/// upper-case letters `A`..`F` are 10 to 15; any other character stands for
/// no digit (-1).
pub open spec fn char_value(c: char) -> int {
    if '0' <= c && c <= '9' {
        c as int - '0' as int
    } else if 'A' <= c && c <= 'F' {
        c as int - 'A' as int + 10
    } else {
        -1
    }
}

/// The number a numeral written in `base` reads as, most significant digit first.
pub open spec fn numeral_value(s: Seq<char>, base: nat) -> int
    decreases s.len(),
{
    if s.len() == 0 {
        0
    } else {
        numeral_value(s.drop_last(), base) * base + char_value(s.last())
    }
}

/// Whether every character of `s` is a digit of `base`.
pub open spec fn all_digits(s: Seq<char>, base: nat) -> bool {
    forall|i: int| 0 <= i < s.len() ==> 0 <= #[trigger] char_value(s[i]) < base
}

/// `base` to the power `k`.
pub open spec fn power(base: nat, k: nat) -> nat
    decreases k,
{
    if k == 0 {
        1
    } else {
        base * power(base, (k - 1) as nat)
    }
}

/// Each digit character reads back as the digit it was written for.
pub proof fn lemma_digit_char_value(d: nat)
    requires
        d < 16,
    ensures
        char_value(digit_char(d)) == d,
{
}

/// The digits of `n` in `base` are digits of `base` and read back as `n`; there
/// are at most `k` of them when `n < base^k`.
pub proof fn lemma_digits_read_back(n: nat, base: nat)
    requires
        2 <= base <= 16,
    ensures
        numeral_value(digits(n, base), base) == n,
        all_digits(digits(n, base), base),
        digits(n, base).len() >= 1,
    decreases n,
{
    let d = digits(n, base);
    if n < base {
        lemma_digit_char_value(n);
        assert(d == seq![digit_char(n)]);
        assert(d.drop_last() =~= Seq::<char>::empty());
        assert(numeral_value(Seq::<char>::empty(), base) == 0);
    } else {
        assert(n / base < n) by (nonlinear_arith)
            requires
                base >= 2,
                n >= base,
        ;
        lemma_digits_read_back(n / base, base);
        let hi = digits(n / base, base);
        assert(n % base < base);
        lemma_digit_char_value(n % base);
        assert(d == hi.push(digit_char(n % base)));
        assert(d.drop_last() =~= hi);
        assert(n == (n / base) * base + n % base) by (nonlinear_arith)
            requires
                base >= 2,
        ;
        assert forall|i: int| 0 <= i < d.len() implies 0 <= #[trigger] char_value(d[i]) < base by {
            if i < hi.len() {
                assert(d[i] == hi[i]);
            }
        }
    }
}

/// A number below `base^k` has at most `k` digits in `base`.
pub proof fn lemma_digits_len(n: nat, base: nat, k: nat)
    requires
        2 <= base,
        k >= 1,
        n < power(base, k),
    ensures
        digits(n, base).len() <= k,
    decreases n,
{
    if n >= base {
        let k1 = (k - 1) as nat;
        if k == 1 {
            assert(power(base, 0) == 1);
            assert(power(base, 1) == base * power(base, 0));
            let p1 = power(base, 1);
            let p0 = power(base, 0);
            assert(p1 == base) by (nonlinear_arith)
                requires
                    p0 == 1,
                    p1 == base * p0,
            ;
        }
        assert(k1 >= 1);
        assert(power(base, k) == base * power(base, k1));
        assert(n / base < power(base, k1)) by (nonlinear_arith)
            requires
                n < base * power(base, k1),
                base >= 2,
        ;
        assert(n / base < n) by (nonlinear_arith)
            requires
                base >= 2,
                n >= base,
        ;
        lemma_digits_len(n / base, base, k1);
    }
}

/// Zeros in front of a numeral do not change what it reads as.
pub proof fn lemma_leading_zeros(z: nat, d: Seq<char>, base: nat)
    ensures
        numeral_value(zeros(z) + d, base) == numeral_value(d, base),
    decreases d.len(),
{
    if d.len() == 0 {
        lemma_zeros_value(z, base);
        assert(zeros(z) + d =~= zeros(z));
    } else {
        assert((zeros(z) + d).drop_last() =~= zeros(z) + d.drop_last());
        lemma_leading_zeros(z, d.drop_last(), base);
    }
}

proof fn lemma_zeros_value(z: nat, base: nat)
    ensures
        numeral_value(zeros(z), base) == 0,
    decreases z,
{
    if z > 0 {
        assert(zeros(z).drop_last() =~= zeros((z - 1) as nat));
        lemma_zeros_value((z - 1) as nat, base);
    }
}

/// A zero-padded numeral of a number below `base^width` is exactly `width`
/// digits of `base` long and reads back as the number.
pub proof fn lemma_padded_read_back(n: nat, base: nat, width: nat)
    requires
        2 <= base <= 16,
        width >= 1,
        n < power(base, width),
    ensures
        padded(n, base, width).len() == width,
        numeral_value(padded(n, base, width), base) == n,
        all_digits(padded(n, base, width), base),
{
    lemma_digits_read_back(n, base);
    lemma_digits_len(n, base, width);
    let d = digits(n, base);
    if d.len() < width {
        let z = (width - d.len()) as nat;
        lemma_leading_zeros(z, d, base);
        let p = zeros(z) + d;
        assert forall|i: int| 0 <= i < p.len() implies 0 <= #[trigger] char_value(p[i]) < base by {
            if i >= z {
                assert(p[i] == d[i - z]);
            }
        }
    }
}

} // verus!
