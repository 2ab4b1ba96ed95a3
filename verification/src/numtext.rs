//! Decimal text of integers, as Rust's `{}` and `{:0w}` formats write them.

use vstd::prelude::*;

verus! {

/// The ASCII digit for `d` (0..=9).
pub open spec fn digit_char(d: int) -> char {
    (48 + d) as char
}

/// Decimal digits of `n`, without leading zeros.
pub open spec fn dec_seq(n: nat) -> Seq<char>
    decreases n,
{
    if n < 10 {
        seq![digit_char(n as int)]
    } else {
        dec_seq(n / 10) + seq![digit_char((n % 10) as int)]
    }
}

/// Decimal text of a signed integer.
pub open spec fn int_text(n: int) -> Seq<char> {
    if n < 0 {
        seq!['-'] + dec_seq((-n) as nat)
    } else {
        dec_seq(n as nat)
    }
}

/// `k` zero characters (none when `k` is not positive).
pub open spec fn zeros(k: int) -> Seq<char> {
    Seq::new(if k > 0 { k as nat } else { 0 }, |i: int| '0')
}

/// Text of `n` padded with zeros after the sign to at least `width` characters.
pub open spec fn zero_padded(n: int, width: int) -> Seq<char> {
    if n < 0 {
        let d = dec_seq((-n) as nat);
        seq!['-'] + zeros(width - 1 - d.len()) + d
    } else {
        let d = dec_seq(n as nat);
        zeros(width - d.len()) + d
    }
}

/// Decimal digits of `n`.
pub fn u64_text(n: u64) -> (res: Vec<char>)
    ensures
        res@ == dec_seq(n as nat),
    decreases n,
{
    let d = ((n % 10) as u8 + 48u8) as char;
    if n < 10 {
        let mut v: Vec<char> = Vec::new();
        v.push(d);
        assert(v@ =~= seq![digit_char(n as int)]);
        v
    } else {
        let mut v = u64_text(n / 10);
        v.push(d);
        v
    }
}

/// Magnitude of a signed integer.
pub fn magnitude(n: i64) -> (res: u64)
    ensures
        res as int == if n < 0 { -n } else { n as int },
{
    if n < 0 {
        ((-(n + 1)) as u64) + 1
    } else {
        n as u64
    }
}

/// Decimal text of a signed integer.
pub fn i64_text(n: i64) -> (res: Vec<char>)
    ensures
        res@ == int_text(n as int),
{
    let digits = u64_text(magnitude(n));
    if n < 0 {
        let mut v: Vec<char> = Vec::new();
        v.push('-');
        crate::text::push_all(&mut v, &digits);
        assert(v@ =~= seq!['-'] + dec_seq((-n) as nat));
        v
    } else {
        digits
    }
}

/// Text of `n` padded with zeros after the sign to at least `width` characters.
pub fn i64_zero_padded(n: i64, width: usize) -> (res: Vec<char>)
    ensures
        res@ == zero_padded(n as int, width as int),
{
    let digits = u64_text(magnitude(n));
    let mut v: Vec<char> = Vec::new();
    let room: usize = if n < 0 {
        if width > 0 { width - 1 } else { 0 }
    } else {
        width
    };
    if n < 0 {
        v.push('-');
    }
    let ghost head = v@;
    let pad: usize = if room > digits.len() { room - digits.len() } else { 0 };
    let mut k: usize = 0;
    while k < pad
        invariant
            k <= pad,
            v@ == head + Seq::new(k as nat, |i: int| '0'),
        decreases pad - k,
    {
        v.push('0');
        k = k + 1;
        assert(v@ =~= head + Seq::new(k as nat, |i: int| '0'));
    }
    crate::text::push_all(&mut v, &digits);
    if n < 0 {
        assert(v@ =~= zero_padded(n as int, width as int));
    } else {
        assert(v@ =~= zero_padded(n as int, width as int));
    }
    v
}

/// The number a string of decimal digits stands for.
pub open spec fn dec_value(s: Seq<char>) -> int
    decreases s.len(),
{
    if s.len() == 0 {
        0
    } else {
        dec_value(s.drop_last()) * 10 + (s.last() as int - 48)
    }
}

/// Reading back the digits of `n` gives `n`.
pub proof fn lemma_dec_value(n: nat)
    ensures
        dec_value(dec_seq(n)) == n,
    decreases n,
{
    let d = (n % 10) as int;
    assert(digit_char(d) as int == 48 + d);
    if n >= 10 {
        lemma_dec_value(n / 10);
        let s = dec_seq(n);
        assert(s.drop_last() =~= dec_seq(n / 10));
        assert(s.last() == digit_char(d));
        assert(dec_value(s) == dec_value(dec_seq(n / 10)) * 10 + d);
        assert((n / 10) * 10 + d == n);
    } else {
        let s = dec_seq(n);
        assert(s.drop_last() =~= Seq::<char>::empty());
        assert(s.last() == digit_char(d));
        assert(dec_value(s) == dec_value(s.drop_last()) * 10 + d);
    }
}

/// Leading zeros do not change the number digits stand for.
pub proof fn lemma_dec_value_zeros(k: int, s: Seq<char>)
    ensures
        dec_value(zeros(k) + s) == dec_value(s),
    decreases s.len(), (if k > 0 { k } else { 0 }),
{
    if s.len() == 0 {
        assert(zeros(k) + s =~= zeros(k));
        if k > 0 {
            assert(zeros(k).drop_last() =~= zeros(k - 1));
            lemma_dec_value_zeros(k - 1, s);
            assert(zeros(k - 1) + s =~= zeros(k - 1));
        }
    } else {
        lemma_dec_value_zeros(k, s.drop_last());
        assert((zeros(k) + s).drop_last() =~= zeros(k) + s.drop_last());
    }
}

/// Zero-padded texts of different non-negative numbers differ.
pub proof fn lemma_zero_padded_injective(a: int, b: int, width: int)
    requires
        0 <= a,
        0 <= b,
        a != b,
    ensures
        zero_padded(a, width) != zero_padded(b, width),
{
    lemma_dec_value(a as nat);
    lemma_dec_value(b as nat);
    lemma_dec_value_zeros(width - dec_seq(a as nat).len(), dec_seq(a as nat));
    lemma_dec_value_zeros(width - dec_seq(b as nat).len(), dec_seq(b as nat));
}

} // verus!
