//! Decimal rendering and parsing of unsigned 64-bit integers, as used on
//! the wire for sequence numbers, identifiers and JSON integers.

use vstd::prelude::*;

verus! {

/// Whether a character is a decimal digit.
pub open spec fn is_digit(c: char) -> bool {
    '0' <= c && c <= '9'
}

/// The numeric value of a decimal digit character.
pub open spec fn digit_val(c: char) -> int {
    c as int - '0' as int
}

/// The digit character for a value below ten.
pub open spec fn spec_digit_char(d: int) -> char {
    (('0' as u8) + d as u8) as char
}

/// The decimal rendering of an unsigned integer, most significant digit
/// first, with no leading zeros (zero itself renders as a single digit).
pub open spec fn spec_dec(n: u64) -> Seq<char>
    decreases n,
{
    if n < 10 {
        seq![spec_digit_char(n as int)]
    } else {
        spec_dec(n / 10) + seq![spec_digit_char((n % 10) as int)]
    }
}

/// Whether every character of a sequence is a decimal digit.
pub open spec fn all_digits(s: Seq<char>) -> bool {
    forall|i: int| 0 <= i < s.len() ==> is_digit(#[trigger] s[i])
}

/// The integer value of a sequence of decimal digits (most significant
/// first), as an unbounded integer.
pub open spec fn spec_digits_val(s: Seq<char>) -> int
    decreases s.len(),
{
    if s.len() == 0 {
        0
    } else {
        spec_digits_val(s.drop_last()) * 10 + digit_val(s.last())
    }
}

/// The decimal rendering of `n` consists of digits, is non-empty, starts
/// with a non-zero digit unless `n` is zero, and evaluates back to `n`.
pub proof fn lemma_dec_props(n: u64)
    ensures
        all_digits(spec_dec(n)),
        spec_dec(n).len() >= 1,
        spec_digits_val(spec_dec(n)) == n,
        n >= 1 ==> spec_dec(n)[0] != '0',
        n < 10 ==> spec_dec(n).len() == 1,
    decreases n,
{
    if n < 10 {
        assert(spec_dec(n) == seq![spec_digit_char(n as int)]);
        assert(spec_dec(n).drop_last() == Seq::<char>::empty());
        assert(spec_digits_val(Seq::<char>::empty()) == 0);
        assert(spec_digits_val(spec_dec(n)) == digit_val(spec_digit_char(n as int)));
    } else {
        lemma_dec_props(n / 10);
        let prefix = spec_dec(n / 10);
        let whole = spec_dec(n);
        assert(whole == prefix + seq![spec_digit_char((n % 10) as int)]);
        assert(whole.drop_last() == prefix);
        assert(whole.last() == spec_digit_char((n % 10) as int));
        assert(spec_digits_val(whole) == spec_digits_val(prefix) * 10 + digit_val(
            spec_digit_char((n % 10) as int),
        ));
        assert(whole[0] == prefix[0]);
    }
}

/// The digit character for a value below ten, in executable form.
pub fn digit_char(d: u64) -> (r: char)
    requires
        d < 10,
    ensures
        r == spec_digit_char(d as int),
        is_digit(r),
{
    (48u8 + d as u8) as char
}

/// Renders an unsigned integer in decimal, most significant digit first.
pub fn u64_to_decimal(n: u64) -> (r: Vec<char>)
    ensures
        r@ == spec_dec(n),
    decreases n,
{
    if n < 10 {
        let mut v: Vec<char> = Vec::new();
        v.push(digit_char(n));
        v
    } else {
        let mut v = u64_to_decimal(n / 10);
        v.push(digit_char(n % 10));
        v
    }
}

/// The value of a digit sequence grows with its length; in particular a
/// sequence longer than twenty digits, or of twenty digits with a large
/// leading digit, exceeds `u64::MAX`. Stated here in the form the parser
/// needs: appending a digit multiplies by ten and adds the digit.
pub proof fn lemma_digits_val_snoc(s: Seq<char>, c: char)
    ensures
        spec_digits_val(s + seq![c]) == spec_digits_val(s) * 10 + digit_val(c),
{
    assert((s + seq![c]).drop_last() == s);
    assert((s + seq![c]).last() == c);
}

/// Parses a sequence of decimal digit characters into an unsigned 64-bit
/// integer; fails exactly when the (non-empty, all-digit) sequence's value
/// does not fit.
pub fn parse_digits(v: &Vec<char>, from: usize, to: usize) -> (r: Option<u64>)
    requires
        from <= to <= v@.len(),
        all_digits(v@.subrange(from as int, to as int)),
        to > from,
    ensures
        match r {
            Some(n) => n == spec_digits_val(v@.subrange(from as int, to as int)),
            None => spec_digits_val(v@.subrange(from as int, to as int)) > u64::MAX,
        },
{
    let mut acc: u64 = 0;
    let mut i: usize = from;
    proof {
        assert(v@.subrange(from as int, from as int) == Seq::<char>::empty());
    }
    while i < to
        invariant
            from <= i <= to <= v@.len(),
            all_digits(v@.subrange(from as int, to as int)),
            acc == spec_digits_val(v@.subrange(from as int, i as int)),
        decreases to - i,
    {
        let c = v[i];
        proof {
            assert(v@.subrange(from as int, to as int)[i - from] == c);
            assert(is_digit(c));
        }
        let d: u64 = (c as u32 as u64) - 48;
        proof {
            assert(v@.subrange(from as int, i + 1) == v@.subrange(from as int, i as int)
                + seq![c]);
            lemma_digits_val_snoc(v@.subrange(from as int, i as int), c);
        }
        if acc > (u64::MAX - d) / 10 {
            proof {
                let grown = v@.subrange(from as int, i + 1);
                assert(spec_digits_val(grown) == acc * 10 + d);
                assert(spec_digits_val(grown) > u64::MAX);
                lemma_digits_prefix_grows(v@, from as int, i + 1, to as int);
            }
            return None;
        }
        acc = acc * 10 + d;
        i = i + 1;
    }
    proof {
        assert(v@.subrange(from as int, to as int) == v@.subrange(from as int, i as int));
    }
    Some(acc)
}

/// If a digit prefix of a digit sequence already exceeds `u64::MAX`, so
/// does the whole sequence.
pub proof fn lemma_digits_prefix_grows(s: Seq<char>, from: int, mid: int, to: int)
    requires
        0 <= from <= mid <= to <= s.len(),
        all_digits(s.subrange(from, to)),
        spec_digits_val(s.subrange(from, mid)) > u64::MAX,
    ensures
        spec_digits_val(s.subrange(from, to)) > u64::MAX,
    decreases to - mid,
{
    if mid < to {
        let shorter = s.subrange(from, to - 1);
        let full = s.subrange(from, to);
        assert(full.drop_last() == shorter);
        assert(is_digit(full[to - 1 - from]));
        assert(all_digits(shorter)) by {
            assert(forall|i: int|
                0 <= i < shorter.len() ==> #[trigger] shorter[i] == full[i]);
        }
        lemma_digits_prefix_grows(s, from, mid, to - 1);
        assert(spec_digits_val(full) == spec_digits_val(shorter) * 10 + digit_val(
            full.last(),
        ));
        assert(digit_val(full.last()) >= 0);
        assert(spec_digits_val(shorter) * 10 >= spec_digits_val(shorter)) by (nonlinear_arith)
            requires
                spec_digits_val(shorter) > 0,
        ;
    } else {
        assert(s.subrange(from, mid) == s.subrange(from, to));
    }
}

/// The decimal rendering of a signed integer: a minus sign before the
/// magnitude when negative.
pub open spec fn spec_dec_i64(n: i64) -> Seq<char> {
    if n >= 0 {
        spec_dec(n as u64)
    } else {
        seq!['-'] + spec_dec((-(n as int)) as u64)
    }
}

/// Renders a signed integer in decimal.
pub fn i64_to_decimal(n: i64) -> (r: Vec<char>)
    ensures
        r@ == spec_dec_i64(n),
{
    if n >= 0 {
        u64_to_decimal(n as u64)
    } else {
        let magnitude: u64 = ((-(n + 1)) as u64) + 1;
        let mut v: Vec<char> = Vec::new();
        v.push('-');
        let mut d = u64_to_decimal(magnitude);
        v.append(&mut d);
        proof {
            assert(magnitude == (-(n as int)) as u64);
            assert(v@ =~= spec_dec_i64(n));
        }
        v
    }
}

/// Round trip: parsing the decimal rendering of any unsigned 64-bit
/// integer yields the integer back.
pub proof fn lemma_decimal_round_trip(n: u64)
    ensures
        spec_digits_val(spec_dec(n)) == n,
{
    lemma_dec_props(n);
}

} // verus!
