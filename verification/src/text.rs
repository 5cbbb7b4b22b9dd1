//! Decimal numbers as text.

use vstd::prelude::*;

verus! {

/// The character of decimal digit `d`.
pub open spec fn spec_digit_char(d: nat) -> char {
    if d == 0 { '0' } else if d == 1 { '1' } else if d == 2 { '2' } else if d == 3 { '3' }
    else if d == 4 { '4' } else if d == 5 { '5' } else if d == 6 { '6' } else if d == 7 { '7' }
    else if d == 8 { '8' } else { '9' }
}

/// The decimal notation of `n`, without leading zeros.
pub open spec fn spec_decimal(n: nat) -> Seq<char>
    decreases n,
{
    if n < 10 {
        seq![spec_digit_char(n)]
    } else {
        spec_decimal(n / 10).push(spec_digit_char(n % 10))
    }
}

/// The decimal notation of `n`, padded with leading zeros to `width`
/// characters.
pub open spec fn spec_decimal_padded(n: nat, width: nat) -> Seq<char> {
    let d = spec_decimal(n);
    if d.len() < width {
        Seq::new((width - d.len()) as nat, |i: int| '0') + d
    } else {
        d
    }
}

fn digit_char(d: u64) -> (c: char)
    requires
        d < 10,
    ensures
        c == spec_digit_char(d as nat),
{
    if d == 0 { '0' } else if d == 1 { '1' } else if d == 2 { '2' } else if d == 3 { '3' }
    else if d == 4 { '4' } else if d == 5 { '5' } else if d == 6 { '6' } else if d == 7 { '7' }
    else if d == 8 { '8' } else { '9' }
}

/// Appends the decimal notation of `n` to `out`.
pub fn push_decimal(n: u64, out: &mut Vec<char>)
    ensures
        final(out)@ == old(out)@ + spec_decimal(n as nat),
    decreases n,
{
    if n >= 10 {
        push_decimal(n / 10, out);
    }
    let c = digit_char(n % 10);
    out.push(c);
    proof {
        if n >= 10 {
            assert(final(out)@ =~= old(out)@ + spec_decimal(n as nat));
        } else {
            assert(final(out)@ =~= old(out)@ + spec_decimal(n as nat));
        }
    }
}

/// The decimal notation of `n`, padded with leading zeros to `width`
/// characters.
pub fn decimal_padded(n: u64, width: usize) -> (r: Vec<char>)
    ensures
        r@ == spec_decimal_padded(n as nat, width as nat),
{
    let mut digits: Vec<char> = Vec::new();
    push_decimal(n, &mut digits);
    assert(digits@ =~= spec_decimal(n as nat));
    if digits.len() < width {
        let pad = width - digits.len();
        let mut r: Vec<char> = Vec::new();
        let mut i: usize = 0;
        while i < pad
            invariant
                i <= pad,
                r@ == Seq::new(i as nat, |k: int| '0'),
            decreases pad - i,
        {
            r.push('0');
            i = i + 1;
            assert(r@ =~= Seq::new(i as nat, |k: int| '0'));
        }
        let mut j: usize = 0;
        while j < digits.len()
            invariant
                j <= digits.len(),
                r@ == Seq::new(pad as nat, |k: int| '0') + digits@.subrange(0, j as int),
            decreases digits.len() - j,
        {
            r.push(digits[j]);
            j = j + 1;
            assert(r@ =~= Seq::new(pad as nat, |k: int| '0') + digits@.subrange(0, j as int));
        }
        assert(digits@.subrange(0, digits.len() as int) =~= digits@);
        r
    } else {
        digits
    }
}

/// Collects characters into a `String` with std's `FromIterator` impl; the
/// string holds exactly these characters, in order.
#[verifier::external_body]
pub fn string_from_chars(chars: &Vec<char>) -> (s: String)
    ensures
        s@ == chars@,
{
    chars.iter().collect()
}

} // verus!
