//! Decimal rendering of whole numbers, with leading zeros to a minimum width.

use vstd::prelude::*;

verus! {

/// The character for the decimal digit `d`.
pub open spec fn digit_char(d: nat) -> char {
    if d == 0 {
        '0'
    } else if d == 1 {
        '1'
    } else if d == 2 {
        '2'
    } else if d == 3 {
        '3'
    } else if d == 4 {
        '4'
    } else if d == 5 {
        '5'
    } else if d == 6 {
        '6'
    } else if d == 7 {
        '7'
    } else if d == 8 {
        '8'
    } else {
        '9'
    }
}

/// The decimal digits of `n`, most significant first, with no leading zero.
pub open spec fn decimal(n: nat) -> Seq<char>
    decreases n,
{
    if n < 10 {
        seq![digit_char(n)]
    } else {
        decimal(n / 10).push(digit_char(n % 10))
    }
}

/// The decimal digits of `n`, preceded by as many zeros as it takes to make
/// at least `width` characters.
pub open spec fn zero_padded(n: nat, width: nat) -> Seq<char> {
    let digits = decimal(n);
    let zeros = if width > digits.len() {
        (width - digits.len()) as nat
    } else {
        0
    };
    Seq::new(zeros, |i: int| '0') + digits
}

/// Ten to the power `k`.
pub open spec fn ten_pow(k: nat) -> nat
    decreases k,
{
    if k == 0 {
        1
    } else {
        10 * ten_pow((k - 1) as nat)
    }
}

/// A number below `10^k` has at most `k` digits.
proof fn lemma_decimal_len_below(n: nat, k: nat)
    requires
        1 <= k,
        n < ten_pow(k),
    ensures
        decimal(n).len() <= k,
    decreases n,
{
    if n >= 10 {
        assert(ten_pow(1) == 10) by {
            reveal_with_fuel(ten_pow, 2);
        }
        assert(k >= 2);
        assert(n / 10 < ten_pow((k - 1) as nat));
        lemma_decimal_len_below(n / 10, (k - 1) as nat);
    }
}

/// The single character for the digit `d`.
fn digit_str(d: u128) -> (r: &'static str)
    requires
        d < 10,
    ensures
        r@ == seq![digit_char(d as nat)],
{
    let digits = "0123456789";
    proof {
        reveal_strlit("0123456789");
    }
    let r = digits.substring_char(d as usize, d as usize + 1);
    assert(r@ =~= seq![digit_char(d as nat)]);
    r
}

/// Appends the decimal digits of `n` to `s`.
pub fn push_decimal(s: &mut String, n: u128)
    ensures
        final(s)@ == old(s)@ + decimal(n as nat),
    decreases n,
{
    if n >= 10 {
        push_decimal(s, n / 10);
    }
    let digit = digit_str(n % 10);
    s.append(digit);
    assert(s@ =~= old(s)@ + decimal(n as nat));
}

/// The number of decimal digits of `n`.
fn decimal_len(n: u128) -> (r: usize)
    ensures
        r == decimal(n as nat).len(),
        r <= 39,
    decreases n,
{
    if n < 10 {
        1
    } else {
        proof {
            assert(u128::MAX < ten_pow(39)) by {
                reveal_with_fuel(ten_pow, 40);
            }
            lemma_decimal_len_below(n as nat, 39);
        }
        decimal_len(n / 10) + 1
    }
}

/// Appends the decimal digits of `n` to `s`, preceded by as many zeros as it
/// takes to make at least `width` characters.
pub fn push_zero_padded(s: &mut String, n: u128, width: usize)
    ensures
        final(s)@ == old(s)@ + zero_padded(n as nat, width as nat),
{
    let len = decimal_len(n);
    let zeros: usize = if width > len {
        width - len
    } else {
        0
    };
    let zero = "0";
    proof {
        reveal_strlit("0");
    }
    let mut i: usize = 0;
    while i < zeros
        invariant
            i <= zeros,
            zero@ == seq!['0'],
            s@ == old(s)@ + Seq::new(i as nat, |k: int| '0'),
        decreases zeros - i,
    {
        s.append(zero);
        i = i + 1;
        assert(s@ =~= old(s)@ + Seq::new(i as nat, |k: int| '0'));
    }
    push_decimal(s, n);
    assert(s@ =~= old(s)@ + zero_padded(n as nat, width as nat));
}

/// `total_secs` as minutes and seconds, then a fraction of a second:
/// `mm:ss.f`, with minutes and seconds of at least two digits and the
/// fraction of at least `fraction_width`. Minutes do not roll over into
/// hours.
pub open spec fn clock_face(total_secs: nat, fraction: nat, fraction_width: nat) -> Seq<char> {
    zero_padded(total_secs / 60, 2) + seq![':'] + zero_padded(total_secs % 60, 2) + seq!['.']
        + zero_padded(fraction, fraction_width)
}

/// Renders `total_secs` and `fraction` as `clock_face` describes.
pub fn clock_face_string(total_secs: u128, fraction: u128, fraction_width: usize) -> (r: String)
    ensures
        r@ == clock_face(total_secs as nat, fraction as nat, fraction_width as nat),
{
    let colon = ":";
    let point = ".";
    proof {
        reveal_strlit(":");
        reveal_strlit(".");
    }
    let mut r = String::new();
    push_zero_padded(&mut r, total_secs / 60, 2);
    r.append(colon);
    push_zero_padded(&mut r, total_secs % 60, 2);
    r.append(point);
    push_zero_padded(&mut r, fraction, fraction_width);
    assert(r@ =~= clock_face(total_secs as nat, fraction as nat, fraction_width as nat));
    r
}

} // verus!
