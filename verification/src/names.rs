//! Sequential frame file names with zero-padded indices.
//!
//! Output frames are named from their enumeration position alone, so the
//! re-encoder, which consumes files by sequential name, reconstructs the
//! temporal order whatever order the frames were processed in.

use vstd::prelude::*;
use vstd::arithmetic::div_mod::lemma_div_decreases;
use vstd::arithmetic::div_mod::lemma_div_is_ordered;
use vstd::arithmetic::div_mod::lemma_fundamental_div_mod;
use vstd::arithmetic::div_mod::lemma_mod_bound;
use vstd::string::StringExecFns;
use crate::grid::push_char;

verus! {

/// The character of one decimal digit.
pub open spec fn digit_char(d: int) -> char {
    if d == 0 {
        '0'
    } else if d == 1 {
        '1'
    } else if d == 2 {
        '2'
    } else if d == 3 {
        '3'
    } else if d == 4 {
        '4'
    } else if d == 5 {
        '5'
    } else if d == 6 {
        '6'
    } else if d == 7 {
        '7'
    } else if d == 8 {
        '8'
    } else {
        '9'
    }
}

/// The decimal digits of a number, most significant first, no leading zeros.
pub open spec fn decimal_of(n: int) -> Seq<char>
    decreases n when n >= 0
{
    if n < 10 {
        seq![digit_char(n)]
    } else {
        proof {
            lemma_div_decreases(n, 10);
        }
        decimal_of(n / 10).push(digit_char(n % 10))
    }
}

/// The decimal digits left-padded with zeros to four characters; larger
/// numbers keep all their digits.
pub open spec fn padded_index(n: int) -> Seq<char> {
    if n < 10 {
        seq!['0', '0', '0'] + decimal_of(n)
    } else if n < 100 {
        seq!['0', '0'] + decimal_of(n)
    } else if n < 1000 {
        seq!['0'] + decimal_of(n)
    } else {
        decimal_of(n)
    }
}

/// The name under which the frame at one-based position `n` is written.
pub open spec fn output_frame_name_spec(n: int) -> Seq<char> {
    "ascii_frame"@ + padded_index(n) + ".png"@
}

/// The name under which the extraction stage writes the frame at one-based
/// position `n`.
pub open spec fn extracted_frame_name_spec(n: int) -> Seq<char> {
    "frame"@ + padded_index(n) + ".png"@
}

/// The character of one decimal digit.
pub fn digit_to_char(d: u64) -> (c: char)
    requires
        d < 10,
    ensures
        c == digit_char(d as int),
{
    if d == 0 {
        '0'
    } else if d == 1 {
        '1'
    } else if d == 2 {
        '2'
    } else if d == 3 {
        '3'
    } else if d == 4 {
        '4'
    } else if d == 5 {
        '5'
    } else if d == 6 {
        '6'
    } else if d == 7 {
        '7'
    } else if d == 8 {
        '8'
    } else {
        '9'
    }
}

/// Writes a number in decimal, most significant digit first.
pub fn decimal_string(n: u64) -> (s: String)
    ensures
        s@ == decimal_of(n as int),
    decreases n,
{
    if n < 10 {
        let mut s = String::new();
        push_char(&mut s, digit_to_char(n));
        proof {
            assert(s@ =~= decimal_of(n as int));
        }
        s
    } else {
        proof {
            lemma_div_decreases(n as int, 10);
        }
        let mut s = decimal_string(n / 10);
        push_char(&mut s, digit_to_char(n % 10));
        proof {
            assert(s@ =~= decimal_of(n as int));
        }
        s
    }
}

/// Writes a number in decimal, left-padded with zeros to four characters.
pub fn padded_index_string(n: u64) -> (s: String)
    ensures
        s@ == padded_index(n as int),
{
    let digits = decimal_string(n);
    let mut s = String::new();
    if n < 1000 {
        push_char(&mut s, '0');
    }
    if n < 100 {
        push_char(&mut s, '0');
    }
    if n < 10 {
        push_char(&mut s, '0');
    }
    s.append(digits.as_str());
    proof {
        assert(s@ =~= padded_index(n as int));
    }
    s
}

/// The file name of the output frame at one-based position `n`: a fixed
/// prefix, the zero-padded position, and the image suffix.
pub fn output_frame_name(n: u64) -> (s: String)
    ensures
        s@ == output_frame_name_spec(n as int),
{
    let mut s = String::from_str("ascii_frame");
    let middle = padded_index_string(n);
    s.append(middle.as_str());
    s.append(".png");
    s
}

/// The file name under which the extraction stage writes the frame at
/// one-based position `n`.
pub fn extracted_frame_name(n: u64) -> (s: String)
    ensures
        s@ == extracted_frame_name_spec(n as int),
{
    let mut s = String::from_str("frame");
    let middle = padded_index_string(n);
    s.append(middle.as_str());
    s.append(".png");
    s
}

/// For a number of at least ten, the quotient by ten is at least one and
/// strictly smaller.
proof fn lemma_div10(n: int)
    requires
        10 <= n,
    ensures
        1 <= n / 10 < n,
{
    lemma_div_is_ordered(10, n, 10);
    lemma_div_decreases(n, 10);
}

/// A number always writes at least one digit.
proof fn lemma_decimal_len_pos(n: int)
    requires
        0 <= n,
    ensures
        decimal_of(n).len() >= 1,
    decreases n,
{
    if n >= 10 {
        lemma_div10(n);
        lemma_decimal_len_pos(n / 10);
    }
}

/// A positive number never writes a leading zero.
proof fn lemma_decimal_no_leading_zero(n: int)
    requires
        1 <= n,
    ensures
        decimal_of(n)[0] != '0',
    decreases n,
{
    lemma_decimal_len_pos(n);
    if n >= 10 {
        lemma_div10(n);
        lemma_decimal_len_pos(n / 10);
        lemma_decimal_no_leading_zero(n / 10);
    }
}

/// Each digit character names exactly one digit.
proof fn lemma_digit_char_injective(a: int, b: int)
    requires
        0 <= a < 10,
        0 <= b < 10,
        digit_char(a) == digit_char(b),
    ensures
        a == b,
{
}

/// Two different numbers never write the same digits.
proof fn lemma_decimal_injective(m: int, n: int)
    requires
        0 <= m,
        0 <= n,
        decimal_of(m) == decimal_of(n),
    ensures
        m == n,
    decreases m,
{
    lemma_decimal_len_pos(m);
    lemma_decimal_len_pos(n);
    if m < 10 && n < 10 {
        assert(decimal_of(m) == seq![digit_char(m)]);
        assert(decimal_of(n) == seq![digit_char(n)]);
        assert(seq![digit_char(m)][0] == digit_char(m));
        assert(seq![digit_char(n)][0] == digit_char(n));
        assert(digit_char(m) == digit_char(n));
        lemma_digit_char_injective(m, n);
    } else if m < 10 && n >= 10 {
        lemma_div10(n);
        lemma_decimal_len_pos(n / 10);
        assert(decimal_of(n).len() >= 2);
    } else if m >= 10 && n < 10 {
        lemma_div10(m);
        lemma_decimal_len_pos(m / 10);
        assert(decimal_of(m).len() >= 2);
    } else {
        lemma_div10(m);
        lemma_div10(n);
        lemma_mod_bound(m, 10);
        lemma_mod_bound(n, 10);
        let dm = decimal_of(m / 10);
        let dn = decimal_of(n / 10);
        assert(decimal_of(m) == dm.push(digit_char(m % 10)));
        assert(decimal_of(n) == dn.push(digit_char(n % 10)));
        assert(dm.len() == dn.len());
        assert(digit_char(m % 10) == decimal_of(m)[decimal_of(m).len() - 1]);
        assert(digit_char(n % 10) == decimal_of(n)[decimal_of(n).len() - 1]);
        lemma_digit_char_injective(m % 10, n % 10);
        assert(dm =~= dn) by {
            assert(forall|i: int|
                0 <= i < dm.len() ==> dm[i] == decimal_of(m)[i] && dn[i] == decimal_of(n)[i]);
        }
        lemma_decimal_injective(m / 10, n / 10);
        lemma_fundamental_div_mod(m, 10);
        lemma_fundamental_div_mod(n, 10);
    }
}

/// How many zeros pad a number to four characters.
spec fn pad_zeros(n: int) -> int {
    if n < 10 {
        3
    } else if n < 100 {
        2
    } else if n < 1000 {
        1
    } else {
        0
    }
}

/// Two different numbers never share a padded index: the padding is all
/// zeros while a positive number's own digits never start with one.
proof fn lemma_padded_injective(m: int, n: int)
    requires
        0 <= m,
        0 <= n,
        padded_index(m) == padded_index(n),
    ensures
        m == n,
{
    lemma_decimal_len_pos(m);
    lemma_decimal_len_pos(n);
    assert(forall|i: int| 0 <= i < pad_zeros(m) ==> padded_index(m)[i] == '0');
    assert(forall|i: int| 0 <= i < pad_zeros(n) ==> padded_index(n)[i] == '0');
    assert(padded_index(m)[pad_zeros(m)] == decimal_of(m)[0]);
    assert(padded_index(n)[pad_zeros(n)] == decimal_of(n)[0]);
    assert(padded_index(m).len() == pad_zeros(m) + decimal_of(m).len());
    assert(padded_index(n).len() == pad_zeros(n) + decimal_of(n).len());
    if pad_zeros(m) == pad_zeros(n) {
        assert(decimal_of(m) =~= decimal_of(n)) by {
            assert(decimal_of(m).len() == decimal_of(n).len());
            assert(forall|i: int|
                0 <= i < decimal_of(m).len() ==> decimal_of(m)[i] == padded_index(m)[i
                    + pad_zeros(m)] && decimal_of(n)[i] == padded_index(n)[i + pad_zeros(n)]);
        }
        lemma_decimal_injective(m, n);
    } else if pad_zeros(m) > pad_zeros(n) {
        lemma_decimal_no_leading_zero(n);
        assert(padded_index(m)[pad_zeros(n)] == '0');
        assert(false);
    } else {
        lemma_decimal_no_leading_zero(m);
        assert(padded_index(n)[pad_zeros(m)] == '0');
        assert(false);
    }
}

/// Distinct positions get distinct output file names: a failed frame's name
/// is never taken over by a later frame.
pub proof fn lemma_output_names_injective(m: int, n: int)
    requires
        0 <= m,
        0 <= n,
        output_frame_name_spec(m) == output_frame_name_spec(n),
    ensures
        m == n,
{
    let prefix = "ascii_frame"@;
    assert(padded_index(m) =~= padded_index(n)) by {
        reveal_strlit("ascii_frame");
        reveal_strlit(".png");
        lemma_decimal_len_pos(m);
        lemma_decimal_len_pos(n);
        assert(output_frame_name_spec(m).len() == prefix.len() + padded_index(m).len()
            + ".png"@.len());
        assert(output_frame_name_spec(n).len() == prefix.len() + padded_index(n).len()
            + ".png"@.len());
        assert(padded_index(m).len() == padded_index(n).len());
        assert(forall|i: int|
            0 <= i < padded_index(m).len() ==> padded_index(m)[i] == output_frame_name_spec(m)[i
                + prefix.len()] && padded_index(n)[i] == output_frame_name_spec(n)[i
                + prefix.len()]);
    }
    lemma_padded_injective(m, n);
}

} // verus!
