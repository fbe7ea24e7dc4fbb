//! Rendering of numeric ids as lowercase hexadecimal text, with no prefix and
//! no padding beyond the natural representation.

use vstd::prelude::*;
use vstd::string::StringExecFns;

verus! {

/// The lowercase hexadecimal digit for a value below sixteen.
pub open spec fn hex_digit_char(d: nat) -> char {
    if d == 0 {
        '0'
    } else if d == 1 {
        '1'
    } else if d == 2 {
        '2'
    } else if d == 3 {
        '3'
    } else if d == 4 {
        '4'
    } else if d == 5 {
        '5'
    } else if d == 6 {
        '6'
    } else if d == 7 {
        '7'
    } else if d == 8 {
        '8'
    } else if d == 9 {
        '9'
    } else if d == 10 {
        'a'
    } else if d == 11 {
        'b'
    } else if d == 12 {
        'c'
    } else if d == 13 {
        'd'
    } else if d == 14 {
        'e'
    } else {
        'f'
    }
}

/// The natural lowercase hexadecimal rendering of a number: most significant
/// digit first, a single `'0'` for zero, and no leading zeroes otherwise.
pub open spec fn hex_seq(v: nat) -> Seq<char>
    decreases v,
{
    if v < 16 {
        seq![hex_digit_char(v)]
    } else {
        hex_seq(v / 16) + seq![hex_digit_char(v % 16)]
    }
}

/// Whether a character is a lowercase hexadecimal digit.
pub open spec fn is_lower_hex_digit(c: char) -> bool {
    c == '0' || c == '1' || c == '2' || c == '3' || c == '4' || c == '5' || c == '6' || c == '7'
        || c == '8' || c == '9' || c == 'a' || c == 'b' || c == 'c' || c == 'd' || c == 'e'
        || c == 'f'
}

/// The numeric value of a lowercase hexadecimal digit.
pub open spec fn hex_char_val(c: char) -> nat {
    if c == '0' {
        0
    } else if c == '1' {
        1
    } else if c == '2' {
        2
    } else if c == '3' {
        3
    } else if c == '4' {
        4
    } else if c == '5' {
        5
    } else if c == '6' {
        6
    } else if c == '7' {
        7
    } else if c == '8' {
        8
    } else if c == '9' {
        9
    } else if c == 'a' {
        10
    } else if c == 'b' {
        11
    } else if c == 'c' {
        12
    } else if c == 'd' {
        13
    } else if c == 'e' {
        14
    } else {
        15
    }
}

/// The number a sequence of hexadecimal digits denotes, most significant
/// digit first.
pub open spec fn hex_val(s: Seq<char>) -> nat
    decreases s.len(),
{
    if s.len() == 0 {
        0
    } else {
        hex_val(s.drop_last()) * 16 + hex_char_val(s.last())
    }
}

/// Reading back the digit of a value below sixteen yields the value, the
/// digit is a lowercase hexadecimal digit, and only zero renders as `'0'`.
proof fn lemma_hex_digit_char(d: nat)
    requires
        d < 16,
    ensures
        hex_char_val(hex_digit_char(d)) == d,
        is_lower_hex_digit(hex_digit_char(d)),
        d > 0 ==> hex_digit_char(d) != '0',
{
}

/// The hexadecimal rendering of a number is canonical: it is non-empty, made
/// of lowercase hexadecimal digits, denotes the number it was made from, has
/// no leading zero unless the number is zero, and zero renders as `"0"`.
pub proof fn lemma_hex_seq_canonical(v: nat)
    ensures
        hex_seq(v).len() >= 1,
        hex_val(hex_seq(v)) == v,
        forall|i: int| 0 <= i < hex_seq(v).len() ==> is_lower_hex_digit(#[trigger] hex_seq(v)[i]),
        v > 0 ==> hex_seq(v)[0] != '0',
        v == 0 ==> hex_seq(v) == seq!['0'],
    decreases v,
{
    if v < 16 {
        lemma_hex_digit_char(v);
        assert(hex_seq(v) == seq![hex_digit_char(v)]);
        assert(hex_val(hex_seq(v)) == hex_val(seq![hex_digit_char(v)].drop_last()) * 16
            + hex_char_val(hex_digit_char(v)));
        assert(seq![hex_digit_char(v)].drop_last() =~= Seq::<char>::empty());
        if v == 0 {
            assert(hex_seq(v) =~= seq!['0']);
        }
    } else {
        lemma_hex_seq_canonical(v / 16);
        lemma_hex_digit_char(v % 16);
        let prefix = hex_seq(v / 16);
        let whole = hex_seq(v);
        assert(whole == prefix + seq![hex_digit_char(v % 16)]);
        assert(whole.drop_last() =~= prefix);
        assert(whole.last() == hex_digit_char(v % 16));
        assert(hex_val(whole) == hex_val(prefix) * 16 + (v % 16));
        vstd::arithmetic::div_mod::lemma_fundamental_div_mod(v as int, 16);
        assert(forall|i: int|
            0 <= i < whole.len() ==> is_lower_hex_digit(#[trigger] whole[i])) by {
            assert(forall|i: int| 0 <= i < prefix.len() ==> whole[i] == prefix[i]);
            assert(whole[whole.len() - 1] == hex_digit_char(v % 16));
        }
        assert(whole[0] == prefix[0]);
    }
}

/// The lowercase hexadecimal digit for a value below sixteen.
fn hex_digit_str(d: u16) -> (s: &'static str)
    requires
        d < 16,
    ensures
        s@ == seq![hex_digit_char(d as nat)],
{
    proof {
        reveal_strlit("0");
        reveal_strlit("1");
        reveal_strlit("2");
        reveal_strlit("3");
        reveal_strlit("4");
        reveal_strlit("5");
        reveal_strlit("6");
        reveal_strlit("7");
        reveal_strlit("8");
        reveal_strlit("9");
        reveal_strlit("a");
        reveal_strlit("b");
        reveal_strlit("c");
        reveal_strlit("d");
        reveal_strlit("e");
        reveal_strlit("f");
    }
    let s = match d {
        0 => "0",
        1 => "1",
        2 => "2",
        3 => "3",
        4 => "4",
        5 => "5",
        6 => "6",
        7 => "7",
        8 => "8",
        9 => "9",
        10 => "a",
        11 => "b",
        12 => "c",
        13 => "d",
        14 => "e",
        _ => "f",
    };
    proof {
        assert(s@ =~= seq![hex_digit_char(d as nat)]);
    }
    s
}

/// Renders a number as lowercase hexadecimal with no prefix and no padding,
/// exactly as `hex_seq` describes.
pub fn format_hex_u16(v: u16) -> (s: String)
    ensures
        s@ == hex_seq(v as nat),
    decreases v,
{
    if v < 16 {
        hex_digit_str(v).to_owned()
    } else {
        let mut s = format_hex_u16(v / 16);
        s.append(hex_digit_str(v % 16));
        proof {
            assert(s@ =~= hex_seq(v as nat));
        }
        s
    }
}

} // verus!
