use vstd::prelude::*;

verus! {

// Character-level helpers: ASCII case comparison, hexadecimal digit
// classification and values, and rendering of a single digit as text.

/// Whether `c` is a decimal digit `'0'..='9'`.
pub open spec fn is_dec_digit(c: char) -> bool {
    '0' as u32 <= c as u32 <= '9' as u32
}

/// Whether `c` is a hexadecimal digit, either case.
pub open spec fn is_hex_digit(c: char) -> bool {
    ||| is_dec_digit(c)
    ||| 'a' as u32 <= c as u32 <= 'f' as u32
    ||| 'A' as u32 <= c as u32 <= 'F' as u32
}

/// Numeric value of the hexadecimal digit `c` (0 for a non-digit).
pub open spec fn hex_val(c: char) -> nat {
    if is_dec_digit(c) {
        (c as u32 - '0' as u32) as nat
    } else if 'a' as u32 <= c as u32 <= 'f' as u32 {
        (c as u32 - 'a' as u32 + 10) as nat
    } else if 'A' as u32 <= c as u32 <= 'F' as u32 {
        (c as u32 - 'A' as u32 + 10) as nat
    } else {
        0
    }
}

pub proof fn lemma_hex_val_bound(c: char)
    ensures
        hex_val(c) < 16,
{
}

/// Whether `t` is an upper-case ASCII letter.
pub open spec fn is_upper_letter(t: char) -> bool {
    'A' as u32 <= t as u32 <= 'Z' as u32
}

/// Whether `c` equals the upper-case ASCII letter `t` up to ASCII case.
pub open spec fn eq_ignore_ascii_case(c: char, t: char) -> bool
    recommends
        is_upper_letter(t),
{
    c == t || c as u32 == t as u32 + 32
}

/// Case-insensitive comparison of `c` against an upper-case ASCII letter.
pub fn char_eq_ignore_ascii_case(c: char, t: char) -> (b: bool)
    requires
        is_upper_letter(t),
    ensures
        b == eq_ignore_ascii_case(c, t),
{
    c == t || (c as u32) == (t as u32) + 32
}

/// Numeric value of `c` as a hexadecimal digit, or `None` if it is not one.
pub fn hex_digit_value(c: char) -> (v: Option<u8>)
    ensures
        v is Some <==> is_hex_digit(c),
        v matches Some(x) ==> x as nat == hex_val(c) && x < 16,
{
    let u = c as u32;
    if '0' as u32 <= u && u <= '9' as u32 {
        Some((u - '0' as u32) as u8)
    } else if 'a' as u32 <= u && u <= 'f' as u32 {
        Some((u - 'a' as u32 + 10) as u8)
    } else if 'A' as u32 <= u && u <= 'F' as u32 {
        Some((u - 'A' as u32 + 10) as u8)
    } else {
        None
    }
}

/// The character that renders the digit value `v`, lower- or upper-case.
pub open spec fn digit_char(v: nat, upper: bool) -> char {
    if v == 0 {
        '0'
    } else if v == 1 {
        '1'
    } else if v == 2 {
        '2'
    } else if v == 3 {
        '3'
    } else if v == 4 {
        '4'
    } else if v == 5 {
        '5'
    } else if v == 6 {
        '6'
    } else if v == 7 {
        '7'
    } else if v == 8 {
        '8'
    } else if v == 9 {
        '9'
    } else if v == 10 {
        if upper { 'A' } else { 'a' }
    } else if v == 11 {
        if upper { 'B' } else { 'b' }
    } else if v == 12 {
        if upper { 'C' } else { 'c' }
    } else if v == 13 {
        if upper { 'D' } else { 'd' }
    } else if v == 14 {
        if upper { 'E' } else { 'e' }
    } else {
        if upper { 'F' } else { 'f' }
    }
}

/// The canonical rendering of a hex digit: its value rendered afresh in the
/// requested case.
pub open spec fn canonical_digit(c: char, upper: bool) -> char {
    digit_char(hex_val(c), upper)
}

/// A one-character string slice rendering the digit value `v`.
pub fn digit_str(v: u8, upper: bool) -> (s: &'static str)
    requires
        v < 16,
    ensures
        s@ == seq![digit_char(v as nat, upper)],
{
    proof {
        reveal_strlit("0");
        reveal_strlit("1");
        reveal_strlit("2");
        reveal_strlit("3");
        reveal_strlit("4");
        reveal_strlit("5");
        reveal_strlit("6");
        reveal_strlit("7");
        reveal_strlit("8");
        reveal_strlit("9");
        reveal_strlit("a");
        reveal_strlit("b");
        reveal_strlit("c");
        reveal_strlit("d");
        reveal_strlit("e");
        reveal_strlit("f");
        reveal_strlit("A");
        reveal_strlit("B");
        reveal_strlit("C");
        reveal_strlit("D");
        reveal_strlit("E");
        reveal_strlit("F");
        assert("0"@ =~= seq!['0']);
        assert("1"@ =~= seq!['1']);
        assert("2"@ =~= seq!['2']);
        assert("3"@ =~= seq!['3']);
        assert("4"@ =~= seq!['4']);
        assert("5"@ =~= seq!['5']);
        assert("6"@ =~= seq!['6']);
        assert("7"@ =~= seq!['7']);
        assert("8"@ =~= seq!['8']);
        assert("9"@ =~= seq!['9']);
        assert("a"@ =~= seq!['a']);
        assert("b"@ =~= seq!['b']);
        assert("c"@ =~= seq!['c']);
        assert("d"@ =~= seq!['d']);
        assert("e"@ =~= seq!['e']);
        assert("f"@ =~= seq!['f']);
        assert("A"@ =~= seq!['A']);
        assert("B"@ =~= seq!['B']);
        assert("C"@ =~= seq!['C']);
        assert("D"@ =~= seq!['D']);
        assert("E"@ =~= seq!['E']);
        assert("F"@ =~= seq!['F']);
    }
    match v {
        0 => "0",
        1 => "1",
        2 => "2",
        3 => "3",
        4 => "4",
        5 => "5",
        6 => "6",
        7 => "7",
        8 => "8",
        9 => "9",
        10 => if upper { "A" } else { "a" },
        11 => if upper { "B" } else { "b" },
        12 => if upper { "C" } else { "c" },
        13 => if upper { "D" } else { "d" },
        14 => if upper { "E" } else { "e" },
        _ => if upper { "F" } else { "f" },
    }
}

} // verus!
