use vstd::prelude::*;
use vstd::string::{StrSliceExecFns, StringExecFns};

use crate::chars::{digit_char, digit_str, hex_digit_value, hex_val, is_hex_digit};
use crate::color::{Color, Error};

verus! {

// Parsing of hex color strings into channels and their rendering as hex
// digits or as an rgb()/rgba() string.

/// The parsed channels of a hex color: red, green, blue, and the alpha
/// channel when the source form carried one.
#[derive(Debug, Clone, Copy, PartialEq, Eq)]
pub struct Channels {
    pub r: u8,
    pub g: u8,
    pub b: u8,
    pub a: Option<u8>,
}

/// The digit portion of a hex string: a single leading `#` is dropped.
pub open spec fn strip_hash(s: Seq<char>) -> Seq<char> {
    if s.len() > 0 && s[0] == '#' {
        s.skip(1)
    } else {
        s
    }
}

/// Whether `d` can be the digits of a hex color: one of the four accepted
/// lengths, with every character a hex digit.
pub open spec fn valid_hex_digits(d: Seq<char>) -> bool {
    &&& (d.len() == 3 || d.len() == 4 || d.len() == 6 || d.len() == 8)
    &&& forall|i: int| 0 <= i < d.len() ==> is_hex_digit(d[i])
}

/// The channel value of a single shorthand digit: the digit doubled.
pub open spec fn dup_val(c: char) -> u8 {
    (17 * hex_val(c)) as u8
}

/// The channel value of a two-digit group.
pub open spec fn pair_val(hi: char, lo: char) -> u8 {
    (16 * hex_val(hi) + hex_val(lo)) as u8
}

/// The channels encoded by the valid hex digits `d`. Three and four digits
/// are shorthand with each digit doubled; the fourth digit is the alpha.
/// An eight-digit form is read alpha-first when `android` is set and
/// alpha-last otherwise.
pub open spec fn spec_channels(d: Seq<char>, android: bool) -> Channels
    recommends
        valid_hex_digits(d),
{
    if d.len() == 3 {
        Channels { r: dup_val(d[0]), g: dup_val(d[1]), b: dup_val(d[2]), a: None }
    } else if d.len() == 4 {
        Channels { r: dup_val(d[0]), g: dup_val(d[1]), b: dup_val(d[2]), a: Some(dup_val(d[3])) }
    } else if d.len() == 6 {
        Channels {
            r: pair_val(d[0], d[1]),
            g: pair_val(d[2], d[3]),
            b: pair_val(d[4], d[5]),
            a: None,
        }
    } else if android {
        Channels {
            a: Some(pair_val(d[0], d[1])),
            r: pair_val(d[2], d[3]),
            g: pair_val(d[4], d[5]),
            b: pair_val(d[6], d[7]),
        }
    } else {
        Channels {
            r: pair_val(d[0], d[1]),
            g: pair_val(d[2], d[3]),
            b: pair_val(d[4], d[5]),
            a: Some(pair_val(d[6], d[7])),
        }
    }
}

/// The two hex digits of the byte `v`.
pub open spec fn hex_byte(v: u8, upper: bool) -> Seq<char> {
    seq![digit_char((v / 16) as nat, upper), digit_char((v % 16) as nat, upper)]
}

/// The hex rendering of `ch`: the red, green and blue pairs, with the alpha
/// pair first (android ordering) or last (standard ordering) when the
/// source had an alpha channel or `to_alpha` forces a fully opaque one.
pub open spec fn hex_output(ch: Channels, upper: bool, android: bool, to_alpha: bool) -> Seq<
    char,
> {
    let rgb = hex_byte(ch.r, upper) + hex_byte(ch.g, upper) + hex_byte(ch.b, upper);
    match ch.a {
        Some(a) => if android {
            hex_byte(a, upper) + rgb
        } else {
            rgb + hex_byte(a, upper)
        },
        None => if to_alpha {
            if android {
                hex_byte(255, upper) + rgb
            } else {
                rgb + hex_byte(255, upper)
            }
        } else {
            rgb
        },
    }
}

/// The decimal rendering of the byte `v`, without leading zeros.
pub open spec fn dec_byte(v: u8) -> Seq<char> {
    if v < 10 {
        seq![digit_char(v as nat, false)]
    } else if v < 100 {
        seq![digit_char((v / 10) as nat, false), digit_char((v % 10) as nat, false)]
    } else {
        seq![
            digit_char((v / 100) as nat, false),
            digit_char(((v / 10) % 10) as nat, false),
            digit_char((v % 10) as nat, false),
        ]
    }
}

/// The rgb()/rgba() rendering of `ch`: decimal channel values 0-255, the
/// alpha included (also 0-255) when the source had one or `to_alpha`
/// forces a fully opaque one.
pub open spec fn rgb_output(ch: Channels, to_alpha: bool) -> Seq<char> {
    let body = dec_byte(ch.r) + seq![','] + dec_byte(ch.g) + seq![','] + dec_byte(ch.b);
    match ch.a {
        Some(a) => seq!['r', 'g', 'b', 'a', '('] + body + seq![','] + dec_byte(a) + seq![')'],
        None => if to_alpha {
            seq!['r', 'g', 'b', 'a', '('] + body + seq![','] + dec_byte(255) + seq![')']
        } else {
            seq!['r', 'g', 'b', '('] + body + seq![')']
        },
    }
}

/// The full hex-to-hex conversion on the wrapped string `s`: `Some` exactly
/// when the digits of `s` are valid.
pub open spec fn hex_to_hex(s: Seq<char>, upper: bool, android: bool, to_alpha: bool) -> Option<
    Seq<char>,
> {
    let d = strip_hash(s);
    if valid_hex_digits(d) {
        Some(hex_output(spec_channels(d, android), upper, android, to_alpha))
    } else {
        None
    }
}

/// The full hex-to-rgb conversion on the wrapped string `s`: `Some` exactly
/// when the digits of `s` are valid.
pub open spec fn hex_to_rgb(s: Seq<char>, android: bool, to_alpha: bool) -> Option<Seq<char>> {
    let d = strip_hash(s);
    if valid_hex_digits(d) {
        Some(rgb_output(spec_channels(d, android), to_alpha))
    } else {
        None
    }
}

/// A two-digit group renders back to its two digits, case-normalized.
proof fn lemma_pair_renders(hi: char, lo: char, upper: bool)
    requires
        is_hex_digit(hi),
        is_hex_digit(lo),
    ensures
        hex_byte(pair_val(hi, lo), upper) == seq![
            crate::chars::canonical_digit(hi, upper),
            crate::chars::canonical_digit(lo, upper),
        ],
{
    crate::chars::lemma_hex_val_bound(hi);
    crate::chars::lemma_hex_val_bound(lo);
    let v = pair_val(hi, lo);
    assert(v == 16 * hex_val(hi) + hex_val(lo));
    assert(v / 16 == hex_val(hi) && v % 16 == hex_val(lo));
    assert(hex_byte(v, upper) =~= seq![
        crate::chars::canonical_digit(hi, upper),
        crate::chars::canonical_digit(lo, upper),
    ]);
}

/// A doubled shorthand digit renders back to the digit twice,
/// case-normalized.
proof fn lemma_dup_renders(c: char, upper: bool)
    requires
        is_hex_digit(c),
    ensures
        hex_byte(dup_val(c), upper) == seq![
            crate::chars::canonical_digit(c, upper),
            crate::chars::canonical_digit(c, upper),
        ],
{
    crate::chars::lemma_hex_val_bound(c);
    let v = dup_val(c);
    assert(v == 16 * hex_val(c) + hex_val(c));
    assert(v / 16 == hex_val(c) && v % 16 == hex_val(c));
    assert(hex_byte(v, upper) =~= seq![
        crate::chars::canonical_digit(c, upper),
        crate::chars::canonical_digit(c, upper),
    ]);
}

/// Round trip: hex-to-hex with every flag off, on a string whose digit
/// portion is six valid digits, returns those six digits unchanged but for
/// case normalization to lower case.
pub proof fn lemma_hex_roundtrip_six(s: Seq<char>)
    requires
        strip_hash(s).len() == 6,
        valid_hex_digits(strip_hash(s)),
    ensures
        hex_to_hex(s, false, false, false) == Some(
            Seq::new(6, |i: int| crate::chars::canonical_digit(strip_hash(s)[i], false)),
        ),
{
    let d = strip_hash(s);
    lemma_pair_renders(d[0], d[1], false);
    lemma_pair_renders(d[2], d[3], false);
    lemma_pair_renders(d[4], d[5], false);
    assert(hex_output(spec_channels(d, false), false, false, false) =~= Seq::new(
        6,
        |i: int| crate::chars::canonical_digit(d[i], false),
    ));
}

/// Shorthand expansion: hex-to-hex with every flag off, on a string whose
/// digit portion is three valid digits, doubles each digit.
pub proof fn lemma_shorthand_expansion(s: Seq<char>)
    requires
        strip_hash(s).len() == 3,
        valid_hex_digits(strip_hash(s)),
    ensures
        hex_to_hex(s, false, false, false) == Some(
            Seq::new(6, |i: int| crate::chars::canonical_digit(strip_hash(s)[i / 2], false)),
        ),
{
    let d = strip_hash(s);
    lemma_dup_renders(d[0], false);
    lemma_dup_renders(d[1], false);
    lemma_dup_renders(d[2], false);
    assert(hex_output(spec_channels(d, false), false, false, false) =~= Seq::new(
        6,
        |i: int| crate::chars::canonical_digit(d[i / 2], false),
    ));
}

/// Alpha synthesis: when the source has no alpha channel, `to_alpha`
/// appends — or, in android ordering, prepends — a fully opaque alpha pair,
/// and changes nothing else.
pub proof fn lemma_alpha_synthesis(ch: Channels, upper: bool)
    requires
        ch.a is None,
    ensures
        hex_output(ch, upper, false, true) == hex_output(ch, upper, false, false) + hex_byte(
            255,
            upper,
        ),
        hex_output(ch, upper, true, true) == hex_byte(255, upper) + hex_output(
            ch,
            upper,
            true,
            false,
        ),
{
}

/// Android ordering: with an alpha channel present in the output, the
/// android form is the standard form with the alpha pair moved from the
/// back to the front.
pub proof fn lemma_android_ordering(ch: Channels, upper: bool, to_alpha: bool)
    requires
        ch.a is Some || to_alpha,
    ensures
        hex_output(ch, upper, true, to_alpha) == hex_output(ch, upper, false, to_alpha).subrange(
            6,
            8,
        ) + hex_output(ch, upper, false, to_alpha).subrange(0, 6),
{
    let rgb = hex_byte(ch.r, upper) + hex_byte(ch.g, upper) + hex_byte(ch.b, upper);
    let a = if ch.a is Some {
        ch.a->0
    } else {
        255u8
    };
    let plain = hex_output(ch, upper, false, to_alpha);
    assert(plain == rgb + hex_byte(a, upper));
    assert(plain.subrange(6, 8) =~= hex_byte(a, upper));
    assert(plain.subrange(0, 6) =~= rgb);
}

/// The rgb form: without an alpha channel the output is `rgb(r,g,b)`; with
/// `to_alpha` set it is `rgba(r,g,b,255)`.
pub proof fn lemma_rgb_alpha_flag(ch: Channels)
    requires
        ch.a is None,
    ensures
        rgb_output(ch, false) == seq!['r', 'g', 'b', '('] + dec_byte(ch.r) + seq![','] + dec_byte(
            ch.g,
        ) + seq![','] + dec_byte(ch.b) + seq![')'],
        rgb_output(ch, true) == seq!['r', 'g', 'b', 'a', '('] + dec_byte(ch.r) + seq![',']
            + dec_byte(ch.g) + seq![','] + dec_byte(ch.b) + seq![',', '2', '5', '5', ')'],
{
    assert(rgb_output(ch, false) =~= seq!['r', 'g', 'b', '('] + dec_byte(ch.r) + seq![',']
        + dec_byte(ch.g) + seq![','] + dec_byte(ch.b) + seq![')']);
    assert(dec_byte(255) =~= seq!['2', '5', '5']);
    assert(rgb_output(ch, true) =~= seq!['r', 'g', 'b', 'a', '('] + dec_byte(ch.r) + seq![',']
        + dec_byte(ch.g) + seq![','] + dec_byte(ch.b) + seq![',', '2', '5', '5', ')']);
}

/// The doubled channel value of the shorthand digit at `i`.
fn dup_at(s: &str, i: usize) -> (v: u8)
    requires
        i < s@.len(),
        is_hex_digit(s@[i as int]),
    ensures
        v == dup_val(s@[i as int]),
{
    match hex_digit_value(s.get_char(i)) {
        Some(x) => 17 * x,
        None => {
            proof {
                assert(false);
            }
            0
        },
    }
}

/// The channel value of the two-digit group at `i`.
fn pair_at(s: &str, i: usize) -> (v: u8)
    requires
        i + 1 < s@.len(),
        is_hex_digit(s@[i as int]),
        is_hex_digit(s@[i + 1]),
    ensures
        v == pair_val(s@[i as int], s@[i + 1]),
{
    let n = s.unicode_len();
    proof {
        assert(i + 1 < n);
    }
    let hi = match hex_digit_value(s.get_char(i)) {
        Some(x) => x,
        None => {
            proof {
                assert(false);
            }
            0
        },
    };
    let lo = match hex_digit_value(s.get_char(i + 1)) {
        Some(x) => x,
        None => {
            proof {
                assert(false);
            }
            0
        },
    };
    16 * hi + lo
}

/// Whether the `m` characters of `s` starting at `start` are all hex digits.
fn check_digits(s: &str, start: usize, m: usize) -> (b: bool)
    requires
        start + m <= s@.len(),
    ensures
        b == forall|k: int| 0 <= k < m ==> is_hex_digit(#[trigger] s@[start + k]),
{
    let n = s.unicode_len();
    proof {
        assert(start + m <= n);
    }
    let mut k: usize = 0;
    while k < m
        invariant
            n == s@.len(),
            start + m <= n,
            k <= m,
            forall|kk: int| 0 <= kk < k ==> is_hex_digit(#[trigger] s@[start + kk]),
        decreases m - k,
    {
        match hex_digit_value(s.get_char(start + k)) {
            Some(_) => {
                k = k + 1;
            },
            None => {
                return false;
            },
        }
    }
    true
}

/// Parse the digits of a hex color string into channels. The eight-digit
/// form is read alpha-first when `android` is set.
pub fn parse_hex(s: &str, android: bool) -> (r: Result<Channels, Error>)
    ensures
        match r {
            Ok(ch) => valid_hex_digits(strip_hash(s@)) && ch == spec_channels(
                strip_hash(s@),
                android,
            ),
            Err(e) => e == Error::Format && !valid_hex_digits(strip_hash(s@)),
        },
{
    let n = s.unicode_len();
    let start: usize = if n > 0 && s.get_char(0) == '#' {
        1
    } else {
        0
    };
    let ghost d = strip_hash(s@);
    proof {
        assert(d =~= s@.subrange(start as int, n as int));
    }
    let m = n - start;
    if !(m == 3 || m == 4 || m == 6 || m == 8) {
        return Err(Error::Format);
    }
    if !check_digits(s, start, m) {
        return Err(Error::Format);
    }
    proof {
        assert forall|i: int| 0 <= i < d.len() implies is_hex_digit(d[i]) by {
            assert(d[i] == s@[start + i]);
        }
    }
    let ch = if m == 3 {
        Channels { r: dup_at(s, start), g: dup_at(s, start + 1), b: dup_at(s, start + 2), a: None }
    } else if m == 4 {
        Channels {
            r: dup_at(s, start),
            g: dup_at(s, start + 1),
            b: dup_at(s, start + 2),
            a: Some(dup_at(s, start + 3)),
        }
    } else if m == 6 {
        Channels {
            r: pair_at(s, start),
            g: pair_at(s, start + 2),
            b: pair_at(s, start + 4),
            a: None,
        }
    } else if android {
        Channels {
            a: Some(pair_at(s, start)),
            r: pair_at(s, start + 2),
            g: pair_at(s, start + 4),
            b: pair_at(s, start + 6),
        }
    } else {
        Channels {
            r: pair_at(s, start),
            g: pair_at(s, start + 2),
            b: pair_at(s, start + 4),
            a: Some(pair_at(s, start + 6)),
        }
    };
    Ok(ch)
}

/// Append the two hex digits of `v` to `out`.
fn push_hex_byte(out: &mut String, v: u8, upper: bool)
    ensures
        final(out)@ == old(out)@ + hex_byte(v, upper),
{
    out.append(digit_str(v / 16, upper));
    out.append(digit_str(v % 16, upper));
    proof {
        assert(out@ =~= old(out)@ + hex_byte(v, upper));
    }
}

/// Append the decimal rendering of `v` to `out`.
fn push_dec_byte(out: &mut String, v: u8)
    ensures
        final(out)@ == old(out)@ + dec_byte(v),
{
    if v >= 100 {
        out.append(digit_str(v / 100, false));
    }
    if v >= 10 {
        out.append(digit_str((v / 10) % 10, false));
    }
    out.append(digit_str(v % 10, false));
    proof {
        assert(out@ =~= old(out)@ + dec_byte(v));
    }
}

/// Re-emit a hex color as hex digits, honoring the three formatting flags.
pub fn hex2hex(color: &Color) -> (res: Result<String, Error>)
    ensures
        match res {
            Ok(out) => hex_to_hex(
                color.mode.data(),
                color.to_upper,
                color.to_android,
                color.to_alpha,
            ) == Some(out@),
            Err(e) => e == Error::Format && hex_to_hex(
                color.mode.data(),
                color.to_upper,
                color.to_android,
                color.to_alpha,
            ) is None,
        },
{
    let s = color.to_str();
    let ch = match parse_hex(s, color.to_android) {
        Ok(ch) => ch,
        Err(e) => {
            return Err(e);
        },
    };
    let alpha: Option<u8> = match ch.a {
        Some(a) => Some(a),
        None => if color.to_alpha {
            Some(255)
        } else {
            None
        },
    };
    let mut out = String::new();
    if color.to_android {
        if let Some(a) = alpha {
            push_hex_byte(&mut out, a, color.to_upper);
        }
    }
    push_hex_byte(&mut out, ch.r, color.to_upper);
    push_hex_byte(&mut out, ch.g, color.to_upper);
    push_hex_byte(&mut out, ch.b, color.to_upper);
    if !color.to_android {
        if let Some(a) = alpha {
            push_hex_byte(&mut out, a, color.to_upper);
        }
    }
    proof {
        assert(out@ =~= hex_output(ch, color.to_upper, color.to_android, color.to_alpha));
    }
    Ok(out)
}

/// Emit a hex color as an rgb()/rgba() string, honoring the alpha flag.
#[verifier::rlimit(50)]
pub fn hex2rgb(color: &Color) -> (res: Result<String, Error>)
    ensures
        match res {
            Ok(out) => hex_to_rgb(color.mode.data(), color.to_android, color.to_alpha) == Some(
                out@,
            ),
            Err(e) => e == Error::Format && hex_to_rgb(
                color.mode.data(),
                color.to_android,
                color.to_alpha,
            ) is None,
        },
{
    let s = color.to_str();
    let ch = match parse_hex(s, color.to_android) {
        Ok(ch) => ch,
        Err(e) => {
            return Err(e);
        },
    };
    let alpha: Option<u8> = match ch.a {
        Some(a) => Some(a),
        None => if color.to_alpha {
            Some(255)
        } else {
            None
        },
    };
    let mut out = String::new();
    if alpha.is_some() {
        out.append("rgba(");
    } else {
        out.append("rgb(");
    }
    push_dec_byte(&mut out, ch.r);
    out.append(",");
    push_dec_byte(&mut out, ch.g);
    out.append(",");
    push_dec_byte(&mut out, ch.b);
    if let Some(a) = alpha {
        out.append(",");
        push_dec_byte(&mut out, a);
    }
    out.append(")");
    proof {
        reveal_strlit("rgba(");
        reveal_strlit("rgb(");
        reveal_strlit(",");
        reveal_strlit(")");
        assert("rgba("@ =~= seq!['r', 'g', 'b', 'a', '(']);
        assert("rgb("@ =~= seq!['r', 'g', 'b', '(']);
        assert(","@ =~= seq![',']);
        assert(")"@ =~= seq![')']);
        assert(out@ =~= rgb_output(ch, color.to_alpha));
    }
    Ok(out)
}

} // verus!
