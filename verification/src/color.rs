use vstd::prelude::*;

use crate::scan::{find_token, has_token, is_upper_token, str_eq};

verus! {

// The classified color value, its configuration flags, and the notation
// classifier: an ordered chain of case-insensitive token checks.

/// The token whose presence marks the RGBA notation.
pub open spec fn token_rgba() -> Seq<char> {
    seq!['R', 'G', 'B', 'A']
}

/// The token whose presence marks the RGB notation.
pub open spec fn token_rgb() -> Seq<char> {
    seq!['R', 'G', 'B']
}

/// The token whose presence marks the HSLA notation.
pub open spec fn token_hsla() -> Seq<char> {
    seq!['H', 'S', 'L', 'A']
}

/// The token whose presence marks the HSL notation.
pub open spec fn token_hsl() -> Seq<char> {
    seq!['H', 'S', 'L']
}

/// The token whose presence marks the CMYK notation.
pub open spec fn token_cmyk() -> Seq<char> {
    seq!['C', 'M', 'Y', 'K']
}

/// The token whose presence marks the HSV notation.
pub open spec fn token_hsv() -> Seq<char> {
    seq!['H', 'S', 'V']
}

/// A color string tagged with the notation it was recognized as.
/// Each variant keeps the original input verbatim.
#[derive(Debug)]
pub enum ColorMode {
    RGBA(String),
    RGB(String),
    HSLA(String),
    HSL(String),
    CMYK(String),
    HSV(String),
    HEX(String),
}

impl ColorMode {
    /// The wrapped original string, whatever the variant.
    pub open spec fn data(self) -> Seq<char> {
        match self {
            ColorMode::RGBA(s) => s@,
            ColorMode::RGB(s) => s@,
            ColorMode::HSLA(s) => s@,
            ColorMode::HSL(s) => s@,
            ColorMode::CMYK(s) => s@,
            ColorMode::HSV(s) => s@,
            ColorMode::HEX(s) => s@,
        }
    }
}

/// Whether `s` falls through every token check and classifies as HEX.
pub open spec fn classifies_as_hex(s: Seq<char>) -> bool {
    &&& !has_token(s, token_rgba())
    &&& !has_token(s, token_rgb())
    &&& !has_token(s, token_hsla())
    &&& !has_token(s, token_hsl())
    &&& !has_token(s, token_cmyk())
    &&& !has_token(s, token_hsv())
}

/// Whether `m` is the classification of `s`: the wrapped string is `s`
/// itself, and the variant is decided by the first token found, checked in
/// the order RGBA, RGB, HSLA, HSL, CMYK, HSV, with HEX as the fallback.
pub open spec fn classifies(m: ColorMode, s: Seq<char>) -> bool {
    &&& m.data() == s
    &&& (m is RGBA <==> has_token(s, token_rgba()))
    &&& (m is RGB <==> !has_token(s, token_rgba()) && has_token(s, token_rgb()))
    &&& (m is HSLA <==> !has_token(s, token_rgba()) && !has_token(s, token_rgb())
        && has_token(s, token_hsla()))
    &&& (m is HSL <==> !has_token(s, token_rgba()) && !has_token(s, token_rgb())
        && !has_token(s, token_hsla()) && has_token(s, token_hsl()))
    &&& (m is CMYK <==> !has_token(s, token_rgba()) && !has_token(s, token_rgb())
        && !has_token(s, token_hsla()) && !has_token(s, token_hsl()) && has_token(
        s,
        token_cmyk(),
    ))
    &&& (m is HSV <==> !has_token(s, token_rgba()) && !has_token(s, token_rgb())
        && !has_token(s, token_hsla()) && !has_token(s, token_hsl()) && !has_token(
        s,
        token_cmyk(),
    ) && has_token(s, token_hsv()))
    &&& (m is HEX <==> classifies_as_hex(s))
}

proof fn lemma_tokens_upper()
    ensures
        is_upper_token(token_rgba()),
        is_upper_token(token_rgb()),
        is_upper_token(token_hsla()),
        is_upper_token(token_hsl()),
        is_upper_token(token_cmyk()),
        is_upper_token(token_hsv()),
{
}

/// A string that contains the RGBA token also contains the RGB token: the
/// former begins with the latter.
pub proof fn lemma_rgba_implies_rgb(s: Seq<char>)
    requires
        has_token(s, token_rgba()),
    ensures
        has_token(s, token_rgb()),
{
    let i = choose|i: int|
        0 <= i && i + token_rgba().len() <= s.len() && crate::scan::token_at(s, token_rgba(), i);
    assert(crate::scan::token_at(s, token_rgb(), i)) by {
        assert forall|j: int| 0 <= j < token_rgb().len() implies crate::chars::eq_ignore_ascii_case(
            s[i + j],
            token_rgb()[j],
        ) by {
            assert(crate::chars::eq_ignore_ascii_case(s[i + j], token_rgba()[j]));
            assert(token_rgb()[j] == token_rgba()[j]);
        }
    }
    assert(0 <= i && i + token_rgb().len() <= s.len());
}

/// A string that contains the HSLA token also contains the HSL token.
pub proof fn lemma_hsla_implies_hsl(s: Seq<char>)
    requires
        has_token(s, token_hsla()),
    ensures
        has_token(s, token_hsl()),
{
    let i = choose|i: int|
        0 <= i && i + token_hsla().len() <= s.len() && crate::scan::token_at(s, token_hsla(), i);
    assert(crate::scan::token_at(s, token_hsl(), i)) by {
        assert forall|j: int| 0 <= j < token_hsl().len() implies crate::chars::eq_ignore_ascii_case(
            s[i + j],
            token_hsl()[j],
        ) by {
            assert(crate::chars::eq_ignore_ascii_case(s[i + j], token_hsla()[j]));
            assert(token_hsl()[j] == token_hsla()[j]);
        }
    }
    assert(0 <= i && i + token_hsl().len() <= s.len());
}

/// Classification priority: a string that contains the RGBA token,
/// case-insensitively, classifies as RGBA — never as RGB, although the RGB
/// token occurs in it as well.
pub proof fn lemma_rgba_priority(m: ColorMode, s: Seq<char>)
    requires
        classifies(m, s),
        has_token(s, token_rgba()),
    ensures
        m is RGBA,
        has_token(s, token_rgb()),
{
    lemma_rgba_implies_rgb(s);
}

/// Classification priority: a string that contains the HSLA token, and no
/// RGB token that would pre-empt it, classifies as HSLA — never as HSL,
/// although the HSL token occurs in it as well.
pub proof fn lemma_hsla_priority(m: ColorMode, s: Seq<char>)
    requires
        classifies(m, s),
        has_token(s, token_hsla()),
        !has_token(s, token_rgb()),
    ensures
        m is HSLA,
        has_token(s, token_hsl()),
{
    if has_token(s, token_rgba()) {
        lemma_rgba_implies_rgb(s);
    }
    lemma_hsla_implies_hsl(s);
}

/// Fallback: a string in which no notation token occurs classifies as HEX.
pub proof fn lemma_no_token_is_hex(m: ColorMode, s: Seq<char>)
    requires
        classifies(m, s),
        classifies_as_hex(s),
    ensures
        m is HEX,
{
}

impl ColorMode {
    /// Classify `color` by the first notation token it contains,
    /// case-insensitively, falling back to HEX when none occurs.
    pub fn new(color: &str) -> (m: ColorMode)
        ensures
            classifies(m, color@),
    {
        proof {
            reveal_strlit("RGBA");
            reveal_strlit("RGB");
            reveal_strlit("HSLA");
            reveal_strlit("HSL");
            reveal_strlit("CMYK");
            reveal_strlit("HSV");
            assert("RGBA"@ =~= token_rgba());
            assert("RGB"@ =~= token_rgb());
            assert("HSLA"@ =~= token_hsla());
            assert("HSL"@ =~= token_hsl());
            assert("CMYK"@ =~= token_cmyk());
            assert("HSV"@ =~= token_hsv());
            lemma_tokens_upper();
        }
        if find_token(color, "RGBA") {
            ColorMode::RGBA(color.to_owned())
        } else if find_token(color, "RGB") {
            ColorMode::RGB(color.to_owned())
        } else if find_token(color, "HSLA") {
            ColorMode::HSLA(color.to_owned())
        } else if find_token(color, "HSL") {
            ColorMode::HSL(color.to_owned())
        } else if find_token(color, "CMYK") {
            ColorMode::CMYK(color.to_owned())
        } else if find_token(color, "HSV") {
            ColorMode::HSV(color.to_owned())
        } else {
            ColorMode::HEX(color.to_owned())
        }
    }
}

impl PartialEq for ColorMode {
    /// Two classified colors are equal only when both the variant and the
    /// wrapped string agree.
    fn eq(&self, other: &ColorMode) -> (r: bool) {
        match (self, other) {
            (ColorMode::RGBA(i), ColorMode::RGBA(j)) => str_eq(i.as_str(), j.as_str()),
            (ColorMode::RGB(i), ColorMode::RGB(j)) => str_eq(i.as_str(), j.as_str()),
            (ColorMode::HSLA(i), ColorMode::HSLA(j)) => str_eq(i.as_str(), j.as_str()),
            (ColorMode::HSL(i), ColorMode::HSL(j)) => str_eq(i.as_str(), j.as_str()),
            (ColorMode::CMYK(i), ColorMode::CMYK(j)) => str_eq(i.as_str(), j.as_str()),
            (ColorMode::HSV(i), ColorMode::HSV(j)) => str_eq(i.as_str(), j.as_str()),
            (ColorMode::HEX(i), ColorMode::HEX(j)) => str_eq(i.as_str(), j.as_str()),
            _ => false,
        }
    }
}

impl vstd::std_specs::cmp::PartialEqSpecImpl for ColorMode {
    open spec fn obeys_eq_spec() -> bool {
        true
    }

    open spec fn eq_spec(&self, other: &ColorMode) -> bool {
        match (self, other) {
            (ColorMode::RGBA(i), ColorMode::RGBA(j)) => i@ == j@,
            (ColorMode::RGB(i), ColorMode::RGB(j)) => i@ == j@,
            (ColorMode::HSLA(i), ColorMode::HSLA(j)) => i@ == j@,
            (ColorMode::HSL(i), ColorMode::HSL(j)) => i@ == j@,
            (ColorMode::CMYK(i), ColorMode::CMYK(j)) => i@ == j@,
            (ColorMode::HSV(i), ColorMode::HSV(j)) => i@ == j@,
            (ColorMode::HEX(i), ColorMode::HEX(j)) => i@ == j@,
            _ => false,
        }
    }
}

/// The two ways a conversion can fail: the classified notation's digits or
/// structure are malformed, or no routine exists for the requested pair of
/// notations.
#[derive(Debug, PartialEq, Eq, Structural)]
pub enum Error {
    Format,
    NotMatch,
}

impl Error {
    /// A short display text for the error.
    pub fn message(&self) -> (s: String)
        ensures
            *self is Format ==> s@ == "Format Error"@,
            *self is NotMatch ==> s@ == "NotMatch Color"@,
    {
        match self {
            Error::Format => "Format Error".to_owned(),
            Error::NotMatch => "NotMatch Color".to_owned(),
        }
    }

    /// A longer description of the error.
    pub fn description(&self) -> (s: String)
        ensures
            *self is Format ==> s@ == "[color-convert] Color value is illegal."@,
            *self is NotMatch ==> s@ == "[color-convert] No match color value."@,
    {
        match self {
            Error::Format => "[color-convert] Color value is illegal.".to_owned(),
            Error::NotMatch => "[color-convert] No match color value.".to_owned(),
        }
    }
}

/// A classified color together with the three output formatting flags.
#[derive(Debug)]
pub struct Color {
    pub mode: ColorMode,
    pub to_upper: bool,
    pub to_android: bool,
    pub to_alpha: bool,
}

impl Color {
    /// Classify `mode` and set every formatting flag explicitly.
    pub fn new(mode: &str, to_upper: bool, to_android: bool, to_alpha: bool) -> (c: Color)
        ensures
            classifies(c.mode, mode@),
            c.to_upper == to_upper,
            c.to_android == to_android,
            c.to_alpha == to_alpha,
    {
        Color { mode: ColorMode::new(mode), to_upper, to_android, to_alpha }
    }

    /// Classify `mode` with every formatting flag off.
    pub fn init(mode: &str) -> (c: Color)
        ensures
            classifies(c.mode, mode@),
            !c.to_upper,
            !c.to_android,
            !c.to_alpha,
    {
        Color { mode: ColorMode::new(mode), to_upper: false, to_android: false, to_alpha: false }
    }

    /// Set the upper-case output flag.
    pub fn upper(&mut self, to_upper: bool) -> (r: &Self)
        ensures
            *r == *final(self),
            final(self).to_upper == to_upper,
            final(self).to_android == old(self).to_android,
            final(self).to_alpha == old(self).to_alpha,
            final(self).mode == old(self).mode,
    {
        self.to_upper = to_upper;
        self
    }

    /// Set the Android channel-ordering flag.
    pub fn android(&mut self, to_android: bool) -> (r: &Self)
        ensures
            *r == *final(self),
            final(self).to_android == to_android,
            final(self).to_upper == old(self).to_upper,
            final(self).to_alpha == old(self).to_alpha,
            final(self).mode == old(self).mode,
    {
        self.to_android = to_android;
        self
    }

    /// Set the forced-alpha output flag.
    pub fn alpha(&mut self, to_alpha: bool) -> (r: &Self)
        ensures
            *r == *final(self),
            final(self).to_alpha == to_alpha,
            final(self).to_upper == old(self).to_upper,
            final(self).to_android == old(self).to_android,
            final(self).mode == old(self).mode,
    {
        self.to_alpha = to_alpha;
        self
    }

    /// Convert to the rgb notation. Only a HEX-classified source has a
    /// conversion routine; on any other source the result is `NotMatch`, and
    /// on malformed hex digits it is `Format`.
    pub fn to_rgb(&self) -> (res: Result<String, Error>)
        ensures
            match res {
                Ok(out) => self.mode is HEX && crate::hex::hex_to_rgb(
                    self.mode.data(),
                    self.to_android,
                    self.to_alpha,
                ) == Some(out@),
                Err(Error::Format) => self.mode is HEX && crate::hex::hex_to_rgb(
                    self.mode.data(),
                    self.to_android,
                    self.to_alpha,
                ) is None,
                Err(Error::NotMatch) => self.mode !is HEX,
            },
    {
        match self.mode {
            ColorMode::HEX(_) => crate::hex::hex2rgb(self),
            _ => Err(Error::NotMatch),
        }
    }

    /// Convert to the hex notation, honoring the three formatting flags.
    /// Only a HEX-classified source has a conversion routine; on any other
    /// source the result is `NotMatch`, and on malformed hex digits it is
    /// `Format`.
    pub fn to_hex(&self) -> (res: Result<String, Error>)
        ensures
            match res {
                Ok(out) => self.mode is HEX && crate::hex::hex_to_hex(
                    self.mode.data(),
                    self.to_upper,
                    self.to_android,
                    self.to_alpha,
                ) == Some(out@),
                Err(Error::Format) => self.mode is HEX && crate::hex::hex_to_hex(
                    self.mode.data(),
                    self.to_upper,
                    self.to_android,
                    self.to_alpha,
                ) is None,
                Err(Error::NotMatch) => self.mode !is HEX,
            },
    {
        match self.mode {
            ColorMode::HEX(_) => crate::hex::hex2hex(self),
            _ => Err(Error::NotMatch),
        }
    }

    /// The wrapped original string, whatever the variant.
    pub fn to_str(&self) -> (s: &str)
        ensures
            s@ == self.mode.data(),
    {
        match &self.mode {
            ColorMode::HEX(color) => color.as_str(),
            ColorMode::RGB(color) => color.as_str(),
            ColorMode::RGBA(color) => color.as_str(),
            ColorMode::HSL(color) => color.as_str(),
            ColorMode::HSLA(color) => color.as_str(),
            ColorMode::HSV(color) => color.as_str(),
            ColorMode::CMYK(color) => color.as_str(),
        }
    }
}

} // verus!
