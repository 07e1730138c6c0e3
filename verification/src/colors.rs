//! RGB colors for rank cards: hex parsing, canonical `#RRGGBB` text,
//! and the eight-slot palette with its hard-coded defaults.
use vstd::prelude::*;

verus! {

/// An RGB triple. Its canonical textual form is `#RRGGBB` with
/// uppercase hex digits.
#[derive(Clone, Copy, Debug, PartialEq, Eq, Structural)]
pub struct Color {
    pub red: u8,
    pub green: u8,
    pub blue: u8,
}

/// Why a hex color string was rejected.
#[derive(Clone, Copy, Debug, PartialEq, Eq, Structural)]
pub enum Error {
    /// The input, after stripping leading `#`, is not exactly 6 characters.
    InvalidLength,
    /// A character in the 6-digit body is not a hex digit.
    ParseInt,
}

impl Error {
    /// The user-visible failure message.
    pub fn message(&self) -> (r: String)
        ensures
            *self is InvalidLength ==> r@ == "Invalid length! Hex data length must be exactly 6 characters!"@,
            *self is ParseInt ==> r@ == "Integer parsing error!"@,
    {
        match self {
            Error::InvalidLength => String::from_str(
                "Invalid length! Hex data length must be exactly 6 characters!",
            ),
            Error::ParseInt => String::from_str("Integer parsing error!"),
        }
    }
}

/// Whether `c` is a hex digit in any case.
pub open spec fn spec_is_hex_digit(c: char) -> bool {
    ('0' <= c && c <= '9') || ('a' <= c && c <= 'f') || ('A' <= c && c <= 'F')
}

/// The value of the hex digit `c`.
pub open spec fn spec_hex_val(c: char) -> nat {
    if '0' <= c && c <= '9' {
        (c as int - '0' as int) as nat
    } else if 'a' <= c && c <= 'f' {
        (c as int - 'a' as int + 10) as nat
    } else {
        (c as int - 'A' as int + 10) as nat
    }
}

/// The uppercase hex digit character for `d`.
pub open spec fn spec_hex_char(d: nat) -> char {
    if d < 10 {
        crate::strfmt::spec_digit_char(d)
    } else if d == 10 {
        'A'
    } else if d == 11 {
        'B'
    } else if d == 12 {
        'C'
    } else if d == 13 {
        'D'
    } else if d == 14 {
        'E'
    } else {
        'F'
    }
}

/// `s` with every leading `#` removed.
pub open spec fn spec_strip_hashes(s: Seq<char>) -> Seq<char>
    decreases s.len(),
{
    if s.len() > 0 && s[0] == '#' {
        spec_strip_hashes(s.drop_first())
    } else {
        s
    }
}

/// Whether every character of `s` is a hex digit.
pub open spec fn spec_all_hex(s: Seq<char>) -> bool {
    forall|i: int| 0 <= i < s.len() ==> spec_is_hex_digit(s[i])
}

/// The color a 6-hex-digit string denotes.
pub open spec fn spec_color_from(s: Seq<char>) -> Color {
    Color {
        red: (spec_hex_val(s[0]) * 16 + spec_hex_val(s[1])) as u8,
        green: (spec_hex_val(s[2]) * 16 + spec_hex_val(s[3])) as u8,
        blue: (spec_hex_val(s[4]) * 16 + spec_hex_val(s[5])) as u8,
    }
}

/// The two uppercase hex digits of the byte `b`.
pub open spec fn spec_hex_pair(b: u8) -> Seq<char> {
    seq![spec_hex_char(b as nat / 16), spec_hex_char(b as nat % 16)]
}

/// The canonical `#RRGGBB` form of `c`.
pub open spec fn spec_color_string(c: Color) -> Seq<char> {
    seq!['#'] + spec_hex_pair(c.red) + spec_hex_pair(c.green) + spec_hex_pair(c.blue)
}

/// Stripping stops at the first character that is not `#`.
proof fn lemma_strip_is_skip(s: Seq<char>, i: int)
    requires
        0 <= i <= s.len(),
        forall|j: int| 0 <= j < i ==> s[j] == '#',
        i == s.len() || s[i] != '#',
    ensures
        spec_strip_hashes(s) == s.skip(i),
    decreases i,
{
    if i == 0 {
        assert(s.skip(0) =~= s);
    } else {
        lemma_strip_is_skip(s.drop_first(), i - 1);
        assert(s.drop_first().skip(i - 1) =~= s.skip(i));
    }
}

fn is_hex_digit(c: char) -> (r: bool)
    ensures
        r == spec_is_hex_digit(c),
{
    (c >= '0' && c <= '9') || (c >= 'a' && c <= 'f') || (c >= 'A' && c <= 'F')
}

fn hex_val(c: char) -> (r: u8)
    requires
        spec_is_hex_digit(c),
    ensures
        r == spec_hex_val(c),
        r < 16,
{
    if c >= '0' && c <= '9' {
        (c as u32 - '0' as u32) as u8
    } else if c >= 'a' && c <= 'f' {
        (c as u32 - 'a' as u32 + 10) as u8
    } else {
        (c as u32 - 'A' as u32 + 10) as u8
    }
}

impl Color {
    /// The color with the given channels.
    pub fn new(red: u8, green: u8, blue: u8) -> (r: Self)
        ensures
            r == (Color { red, green, blue }),
    {
        Color { red, green, blue }
    }

    /// Parses hex-color input: an optional run of leading `#` followed by
    /// exactly 6 hex digits. Rejects any other length with
    /// `Error::InvalidLength` and a non-hex digit with `Error::ParseInt`.
    pub fn from_hex(hex: &str) -> (r: Result<Self, Error>)
        ensures
            r is Ok <==> spec_strip_hashes(hex@).len() == 6 && spec_all_hex(spec_strip_hashes(hex@)),
            r is Ok ==> r->Ok_0 == spec_color_from(spec_strip_hashes(hex@)),
            r is Err ==> ((r->Err_0 is InvalidLength) <==> spec_strip_hashes(hex@).len() != 6),
    {
        let len = hex.unicode_len();
        let mut i: usize = 0;
        while i < len && hex.get_char(i) == '#'
            invariant
                0 <= i <= len == hex@.len(),
                forall|j: int| 0 <= j < i ==> hex@[j] == '#',
            decreases len - i,
        {
            i = i + 1;
        }
        proof {
            lemma_strip_is_skip(hex@, i as int);
        }
        let ghost stripped = spec_strip_hashes(hex@);
        if len - i != 6 {
            return Err(Error::InvalidLength);
        }
        let c0 = hex.get_char(i);
        let c1 = hex.get_char(i + 1);
        let c2 = hex.get_char(i + 2);
        let c3 = hex.get_char(i + 3);
        let c4 = hex.get_char(i + 4);
        let c5 = hex.get_char(i + 5);
        proof {
            assert(stripped[0] == c0 && stripped[1] == c1 && stripped[2] == c2 && stripped[3] == c3
                && stripped[4] == c4 && stripped[5] == c5);
        }
        if !(is_hex_digit(c0) && is_hex_digit(c1) && is_hex_digit(c2) && is_hex_digit(c3)
            && is_hex_digit(c4) && is_hex_digit(c5)) {
            return Err(Error::ParseInt);
        }
        let red = hex_val(c0) * 16 + hex_val(c1);
        let green = hex_val(c2) * 16 + hex_val(c3);
        let blue = hex_val(c4) * 16 + hex_val(c5);
        Ok(Color { red, green, blue })
    }

    /// The canonical `#RRGGBB` text of this color, uppercase hex digits.
    pub fn to_hex_string(&self) -> (r: String)
        ensures
            r@ == spec_color_string(*self),
    {
        let mut out = String::new();
        proof {
            reveal_strlit("#");
        }
        out.append("#");
        append_hex_byte(&mut out, self.red);
        append_hex_byte(&mut out, self.green);
        append_hex_byte(&mut out, self.blue);
        proof {
            assert(out@ =~= spec_color_string(*self));
        }
        out
    }
}

/// Appends the two hex digits of `b` to `out`.
fn append_hex_byte(out: &mut String, b: u8)
    ensures
        final(out)@ == old(out)@ + spec_hex_pair(b),
{
    let digits: &str = "0123456789ABCDEF";
    proof {
        reveal_strlit("0123456789ABCDEF");
    }
    let hi = (b / 16) as usize;
    let lo = (b % 16) as usize;
    let hs = digits.substring_ascii(hi, hi + 1);
    let ls = digits.substring_ascii(lo, lo + 1);
    out.append(hs);
    out.append(ls);
    proof {
        assert(final(out)@ =~= old(out)@ + spec_hex_pair(b));
    }
}

/// Every hex digit character is a hex digit, is not `#`, and its value
/// round-trips.
proof fn lemma_hex_char_props(d: nat)
    requires
        d < 16,
    ensures
        spec_is_hex_digit(spec_hex_char(d)),
        spec_hex_char(d) != '#',
        spec_hex_val(spec_hex_char(d)) == d,
{
}

/// Round trip: parsing the canonical text of a color yields the color
/// back. Stated over the spec functions that `Color::from_hex` and
/// `Color::to_hex_string` are specified with: the stripped text is six
/// hex digits (so parsing succeeds) and denotes `c` itself.
pub proof fn lemma_color_round_trip(c: Color)
    ensures
        spec_strip_hashes(spec_color_string(c)).len() == 6,
        spec_all_hex(spec_strip_hashes(spec_color_string(c))),
        spec_color_from(spec_strip_hashes(spec_color_string(c))) == c,
{
    let s = spec_color_string(c);
    lemma_hex_char_props(c.red as nat / 16);
    lemma_hex_char_props(c.red as nat % 16);
    lemma_hex_char_props(c.green as nat / 16);
    lemma_hex_char_props(c.green as nat % 16);
    lemma_hex_char_props(c.blue as nat / 16);
    lemma_hex_char_props(c.blue as nat % 16);
    lemma_strip_is_skip(s, 1);
    let t = spec_strip_hashes(s);
    assert(t =~= s.skip(1));
    assert(t[0] == spec_hex_char(c.red as nat / 16));
    assert(t[1] == spec_hex_char(c.red as nat % 16));
    assert(t[2] == spec_hex_char(c.green as nat / 16));
    assert(t[3] == spec_hex_char(c.green as nat % 16));
    assert(t[4] == spec_hex_char(c.blue as nat / 16));
    assert(t[5] == spec_hex_char(c.blue as nat % 16));
    assert(spec_hex_val(t[0]) * 16 + spec_hex_val(t[1]) == c.red);
    assert(spec_hex_val(t[2]) * 16 + spec_hex_val(t[3]) == c.green);
    assert(spec_hex_val(t[4]) * 16 + spec_hex_val(t[5]) == c.blue);
}

/// The eight-slot color palette of a rank card.
#[derive(Clone, Copy, Debug, PartialEq, Eq, Structural)]
pub struct Colors {
    pub important: Color,
    pub secondary: Color,
    pub rank: Color,
    pub level: Color,
    pub border: Color,
    pub background: Color,
    pub progress_foreground: Color,
    pub progress_background: Color,
}

/// The hard-coded default for the important-text slot.
pub open spec fn spec_default_important() -> Color {
    Color { red: 255, green: 255, blue: 255 }
}

/// The hard-coded default for the secondary-text slot.
pub open spec fn spec_default_secondary() -> Color {
    Color { red: 204, green: 204, blue: 204 }
}

/// The hard-coded default for the rank slot.
pub open spec fn spec_default_rank() -> Color {
    Color { red: 255, green: 255, blue: 255 }
}

/// The hard-coded default for the level slot.
pub open spec fn spec_default_level() -> Color {
    Color { red: 143, green: 202, blue: 92 }
}

/// The hard-coded default for the border slot.
pub open spec fn spec_default_border() -> Color {
    Color { red: 133, green: 79, blue: 43 }
}

/// The hard-coded default for the background slot.
pub open spec fn spec_default_background() -> Color {
    Color { red: 97, green: 55, blue: 31 }
}

/// The hard-coded default for the progress-bar foreground slot.
pub open spec fn spec_default_progress_foreground() -> Color {
    Color { red: 71, green: 122, blue: 30 }
}

/// The hard-coded default for the progress-bar background slot.
pub open spec fn spec_default_progress_background() -> Color {
    Color { red: 143, green: 202, blue: 92 }
}

/// The all-default palette.
pub open spec fn spec_default_colors() -> Colors {
    Colors {
        important: spec_default_important(),
        secondary: spec_default_secondary(),
        rank: spec_default_rank(),
        level: spec_default_level(),
        border: spec_default_border(),
        background: spec_default_background(),
        progress_foreground: spec_default_progress_foreground(),
        progress_background: spec_default_progress_background(),
    }
}

impl Default for Colors {
    /// The palette with every slot at its hard-coded default.
    fn default() -> (r: Self)
        ensures
            r == spec_default_colors(),
    {
        Colors {
            important: Color { red: 255, green: 255, blue: 255 },
            secondary: Color { red: 204, green: 204, blue: 204 },
            rank: Color { red: 255, green: 255, blue: 255 },
            level: Color { red: 143, green: 202, blue: 92 },
            border: Color { red: 133, green: 79, blue: 43 },
            background: Color { red: 97, green: 55, blue: 31 },
            progress_foreground: Color { red: 71, green: 122, blue: 30 },
            progress_background: Color { red: 143, green: 202, blue: 92 },
        }
    }
}

} // verus!
