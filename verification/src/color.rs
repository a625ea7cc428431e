//! Colors: 24-bit RGB triplets and the service's named color palette.

use vstd::prelude::*;
use vstd::string::StrSliceExecFns;
use vstd::string::StringExecFns;
use crate::util::str_eq;

verus! {

/// A 24-bit triplet for hex colors. Defaults to white, `(0xFF, 0xFF, 0xFF)`.
#[derive(Debug, PartialEq, Eq, Copy, Clone, Structural)]
pub struct RGB(pub u8, pub u8, pub u8);

/// A whitespace character, for trimming.
pub open spec fn is_space(c: char) -> bool {
    c == ' ' || c == '\t' || c == '\r' || c == '\n'
}

/// `s` with its leading whitespace dropped.
pub open spec fn trim_front(s: Seq<char>) -> Seq<char>
    decreases s.len(),
{
    if s.len() > 0 && is_space(s[0]) {
        trim_front(s.skip(1))
    } else {
        s
    }
}

/// `s` with its trailing whitespace dropped.
pub open spec fn trim_back(s: Seq<char>) -> Seq<char>
    decreases s.len(),
{
    if s.len() > 0 && is_space(s.last()) {
        trim_back(s.drop_last())
    } else {
        s
    }
}

/// `s` with whitespace dropped on both sides.
pub open spec fn spec_trim(s: Seq<char>) -> Seq<char> {
    trim_back(trim_front(s))
}

/// A hexadecimal digit.
pub open spec fn is_hex_digit(c: char) -> bool {
    (48 <= c as u32 <= 57) || (97 <= c as u32 <= 102) || (65 <= c as u32 <= 70)
}

/// The value of a hexadecimal digit.
pub open spec fn hex_val(c: char) -> int {
    if 48 <= c as u32 <= 57 {
        c as u32 - 48
    } else if 97 <= c as u32 <= 102 {
        c as u32 - 87
    } else {
        c as u32 - 55
    }
}

/// Six hexadecimal digits spell a color, two digits per component.
pub open spec fn all_hex6(h: Seq<char>) -> bool {
    h.len() == 6 && forall|j: int| 0 <= j < 6 ==> is_hex_digit(#[trigger] h[j])
}

/// The color six hexadecimal digits spell.
pub open spec fn rgb_of_hex6(h: Seq<char>) -> RGB {
    RGB(
        (hex_val(h[0]) * 16 + hex_val(h[1])) as u8,
        (hex_val(h[2]) * 16 + hex_val(h[3])) as u8,
        (hex_val(h[4]) * 16 + hex_val(h[5])) as u8,
    )
}

/// What `RGB::from_hex` yields: the color the trimmed `#RRGGBB` or `RRGGBB`
/// string spells, or white when the string spells none.
pub open spec fn spec_from_hex(s: Seq<char>) -> RGB {
    let t = spec_trim(s);
    if t.len() == 7 && t[0] == '#' && all_hex6(t.skip(1)) {
        rgb_of_hex6(t.skip(1))
    } else if all_hex6(t) {
        rgb_of_hex6(t)
    } else {
        RGB(255, 255, 255)
    }
}

/// Dropping a whitespace prefix is what `trim_front` does.
proof fn lemma_trim_front(s: Seq<char>, f: int)
    requires
        0 <= f <= s.len(),
        forall|j: int| 0 <= j < f ==> is_space(#[trigger] s[j]),
        f < s.len() ==> !is_space(s[f]),
    ensures
        trim_front(s) == s.skip(f),
    decreases f,
{
    if f == 0 {
        if s.len() > 0 && is_space(s[0]) {
            assert(false);
        }
        assert(s.skip(0) =~= s);
    } else {
        lemma_trim_front(s.skip(1), f - 1);
        assert(s.skip(1).skip(f - 1) =~= s.skip(f));
    }
}

/// Dropping a whitespace suffix is what `trim_back` does.
proof fn lemma_trim_back(s: Seq<char>, l: int)
    requires
        0 <= l <= s.len(),
        forall|j: int| l <= j < s.len() ==> is_space(#[trigger] s[j]),
        l > 0 ==> !is_space(s[l - 1]),
    ensures
        trim_back(s) == s.take(l),
    decreases s.len() - l,
{
    if l == s.len() {
        if s.len() > 0 && is_space(s.last()) {
            assert(false);
        }
        assert(s.take(l) =~= s);
    } else {
        lemma_trim_back(s.drop_last(), l);
        assert(s.drop_last().take(l) =~= s.take(l));
    }
}

/// The hexadecimal digit at position `i`, or `None` when the character
/// there is no such digit.
fn hex_digit_at(s: &str, i: usize) -> (r: Option<u8>)
    requires
        i < s@.len(),
    ensures
        match r {
            Some(v) => is_hex_digit(s@[i as int]) && v == hex_val(s@[i as int]) && v < 16,
            None => !is_hex_digit(s@[i as int]),
        },
{
    let c = s.get_char(i);
    let d = c as u32;
    if 48 <= d && d <= 57 {
        Some((d - 48) as u8)
    } else if 97 <= d && d <= 102 {
        Some((d - 87) as u8)
    } else if 65 <= d && d <= 70 {
        Some((d - 55) as u8)
    } else {
        None
    }
}

/// The color the six hexadecimal digits starting at `from` spell, or `None`
/// when one of them is no such digit.
fn rgb_at(s: &str, from: usize) -> (r: Option<RGB>)
    requires
        from + 6 <= s@.len() <= usize::MAX,
    ensures
        match r {
            Some(v) => {
                &&& forall|j: int| from <= j < from + 6 ==> is_hex_digit(#[trigger] s@[j])
                &&& v == rgb_of_hex6(s@.subrange(from as int, from as int + 6))
            },
            None => !(forall|j: int| from <= j < from + 6 ==> is_hex_digit(#[trigger] s@[j])),
        },
{
    let ghost h = s@.subrange(from as int, from as int + 6);
    let d0 = hex_digit_at(s, from);
    let d1 = hex_digit_at(s, from + 1);
    let d2 = hex_digit_at(s, from + 2);
    let d3 = hex_digit_at(s, from + 3);
    let d4 = hex_digit_at(s, from + 4);
    let d5 = hex_digit_at(s, from + 5);
    match (d0, d1, d2, d3, d4, d5) {
        (Some(a), Some(b), Some(c), Some(d), Some(e), Some(f)) => {
            proof {
                assert(forall|j: int| 0 <= j < 6 ==> h[j] == s@[from + j]);
            }
            Some(RGB(a * 16 + b, c * 16 + d, e * 16 + f))
        },
        _ => None,
    }
}

impl Default for RGB {
    /// The default color: white, `#FFFFFF`.
    fn default() -> (r: Self)
        ensures
            r == RGB(255u8, 255u8, 255u8),
    {
        RGB(255, 255, 255)
    }
}

impl RGB {
    /// Parse a `#RRGGBB` or `RRGGBB` string (whitespace around it ignored)
    /// into a color; anything else yields the default white.
    pub fn from_hex(input: &str) -> (r: Self)
        ensures
            r == spec_from_hex(input@),
    {
        let n = input.unicode_len();
        // Trim whitespace on both sides.
        let mut f: usize = 0;
        while f < n && is_space_exec(input.get_char(f))
            invariant
                0 <= f <= n,
                n == input@.len(),
                forall|j: int| 0 <= j < f ==> is_space(#[trigger] input@[j]),
            decreases n - f,
        {
            f = f + 1;
        }
        let mut l: usize = n;
        while l > f && is_space_exec(input.get_char(l - 1))
            invariant
                f <= l <= n,
                n == input@.len(),
                forall|j: int| l <= j < n ==> is_space(#[trigger] input@[j]),
            decreases l,
        {
            l = l - 1;
        }
        let ghost front = input@.skip(f as int);
        proof {
            lemma_trim_front(input@, f as int);
            if l == f {
                lemma_trim_back(front, 0);
            } else {
                assert(front[l - f - 1] == input@[l - 1]);
                assert(!is_space(front[l - f - 1]));
                lemma_trim_back(front, l - f as int);
            }
            assert(spec_trim(input@) =~= input@.subrange(f as int, l as int));
        }
        let t_len = l - f;
        if t_len == 7 && input.get_char(f) == '#' {
            match rgb_at(input, f + 1) {
                Some(v) => {
                    proof {
                        let t = spec_trim(input@);
                        assert(t.skip(1) =~= input@.subrange(f as int + 1, f as int + 7));
                        assert(forall|j: int|
                            0 <= j < 6 ==> t.skip(1)[j] == input@[f as int + 1 + j]);
                        assert(all_hex6(t.skip(1)));
                    }
                    v
                },
                None => {
                    proof {
                        let t = spec_trim(input@);
                        assert(forall|j: int|
                            0 <= j < 6 ==> t.skip(1)[j] == input@[f as int + 1 + j]);
                        assert(!all_hex6(t.skip(1))) by {
                            if all_hex6(t.skip(1)) {
                                assert(forall|j: int|
                                    f + 1 <= j < f + 7 ==> is_hex_digit(#[trigger] input@[j])
                                        == is_hex_digit(t.skip(1)[j - f - 1]));
                                assert(false);
                            }
                        }
                        assert(t.len() != 6);
                    }
                    RGB(255, 255, 255)
                },
            }
        } else if t_len == 6 {
            match rgb_at(input, f) {
                Some(v) => {
                    proof {
                        let t = spec_trim(input@);
                        assert(forall|j: int| 0 <= j < 6 ==> t[j] == input@[f as int + j]);
                        assert(all_hex6(t));
                        assert(!(t.len() == 7));
                    }
                    v
                },
                None => {
                    proof {
                        let t = spec_trim(input@);
                        assert(forall|j: int| 0 <= j < 6 ==> t[j] == input@[f as int + j]);
                        assert(!all_hex6(t)) by {
                            if all_hex6(t) {
                                assert(forall|j: int|
                                    f <= j < f + 6 ==> is_hex_digit(#[trigger] input@[j])
                                        == is_hex_digit(t[j - f]));
                                assert(false);
                            }
                        }
                    }
                    RGB(255, 255, 255)
                },
            }
        } else {
            proof {
                let t = spec_trim(input@);
                assert(t.len() != 6 && !(t.len() == 7 && t[0] == '#'));
            }
            RGB(255, 255, 255)
        }
    }

    /// The `red` component.
    pub fn red(self) -> (r: u8)
        ensures
            r == self.0,
    {
        self.0
    }

    /// The `green` component.
    pub fn green(self) -> (r: u8)
        ensures
            r == self.1,
    {
        self.1
    }

    /// The `blue` component.
    pub fn blue(self) -> (r: u8)
        ensures
            r == self.2,
    {
        self.2
    }
}

/// Whether this character counts as whitespace for trimming.
fn is_space_exec(c: char) -> (r: bool)
    ensures
        r == is_space(c),
{
    c == ' ' || c == '\t' || c == '\r' || c == '\n'
}

/// The default colors of the service. A `Turbo` color is a custom
/// user-selected one.
#[derive(Debug, PartialEq, Eq, Copy, Clone, Structural)]
pub enum Trovo {
    /// RGB (hex): `#0000FF`.
    Blue,
    /// RGB (hex): `#8A2BE2`.
    BlueViolet,
    /// RGB (hex): `#5F9EA0`.
    CadetBlue,
    /// RGB (hex): `#D2691E`.
    Chocolate,
    /// RGB (hex): `#FF7F50`.
    Coral,
    /// RGB (hex): `#1E90FF`.
    DodgerBlue,
    /// RGB (hex): `#B22222`.
    Firebrick,
    /// RGB (hex): `#DAA520`.
    GoldenRod,
    /// RGB (hex): `#008000`.
    Green,
    /// RGB (hex): `#FF69B4`.
    HotPink,
    /// RGB (hex): `#FF4500`.
    OrangeRed,
    /// RGB (hex): `#FF0000`.
    Red,
    /// RGB (hex): `#2E8B57`.
    SeaGreen,
    /// RGB (hex): `#00FF7F`.
    SpringGreen,
    /// RGB (hex): `#ADFF2F`.
    YellowGreen,
    /// A custom user-selected color.
    Turbo(RGB),
}

/// The palette: each named color beside its triplet.
pub open spec fn spec_trovo_colors() -> Seq<(Trovo, RGB)> {
    seq![
        (Trovo::Blue, RGB(0x00, 0x00, 0xFF)),
        (Trovo::BlueViolet, RGB(0x8A, 0x2B, 0xE2)),
        (Trovo::CadetBlue, RGB(0x5F, 0x9E, 0xA0)),
        (Trovo::Chocolate, RGB(0xD2, 0x69, 0x1E)),
        (Trovo::Coral, RGB(0xFF, 0x7F, 0x50)),
        (Trovo::DodgerBlue, RGB(0x1E, 0x90, 0xFF)),
        (Trovo::Firebrick, RGB(0xB2, 0x22, 0x22)),
        (Trovo::GoldenRod, RGB(0xDA, 0xA5, 0x20)),
        (Trovo::Green, RGB(0x00, 0x80, 0x00)),
        (Trovo::HotPink, RGB(0xFF, 0x69, 0xB4)),
        (Trovo::OrangeRed, RGB(0xFF, 0x45, 0x00)),
        (Trovo::Red, RGB(0xFF, 0x00, 0x00)),
        (Trovo::SeaGreen, RGB(0x2E, 0x8B, 0x57)),
        (Trovo::SpringGreen, RGB(0x00, 0xFF, 0x7F)),
        (Trovo::YellowGreen, RGB(0xAD, 0xFF, 0x2F)),
    ]
}

/// The default palette, each named color beside its triplet.
pub fn trovo_colors() -> (r: Vec<(Trovo, RGB)>)
    ensures
        r@ == spec_trovo_colors(),
{
    let mut out: Vec<(Trovo, RGB)> = Vec::new();
    out.push((Trovo::Blue, RGB(0x00, 0x00, 0xFF)));
    out.push((Trovo::BlueViolet, RGB(0x8A, 0x2B, 0xE2)));
    out.push((Trovo::CadetBlue, RGB(0x5F, 0x9E, 0xA0)));
    out.push((Trovo::Chocolate, RGB(0xD2, 0x69, 0x1E)));
    out.push((Trovo::Coral, RGB(0xFF, 0x7F, 0x50)));
    out.push((Trovo::DodgerBlue, RGB(0x1E, 0x90, 0xFF)));
    out.push((Trovo::Firebrick, RGB(0xB2, 0x22, 0x22)));
    out.push((Trovo::GoldenRod, RGB(0xDA, 0xA5, 0x20)));
    out.push((Trovo::Green, RGB(0x00, 0x80, 0x00)));
    out.push((Trovo::HotPink, RGB(0xFF, 0x69, 0xB4)));
    out.push((Trovo::OrangeRed, RGB(0xFF, 0x45, 0x00)));
    out.push((Trovo::Red, RGB(0xFF, 0x00, 0x00)));
    out.push((Trovo::SeaGreen, RGB(0x2E, 0x8B, 0x57)));
    out.push((Trovo::SpringGreen, RGB(0x00, 0xFF, 0x7F)));
    out.push((Trovo::YellowGreen, RGB(0xAD, 0xFF, 0x2F)));
    proof {
        assert(out@ =~= spec_trovo_colors());
    }
    out
}

/// The triplet of a named color; a `Turbo` color carries its own.
pub open spec fn spec_rgb_of(c: Trovo) -> RGB {
    match c {
        Trovo::Blue => RGB(0x00, 0x00, 0xFF),
        Trovo::BlueViolet => RGB(0x8A, 0x2B, 0xE2),
        Trovo::CadetBlue => RGB(0x5F, 0x9E, 0xA0),
        Trovo::Chocolate => RGB(0xD2, 0x69, 0x1E),
        Trovo::Coral => RGB(0xFF, 0x7F, 0x50),
        Trovo::DodgerBlue => RGB(0x1E, 0x90, 0xFF),
        Trovo::Firebrick => RGB(0xB2, 0x22, 0x22),
        Trovo::GoldenRod => RGB(0xDA, 0xA5, 0x20),
        Trovo::Green => RGB(0x00, 0x80, 0x00),
        Trovo::HotPink => RGB(0xFF, 0x69, 0xB4),
        Trovo::OrangeRed => RGB(0xFF, 0x45, 0x00),
        Trovo::Red => RGB(0xFF, 0x00, 0x00),
        Trovo::SeaGreen => RGB(0x2E, 0x8B, 0x57),
        Trovo::SpringGreen => RGB(0x00, 0xFF, 0x7F),
        Trovo::YellowGreen => RGB(0xAD, 0xFF, 0x2F),
        Trovo::Turbo(rgb) => rgb,
    }
}

/// The named color of a triplet: the first palette entry that carries it,
/// else `Turbo` with the triplet itself.
pub open spec fn spec_trovo_of(rgb: RGB) -> Trovo {
    if rgb == RGB(0x00, 0x00, 0xFF) {
        Trovo::Blue
    } else if rgb == RGB(0x8A, 0x2B, 0xE2) {
        Trovo::BlueViolet
    } else if rgb == RGB(0x5F, 0x9E, 0xA0) {
        Trovo::CadetBlue
    } else if rgb == RGB(0xD2, 0x69, 0x1E) {
        Trovo::Chocolate
    } else if rgb == RGB(0xFF, 0x7F, 0x50) {
        Trovo::Coral
    } else if rgb == RGB(0x1E, 0x90, 0xFF) {
        Trovo::DodgerBlue
    } else if rgb == RGB(0xB2, 0x22, 0x22) {
        Trovo::Firebrick
    } else if rgb == RGB(0xDA, 0xA5, 0x20) {
        Trovo::GoldenRod
    } else if rgb == RGB(0x00, 0x80, 0x00) {
        Trovo::Green
    } else if rgb == RGB(0xFF, 0x69, 0xB4) {
        Trovo::HotPink
    } else if rgb == RGB(0xFF, 0x45, 0x00) {
        Trovo::OrangeRed
    } else if rgb == RGB(0xFF, 0x00, 0x00) {
        Trovo::Red
    } else if rgb == RGB(0x2E, 0x8B, 0x57) {
        Trovo::SeaGreen
    } else if rgb == RGB(0x00, 0xFF, 0x7F) {
        Trovo::SpringGreen
    } else if rgb == RGB(0xAD, 0xFF, 0x2F) {
        Trovo::YellowGreen
    } else {
        Trovo::Turbo(rgb)
    }
}

/// The color a name refers to: a palette name in any of its spellings, or
/// the color a hex string spells.
pub open spec fn spec_trovo_from_name(s: Seq<char>) -> Trovo {
    if s == "Blue"@ || s == "blue"@ {
        Trovo::Blue
    } else if s == "BlueViolet"@ || s == "blue_violet"@ || s == "blueviolet"@ || s
        == "blue violet"@ {
        Trovo::BlueViolet
    } else if s == "CadetBlue"@ || s == "cadet_blue"@ || s == "cadetblue"@ || s == "cadet blue"@ {
        Trovo::CadetBlue
    } else if s == "Chocolate"@ || s == "chocolate"@ {
        Trovo::Chocolate
    } else if s == "Coral"@ || s == "coral"@ {
        Trovo::Coral
    } else if s == "DodgerBlue"@ || s == "dodger_blue"@ || s == "dodgerblue"@ || s
        == "dodger blue"@ {
        Trovo::DodgerBlue
    } else if s == "Firebrick"@ || s == "firebrick"@ {
        Trovo::Firebrick
    } else if s == "GoldenRod"@ || s == "golden_rod"@ || s == "goldenrod"@ || s == "golden rod"@ {
        Trovo::GoldenRod
    } else if s == "Green"@ || s == "green"@ {
        Trovo::Green
    } else if s == "HotPink"@ || s == "hot_pink"@ || s == "hotpink"@ || s == "hot pink"@ {
        Trovo::HotPink
    } else if s == "OrangeRed"@ || s == "orange_red"@ || s == "orangered"@ || s == "orange red"@ {
        Trovo::OrangeRed
    } else if s == "Red"@ || s == "red"@ {
        Trovo::Red
    } else if s == "SeaGreen"@ || s == "sea_green"@ || s == "seagreen"@ || s == "sea green"@ {
        Trovo::SeaGreen
    } else if s == "SpringGreen"@ || s == "spring_green"@ || s == "springgreen"@ || s
        == "spring green"@ {
        Trovo::SpringGreen
    } else if s == "YellowGreen"@ || s == "yellow_green"@ || s == "yellowgreen"@ || s
        == "yellow green"@ {
        Trovo::YellowGreen
    } else {
        Trovo::Turbo(spec_from_hex(s))
    }
}

impl Default for Trovo {
    /// The default color: `Turbo` white.
    fn default() -> (r: Self)
        ensures
            r == Trovo::Turbo(RGB(255u8, 255u8, 255u8)),
    {
        Trovo::Turbo(RGB(255, 255, 255))
    }
}

impl Trovo {
    /// The triplet of this color.
    pub fn into_rgb(self) -> (r: RGB)
        ensures
            r == spec_rgb_of(self),
    {
        match self {
            Trovo::Blue => RGB(0x00, 0x00, 0xFF),
            Trovo::BlueViolet => RGB(0x8A, 0x2B, 0xE2),
            Trovo::CadetBlue => RGB(0x5F, 0x9E, 0xA0),
            Trovo::Chocolate => RGB(0xD2, 0x69, 0x1E),
            Trovo::Coral => RGB(0xFF, 0x7F, 0x50),
            Trovo::DodgerBlue => RGB(0x1E, 0x90, 0xFF),
            Trovo::Firebrick => RGB(0xB2, 0x22, 0x22),
            Trovo::GoldenRod => RGB(0xDA, 0xA5, 0x20),
            Trovo::Green => RGB(0x00, 0x80, 0x00),
            Trovo::HotPink => RGB(0xFF, 0x69, 0xB4),
            Trovo::OrangeRed => RGB(0xFF, 0x45, 0x00),
            Trovo::Red => RGB(0xFF, 0x00, 0x00),
            Trovo::SeaGreen => RGB(0x2E, 0x8B, 0x57),
            Trovo::SpringGreen => RGB(0x00, 0xFF, 0x7F),
            Trovo::YellowGreen => RGB(0xAD, 0xFF, 0x2F),
            Trovo::Turbo(rgb) => rgb,
        }
    }

    /// The named color of a triplet, else `Turbo` with the triplet itself.
    pub fn from_rgb(rgb: RGB) -> (r: Trovo)
        ensures
            r == spec_trovo_of(rgb),
    {
        if rgb == RGB(0x00, 0x00, 0xFF) {
            Trovo::Blue
        } else if rgb == RGB(0x8A, 0x2B, 0xE2) {
            Trovo::BlueViolet
        } else if rgb == RGB(0x5F, 0x9E, 0xA0) {
            Trovo::CadetBlue
        } else if rgb == RGB(0xD2, 0x69, 0x1E) {
            Trovo::Chocolate
        } else if rgb == RGB(0xFF, 0x7F, 0x50) {
            Trovo::Coral
        } else if rgb == RGB(0x1E, 0x90, 0xFF) {
            Trovo::DodgerBlue
        } else if rgb == RGB(0xB2, 0x22, 0x22) {
            Trovo::Firebrick
        } else if rgb == RGB(0xDA, 0xA5, 0x20) {
            Trovo::GoldenRod
        } else if rgb == RGB(0x00, 0x80, 0x00) {
            Trovo::Green
        } else if rgb == RGB(0xFF, 0x69, 0xB4) {
            Trovo::HotPink
        } else if rgb == RGB(0xFF, 0x45, 0x00) {
            Trovo::OrangeRed
        } else if rgb == RGB(0xFF, 0x00, 0x00) {
            Trovo::Red
        } else if rgb == RGB(0x2E, 0x8B, 0x57) {
            Trovo::SeaGreen
        } else if rgb == RGB(0x00, 0xFF, 0x7F) {
            Trovo::SpringGreen
        } else if rgb == RGB(0xAD, 0xFF, 0x2F) {
            Trovo::YellowGreen
        } else {
            Trovo::Turbo(rgb)
        }
    }

    /// The color a name refers to: a palette name in any of its spellings,
    /// or a `#RRGGBB`/`RRGGBB` string.
    pub fn from_name(input: &str) -> (r: Trovo)
        ensures
            r == spec_trovo_from_name(input@),
    {
        if str_eq(input, "Blue") || str_eq(input, "blue") {
            Trovo::Blue
        } else if str_eq(input, "BlueViolet") || str_eq(input, "blue_violet") || str_eq(
            input,
            "blueviolet",
        ) || str_eq(input, "blue violet") {
            Trovo::BlueViolet
        } else if str_eq(input, "CadetBlue") || str_eq(input, "cadet_blue") || str_eq(
            input,
            "cadetblue",
        ) || str_eq(input, "cadet blue") {
            Trovo::CadetBlue
        } else if str_eq(input, "Chocolate") || str_eq(input, "chocolate") {
            Trovo::Chocolate
        } else if str_eq(input, "Coral") || str_eq(input, "coral") {
            Trovo::Coral
        } else if str_eq(input, "DodgerBlue") || str_eq(input, "dodger_blue") || str_eq(
            input,
            "dodgerblue",
        ) || str_eq(input, "dodger blue") {
            Trovo::DodgerBlue
        } else if str_eq(input, "Firebrick") || str_eq(input, "firebrick") {
            Trovo::Firebrick
        } else if str_eq(input, "GoldenRod") || str_eq(input, "golden_rod") || str_eq(
            input,
            "goldenrod",
        ) || str_eq(input, "golden rod") {
            Trovo::GoldenRod
        } else if str_eq(input, "Green") || str_eq(input, "green") {
            Trovo::Green
        } else if str_eq(input, "HotPink") || str_eq(input, "hot_pink") || str_eq(input, "hotpink")
            || str_eq(input, "hot pink") {
            Trovo::HotPink
        } else if str_eq(input, "OrangeRed") || str_eq(input, "orange_red") || str_eq(
            input,
            "orangered",
        ) || str_eq(input, "orange red") {
            Trovo::OrangeRed
        } else if str_eq(input, "Red") || str_eq(input, "red") {
            Trovo::Red
        } else if str_eq(input, "SeaGreen") || str_eq(input, "sea_green") || str_eq(
            input,
            "seagreen",
        ) || str_eq(input, "sea green") {
            Trovo::SeaGreen
        } else if str_eq(input, "SpringGreen") || str_eq(input, "spring_green") || str_eq(
            input,
            "springgreen",
        ) || str_eq(input, "spring green") {
            Trovo::SpringGreen
        } else if str_eq(input, "YellowGreen") || str_eq(input, "yellow_green") || str_eq(
            input,
            "yellowgreen",
        ) || str_eq(input, "yellow green") {
            Trovo::YellowGreen
        } else {
            Trovo::Turbo(RGB::from_hex(input))
        }
    }
}

/// The character of one hexadecimal digit, upper case.
pub open spec fn hex_char_of(d: int) -> char {
    if d == 0 {
        '0'
    } else if d == 1 {
        '1'
    } else if d == 2 {
        '2'
    } else if d == 3 {
        '3'
    } else if d == 4 {
        '4'
    } else if d == 5 {
        '5'
    } else if d == 6 {
        '6'
    } else if d == 7 {
        '7'
    } else if d == 8 {
        '8'
    } else if d == 9 {
        '9'
    } else if d == 10 {
        'A'
    } else if d == 11 {
        'B'
    } else if d == 12 {
        'C'
    } else if d == 13 {
        'D'
    } else if d == 14 {
        'E'
    } else {
        'F'
    }
}

/// The `#RRGGBB` spelling of a triplet, upper case.
pub open spec fn spec_hex_of_rgb(c: RGB) -> Seq<char> {
    seq![
        '#',
        hex_char_of(c.0 as int / 16),
        hex_char_of(c.0 as int % 16),
        hex_char_of(c.1 as int / 16),
        hex_char_of(c.1 as int % 16),
        hex_char_of(c.2 as int / 16),
        hex_char_of(c.2 as int % 16),
    ]
}

/// The character of one hexadecimal digit, upper case.
fn hex_digit_str(d: u8) -> (r: &'static str)
    requires
        d < 16,
    ensures
        r@ == seq![hex_char_of(d as int)],
{
    proof {
        reveal_strlit("0");
        reveal_strlit("1");
        reveal_strlit("2");
        reveal_strlit("3");
        reveal_strlit("4");
        reveal_strlit("5");
        reveal_strlit("6");
        reveal_strlit("7");
        reveal_strlit("8");
        reveal_strlit("9");
        reveal_strlit("A");
        reveal_strlit("B");
        reveal_strlit("C");
        reveal_strlit("D");
        reveal_strlit("E");
        reveal_strlit("F");
    }
    let r = if d == 0 {
        "0"
    } else if d == 1 {
        "1"
    } else if d == 2 {
        "2"
    } else if d == 3 {
        "3"
    } else if d == 4 {
        "4"
    } else if d == 5 {
        "5"
    } else if d == 6 {
        "6"
    } else if d == 7 {
        "7"
    } else if d == 8 {
        "8"
    } else if d == 9 {
        "9"
    } else if d == 10 {
        "A"
    } else if d == 11 {
        "B"
    } else if d == 12 {
        "C"
    } else if d == 13 {
        "D"
    } else if d == 14 {
        "E"
    } else {
        "F"
    };
    proof {
        assert(r@ =~= seq![hex_char_of(d as int)]);
    }
    r
}

impl RGB {
    /// The `#RRGGBB` spelling of this color, upper case.
    pub fn hex_string(&self) -> (r: String)
        ensures
            r@ == spec_hex_of_rgb(*self),
    {
        let mut out = String::new();
        out.append("#");
        out.append(hex_digit_str(self.0 / 16));
        out.append(hex_digit_str(self.0 % 16));
        out.append(hex_digit_str(self.1 / 16));
        out.append(hex_digit_str(self.1 % 16));
        out.append(hex_digit_str(self.2 / 16));
        out.append(hex_digit_str(self.2 % 16));
        proof {
            reveal_strlit("#");
            assert(out@ =~= spec_hex_of_rgb(*self));
        }
        out
    }
}

impl Trovo {
    /// The color's name, as the service lists it; a `Turbo` color is named
    /// by its `#RRGGBB` spelling.
    pub fn name(&self) -> (r: String)
        ensures
            r@ == self.spec_color_name(),
    {
        match self {
            Trovo::Blue => String::from_str("Blue"),
            Trovo::BlueViolet => String::from_str("BlueViolet"),
            Trovo::CadetBlue => String::from_str("CadetBlue"),
            Trovo::Chocolate => String::from_str("Chocolate"),
            Trovo::Coral => String::from_str("Coral"),
            Trovo::DodgerBlue => String::from_str("DodgerBlue"),
            Trovo::Firebrick => String::from_str("Firebrick"),
            Trovo::GoldenRod => String::from_str("GoldenRod"),
            Trovo::Green => String::from_str("Green"),
            Trovo::HotPink => String::from_str("HotPink"),
            Trovo::OrangeRed => String::from_str("OrangeRed"),
            Trovo::Red => String::from_str("Red"),
            Trovo::SeaGreen => String::from_str("SeaGreen"),
            Trovo::SpringGreen => String::from_str("SpringGreen"),
            Trovo::YellowGreen => String::from_str("YellowGreen"),
            Trovo::Turbo(rgb) => rgb.hex_string(),
        }
    }

    /// The color's name, as the service lists it.
    pub open spec fn spec_color_name(self) -> Seq<char> {
        match self {
            Trovo::Blue => "Blue"@,
            Trovo::BlueViolet => "BlueViolet"@,
            Trovo::CadetBlue => "CadetBlue"@,
            Trovo::Chocolate => "Chocolate"@,
            Trovo::Coral => "Coral"@,
            Trovo::DodgerBlue => "DodgerBlue"@,
            Trovo::Firebrick => "Firebrick"@,
            Trovo::GoldenRod => "GoldenRod"@,
            Trovo::Green => "Green"@,
            Trovo::HotPink => "HotPink"@,
            Trovo::OrangeRed => "OrangeRed"@,
            Trovo::Red => "Red"@,
            Trovo::SeaGreen => "SeaGreen"@,
            Trovo::SpringGreen => "SpringGreen"@,
            Trovo::YellowGreen => "YellowGreen"@,
            Trovo::Turbo(rgb) => spec_hex_of_rgb(rgb),
        }
    }
}

} // verus!
