//! The font catalog: a fixed, closed set of font styles, each substituting
//! the ASCII letters and digits with decorated Unicode counterparts.
//!
//! The substitution of one character is given by [`decorate`]; the source
//! domain `a-z A-Z 0-9` is indexed by [`char_index`] and [`source_char`].

use vstd::prelude::*;

verus! {

/// One style out of the fixed catalog, used as the key for its character
/// mapping.
#[derive(Clone, Copy, Debug, PartialEq, Eq, Structural)]
pub enum Font {
    Bold,
    Italic,
    BoldItalic,
    Sans,
    BoldSans,
    ItalicSans,
    BoldItalicSans,
    Script,
    BoldScript,
    Fraktur,
    BoldFraktur,
    Monospace,
    Blackboard,
    Emoji,
}

/// Position of `c` inside the source domain `a-z A-Z 0-9`, in that order,
/// or `-1` when `c` lies outside the domain.
pub open spec fn char_index(c: char) -> int {
    let u = c as int;
    if 97 <= u <= 122 {
        u - 97
    } else if 65 <= u <= 90 {
        26 + (u - 65)
    } else if 48 <= u <= 57 {
        52 + (u - 48)
    } else {
        -1
    }
}

/// Whether `c` belongs to the source domain of every font mapping.
pub open spec fn in_domain(c: char) -> bool {
    char_index(c) >= 0
}

/// The source-domain character at position `k`, for `0 <= k < 62`.
pub open spec fn source_char(k: int) -> char
    recommends
        0 <= k < 62,
{
    if k < 26 {
        (97 + k) as char
    } else if k < 52 {
        (65 + (k - 26)) as char
    } else {
        (48 + (k - 52)) as char
    }
}

/// Moves letters into the blocks starting at `lower` and `upper`; digits and
/// characters outside the domain stay unchanged.
pub open spec fn shift_letters(c: char, lower: int, upper: int) -> char {
    let u = c as int;
    if 97 <= u <= 122 {
        (lower + (u - 97)) as char
    } else if 65 <= u <= 90 {
        (upper + (u - 65)) as char
    } else {
        c
    }
}

/// Moves letters and digits into the blocks starting at `lower`, `upper` and
/// `digit`; characters outside the domain stay unchanged.
pub open spec fn shift_alnum(c: char, lower: int, upper: int, digit: int) -> char {
    let u = c as int;
    if 48 <= u <= 57 {
        (digit + (u - 48)) as char
    } else {
        shift_letters(c, lower, upper)
    }
}

/// The italic style: the mathematical italic block, except that `h` has its
/// own code point (Planck constant), and digits stay plain.
pub open spec fn italic_char(c: char) -> char {
    if c == 'h' {
        '\u{210E}'
    } else {
        shift_letters(c, 0x1D44E, 0x1D434)
    }
}

/// The script style: the mathematical script block, except for the letters
/// that predate it in the letterlike-symbols block.
pub open spec fn script_char(c: char) -> char {
    match c {
        'B' => '\u{212C}',
        'E' => '\u{2130}',
        'F' => '\u{2131}',
        'H' => '\u{210B}',
        'I' => '\u{2110}',
        'L' => '\u{2112}',
        'M' => '\u{2133}',
        'R' => '\u{211B}',
        'e' => '\u{212F}',
        'g' => '\u{210A}',
        'o' => '\u{2134}',
        _ => shift_letters(c, 0x1D4B6, 0x1D49C),
    }
}

/// The fraktur style: the mathematical fraktur block, except for the letters
/// that predate it in the letterlike-symbols block.
pub open spec fn fraktur_char(c: char) -> char {
    match c {
        'C' => '\u{212D}',
        'H' => '\u{210C}',
        'I' => '\u{2111}',
        'R' => '\u{211C}',
        'Z' => '\u{2128}',
        _ => shift_letters(c, 0x1D51E, 0x1D504),
    }
}

/// The blackboard-bold style: the mathematical double-struck block, except
/// for the letters that predate it in the letterlike-symbols block.
pub open spec fn blackboard_char(c: char) -> char {
    match c {
        'C' => '\u{2102}',
        'H' => '\u{210D}',
        'N' => '\u{2115}',
        'P' => '\u{2119}',
        'Q' => '\u{211A}',
        'R' => '\u{211D}',
        'Z' => '\u{2124}',
        _ => shift_alnum(c, 0x1D552, 0x1D538, 0x1D7D8),
    }
}

/// The regional-indicator emoji style. Letters map into the regional
/// indicators; the table folds `z` back to the first indicator and gives `Y`
/// and `Z` the same last one, so the two alphabets share the 26 indicators
/// with an offset of one between them. Digits stay plain.
pub open spec fn emoji_char(c: char) -> char {
    let u = c as int;
    if 97 <= u <= 121 {
        (0x1F1E6 + (u - 97)) as char
    } else if u == 122 {
        '\u{1F1E6}'
    } else if 65 <= u <= 89 {
        (0x1F1E7 + (u - 65)) as char
    } else if u == 90 {
        '\u{1F1FF}'
    } else {
        c
    }
}

/// The destination character that `font` assigns to `c`: characters outside
/// the source domain always map to themselves.
pub open spec fn decorate(font: Font, c: char) -> char {
    match font {
        Font::Bold => shift_alnum(c, 0x1D41A, 0x1D400, 0x1D7CE),
        Font::Italic => italic_char(c),
        Font::BoldItalic => shift_letters(c, 0x1D482, 0x1D468),
        Font::Sans => shift_alnum(c, 0x1D5BA, 0x1D5A0, 0x1D7E2),
        Font::BoldSans => shift_alnum(c, 0x1D5EE, 0x1D5D4, 0x1D7EC),
        Font::ItalicSans => shift_alnum(c, 0x1D622, 0x1D608, 0x1D7EC),
        Font::BoldItalicSans => shift_alnum(c, 0x1D656, 0x1D63C, 0x1D7EC),
        Font::Script => script_char(c),
        Font::BoldScript => shift_letters(c, 0x1D4EA, 0x1D4D0),
        Font::Fraktur => fraktur_char(c),
        Font::BoldFraktur => shift_letters(c, 0x1D586, 0x1D56C),
        Font::Monospace => shift_alnum(c, 0x1D68A, 0x1D670, 0x1D7F6),
        Font::Blackboard => blackboard_char(c),
        Font::Emoji => emoji_char(c),
    }
}

/// The catalog, in the order in which candidates are offered and listed.
pub open spec fn catalog() -> Seq<Font> {
    seq![
        Font::Bold,
        Font::Italic,
        Font::BoldItalic,
        Font::Sans,
        Font::BoldSans,
        Font::ItalicSans,
        Font::BoldItalicSans,
        Font::Script,
        Font::BoldScript,
        Font::Fraktur,
        Font::BoldFraktur,
        Font::Monospace,
        Font::Blackboard,
        Font::Emoji,
    ]
}

/// Every domain character is the source character at its own index.
pub proof fn lemma_char_index_source(c: char)
    requires
        in_domain(c),
    ensures
        0 <= char_index(c) < 62,
        source_char(char_index(c)) == c,
{
}

/// Characters outside the source domain are left unchanged by every font.
pub proof fn lemma_decorate_foreign(font: Font, c: char)
    requires
        !in_domain(c),
    ensures
        decorate(font, c) == c,
{
}

/// Decorating is stable: a decorated character decorates to itself, because
/// every destination character is either outside the source domain or (for
/// the styles that keep digits plain) its own source character.
pub proof fn lemma_decorate_stable(font: Font, c: char)
    ensures
        decorate(font, decorate(font, c)) == decorate(font, c),
{
}

impl Font {
    /// Builds this font's character mapping: for each position of the source
    /// domain, the pair of the source character and its destination.
    pub fn characters(&self) -> (m: Vec<(char, char)>)
        ensures
            m@.len() == 62,
            forall|k: int|
                0 <= k < 62 ==> #[trigger] m@[k] == (source_char(k), decorate(*self, source_char(k))),
    {
        let mut m: Vec<(char, char)> = Vec::new();
        let mut k: usize = 0;
        while k < 62
            invariant
                k <= 62,
                m@.len() == k,
                forall|j: int|
                    0 <= j < k ==> #[trigger] m@[j] == (
                        source_char(j),
                        decorate(*self, source_char(j)),
                    ),
            decreases 62 - k,
        {
            let s = source_char_at(k);
            let d = decorate_char(*self, s);
            m.push((s, d));
            k += 1;
        }
        m
    }

    /// The full catalog of font styles, in its fixed order.
    pub fn list() -> (fonts: Vec<Font>)
        ensures
            fonts@ == catalog(),
    {
        let fonts: Vec<Font> = vec![
            Font::Bold,
            Font::Italic,
            Font::BoldItalic,
            Font::Sans,
            Font::BoldSans,
            Font::ItalicSans,
            Font::BoldItalicSans,
            Font::Script,
            Font::BoldScript,
            Font::Fraktur,
            Font::BoldFraktur,
            Font::Monospace,
            Font::Blackboard,
            Font::Emoji,
        ];
        proof {
            assert(fonts@ =~= catalog());
        }
        fonts
    }
}

/// Relies on `char::from_u32`: for every Unicode scalar value (any code
/// point outside the surrogate range), it returns `Some` of the `char` with
/// exactly that value, so the unwrap cannot fail.
#[verifier::external_body]
fn char_from_code(u: u32) -> (c: char)
    requires
        u < 0xD800 || (0xE000 <= u <= 0x10FFFF),
    ensures
        c as int == u as int,
{
    char::from_u32(u).unwrap()
}

/// The source-domain character at position `k`.
fn source_char_at(k: usize) -> (c: char)
    requires
        k < 62,
    ensures
        c == source_char(k as int),
{
    if k < 26 {
        (97 + k as u8) as char
    } else if k < 52 {
        (65 + (k as u8 - 26)) as char
    } else {
        (48 + (k as u8 - 52)) as char
    }
}

/// Computes `shift_letters` at runtime for blocks of valid scalar values.
fn shift_letters_char(c: char, lower: u32, upper: u32) -> (r: char)
    requires
        0xE000 <= lower,
        lower + 25 <= 0x10FFFF,
        0xE000 <= upper,
        upper + 25 <= 0x10FFFF,
    ensures
        r == shift_letters(c, lower as int, upper as int),
{
    let u = c as u32;
    if 97 <= u && u <= 122 {
        char_from_code(lower + (u - 97))
    } else if 65 <= u && u <= 90 {
        char_from_code(upper + (u - 65))
    } else {
        c
    }
}

/// Computes `shift_alnum` at runtime for blocks of valid scalar values.
fn shift_alnum_char(c: char, lower: u32, upper: u32, digit: u32) -> (r: char)
    requires
        0xE000 <= lower,
        lower + 25 <= 0x10FFFF,
        0xE000 <= upper,
        upper + 25 <= 0x10FFFF,
        0xE000 <= digit,
        digit + 9 <= 0x10FFFF,
    ensures
        r == shift_alnum(c, lower as int, upper as int, digit as int),
{
    let u = c as u32;
    if 48 <= u && u <= 57 {
        char_from_code(digit + (u - 48))
    } else {
        shift_letters_char(c, lower, upper)
    }
}

/// Computes [`decorate`] at runtime.
fn decorate_char(font: Font, c: char) -> (r: char)
    ensures
        r == decorate(font, c),
{
    match font {
        Font::Bold => shift_alnum_char(c, 0x1D41A, 0x1D400, 0x1D7CE),
        Font::Italic => {
            if c == 'h' {
                '\u{210E}'
            } else {
                shift_letters_char(c, 0x1D44E, 0x1D434)
            }
        },
        Font::BoldItalic => shift_letters_char(c, 0x1D482, 0x1D468),
        Font::Sans => shift_alnum_char(c, 0x1D5BA, 0x1D5A0, 0x1D7E2),
        Font::BoldSans => shift_alnum_char(c, 0x1D5EE, 0x1D5D4, 0x1D7EC),
        Font::ItalicSans => shift_alnum_char(c, 0x1D622, 0x1D608, 0x1D7EC),
        Font::BoldItalicSans => shift_alnum_char(c, 0x1D656, 0x1D63C, 0x1D7EC),
        Font::Script => match c {
            'B' => '\u{212C}',
            'E' => '\u{2130}',
            'F' => '\u{2131}',
            'H' => '\u{210B}',
            'I' => '\u{2110}',
            'L' => '\u{2112}',
            'M' => '\u{2133}',
            'R' => '\u{211B}',
            'e' => '\u{212F}',
            'g' => '\u{210A}',
            'o' => '\u{2134}',
            _ => shift_letters_char(c, 0x1D4B6, 0x1D49C),
        },
        Font::BoldScript => shift_letters_char(c, 0x1D4EA, 0x1D4D0),
        Font::Fraktur => match c {
            'C' => '\u{212D}',
            'H' => '\u{210C}',
            'I' => '\u{2111}',
            'R' => '\u{211C}',
            'Z' => '\u{2128}',
            _ => shift_letters_char(c, 0x1D51E, 0x1D504),
        },
        Font::BoldFraktur => shift_letters_char(c, 0x1D586, 0x1D56C),
        Font::Monospace => shift_alnum_char(c, 0x1D68A, 0x1D670, 0x1D7F6),
        Font::Blackboard => match c {
            'C' => '\u{2102}',
            'H' => '\u{210D}',
            'N' => '\u{2115}',
            'P' => '\u{2119}',
            'Q' => '\u{211A}',
            'R' => '\u{211D}',
            'Z' => '\u{2124}',
            _ => shift_alnum_char(c, 0x1D552, 0x1D538, 0x1D7D8),
        },
        Font::Emoji => {
            let u = c as u32;
            if 97 <= u && u <= 121 {
                char_from_code(0x1F1E6 + (u - 97))
            } else if u == 122 {
                '\u{1F1E6}'
            } else if 65 <= u && u <= 89 {
                char_from_code(0x1F1E7 + (u - 65))
            } else if u == 90 {
                '\u{1F1FF}'
            } else {
                c
            }
        },
    }
}

} // verus!
