//! The converter: turns a sequence of source characters into the decorated
//! string of one font, through a character mapping built once per font and
//! cached for the converter's lifetime.
//!
//! The mathematical result of a conversion is [`spec_convert`]: a per-
//! character substitution, plus - for the regional-indicator emoji style - a
//! zero-width joiner woven between every two output characters so that
//! consecutive indicator glyphs do not merge into country flags.

use vstd::prelude::*;

use crate::font::{
    decorate, in_domain, lemma_char_index_source, lemma_decorate_foreign, lemma_decorate_stable,
    source_char, Font,
};

verus! {

/// The zero-width joiner woven between emoji output characters.
pub const JOINER: char = '\u{200C}';

/// The per-character substitution pass of a conversion: every character of
/// `s`, in order, replaced by its destination under `font`.
pub open spec fn decorated(font: Font, s: Seq<char>) -> Seq<char> {
    s.map(|i: int, c: char| decorate(font, c))
}

/// `s` with a joiner woven between every two consecutive characters: never
/// before the first or after the last.
pub open spec fn joined(s: Seq<char>) -> Seq<char>
    decreases s.len(),
{
    if s.len() <= 1 {
        s
    } else {
        joined(s.drop_last()) + seq![JOINER, s.last()]
    }
}

/// `s` with every joiner character removed.
pub open spec fn without_joiners(s: Seq<char>) -> Seq<char>
    decreases s.len(),
{
    if s.len() == 0 {
        s
    } else if s.last() == JOINER {
        without_joiners(s.drop_last())
    } else {
        without_joiners(s.drop_last()).push(s.last())
    }
}

/// What converting `s` to `font` returns: the substitution pass, woven with
/// joiners for the emoji style.
pub open spec fn spec_convert(font: Font, s: Seq<char>) -> Seq<char> {
    if font == Font::Emoji {
        joined(decorated(font, s))
    } else {
        decorated(font, s)
    }
}

/// A cached character mapping for `font`: the pair of source and destination
/// character for each position of the source domain.
pub open spec fn mapping_ok(font: Font, m: Seq<(char, char)>) -> bool {
    &&& m.len() == 62
    &&& forall|k: int|
        0 <= k < 62 ==> #[trigger] m[k] == (source_char(k), decorate(font, source_char(k)))
}

/// Holds each offered font's mapping from plain characters to the font's
/// destination characters.
pub struct Converter {
    fonts: Vec<Font>,
    mappings: Vec<Vec<(char, char)>>,
}

impl Converter {
    /// The fonts this converter was built for, in construction order.
    pub closed spec fn spec_fonts(&self) -> Seq<Font> {
        self.fonts@
    }

    /// Each offered font has its correctly built mapping cached.
    pub closed spec fn wf(&self) -> bool {
        &&& self.mappings@.len() == self.fonts@.len()
        &&& forall|i: int|
            0 <= i < self.fonts@.len() ==> mapping_ok(self.fonts@[i], #[trigger] self.mappings@[i]@)
    }

    /// Whether `font` was among the fonts this converter was built for.
    pub open spec fn spec_has_font(&self, font: Font) -> bool {
        self.spec_fonts().contains(font)
    }

    /// Builds the converter for `fonts`, caching one character mapping per
    /// font.
    pub fn new(fonts: &[Font]) -> (converter: Self)
        ensures
            converter.wf(),
            converter.spec_fonts() == fonts@,
    {
        let n = fonts.len();
        let mut kept: Vec<Font> = Vec::new();
        let mut mappings: Vec<Vec<(char, char)>> = Vec::new();
        let mut i: usize = 0;
        while i < n
            invariant
                n == fonts@.len(),
                i <= n,
                kept@ == fonts@.subrange(0, i as int),
                mappings@.len() == i,
                forall|j: int| 0 <= j < i ==> mapping_ok(kept@[j], #[trigger] mappings@[j]@),
            decreases n - i,
        {
            let font = *vstd::slice::slice_index_get(fonts, i);
            kept.push(font);
            mappings.push(font.characters());
            proof {
                assert(kept@ =~= fonts@.subrange(0, i + 1 as int));
            }
            i += 1;
        }
        proof {
            assert(fonts@.subrange(0, n as int) =~= fonts@);
        }
        Converter { fonts: kept, mappings }
    }

    /// Converts `source` to `font`: each character is replaced by the font's
    /// destination character and characters outside `a-z A-Z 0-9` stay
    /// unchanged; the emoji style additionally receives a zero-width joiner
    /// between every two output characters.
    pub fn convert(&self, source: &[char], font: Font) -> (out: String)
        requires
            self.wf(),
            self.spec_has_font(font),
        ensures
            out@ == spec_convert(font, source@),
    {
        let ghost found = choose|j: int|
            0 <= j < self.fonts@.len() && self.fonts@[j] == font;
        let n_fonts = self.fonts.len();
        let mut fi: usize = 0;
        while self.fonts[fi] != font
            invariant
                self.wf(),
                n_fonts == self.fonts@.len(),
                0 <= found < n_fonts,
                self.fonts@[found] == font,
                fi <= found,
                forall|j: int| 0 <= j < fi ==> self.fonts@[j] != font,
            decreases found - fi,
        {
            proof {
                assert(self.fonts@[fi as int] != font);
                assert(fi < found);
            }
            fi += 1;
        }
        let mapping = &self.mappings[fi];
        let n = source.len();
        let mut plain: Vec<char> = Vec::new();
        let mut i: usize = 0;
        while i < n
            invariant
                n == source@.len(),
                i <= n,
                mapping_ok(font, mapping@),
                plain@ == decorated(font, source@.subrange(0, i as int)),
            decreases n - i,
        {
            let c = *vstd::slice::slice_index_get(source, i);
            plain.push(lookup(mapping, c, Ghost(font)));
            proof {
                assert(plain@ =~= decorated(font, source@.subrange(0, i + 1 as int)));
            }
            i += 1;
        }
        proof {
            assert(source@.subrange(0, n as int) =~= source@);
        }
        if font == Font::Emoji {
            let mut woven: Vec<char> = Vec::new();
            let len = plain.len();
            let mut i: usize = 0;
            while i < len
                invariant
                    len == plain@.len(),
                    i <= len,
                    woven@ == joined(plain@.subrange(0, i as int)),
                decreases len - i,
            {
                if i > 0 {
                    woven.push(JOINER);
                }
                woven.push(plain[i]);
                proof {
                    let sub = plain@.subrange(0, i + 1 as int);
                    assert(sub.drop_last() =~= plain@.subrange(0, i as int));
                    assert(woven@ =~= joined(sub));
                }
                i += 1;
            }
            proof {
                assert(plain@.subrange(0, len as int) =~= plain@);
            }
            chars_to_string(&woven)
        } else {
            chars_to_string(&plain)
        }
    }
}

/// Looks `c` up in a cached mapping: its destination character when `c` is a
/// source character, `c` itself otherwise.
fn lookup(mapping: &Vec<(char, char)>, c: char, Ghost(font): Ghost<Font>) -> (r: char)
    requires
        mapping_ok(font, mapping@),
    ensures
        r == decorate(font, c),
{
    let mut k: usize = 0;
    while k < 62
        invariant
            mapping_ok(font, mapping@),
            k <= 62,
            forall|j: int| 0 <= j < k ==> source_char(j) != c,
        decreases 62 - k,
    {
        let pair = mapping[k];
        if pair.0 == c {
            return pair.1;
        }
        k += 1;
    }
    proof {
        if in_domain(c) {
            lemma_char_index_source(c);
        }
        lemma_decorate_foreign(font, c);
    }
    c
}

/// Relies on `Iterator::collect` for `String`: the collected string holds
/// exactly the characters of `v`, in order.
#[verifier::external_body]
pub(crate) fn chars_to_string(v: &Vec<char>) -> (s: String)
    ensures
        s@ == v@,
{
    v.iter().collect()
}

/// Characters outside the source domain `a-z A-Z 0-9` come through every
/// conversion unchanged, at their own position of the substitution pass.
pub proof fn lemma_convert_keeps_foreign_chars(font: Font, s: Seq<char>, i: int)
    requires
        0 <= i < s.len(),
        !in_domain(s[i]),
    ensures
        decorated(font, s)[i] == s[i],
        font != Font::Emoji ==> spec_convert(font, s)[i] == s[i],
{
    lemma_decorate_foreign(font, s[i]);
}

/// Every style but the emoji one preserves the character count.
pub proof fn lemma_convert_preserves_length(font: Font, s: Seq<char>)
    requires
        font != Font::Emoji,
    ensures
        spec_convert(font, s).len() == s.len(),
{
}

/// Converting an already-converted string again leaves it unchanged, for
/// every style but the emoji one: destination characters are either outside
/// the source domain or map to themselves.
pub proof fn lemma_convert_idempotent(font: Font, s: Seq<char>)
    requires
        font != Font::Emoji,
    ensures
        spec_convert(font, spec_convert(font, s)) == spec_convert(font, s),
{
    let once = decorated(font, s);
    assert forall|i: int| 0 <= i < once.len() implies decorated(font, once)[i] == once[i] by {
        lemma_decorate_stable(font, s[i]);
    }
    assert(decorated(font, once) =~= once);
}

/// Shape of a woven sequence whose characters are joiner-free: joiners sit
/// exactly at the odd positions, the original characters at the even ones,
/// and removing the joiners restores the original sequence.
proof fn lemma_joined_shape(t: Seq<char>)
    requires
        forall|i: int| 0 <= i < t.len() ==> t[i] != JOINER,
    ensures
        joined(t).len() == if t.len() == 0 { 0int } else { 2 * t.len() - 1 },
        forall|i: int| 0 <= i < joined(t).len() ==> (joined(t)[i] == JOINER <==> i % 2 == 1),
        forall|i: int| 0 <= i < joined(t).len() && i % 2 == 0 ==> joined(t)[i] == t[i / 2],
        without_joiners(joined(t)) == t,
    decreases t.len(),
{
    if t.len() == 0 {
        assert(without_joiners(joined(t)) =~= t);
    } else if t.len() == 1 {
        assert(joined(t) == t);
        assert(t.last() != JOINER);
        assert(without_joiners(t) == without_joiners(t.drop_last()).push(t.last()));
        assert(t.drop_last().len() == 0);
        assert(without_joiners(t.drop_last()) == t.drop_last());
        assert(without_joiners(t) =~= t);
    } else {
        let head = t.drop_last();
        assert(forall|i: int| 0 <= i < head.len() ==> head[i] == t[i]);
        lemma_joined_shape(head);
        let whole = joined(t);
        assert(whole == joined(head) + seq![JOINER, t.last()]);
        assert(whole.last() == t.last());
        assert(t.last() != JOINER);
        let stripped = joined(head).push(JOINER);
        assert(whole.drop_last() =~= stripped);
        assert(without_joiners(whole) == without_joiners(stripped).push(t.last()));
        assert(stripped.last() == JOINER);
        assert(stripped.drop_last() =~= joined(head));
        assert(without_joiners(stripped) == without_joiners(joined(head)));
        assert(without_joiners(whole) =~= t);
    }
}

/// The emoji conversion, with every joiner removed, is exactly the plain
/// substitution pass; joiners sit strictly between two output characters -
/// never at either end, never doubled - for any joiner-free input.
pub proof fn lemma_emoji_joiner_shape(s: Seq<char>)
    requires
        forall|i: int| 0 <= i < s.len() ==> s[i] != JOINER,
    ensures
        without_joiners(spec_convert(Font::Emoji, s)) == decorated(Font::Emoji, s),
        spec_convert(Font::Emoji, s).len() == if s.len() == 0 { 0int } else { 2 * s.len() - 1 },
        forall|i: int|
            0 <= i < spec_convert(Font::Emoji, s).len() ==> (spec_convert(Font::Emoji, s)[i]
                == JOINER <==> i % 2 == 1),
        forall|i: int|
            0 <= i < spec_convert(Font::Emoji, s).len() && i % 2 == 0 ==> spec_convert(
                Font::Emoji,
                s,
            )[i] == decorate(Font::Emoji, s[i / 2]),
{
    let t = decorated(Font::Emoji, s);
    assert forall|i: int| 0 <= i < t.len() implies t[i] != JOINER by {
        if !in_domain(s[i]) {
            lemma_decorate_foreign(Font::Emoji, s[i]);
        }
    }
    lemma_joined_shape(t);
}

} // verus!
