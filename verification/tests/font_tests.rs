use fancy_text::font::Font;

#[test]
fn characters_lists_the_whole_source_domain_in_order() {
    let mapping = Font::Bold.characters();
    assert_eq!(mapping.len(), 62);
    let sources: String = mapping.iter().map(|pair| pair.0).collect();
    assert_eq!(
        sources,
        "abcdefghijklmnopqrstuvwxyzABCDEFGHIJKLMNOPQRSTUVWXYZ0123456789"
    );
    assert_eq!(mapping[0], ('a', '\u{1D41A}'));
    assert_eq!(mapping[26], ('A', '\u{1D400}'));
    assert_eq!(mapping[52], ('0', '\u{1D7CE}'));
}

#[test]
fn italic_keeps_digits_plain_and_gives_h_its_own_code_point() {
    let mapping = Font::Italic.characters();
    assert_eq!(mapping[7], ('h', '\u{210E}'));
    assert_eq!(mapping[52], ('0', '0'));
    assert_eq!(mapping[61], ('9', '9'));
}

#[test]
fn emoji_characters_fold_the_alphabets_onto_the_regional_indicators() {
    let mapping = Font::Emoji.characters();
    assert_eq!(mapping[0], ('a', '\u{1F1E6}'));
    assert_eq!(mapping[24], ('y', '\u{1F1FE}'));
    assert_eq!(mapping[25], ('z', '\u{1F1E6}'));
    assert_eq!(mapping[26], ('A', '\u{1F1E7}'));
    assert_eq!(mapping[50], ('Y', '\u{1F1FF}'));
    assert_eq!(mapping[51], ('Z', '\u{1F1FF}'));
    assert_eq!(mapping[61], ('9', '9'));
}

#[test]
fn the_catalog_has_a_fixed_order_and_offers_every_style() {
    let fonts = Font::list();
    assert_eq!(fonts.len(), 14);
    assert_eq!(fonts[0], Font::Bold);
    assert_eq!(fonts[1], Font::Italic);
    assert_eq!(fonts[13], Font::Emoji);
}
