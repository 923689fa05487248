use kana::translator::Translator;

#[test]
fn explicit_directions_pick_a_renderer() {
    let t = Translator::new();
    assert_eq!(t.translate("i love you", "to"), "mi olin e sina");
    assert_eq!(t.translate("i love you", "en2k"), "mi olin e sina");
    assert_eq!(t.translate("i love you", "en-kana"), "mi olin e sina");
    assert_eq!(t.translate("mi toki pona", "from"), "I speak good.");
    assert_eq!(t.translate("mi toki pona", "k2en"), "I speak good.");
    assert_eq!(t.translate("mi toki pona", "kana-en"), "I speak good.");
}

#[test]
fn auto_detects_kana_by_keyword_substring() {
    let t = Translator::new();
    // `mi` appears as a substring, so the Kana-to-English renderer runs.
    assert_eq!(t.translate("mi toki pona", "auto"), "I speak good.");
    assert_eq!(t.translate("mi toki pona", "auto"), t.kana_to_english("mi toki pona"));
}

#[test]
fn auto_falls_back_to_english_without_keywords() {
    let t = Translator::new();
    // No keyword of the fixed set occurs as a substring (not even `e`).
    assert_eq!(t.translate("you good", "auto"), "sina pona");
}

#[test]
fn auto_substring_matching_can_misfire_on_english() {
    let t = Translator::new();
    // `we` holds the letter `e`, so auto-detection reads the sentence as
    // Kana; both words are then unknown canonical forms.
    assert_eq!(t.translate("we dance", "auto"), "[we] [dance].");
}

#[test]
fn unknown_direction_behaves_like_auto() {
    let t = Translator::new();
    assert_eq!(t.translate("you good", "sideways"), "sina pona");
}

#[test]
fn translating_twice_in_the_same_direction_is_deterministic() {
    let t = Translator::new();
    let a = t.translate("mi wile e telo", "auto");
    let b = t.translate("mi wile e telo", "auto");
    assert_eq!(a, b);
}
