use kana::dict::Dictionary;
use kana::dict::WordType;

#[test]
fn canonical_lookup_returns_meanings_in_priority_order() {
    let d = Dictionary::new();
    let ms = d.translate_kana_word("jan").expect("jan is in the lexicon");
    assert_eq!(ms[0], "person");
    assert!(!ms.is_empty());
}

#[test]
fn canonical_lookup_is_case_sensitive() {
    let d = Dictionary::new();
    assert!(d.translate_kana_word("Jan").is_none());
    assert!(d.translate_kana_word("jan").is_some());
}

#[test]
fn meaning_lookup_is_case_insensitive() {
    let d = Dictionary::new();
    assert_eq!(d.translate_en_word("GOOD"), Some("pona"));
    assert_eq!(d.translate_en_word("good"), Some("pona"));
}

#[test]
fn meaning_lookup_misses_unknown_words() {
    let d = Dictionary::new();
    assert!(d.translate_en_word("are").is_none());
    assert!(d.translate_en_word("zzz").is_none());
}

#[test]
fn bracketed_glosses_are_not_meaning_keys() {
    let d = Dictionary::new();
    // `li` has only the administrative gloss `[subject-marker]`.
    assert!(d.translate_en_word("[subject-marker]").is_none());
    let ms = d.translate_kana_word("li").expect("li is in the lexicon");
    assert_eq!(ms.len(), 1);
    assert_eq!(ms[0], "[subject-marker]");
}

#[test]
fn first_gloss_is_unbracketed_for_ordinary_entries() {
    let d = Dictionary::new();
    for w in ["mi", "jan", "pona", "wile", "moku", "lon", "tenpo"] {
        let ms = d.translate_kana_word(w).expect("known canonical form");
        assert!(!ms.is_empty());
        assert!(!ms[0].starts_with('['), "{} leads with a bracketed gloss", w);
    }
}

#[test]
fn duplicate_canonical_forms_resolve_to_the_later_entry() {
    let d = Dictionary::new();
    // Two `lape` entries exist; the later one has only two glosses.
    let ms = d.translate_kana_word("lape").expect("lape is in the lexicon");
    assert_eq!(ms, &vec!["sleep", "rest"]);
    // Two `kasi` entries exist; the later one leads with `plant`, then `leaf`.
    let ms = d.translate_kana_word("kasi").expect("kasi is in the lexicon");
    assert_eq!(ms, &vec!["plant", "leaf", "herb", "grow"]);
    // Two `poka` entries exist; the later one means `friend`.
    let ms = d.translate_kana_word("poka").expect("poka is in the lexicon");
    assert_eq!(ms[0], "friend");
}

#[test]
fn duplicate_canonical_forms_resolve_category_to_the_later_entry() {
    let d = Dictionary::new();
    // `mute` is Quality early in the lexicon and Number later: later wins.
    assert_eq!(d.get_word_type("mute"), Some(WordType::Number));
    assert_eq!(d.get_word_type("jan"), Some(WordType::Entity));
    assert_eq!(d.get_word_type("wile"), Some(WordType::Action));
    assert!(d.get_word_type("zzz").is_none());
}

#[test]
fn duplicate_meanings_resolve_to_the_later_entry() {
    let d = Dictionary::new();
    // `food` is a gloss of `moku` and, later, of `pan`: later wins.
    assert_eq!(d.translate_en_word("food"), Some("pan"));
    // `want` belongs to both `wile` entries, so it still maps to `wile`.
    assert_eq!(d.translate_en_word("want"), Some("wile"));
}
