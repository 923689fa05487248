use kana::translator::Translator;

#[test]
fn english_to_kana_simple_sentence() {
    let t = Translator::new();
    // `food` is a gloss of `moku` and, later in the lexicon, of `pan`; the
    // meaning map keeps the later entry.
    assert_eq!(t.english_to_kana("i want food"), "mi wile e pan");
}

#[test]
fn english_to_kana_elides_li_and_brackets_unknown_verbs() {
    let t = Translator::new();
    assert_eq!(t.english_to_kana("you are good"), "sina [are] pona");
}

#[test]
fn english_to_kana_object_pronoun_gets_marker() {
    let t = Translator::new();
    assert_eq!(t.english_to_kana("i love you"), "mi olin e sina");
}

#[test]
fn english_to_kana_inserts_li_for_third_person() {
    let t = Translator::new();
    assert_eq!(t.english_to_kana("they want food"), "ona li wile e pan");
}

#[test]
fn english_to_kana_question_prepends_se() {
    let t = Translator::new();
    assert_eq!(t.english_to_kana("you are good?"), "se sina [are] pona");
}

#[test]
fn english_to_kana_negation_trails() {
    let t = Translator::new();
    assert_eq!(t.english_to_kana("i don't want food"), "mi wile e pan ala");
}

#[test]
fn english_to_kana_intensifier_trails() {
    let t = Translator::new();
    assert_eq!(t.english_to_kana("i really want food"), "mi wile e pan mute");
}

#[test]
fn english_to_kana_drops_stop_words() {
    let t = Translator::new();
    assert_eq!(t.english_to_kana("i see the moon and sun"), "mi lukin e mun suno");
}

#[test]
fn english_to_kana_greeting_shortcut() {
    let t = Translator::new();
    assert_eq!(t.english_to_kana("hello world"), "yu");
    assert_eq!(t.english_to_kana("Hi there"), "yu");
    assert_eq!(t.english_to_kana("hey you"), "yu");
}

#[test]
fn english_to_kana_unknown_words_become_placeholders() {
    let t = Translator::new();
    assert_eq!(t.english_to_kana("zorp"), "[zorp]");
}

#[test]
fn english_to_kana_echoes_input_when_nothing_renders() {
    let t = Translator::new();
    assert_eq!(t.english_to_kana(""), "");
    assert_eq!(t.english_to_kana("..."), "...");
}

#[test]
fn kana_to_english_pronoun_and_glosses() {
    let t = Translator::new();
    // The first gloss of `moku` is `eat`.
    assert_eq!(t.kana_to_english("mi wile e moku"), "I want eat.");
    assert_eq!(t.kana_to_english("mi toki pona"), "I speak good.");
}

#[test]
fn kana_to_english_question_flag_from_se() {
    let t = Translator::new();
    assert_eq!(t.kana_to_english("se sina lon"), "you located-at?");
}

#[test]
fn kana_to_english_negation_binds_to_the_verb() {
    let t = Translator::new();
    assert_eq!(t.kana_to_english("mi li ala moku"), "I do not eat.");
}

#[test]
fn kana_to_english_greeting_shortcuts() {
    let t = Translator::new();
    assert_eq!(t.kana_to_english("yu"), "hello");
    assert_eq!(t.kana_to_english("  YU  "), "hello");
    assert_eq!(t.kana_to_english("y"), "hello");
    assert_eq!(t.kana_to_english("yu moku"), "hello");
}

#[test]
fn kana_to_english_inline_greeting_word() {
    let t = Translator::new();
    assert_eq!(t.kana_to_english("mi yu"), "I hello.");
}

#[test]
fn kana_to_english_en_renders_and() {
    let t = Translator::new();
    assert_eq!(t.kana_to_english("mi en sina"), "I and you.");
}

#[test]
fn kana_to_english_skips_words_with_only_bracketed_glosses() {
    let t = Translator::new();
    assert_eq!(t.kana_to_english("mi la moku"), "I eat.");
    assert_eq!(t.kana_to_english("mi pi moku"), "I eat.");
}

#[test]
fn kana_to_english_unknown_words_become_placeholders() {
    let t = Translator::new();
    assert_eq!(t.kana_to_english("mi xyzzy"), "I [xyzzy].");
}

#[test]
fn kana_to_english_echoes_input_when_nothing_renders() {
    let t = Translator::new();
    assert_eq!(t.kana_to_english(""), "");
    assert_eq!(t.kana_to_english("!!"), "!!");
}

#[test]
fn get_english_pronoun_maps_the_three_pronouns() {
    let t = Translator::new();
    assert_eq!(t.get_english_pronoun("mi"), Some("I"));
    assert_eq!(t.get_english_pronoun("sina"), Some("you"));
    assert_eq!(t.get_english_pronoun("ona"), Some("they"));
    assert_eq!(t.get_english_pronoun("moku"), None);
}

#[test]
fn rendering_twice_gives_identical_output() {
    let t = Translator::new();
    let a1 = t.english_to_kana("i want food and water?");
    let a2 = t.english_to_kana("i want food and water?");
    assert_eq!(a1, a2);
    let b1 = t.kana_to_english("se mi wile e telo");
    let b2 = t.kana_to_english("se mi wile e telo");
    assert_eq!(b1, b2);
}
