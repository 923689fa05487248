use kana::dict::Dictionary;
use kana::parser::ParseError;
use kana::parser::Parser;

fn parser() -> Parser {
    Parser::new(Dictionary::new())
}

#[test]
fn parse_kana_assigns_roles_by_particles() {
    let p = parser();
    let s = p.parse_kana("mi li moku e kala").expect("parses");
    assert_eq!(s.subject, vec!["mi".to_string()]);
    assert_eq!(s.verb, vec!["moku".to_string()]);
    assert_eq!(s.object, vec!["kala".to_string()]);
    assert!(s.modifiers.is_empty());
    assert!(!s.is_question);
    assert!(!s.is_negated);
}

#[test]
fn parse_kana_empty_input_is_missing_subject() {
    let p = parser();
    assert!(matches!(p.parse_kana(""), Err(ParseError::MissingSubject)));
    assert!(matches!(p.parse_kana("  ?  "), Err(ParseError::MissingSubject)));
}

#[test]
fn parse_kana_without_subject_words_fails() {
    let p = parser();
    assert!(matches!(p.parse_kana("li moku"), Err(ParseError::MissingSubject)));
}

#[test]
fn parse_kana_negation_and_question_words_set_flags_only() {
    let p = parser();
    let s = p.parse_kana("se mi ala lape").expect("parses");
    assert_eq!(s.subject, vec!["mi".to_string(), "lape".to_string()]);
    assert!(s.verb.is_empty());
    assert!(s.is_question);
    assert!(s.is_negated);
    let s = p.parse_kana("mi no moku").expect("parses");
    assert!(s.is_negated);
}

#[test]
fn parse_kana_question_mark_sets_flag() {
    let p = parser();
    let s = p.parse_kana("mi moku?").expect("parses");
    assert!(s.is_question);
}

#[test]
fn parse_kana_skips_pi_except_at_the_end() {
    let p = parser();
    let s = p.parse_kana("mi pi moku").expect("parses");
    assert_eq!(s.subject, vec!["mi".to_string(), "moku".to_string()]);
    let s = p.parse_kana("mi pi").expect("parses");
    assert_eq!(s.subject, vec!["mi".to_string(), "pi".to_string()]);
}

#[test]
fn parse_english_pronoun_verb_object() {
    let p = parser();
    let s = p.parse_english("i want food").expect("parses");
    assert_eq!(s.subject, vec!["i".to_string()]);
    assert_eq!(s.verb, vec!["want".to_string()]);
    assert_eq!(s.object, vec!["food".to_string()]);
    assert!(!s.is_negated);
}

#[test]
fn parse_english_negation_cues_are_dropped_and_flagged() {
    let p = parser();
    let s = p.parse_english("they don't know water").expect("parses");
    assert_eq!(s.subject, vec!["they".to_string()]);
    assert_eq!(s.verb, vec!["know".to_string()]);
    assert_eq!(s.object, vec!["water".to_string()]);
    assert!(s.is_negated);
}

#[test]
fn parse_english_defaults_subject_to_unknown() {
    let p = parser();
    let s = p.parse_english("food is good").expect("parses");
    assert_eq!(s.subject, vec!["unknown".to_string()]);
}

#[test]
fn parse_english_empty_input_is_missing_subject() {
    let p = parser();
    assert!(matches!(p.parse_english(""), Err(ParseError::MissingSubject)));
}

#[test]
fn parse_english_uncategorized_word_forced_into_verb_slot() {
    let p = parser();
    let s = p.parse_english("you frobnicate water").expect("parses");
    assert_eq!(s.verb, vec!["frobnicate".to_string()]);
    assert_eq!(s.object, vec!["water".to_string()]);
}

#[test]
fn parse_english_question_from_trailing_mark() {
    let p = parser();
    let s = p.parse_english("you want water?").expect("parses");
    assert!(s.is_question);
}

#[test]
fn validate_kana_accepts_lexicon_words() {
    let p = parser();
    let s = p.parse_kana("mi li moku e kala").expect("parses");
    assert!(p.validate_kana(&s).is_ok());
}

#[test]
fn validate_kana_reports_first_invalid_word() {
    let p = parser();
    let s = p.parse_kana("sina li xyz e abc").expect("parses");
    match p.validate_kana(&s) {
        Err(ParseError::InvalidWord(w)) => assert_eq!(w, "xyz"),
        other => panic!("expected InvalidWord, got {:?}", other),
    }
}
