use kana::dict::Dictionary;
use kana::parser::Parser;
use kana::parser::Token;

fn parser() -> Parser {
    Parser::new(Dictionary::new())
}

#[test]
fn tokenize_empty_is_empty() {
    let p = parser();
    assert_eq!(p.tokenize(""), Vec::<Token>::new());
}

#[test]
fn tokenize_splits_punctuation_inside_word() {
    let p = parser();
    assert_eq!(
        p.tokenize("a.b"),
        vec![
            Token::Word("a".to_string()),
            Token::Punctuation('.'),
            Token::Word("b".to_string()),
        ]
    );
}

#[test]
fn tokenize_splits_on_whitespace() {
    let p = parser();
    assert_eq!(
        p.tokenize("mi  wile\tmoku"),
        vec![
            Token::Word("mi".to_string()),
            Token::Word("wile".to_string()),
            Token::Word("moku".to_string()),
        ]
    );
}

#[test]
fn tokenize_keeps_hyphens_apostrophes_digits() {
    let p = parser();
    assert_eq!(
        p.tokenize("don't stop-go 42"),
        vec![
            Token::Word("don't".to_string()),
            Token::Word("stop-go".to_string()),
            Token::Word("42".to_string()),
        ]
    );
}

#[test]
fn tokenize_recognizes_whole_punctuation_set() {
    let p = parser();
    assert_eq!(
        p.tokenize("a,b?c!d:e;f."),
        vec![
            Token::Word("a".to_string()),
            Token::Punctuation(','),
            Token::Word("b".to_string()),
            Token::Punctuation('?'),
            Token::Word("c".to_string()),
            Token::Punctuation('!'),
            Token::Word("d".to_string()),
            Token::Punctuation(':'),
            Token::Word("e".to_string()),
            Token::Punctuation(';'),
            Token::Word("f".to_string()),
            Token::Punctuation('.'),
        ]
    );
}

#[test]
fn tokenize_only_whitespace_is_empty() {
    let p = parser();
    assert_eq!(p.tokenize("   \t  "), Vec::<Token>::new());
}
