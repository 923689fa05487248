//! The tokenizer and the two heuristic role parsers: text is split into word
//! and punctuation tokens, then a single pass with an explicit stage variable
//! assigns words to subject, verb and object roles.

use vstd::prelude::*;

use crate::dict::Dictionary;
use crate::dict::WordType;
use crate::dict::en_lookup;
use crate::dict::kana_lookup;
use crate::dict::type_lookup;
use crate::text::chars_eq_str;
use crate::text::chars_to_string;
use crate::text::is_space;
use crate::text::is_space_char;
use crate::text::lower_seq;
use crate::text::lower_vec;
use crate::text::str_to_chars;
use crate::text::views2;

verus! {

/// One token of the input: a word, or one punctuation character.
#[derive(Debug, Clone, PartialEq)]
pub enum Token {
    Word(String),
    Punctuation(char),
}

/// Mathematical model of a token.
#[verifier::ext_equal]
pub ghost enum Tok {
    Word(Seq<char>),
    Punctuation(char),
}

impl View for Token {
    type V = Tok;

    open spec fn view(&self) -> Tok {
        match self {
            Token::Word(s) => Tok::Word(s@),
            Token::Punctuation(c) => Tok::Punctuation(*c),
        }
    }
}

/// The models of a token list.
pub open spec fn tok_views(ts: Seq<Token>) -> Seq<Tok> {
    ts.map_values(|t: Token| t@)
}

/// The characters recognized as standalone punctuation tokens.
pub open spec fn is_punct_char(c: char) -> bool {
    c == '.' || c == ',' || c == '?' || c == '!' || c == ':' || c == ';'
}

/// The token made of a pending word, if any.
pub open spec fn flush_word(cur: Seq<char>) -> Seq<Tok> {
    if cur.len() == 0 {
        seq![]
    } else {
        seq![Tok::Word(cur)]
    }
}

/// Tokenizer state: tokens emitted so far and the word being accumulated.
#[verifier::ext_equal]
pub ghost struct TokState {
    pub toks: Seq<Tok>,
    pub cur: Seq<char>,
}

/// One tokenizer transition: whitespace ends the current word, punctuation
/// ends it and emits a punctuation token, any other character extends it.
pub open spec fn tok_step(st: TokState, c: char) -> TokState {
    if is_space_char(c) {
        TokState { toks: st.toks + flush_word(st.cur), cur: Seq::empty() }
    } else if is_punct_char(c) {
        TokState {
            toks: st.toks + flush_word(st.cur) + seq![Tok::Punctuation(c)],
            cur: Seq::empty(),
        }
    } else {
        TokState { toks: st.toks, cur: st.cur.push(c) }
    }
}

/// The tokenizer state after consuming the whole input.
pub open spec fn tok_run(s: Seq<char>) -> TokState
    decreases s.len(),
{
    if s.len() == 0 {
        TokState { toks: seq![], cur: seq![] }
    } else {
        tok_step(tok_run(s.drop_last()), s.last())
    }
}

/// The tokens of the input: words split on whitespace, with the fixed
/// punctuation set emitted as single-character tokens; a trailing word is
/// flushed at the end.
pub open spec fn spec_tokenize(s: Seq<char>) -> Seq<Tok> {
    tok_run(s).toks + flush_word(tok_run(s).cur)
}

/// The word texts of a token list, in order.
pub open spec fn words_of(ts: Seq<Tok>) -> Seq<Seq<char>>
    decreases ts.len(),
{
    if ts.len() == 0 {
        seq![]
    } else {
        match ts.last() {
            Tok::Word(w) => words_of(ts.drop_last()).push(w),
            Tok::Punctuation(_) => words_of(ts.drop_last()),
        }
    }
}

/// Whether the token list holds a `?` punctuation token.
pub open spec fn has_qmark(ts: Seq<Tok>) -> bool
    decreases ts.len(),
{
    if ts.len() == 0 {
        false
    } else {
        has_qmark(ts.drop_last()) || ts.last() == Tok::Punctuation('?')
    }
}

/// Splits a token list into its word texts and whether a `?` token occurs —
/// executable counterpart of `words_of` and `has_qmark`.
pub fn word_list(toks: &Vec<Token>) -> (r: (Vec<Vec<char>>, bool))
    ensures
        views2(r.0@) == words_of(tok_views(toks@)),
        r.1 == has_qmark(tok_views(toks@)),
{
    let mut words: Vec<Vec<char>> = Vec::new();
    let mut qm: bool = false;
    let mut i: usize = 0;
    proof {
        assert(tok_views(toks@).take(0) =~= Seq::<Tok>::empty());
        assert(views2(words@) =~= words_of(tok_views(toks@).take(0)));
    }
    while i < toks.len()
        invariant
            i <= toks@.len(),
            tok_views(toks@).len() == toks@.len(),
            views2(words@) == words_of(tok_views(toks@).take(i as int)),
            qm == has_qmark(tok_views(toks@).take(i as int)),
        decreases toks@.len() - i,
    {
        proof {
            assert(tok_views(toks@).take(i + 1).drop_last() =~= tok_views(toks@).take(i as int));
            assert(tok_views(toks@).take(i + 1).last() == tok_views(toks@)[i as int]);
        }
        match &toks[i] {
            Token::Word(s) => {
                let w = str_to_chars(s.as_str());
                words.push(w);
                proof {
                    assert(views2(words@) =~= words_of(tok_views(toks@).take(i + 1)));
                }
            },
            Token::Punctuation(c) => {
                if *c == '?' {
                    qm = true;
                }
                proof {
                    assert(views2(words@) =~= words_of(tok_views(toks@).take(i + 1)));
                }
            },
        }
        i = i + 1;
    }
    proof {
        assert(tok_views(toks@).take(toks@.len() as int) =~= tok_views(toks@));
    }
    (words, qm)
}

/// Role-parse errors; the renderers never raise these.
#[derive(Debug)]
pub enum ParseError {
    MissingSubject,
    MissingVerb,
    InvalidWord(String),
    GrammarError(String),
}

/// Mathematical model of a parse error.
#[verifier::ext_equal]
pub ghost enum ParseErr {
    MissingSubject,
    MissingVerb,
    InvalidWord(Seq<char>),
    GrammarError(Seq<char>),
}

impl View for ParseError {
    type V = ParseErr;

    open spec fn view(&self) -> ParseErr {
        match self {
            ParseError::MissingSubject => ParseErr::MissingSubject,
            ParseError::MissingVerb => ParseErr::MissingVerb,
            ParseError::InvalidWord(w) => ParseErr::InvalidWord(w@),
            ParseError::GrammarError(m) => ParseErr::GrammarError(m@),
        }
    }
}

/// A sentence decomposed into roles.
#[derive(Debug)]
pub struct ParsedSentence {
    pub subject: Vec<String>,
    pub verb: Vec<String>,
    pub object: Vec<String>,
    pub modifiers: Vec<(String, String)>,
    pub is_question: bool,
    pub is_negated: bool,
}

/// Mathematical model of a parsed sentence.
#[verifier::ext_equal]
pub ghost struct SentenceModel {
    pub subject: Seq<Seq<char>>,
    pub verb: Seq<Seq<char>>,
    pub object: Seq<Seq<char>>,
    pub modifiers: Seq<(Seq<char>, Seq<char>)>,
    pub is_question: bool,
    pub is_negated: bool,
}

impl View for ParsedSentence {
    type V = SentenceModel;

    open spec fn view(&self) -> SentenceModel {
        SentenceModel {
            subject: self.subject.deep_view(),
            verb: self.verb.deep_view(),
            object: self.object.deep_view(),
            modifiers: self.modifiers.deep_view(),
            is_question: self.is_question,
            is_negated: self.is_negated,
        }
    }
}

/// The parsing stages: accumulating the subject, the verb, or the object.
#[derive(Clone, Copy, Debug, PartialEq, Eq, Structural)]
pub enum Stage {
    Subject,
    Verb,
    Object,
}

/// The parser, which reads roles off a token stream with the help of the
/// lexicon.
#[derive(Clone)]
pub struct Parser {
    pub dict: Dictionary,
}

impl View for Parser {
    type V = Seq<crate::dict::WordModel>;

    open spec fn view(&self) -> Seq<crate::dict::WordModel> {
        self.dict@
    }
}

impl Parser {
    pub fn new(dict: Dictionary) -> (p: Parser)
        ensures
            p@ == dict@,
    {
        Parser { dict }
    }

    /// Splits text into word and punctuation tokens.
    pub fn tokenize(&self, input: &str) -> (r: Vec<Token>)
        ensures
            tok_views(r@) == spec_tokenize(input@),
    {
        let chars = str_to_chars(input);
        let mut toks: Vec<Token> = Vec::new();
        let mut cur: Vec<char> = Vec::new();
        let mut i: usize = 0;
        proof {
            assert(chars@.take(0) =~= Seq::<char>::empty());
            assert(tok_views(toks@) =~= Seq::<Tok>::empty());
        }
        while i < chars.len()
            invariant
                i <= chars@.len(),
                tok_run(chars@.take(i as int)) == (TokState {
                    toks: tok_views(toks@),
                    cur: cur@,
                }),
            decreases chars@.len() - i,
        {
            proof {
                assert(chars@.take(i + 1).drop_last() =~= chars@.take(i as int));
                assert(chars@.take(i + 1).last() == chars@[i as int]);
            }
            let c = chars[i];
            if is_space(c) {
                if cur.len() > 0 {
                    toks.push(Token::Word(chars_to_string(&cur)));
                    cur.clear();
                }
                proof {
                    assert(tok_views(toks@) =~~= tok_run(chars@.take(i + 1)).toks);
                }
            } else if c == '.' || c == ',' || c == '?' || c == '!' || c == ':' || c == ';' {
                if cur.len() > 0 {
                    toks.push(Token::Word(chars_to_string(&cur)));
                    cur.clear();
                }
                toks.push(Token::Punctuation(c));
                proof {
                    assert(tok_views(toks@) =~~= tok_run(chars@.take(i + 1)).toks);
                }
            } else {
                cur.push(c);
            }
            proof {
                assert(tok_run(chars@.take(i + 1)) =~~= (TokState {
                    toks: tok_views(toks@),
                    cur: cur@,
                }));
            }
            i = i + 1;
        }
        proof {
            assert(chars@.take(chars@.len() as int) =~= chars@);
        }
        if cur.len() > 0 {
            toks.push(Token::Word(chars_to_string(&cur)));
        }
        proof {
            assert(tok_views(toks@) =~~= spec_tokenize(input@));
        }
        toks
    }

    /// Assigns the words of a Kana sentence to roles, driven by the particle
    /// words alone.
    pub fn parse_kana(&self, input: &str) -> (r: Result<ParsedSentence, ParseError>)
        ensures
            match r {
                Ok(ps) => spec_parse_kana(input@) == Ok::<SentenceModel, ParseErr>(ps@),
                Err(e) => spec_parse_kana(input@) == Err::<SentenceModel, ParseErr>(e@),
            },
    {
        let toks = self.tokenize(input);
        let (words, qm) = word_list(&toks);
        if words.len() == 0 {
            return Err(ParseError::MissingSubject);
        }
        let mut subject: Vec<String> = Vec::new();
        let mut verb: Vec<String> = Vec::new();
        let mut object: Vec<String> = Vec::new();
        let mut stage: Stage = Stage::Subject;
        let mut neg: bool = false;
        let mut q: bool = false;
        let mut i: usize = 0;
        proof {
            assert(kp_run(views2(words@), 0) =~~= (KpState {
                stage,
                subject: subject.deep_view(),
                verb: verb.deep_view(),
                object: object.deep_view(),
                is_negated: neg,
                is_question: q,
            }));
        }
        while i < words.len()
            invariant
                i <= words@.len(),
                views2(words@).len() == words@.len(),
                kp_run(views2(words@), i as int) == (KpState {
                    stage,
                    subject: subject.deep_view(),
                    verb: verb.deep_view(),
                    object: object.deep_view(),
                    is_negated: neg,
                    is_question: q,
                }),
            decreases words@.len() - i,
        {
            let w = &words[i];
            if chars_eq_str(w, "li") {
                stage = Stage::Verb;
            } else if chars_eq_str(w, "e") {
                stage = Stage::Object;
            } else if chars_eq_str(w, "pi") && i + 1 < words.len() {
            } else if chars_eq_str(w, "ala") || chars_eq_str(w, "no") {
                neg = true;
            } else if chars_eq_str(w, "se") {
                q = true;
            } else {
                let s = chars_to_string(w);
                match stage {
                    Stage::Subject => subject.push(s),
                    Stage::Verb => verb.push(s),
                    Stage::Object => object.push(s),
                }
            }
            proof {
                assert(kp_run(views2(words@), i + 1) =~~= (KpState {
                    stage,
                    subject: subject.deep_view(),
                    verb: verb.deep_view(),
                    object: object.deep_view(),
                    is_negated: neg,
                    is_question: q,
                }));
            }
            i = i + 1;
        }
        if subject.len() == 0 {
            return Err(ParseError::MissingSubject);
        }
        let r = ParsedSentence {
            subject,
            verb,
            object,
            modifiers: Vec::new(),
            is_question: qm || q,
            is_negated: neg,
        };
        proof {
            assert(r@.modifiers =~= Seq::<(Seq<char>, Seq<char>)>::empty());
            assert(spec_parse_kana(input@) == Ok::<SentenceModel, ParseErr>(r@)) by {
                assert(spec_parse_kana(input@)->Ok_0 =~~= r@);
            }
        }
        Ok(r)
    }

    /// Assigns the words of an English sentence to roles: pronouns make the
    /// subject, the first action (or, failing that, first uncategorized)
    /// word after it the verb, and later entity or uncategorized words the
    /// object.
    pub fn parse_english(&self, input: &str) -> (r: Result<ParsedSentence, ParseError>)
        ensures
            match r {
                Ok(ps) => spec_parse_english(self@, input@) == Ok::<SentenceModel, ParseErr>(ps@),
                Err(e) => spec_parse_english(self@, input@) == Err::<SentenceModel, ParseErr>(e@),
            },
    {
        let toks = self.tokenize(input);
        let (words, qm) = word_list(&toks);
        if words.len() == 0 {
            return Err(ParseError::MissingSubject);
        }
        let mut subject: Vec<String> = Vec::new();
        let mut verb: Vec<String> = Vec::new();
        let mut object: Vec<String> = Vec::new();
        let mut stage: Stage = Stage::Subject;
        let mut neg: bool = false;
        let mut i: usize = 0;
        proof {
            assert(pe_run(self@, views2(words@), 0) =~~= (PeState {
                stage,
                subject: subject.deep_view(),
                verb: verb.deep_view(),
                object: object.deep_view(),
                is_negated: neg,
            }));
        }
        while i < words.len()
            invariant
                i <= words@.len(),
                views2(words@).len() == words@.len(),
                pe_run(self@, views2(words@), i as int) == (PeState {
                    stage,
                    subject: subject.deep_view(),
                    verb: verb.deep_view(),
                    object: object.deep_view(),
                    is_negated: neg,
                }),
            decreases words@.len() - i,
        {
            let w = &words[i];
            let lw = lower_vec(w);
            if chars_eq_str(&lw, "not") || chars_eq_str(&lw, "no") || chars_eq_str(&lw, "don't")
                || chars_eq_str(&lw, "doesn't") {
                neg = true;
            } else if chars_eq_str(&lw, "i") || chars_eq_str(&lw, "we") || chars_eq_str(&lw, "you")
                || chars_eq_str(&lw, "he") || chars_eq_str(&lw, "she") || chars_eq_str(&lw, "it")
                || chars_eq_str(&lw, "they") {
                if stage == Stage::Subject {
                    subject.push(chars_to_string(w));
                    stage = Stage::Verb;
                }
            } else {
                let lw_s = chars_to_string(&lw);
                let looked = self.dict.translate_en_word(lw_s.as_str());
                let canon: &str = match looked {
                    Some(k) => k,
                    None => lw_s.as_str(),
                };
                match self.dict.get_word_type(canon) {
                    Some(t) => {
                        if t == WordType::Action && stage == Stage::Verb {
                            verb.push(chars_to_string(w));
                            stage = Stage::Object;
                        } else if t == WordType::Entity && stage == Stage::Object {
                            object.push(chars_to_string(w));
                        }
                    },
                    None => {
                        if stage == Stage::Verb {
                            verb.push(chars_to_string(w));
                            stage = Stage::Object;
                        } else if stage == Stage::Object {
                            object.push(chars_to_string(w));
                        }
                    },
                }
            }
            proof {
                assert(pe_run(self@, views2(words@), i + 1) =~~= (PeState {
                    stage,
                    subject: subject.deep_view(),
                    verb: verb.deep_view(),
                    object: object.deep_view(),
                    is_negated: neg,
                }));
            }
            i = i + 1;
        }
        if subject.len() == 0 {
            subject.push(chars_to_string(&str_to_chars("unknown")));
        }
        let r = ParsedSentence {
            subject,
            verb,
            object,
            modifiers: Vec::new(),
            is_question: qm,
            is_negated: neg,
        };
        proof {
            assert(spec_parse_english(self@, input@) == Ok::<SentenceModel, ParseErr>(r@)) by {
                assert(spec_parse_english(self@, input@)->Ok_0 =~~= r@);
            }
        }
        Ok(r)
    }

    /// Re-checks that every role word of a parsed sentence is a canonical
    /// form of the lexicon; the first miss is reported.
    pub fn validate_kana(&self, sentence: &ParsedSentence) -> (r: Result<(), ParseError>)
        ensures
            match r {
                Ok(_) => spec_validate_kana(self@, sentence@) == Ok::<(), ParseErr>(()),
                Err(e) => spec_validate_kana(self@, sentence@) == Err::<(), ParseErr>(e@),
            },
    {
        proof {
            lemma_first_invalid_concat(self@, sentence@.subject, sentence@.verb + sentence@.object);
            lemma_first_invalid_concat(self@, sentence@.verb, sentence@.object);
            assert(sentence@.subject + (sentence@.verb + sentence@.object) =~= sentence@.subject
                + sentence@.verb + sentence@.object);
        }
        if let Some(w) = self.first_bad(&sentence.subject) {
            return Err(ParseError::InvalidWord(w));
        }
        if let Some(w) = self.first_bad(&sentence.verb) {
            return Err(ParseError::InvalidWord(w));
        }
        if let Some(w) = self.first_bad(&sentence.object) {
            return Err(ParseError::InvalidWord(w));
        }
        Ok(())
    }

    /// The first word of the list that the lexicon does not know as a
    /// canonical form.
    fn first_bad(&self, ws: &Vec<String>) -> (r: Option<String>)
        ensures
            match r {
                Some(w) => first_invalid(self@, ws.deep_view()) == Some(w@),
                None => first_invalid(self@, ws.deep_view()) is None,
            },
    {
        let mut i: usize = 0;
        proof {
            assert(ws.deep_view().skip(0) =~= ws.deep_view());
        }
        while i < ws.len()
            invariant
                i <= ws@.len(),
                ws.deep_view().len() == ws@.len(),
                first_invalid(self@, ws.deep_view()) == first_invalid(
                    self@,
                    ws.deep_view().skip(i as int),
                ),
            decreases ws@.len() - i,
        {
            proof {
                assert(ws.deep_view().skip(i as int)[0] == ws.deep_view()[i as int]);
                assert(ws.deep_view().skip(i as int).skip(1) =~= ws.deep_view().skip(i + 1));
            }
            if self.dict.translate_kana_word(ws[i].as_str()).is_none() {
                return Some(ws[i].clone());
            }
            i = i + 1;
        }
        proof {
            assert(ws.deep_view().skip(ws@.len() as int) =~= Seq::<Seq<char>>::empty());
        }
        None
    }
}

/// Kana parse state: the current stage, the role lists and the two flags.
#[verifier::ext_equal]
pub ghost struct KpState {
    pub stage: Stage,
    pub subject: Seq<Seq<char>>,
    pub verb: Seq<Seq<char>>,
    pub object: Seq<Seq<char>>,
    pub is_negated: bool,
    pub is_question: bool,
}

pub open spec fn kp_init() -> KpState {
    KpState {
        stage: Stage::Subject,
        subject: seq![],
        verb: seq![],
        object: seq![],
        is_negated: false,
        is_question: false,
    }
}

/// One Kana parsing transition: `li` and `e` switch the stage, `pi` is
/// skipped unless it is the last word, `ala`/`no` negate, `se` marks a
/// question, and any other word joins the current stage's role list.
pub open spec fn kp_step(st: KpState, w: Seq<char>, is_last: bool) -> KpState {
    if w == "li"@ {
        KpState { stage: Stage::Verb, ..st }
    } else if w == "e"@ {
        KpState { stage: Stage::Object, ..st }
    } else if w == "pi"@ && !is_last {
        st
    } else if w == "ala"@ || w == "no"@ {
        KpState { is_negated: true, ..st }
    } else if w == "se"@ {
        KpState { is_question: true, ..st }
    } else {
        match st.stage {
            Stage::Subject => KpState { subject: st.subject.push(w), ..st },
            Stage::Verb => KpState { verb: st.verb.push(w), ..st },
            Stage::Object => KpState { object: st.object.push(w), ..st },
        }
    }
}

/// The Kana parse state after the first `n` words.
pub open spec fn kp_run(ws: Seq<Seq<char>>, n: int) -> KpState
    decreases n,
{
    if n <= 0 {
        kp_init()
    } else {
        kp_step(kp_run(ws, n - 1), ws[n - 1], n == ws.len())
    }
}

/// Role assignment for a Kana sentence: fails with `MissingSubject` when the
/// input has no words at all or the subject list comes out empty; otherwise
/// the state-machine result, with the question flag also set by any `?`
/// token.
pub open spec fn spec_parse_kana(s: Seq<char>) -> Result<SentenceModel, ParseErr> {
    let toks = spec_tokenize(s);
    let ws = words_of(toks);
    if ws.len() == 0 {
        Err(ParseErr::MissingSubject)
    } else {
        let st = kp_run(ws, ws.len() as int);
        if st.subject.len() == 0 {
            Err(ParseErr::MissingSubject)
        } else {
            Ok(
                SentenceModel {
                    subject: st.subject,
                    verb: st.verb,
                    object: st.object,
                    modifiers: seq![],
                    is_question: has_qmark(toks) || st.is_question,
                    is_negated: st.is_negated,
                },
            )
        }
    }
}

/// English parse state.
#[verifier::ext_equal]
pub ghost struct PeState {
    pub stage: Stage,
    pub subject: Seq<Seq<char>>,
    pub verb: Seq<Seq<char>>,
    pub object: Seq<Seq<char>>,
    pub is_negated: bool,
}

pub open spec fn pe_init() -> PeState {
    PeState {
        stage: Stage::Subject,
        subject: seq![],
        verb: seq![],
        object: seq![],
        is_negated: false,
    }
}

/// One English parsing transition.  Negation cues are dropped and flagged; a
/// pronoun becomes the subject the first time; afterwards the word's
/// category — looked up through meaning-to-canonical translation with the
/// raw lowercase word as fallback — decides: an action word while the verb
/// is open becomes the verb, an entity word after that joins the object, an
/// uncategorized word is a lenient fallback for either slot.
pub open spec fn pe_step(lex: Seq<crate::dict::WordModel>, st: PeState, w: Seq<char>) -> PeState {
    let lower = lower_seq(w);
    if lower == "not"@ || lower == "no"@ || lower == "don't"@ || lower == "doesn't"@ {
        PeState { is_negated: true, ..st }
    } else if lower == "i"@ || lower == "we"@ || lower == "you"@ || lower == "he"@ || lower
        == "she"@ || lower == "it"@ || lower == "they"@ {
        if st.stage == Stage::Subject {
            PeState { subject: st.subject.push(w), stage: Stage::Verb, ..st }
        } else {
            st
        }
    } else {
        let canon = match en_lookup(lex, lower) {
            Some(k) => k,
            None => lower,
        };
        match type_lookup(lex, canon) {
            Some(t) => {
                if t == WordType::Action && st.stage == Stage::Verb {
                    PeState { verb: st.verb.push(w), stage: Stage::Object, ..st }
                } else if t == WordType::Entity && st.stage == Stage::Object {
                    PeState { object: st.object.push(w), ..st }
                } else {
                    st
                }
            },
            None => {
                if st.stage == Stage::Verb {
                    PeState { verb: st.verb.push(w), stage: Stage::Object, ..st }
                } else if st.stage == Stage::Object {
                    PeState { object: st.object.push(w), ..st }
                } else {
                    st
                }
            },
        }
    }
}

/// The English parse state after the first `n` words.
pub open spec fn pe_run(lex: Seq<crate::dict::WordModel>, ws: Seq<Seq<char>>, n: int) -> PeState
    decreases n,
{
    if n <= 0 {
        pe_init()
    } else {
        pe_step(lex, pe_run(lex, ws, n - 1), ws[n - 1])
    }
}

/// Role assignment for an English sentence: fails with `MissingSubject` only
/// on an input without words; a sentence without a pronoun gets the single
/// placeholder subject `unknown`.
pub open spec fn spec_parse_english(lex: Seq<crate::dict::WordModel>, s: Seq<char>) -> Result<
    SentenceModel,
    ParseErr,
> {
    let toks = spec_tokenize(s);
    let ws = words_of(toks);
    if ws.len() == 0 {
        Err(ParseErr::MissingSubject)
    } else {
        let st = pe_run(lex, ws, ws.len() as int);
        let subj = if st.subject.len() == 0 {
            seq!["unknown"@]
        } else {
            st.subject
        };
        Ok(
            SentenceModel {
                subject: subj,
                verb: st.verb,
                object: st.object,
                modifiers: seq![],
                is_question: has_qmark(toks),
                is_negated: st.is_negated,
            },
        )
    }
}

/// The first word of the list that is no canonical form of the lexicon.
pub open spec fn first_invalid(lex: Seq<crate::dict::WordModel>, ws: Seq<Seq<char>>) -> Option<
    Seq<char>,
>
    decreases ws.len(),
{
    if ws.len() == 0 {
        None
    } else if kana_lookup(lex, ws[0]) is None {
        Some(ws[0])
    } else {
        first_invalid(lex, ws.skip(1))
    }
}

/// Validation of a parsed Kana sentence: every subject, verb and object word
/// must be a canonical form; the first miss, in that order, is the error.
pub open spec fn spec_validate_kana(lex: Seq<crate::dict::WordModel>, sm: SentenceModel) -> Result<
    (),
    ParseErr,
> {
    match first_invalid(lex, sm.subject + sm.verb + sm.object) {
        None => Ok(()),
        Some(w) => Err(ParseErr::InvalidWord(w)),
    }
}

/// Scanning a concatenation for an invalid word finds the first half's miss
/// first.
pub proof fn lemma_first_invalid_concat(
    lex: Seq<crate::dict::WordModel>,
    a: Seq<Seq<char>>,
    b: Seq<Seq<char>>,
)
    ensures
        first_invalid(lex, a + b) == match first_invalid(lex, a) {
            Some(w) => Some(w),
            None => first_invalid(lex, b),
        },
    decreases a.len(),
{
    if a.len() == 0 {
        assert(a + b =~= b);
    } else {
        assert((a + b)[0] == a[0]);
        assert((a + b).skip(1) =~= a.skip(1) + b);
        lemma_first_invalid_concat(lex, a.skip(1), b);
    }
}

} // verus!
