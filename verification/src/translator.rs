//! The two renderers and the direction resolver.  Both renderers are total:
//! unresolved words degrade to bracketed placeholders, and an empty result
//! falls back to echoing the input.

use vstd::prelude::*;
use vstd::string::StringExecFns;

use crate::dict::Dictionary;
use crate::dict::WordModel;
use crate::dict::WordType;
use crate::dict::en_lookup;
use crate::dict::is_bracketed;
use crate::dict::kana_lookup;
use crate::dict::spec_lexicon;
use crate::dict::type_lookup;
use crate::parser::Parser;
use crate::parser::Stage;
use crate::parser::spec_tokenize;
use crate::parser::word_list;
use crate::parser::words_of;
use crate::text::chars_eq;
use crate::text::chars_eq_str;
use crate::text::chars_contain_sub;
use crate::text::chars_have_prefix;
use crate::text::chars_to_string;
use crate::text::chars_trim;
use crate::text::chars_trimmed_end_in;
use crate::text::contains_sub;
use crate::text::copy_chars;
use crate::text::has_prefix;
use crate::text::join_spaces;
use crate::text::join_with_spaces;
use crate::text::lower_seq;
use crate::text::lower_vec;
use crate::text::str_eq;
use crate::text::str_to_chars;
use crate::text::trim_seq;
use crate::text::trimmed_ends_in;
use crate::text::views2;

verus! {

/// A word wrapped in square brackets: the placeholder for an unresolved word.
pub open spec fn bracket(w: Seq<char>) -> Seq<char> {
    seq!['['] + w + seq![']']
}

fn bracket_word(w: &Vec<char>) -> (r: Vec<char>)
    ensures
        r@ == bracket(w@),
{
    let mut r: Vec<char> = Vec::new();
    r.push('[');
    let mut i: usize = 0;
    while i < w.len()
        invariant
            i <= w@.len(),
            r@ == seq!['['] + w@.take(i as int),
        decreases w@.len() - i,
    {
        r.push(w[i]);
        proof {
            assert(r@ =~= seq!['['] + w@.take(i + 1));
        }
        i = i + 1;
    }
    r.push(']');
    proof {
        assert(w@.take(w@.len() as int) =~= w@);
        assert(r@ =~= bracket(w@));
    }
    r
}

/// Whether one of the emitted words equals `w`.
pub open spec fn seq_has(ss: Seq<Seq<char>>, w: Seq<char>) -> bool
    decreases ss.len(),
{
    if ss.len() == 0 {
        false
    } else {
        seq_has(ss.drop_last(), w) || ss.last() == w
    }
}

fn vecs_contain(ss: &Vec<Vec<char>>, w: &str) -> (r: bool)
    ensures
        r == seq_has(views2(ss@), w@),
{
    let mut i: usize = ss.len();
    proof {
        assert(views2(ss@).take(i as int) =~= views2(ss@));
    }
    while i > 0
        invariant
            i <= ss@.len(),
            views2(ss@).len() == ss@.len(),
            seq_has(views2(ss@), w@) == seq_has(views2(ss@).take(i as int), w@),
        decreases i,
    {
        proof {
            assert(views2(ss@).take(i as int).last() == views2(ss@)[i - 1]);
            assert(views2(ss@).take(i as int).drop_last() =~= views2(ss@).take(i - 1));
        }
        if chars_eq_str(&ss[i - 1], w) {
            return true;
        }
        i = i - 1;
    }
    proof {
        assert(views2(ss@).take(0) =~= Seq::<Seq<char>>::empty());
    }
    false
}

/// English-to-Kana render state: the emitted words, the buffered trailing
/// modifiers, and which of the three slots are already filled.
#[verifier::ext_equal]
pub ghost struct EkState {
    pub out: Seq<Seq<char>>,
    pub pending: Seq<Seq<char>>,
    pub has_subject: bool,
    pub has_verb: bool,
    pub has_object: bool,
}

pub open spec fn ek_init() -> EkState {
    EkState {
        out: seq![],
        pending: seq![],
        has_subject: false,
        has_verb: false,
        has_object: false,
    }
}

/// One English-to-Kana transition.  Stop words are dropped; negations and
/// intensifiers buffer a trailing modifier; the first content word fills the
/// subject (pronouns map directly), the second the verb (with `li` inserted
/// unless elided after `mi`/`sina` or already present), and the rest the
/// object, with `e` inserted once before the first entity-like object word.
pub open spec fn ek_step(lex: Seq<WordModel>, st: EkState, w: Seq<char>) -> EkState {
    let lower = lower_seq(w);
    if lower == "and"@ {
        st
    } else if lower == "not"@ || lower == "no"@ || lower == "don't"@ {
        EkState { pending: st.pending.push("ala"@), ..st }
    } else if lower == "the"@ || lower == "a"@ || lower == "an"@ {
        st
    } else if lower == "very"@ || lower == "really"@ {
        EkState { pending: st.pending.push("mute"@), ..st }
    } else if !st.has_subject {
        let kana = if lower == "i"@ || lower == "me"@ || lower == "we"@ || lower == "us"@ {
            "mi"@
        } else if lower == "you"@ {
            "sina"@
        } else if lower == "he"@ || lower == "she"@ || lower == "it"@ || lower == "they"@ {
            "ona"@
        } else {
            match en_lookup(lex, lower) {
                Some(k) => k,
                None => bracket(w),
            }
        };
        EkState { out: st.out.push(kana), has_subject: true, ..st }
    } else if !st.has_verb {
        let out1 = if !seq_has(st.out, "li"@) && !(st.out.len() > 0 && (st.out.last() == "sina"@
            || st.out.last() == "mi"@)) {
            st.out.push("li"@)
        } else {
            st.out
        };
        let kana = match en_lookup(lex, lower) {
            Some(k) => k,
            None => bracket(w),
        };
        EkState { out: out1.push(kana), has_verb: true, ..st }
    } else {
        let looked = en_lookup(lex, lower);
        let is_pronoun = lower == "i"@ || lower == "me"@ || lower == "we"@ || lower == "us"@
            || lower == "you"@ || lower == "he"@ || lower == "she"@ || lower == "it"@ || lower
            == "they"@;
        let kana = if lower == "i"@ || lower == "me"@ || lower == "we"@ || lower == "us"@ {
            "mi"@
        } else if lower == "you"@ {
            "sina"@
        } else if lower == "he"@ || lower == "she"@ || lower == "it"@ || lower == "they"@ {
            "ona"@
        } else {
            match looked {
                Some(k) => k,
                None => lower,
            }
        };
        let is_entity = is_pronoun || type_lookup(lex, kana) == Some(WordType::Entity)
            || type_lookup(lex, kana) == Some(WordType::Number);
        let out1 = if is_entity && !st.has_object {
            st.out.push("e"@)
        } else {
            st.out
        };
        let has_object1 = if is_entity && !st.has_object {
            true
        } else {
            st.has_object
        };
        let emitted = if kana == lower && !is_pronoun && looked is None {
            bracket(w)
        } else {
            kana
        };
        EkState { out: out1.push(emitted), has_object: has_object1, ..st }
    }
}

/// The English-to-Kana state after the first `n` words.
pub open spec fn ek_run(lex: Seq<WordModel>, ws: Seq<Seq<char>>, n: int) -> EkState
    decreases n,
{
    if n <= 0 {
        ek_init()
    } else {
        ek_step(lex, ek_run(lex, ws, n - 1), ws[n - 1])
    }
}

/// The whole English-to-Kana rendering: a greeting shortcut, then the word
/// pass, buffered modifiers appended at the end, `se` prepended for a
/// question, and the input echoed when nothing was emitted.
pub open spec fn spec_e2k(lex: Seq<WordModel>, s: Seq<char>) -> Seq<char> {
    let lower_all = lower_seq(s);
    if has_prefix(lower_all, "hello"@) || has_prefix(lower_all, "hi "@) || has_prefix(
        lower_all,
        "hey"@,
    ) {
        "yu"@
    } else {
        let ws = words_of(spec_tokenize(s));
        let st = ek_run(lex, ws, ws.len() as int);
        let combined = st.out + st.pending;
        let full = if trimmed_ends_in(s, '?') {
            seq!["se"@] + combined
        } else {
            combined
        };
        if full.len() == 0 {
            s
        } else {
            join_spaces(full)
        }
    }
}

/// The translation engine: the lexicon together with the tokenizer.
pub struct Translator {
    dict: Dictionary,
    parser: Parser,
}

impl View for Translator {
    type V = Seq<WordModel>;

    closed spec fn view(&self) -> Seq<WordModel> {
        self.dict@
    }
}

impl Translator {
    pub fn new() -> (t: Translator)
        ensures
            t@ == spec_lexicon(),
    {
        let dict = Dictionary::new();
        let parser = Parser::new(dict.clone());
        Translator { dict, parser }
    }

    /// Renders an English sentence in Kana.
    pub fn english_to_kana(&self, input: &str) -> (r: String)
        ensures
            r@ == spec_e2k(self@, input@),
    {
        let chars = str_to_chars(input);
        let lower_all = lower_vec(&chars);
        if chars_have_prefix(&lower_all, "hello") || chars_have_prefix(&lower_all, "hi ")
            || chars_have_prefix(&lower_all, "hey") {
            return chars_to_string(&str_to_chars("yu"));
        }
        let is_q = chars_trimmed_end_in(&chars, '?');
        let toks = self.parser.tokenize(input);
        let (words, _qm) = word_list(&toks);
        let mut out: Vec<Vec<char>> = Vec::new();
        let mut pending: Vec<Vec<char>> = Vec::new();
        let mut has_subject: bool = false;
        let mut has_verb: bool = false;
        let mut has_object: bool = false;
        let mut i: usize = 0;
        proof {
            assert(ek_run(self@, views2(words@), 0) =~~= (EkState {
                out: views2(out@),
                pending: views2(pending@),
                has_subject,
                has_verb,
                has_object,
            }));
        }
        while i < words.len()
            invariant
                i <= words@.len(),
                views2(words@).len() == words@.len(),
                ek_run(self@, views2(words@), i as int) == (EkState {
                    out: views2(out@),
                    pending: views2(pending@),
                    has_subject,
                    has_verb,
                    has_object,
                }),
            decreases words@.len() - i,
        {
            let w = &words[i];
            let lw = lower_vec(w);
            if chars_eq_str(&lw, "and") {
            } else if chars_eq_str(&lw, "not") || chars_eq_str(&lw, "no") || chars_eq_str(
                &lw,
                "don't",
            ) {
                pending.push(str_to_chars("ala"));
            } else if chars_eq_str(&lw, "the") || chars_eq_str(&lw, "a") || chars_eq_str(
                &lw,
                "an",
            ) {
            } else if chars_eq_str(&lw, "very") || chars_eq_str(&lw, "really") {
                pending.push(str_to_chars("mute"));
            } else if !has_subject {
                let kana: Vec<char> = if chars_eq_str(&lw, "i") || chars_eq_str(&lw, "me")
                    || chars_eq_str(&lw, "we") || chars_eq_str(&lw, "us") {
                    str_to_chars("mi")
                } else if chars_eq_str(&lw, "you") {
                    str_to_chars("sina")
                } else if chars_eq_str(&lw, "he") || chars_eq_str(&lw, "she") || chars_eq_str(
                    &lw,
                    "it",
                ) || chars_eq_str(&lw, "they") {
                    str_to_chars("ona")
                } else {
                    let lw_s = chars_to_string(&lw);
                    match self.dict.translate_en_word(lw_s.as_str()) {
                        Some(k) => str_to_chars(k),
                        None => bracket_word(w),
                    }
                };
                out.push(kana);
                has_subject = true;
            } else if !has_verb {
                let has_li = vecs_contain(&out, "li");
                let last_pron = if out.len() > 0 {
                    chars_eq_str(&out[out.len() - 1], "sina") || chars_eq_str(
                        &out[out.len() - 1],
                        "mi",
                    )
                } else {
                    false
                };
                if !has_li && !last_pron {
                    out.push(str_to_chars("li"));
                }
                let lw_s = chars_to_string(&lw);
                match self.dict.translate_en_word(lw_s.as_str()) {
                    Some(k) => out.push(str_to_chars(k)),
                    None => out.push(bracket_word(w)),
                }
                has_verb = true;
            } else {
                let lw_s = chars_to_string(&lw);
                let looked = self.dict.translate_en_word(lw_s.as_str());
                let mut kana: Vec<char>;
                let mut is_pronoun: bool = false;
                if chars_eq_str(&lw, "i") || chars_eq_str(&lw, "me") || chars_eq_str(&lw, "we")
                    || chars_eq_str(&lw, "us") {
                    kana = str_to_chars("mi");
                    is_pronoun = true;
                } else if chars_eq_str(&lw, "you") {
                    kana = str_to_chars("sina");
                    is_pronoun = true;
                } else if chars_eq_str(&lw, "he") || chars_eq_str(&lw, "she") || chars_eq_str(
                    &lw,
                    "it",
                ) || chars_eq_str(&lw, "they") {
                    kana = str_to_chars("ona");
                    is_pronoun = true;
                } else {
                    kana = match looked {
                        Some(k) => str_to_chars(k),
                        None => copy_chars(&lw),
                    };
                }
                let kana_s = chars_to_string(&kana);
                let is_entity = is_pronoun || matches!(
                    self.dict.get_word_type(kana_s.as_str()),
                    Some(WordType::Entity) | Some(WordType::Number)
                );
                if is_entity && !has_object {
                    out.push(str_to_chars("e"));
                    has_object = true;
                }
                if chars_eq(&kana, &lw) && !is_pronoun && looked.is_none() {
                    out.push(bracket_word(w));
                } else {
                    out.push(kana);
                }
            }
            proof {
                assert(ek_run(self@, views2(words@), i + 1) =~~= (EkState {
                    out: views2(out@),
                    pending: views2(pending@),
                    has_subject,
                    has_verb,
                    has_object,
                }));
            }
            i = i + 1;
        }
        let mut j: usize = 0;
        let ghost out_base = views2(out@);
        while j < pending.len()
            invariant
                j <= pending@.len(),
                views2(out@) == out_base + views2(pending@).take(j as int),
            decreases pending@.len() - j,
        {
            let ghost prev = out@;
            out.push(copy_chars(&pending[j]));
            proof {
                assert(out@.drop_last() =~= prev);
                assert(views2(out@).drop_last() =~= views2(prev));
                assert(views2(out@) =~= views2(prev).push(pending@[j as int]@));
                assert(views2(out@) =~= out_base + views2(pending@).take(j + 1));
            }
            j = j + 1;
        }
        proof {
            assert(views2(pending@).take(pending@.len() as int) =~= views2(pending@));
        }
        if is_q {
            out.insert(0, str_to_chars("se"));
            proof {
                assert(views2(out@) =~= seq!["se"@] + (out_base + views2(pending@)));
            }
        }
        if out.len() == 0 {
            proof {
                assert(spec_e2k(self@, input@) == input@);
            }
            return String::from_str(input);
        }
        let joined = join_with_spaces(&out);
        chars_to_string(&joined)
    }

    /// Renders a Kana sentence in English.
    pub fn kana_to_english(&self, input: &str) -> (r: String)
        ensures
            r@ == spec_k2e(self@, input@),
    {
        let chars = str_to_chars(input);
        let lower_all = lower_vec(&chars);
        let lower_trimmed = chars_trim(&lower_all);
        let is_greeting = chars_eq_str(&lower_trimmed, "yu") || chars_have_prefix(
            &lower_trimmed,
            "yu ",
        ) || chars_eq_str(&lower_trimmed, "y");
        let toks = self.parser.tokenize(input);
        let (words, _qm) = word_list(&toks);
        let mut out: Vec<Vec<char>> = Vec::new();
        let mut stage: Stage = Stage::Subject;
        let mut is_question: bool = false;
        let mut is_negated: bool = false;
        let mut i: usize = 0;
        proof {
            assert(ke_run(self@, views2(words@), 0) =~~= (KeState {
                out: views2(out@),
                stage,
                is_question,
                is_negated,
            }));
        }
        while i < words.len()
            invariant
                i <= words@.len(),
                views2(words@).len() == words@.len(),
                ke_run(self@, views2(words@), i as int) == (KeState {
                    out: views2(out@),
                    stage,
                    is_question,
                    is_negated,
                }),
            decreases words@.len() - i,
        {
            let w = &words[i];
            let lw = lower_vec(w);
            if chars_eq_str(&lw, "yu") {
                out.push(str_to_chars("hello"));
            } else if chars_eq_str(&lw, "se") {
                is_question = true;
            } else if chars_eq_str(&lw, "li") {
                stage = Stage::Verb;
            } else if chars_eq_str(&lw, "e") {
                stage = Stage::Object;
            } else if chars_eq_str(&lw, "pi") {
            } else if chars_eq_str(&lw, "ala") {
                is_negated = true;
            } else if chars_eq_str(&lw, "en") {
                out.push(str_to_chars("and"));
            } else {
                let lw_s = chars_to_string(&lw);
                match self.dict.translate_kana_word(lw_s.as_str()) {
                    Some(meanings) => {
                        let mut meaning: Vec<char> = Vec::new();
                        if meanings.len() > 0 {
                            let m0: &'static str = meanings[0];
                            let m0c = str_to_chars(m0);
                            if !(m0c.len() > 0 && m0c[0] == '[') {
                                meaning = m0c;
                            }
                        }
                        if meaning.len() > 0 {
                            match stage {
                                Stage::Subject => {
                                    match self.get_english_pronoun(lw_s.as_str()) {
                                        Some(p) => out.push(str_to_chars(p)),
                                        None => out.push(meaning),
                                    }
                                },
                                Stage::Verb => {
                                    if is_negated {
                                        let mut neg_m = str_to_chars("do not ");
                                        let mut m2 = meaning;
                                        neg_m.append(&mut m2);
                                        out.push(neg_m);
                                        is_negated = false;
                                    } else {
                                        out.push(meaning);
                                    }
                                },
                                Stage::Object => {
                                    out.push(meaning);
                                },
                            }
                        }
                    },
                    None => {
                        out.push(bracket_word(w));
                    },
                }
            }
            proof {
                assert(ke_run(self@, views2(words@), i + 1) =~~= (KeState {
                    out: views2(out@),
                    stage,
                    is_question,
                    is_negated,
                }));
            }
            i = i + 1;
        }
        if is_greeting {
            return chars_to_string(&str_to_chars("hello"));
        }
        if out.len() == 0 {
            return String::from_str(input);
        }
        let mut joined = join_with_spaces(&out);
        if is_question {
            joined.push('?');
        } else {
            joined.push('.');
        }
        proof {
            assert(joined@ =~= spec_k2e(self@, input@));
        }
        chars_to_string(&joined)
    }

    /// The capitalized English pronoun standing for a Kana pronoun at
    /// subject position.
    pub fn get_english_pronoun(&self, kana: &str) -> (r: Option<&'static str>)
        ensures
            match r {
                Some(p) => english_pronoun(kana@) == Some(p@),
                None => english_pronoun(kana@) is None,
            },
    {
        if str_eq(kana, "mi") {
            Some("I")
        } else if str_eq(kana, "sina") {
            Some("you")
        } else if str_eq(kana, "ona") {
            Some("they")
        } else {
            None
        }
    }

    /// Translates in the given direction; `auto` (or any unknown direction)
    /// sniffs the lowercased input for Kana keywords as substrings.
    pub fn translate(&self, input: &str, direction: &str) -> (r: String)
        ensures
            r@ == spec_translate(self@, input@, direction@),
    {
        if str_eq(direction, "to") || str_eq(direction, "en2k") || str_eq(direction, "en-kana") {
            self.english_to_kana(input)
        } else if str_eq(direction, "from") || str_eq(direction, "k2en") || str_eq(
            direction,
            "kana-en",
        ) {
            self.kana_to_english(input)
        } else {
            let lower = lower_vec(&str_to_chars(input));
            let is_kana = chars_contain_sub(&lower, "mi") || chars_contain_sub(&lower, "sina")
                || chars_contain_sub(&lower, "ona") || chars_contain_sub(&lower, "li")
                || chars_contain_sub(&lower, "e") || chars_contain_sub(&lower, "pona")
                || chars_contain_sub(&lower, "ike") || chars_contain_sub(&lower, "toki")
                || chars_contain_sub(&lower, "moku");
            if is_kana {
                self.kana_to_english(input)
            } else {
                self.english_to_kana(input)
            }
        }
    }
}

/// Kana-to-English render state: the emitted words, the stage, and the
/// question and negation flags.
#[verifier::ext_equal]
pub ghost struct KeState {
    pub out: Seq<Seq<char>>,
    pub stage: Stage,
    pub is_question: bool,
    pub is_negated: bool,
}

pub open spec fn ke_init() -> KeState {
    KeState { out: seq![], stage: Stage::Subject, is_question: false, is_negated: false }
}

/// The capitalized English pronoun for a Kana pronoun.
pub open spec fn english_pronoun(w: Seq<char>) -> Option<Seq<char>> {
    if w == "mi"@ {
        Some("I"@)
    } else if w == "sina"@ {
        Some("you"@)
    } else if w == "ona"@ {
        Some("they"@)
    } else {
        None
    }
}

/// One Kana-to-English transition.  `yu` greets inline; the particles set
/// flags or advance the stage and are dropped; any other known word emits
/// its first non-bracketed gloss — with pronoun substitution at subject
/// position, and `do not` prefixed once at the verb when negated — while an
/// unknown word emits a bracketed placeholder.
pub open spec fn ke_step(lex: Seq<WordModel>, st: KeState, w: Seq<char>) -> KeState {
    let lower = lower_seq(w);
    if lower == "yu"@ {
        KeState { out: st.out.push("hello"@), ..st }
    } else if lower == "se"@ {
        KeState { is_question: true, ..st }
    } else if lower == "li"@ {
        KeState { stage: Stage::Verb, ..st }
    } else if lower == "e"@ {
        KeState { stage: Stage::Object, ..st }
    } else if lower == "pi"@ {
        st
    } else if lower == "ala"@ {
        KeState { is_negated: true, ..st }
    } else if lower == "en"@ {
        KeState { out: st.out.push("and"@), ..st }
    } else {
        match kana_lookup(lex, lower) {
            Some(meanings) => {
                let meaning = if meanings.len() > 0 && !is_bracketed(meanings[0]) {
                    meanings[0]
                } else {
                    Seq::<char>::empty()
                };
                if meaning.len() > 0 {
                    match st.stage {
                        Stage::Subject => {
                            let text = match english_pronoun(lower) {
                                Some(p) => p,
                                None => meaning,
                            };
                            KeState { out: st.out.push(text), ..st }
                        },
                        Stage::Verb => {
                            if st.is_negated {
                                KeState {
                                    out: st.out.push("do not "@ + meaning),
                                    is_negated: false,
                                    ..st
                                }
                            } else {
                                KeState { out: st.out.push(meaning), ..st }
                            }
                        },
                        Stage::Object => KeState { out: st.out.push(meaning), ..st },
                    }
                } else {
                    st
                }
            },
            None => KeState { out: st.out.push(bracket(w)), ..st },
        }
    }
}

/// The Kana-to-English state after the first `n` words.
pub open spec fn ke_run(lex: Seq<WordModel>, ws: Seq<Seq<char>>, n: int) -> KeState
    decreases n,
{
    if n <= 0 {
        ke_init()
    } else {
        ke_step(lex, ke_run(lex, ws, n - 1), ws[n - 1])
    }
}

/// The whole Kana-to-English rendering: a whole-sentence greeting shortcut,
/// else the word pass joined with spaces, a trailing `?` when the question
/// flag is set and a trailing `.` otherwise, with the input echoed when
/// nothing was emitted.
pub open spec fn spec_k2e(lex: Seq<WordModel>, s: Seq<char>) -> Seq<char> {
    let lt = trim_seq(lower_seq(s));
    let greeting = lt == "yu"@ || has_prefix(lt, "yu "@) || lt == "y"@;
    let ws = words_of(spec_tokenize(s));
    let st = ke_run(lex, ws, ws.len() as int);
    if greeting {
        "hello"@
    } else if st.out.len() == 0 {
        s
    } else {
        join_spaces(st.out) + (if st.is_question {
            seq!['?']
        } else {
            seq!['.']
        })
    }
}

/// The fixed keyword set whose presence, as a substring of the lowercased
/// input, makes auto-detection pick Kana-to-English.
pub open spec fn looks_kana(s: Seq<char>) -> bool {
    let lower = lower_seq(s);
    ||| contains_sub(lower, "mi"@)
    ||| contains_sub(lower, "sina"@)
    ||| contains_sub(lower, "ona"@)
    ||| contains_sub(lower, "li"@)
    ||| contains_sub(lower, "e"@)
    ||| contains_sub(lower, "pona"@)
    ||| contains_sub(lower, "ike"@)
    ||| contains_sub(lower, "toki"@)
    ||| contains_sub(lower, "moku"@)
}

/// Direction resolution: the explicit aliases pick a renderer; anything else
/// auto-detects by keyword sniffing.
pub open spec fn spec_translate(lex: Seq<WordModel>, s: Seq<char>, dir: Seq<char>) -> Seq<char> {
    if dir == "to"@ || dir == "en2k"@ || dir == "en-kana"@ {
        spec_e2k(lex, s)
    } else if dir == "from"@ || dir == "k2en"@ || dir == "kana-en"@ {
        spec_k2e(lex, s)
    } else if looks_kana(s) {
        spec_k2e(lex, s)
    } else {
        spec_e2k(lex, s)
    }
}

} // verus!
