//! The lexicon: a fixed table of word entries, looked up by canonical form
//! (exact match) or by English meaning (case-insensitive, bracketed
//! administrative glosses excluded).  When two entries share a key, the later
//! entry wins, mirroring a build that inserts entries in order into a map.

use vstd::prelude::*;

use crate::text::chars_eq;
use crate::text::lower_seq;
use crate::text::lower_vec;
use crate::text::str_eq;
use crate::text::str_to_chars;

verus! {

/// Grammatical category of a lexicon entry.
#[derive(Clone, Copy, Debug, PartialEq, Eq, Hash, Structural)]
pub enum WordType {
    Entity,
    Action,
    Quality,
    Particle,
    Number,
}

/// One lexicon entry: a canonical Kana form, its English meanings in priority
/// order, and its grammatical category.
#[derive(Clone)]
pub struct Word {
    pub kana: &'static str,
    pub english: Vec<&'static str>,
    pub wtype: WordType,
}

/// Mathematical model of one entry.
#[verifier::ext_equal]
pub ghost struct WordModel {
    pub kana: Seq<char>,
    pub english: Seq<Seq<char>>,
    pub wtype: WordType,
}

impl View for Word {
    type V = WordModel;

    open spec fn view(&self) -> WordModel {
        WordModel { kana: self.kana@, english: self.english.deep_view(), wtype: self.wtype }
    }
}

/// The lexicon, modelled as its entry list in construction order.
#[derive(Clone)]
pub struct Dictionary {
    pub entries: Vec<Word>,
}

impl View for Dictionary {
    type V = Seq<WordModel>;

    open spec fn view(&self) -> Seq<WordModel> {
        self.entries@.map_values(|w: Word| w@)
    }
}

/// An administrative gloss such as `[subject-marker]`: never offered as an
/// English rendering and never registered as a meaning key.
pub open spec fn is_bracketed(m: Seq<char>) -> bool {
    m.len() > 0 && m[0] == '['
}

/// Whether some non-bracketed meaning of the entry case-folds to `lw`
/// (`lw` itself already folded).
pub open spec fn entry_matches_meaning(e: WordModel, lw: Seq<char>) -> bool {
    exists|j: int|
        0 <= j < e.english.len() && !is_bracketed(#[trigger] e.english[j]) && lower_seq(
            e.english[j],
        ) == lw
}

/// Meaning-to-canonical lookup: the canonical form of the last entry, in
/// construction order, with a non-bracketed meaning matching `w`
/// case-insensitively.
pub open spec fn en_lookup(lex: Seq<WordModel>, w: Seq<char>) -> Option<Seq<char>>
    decreases lex.len(),
{
    if lex.len() == 0 {
        None
    } else if entry_matches_meaning(lex.last(), lower_seq(w)) {
        Some(lex.last().kana)
    } else {
        en_lookup(lex.drop_last(), w)
    }
}

/// Canonical-to-meanings lookup: the meanings of the last entry whose
/// canonical form equals `w` exactly.
pub open spec fn kana_lookup(lex: Seq<WordModel>, w: Seq<char>) -> Option<Seq<Seq<char>>>
    decreases lex.len(),
{
    if lex.len() == 0 {
        None
    } else if lex.last().kana == w {
        Some(lex.last().english)
    } else {
        kana_lookup(lex.drop_last(), w)
    }
}

/// Category lookup: the category of the last entry whose canonical form
/// equals `w` exactly.
pub open spec fn type_lookup(lex: Seq<WordModel>, w: Seq<char>) -> Option<WordType>
    decreases lex.len(),
{
    if lex.len() == 0 {
        None
    } else if lex.last().kana == w {
        Some(lex.last().wtype)
    } else {
        type_lookup(lex.drop_last(), w)
    }
}

/// Shorthand for one modelled entry.
pub open spec fn we(kana: Seq<char>, english: Seq<Seq<char>>, wtype: WordType) -> WordModel {
    WordModel { kana, english, wtype }
}

/// Entries of the lexicon model, part a.
pub open spec fn lex_part_a() -> Seq<WordModel> {
    seq![
        we("mi"@, seq!["i"@, "me"@, "we"@, "us"@], WordType::Entity),
        we("sina"@, seq!["you"@], WordType::Entity),
        we("ona"@, seq!["he"@, "she"@, "it"@, "they"@], WordType::Entity),
        we("jan"@, seq!["person"@, "human"@, "people"@], WordType::Entity),
        we("kala"@, seq!["fish"@, "animal"@, "creature"@], WordType::Entity),
        we("kasi"@, seq!["plant"@, "tree"@, "nature"@, "vegetation"@], WordType::Entity),
        we("pona"@, seq!["good"@, "simple"@, "positive"@, "correct"@], WordType::Quality),
        we("ike"@, seq!["bad"@, "wrong"@, "negative"@, "complex"@], WordType::Quality),
        we("suli"@, seq!["big"@, "important"@, "long"@, "tall"@], WordType::Quality),
        we("lili"@, seq!["small"@, "little"@, "short"@, "young"@], WordType::Quality),
        we("wawa"@, seq!["strong"@, "powerful"@, "energy"@], WordType::Quality),
        we("mute"@, seq!["many"@, "much"@, "very"@, "a lot"@], WordType::Quality),
        we("sona"@, seq!["know"@, "knowledge"@, "wisdom"@, "understand"@], WordType::Action),
        we("wile"@, seq!["want"@, "need"@, "desire"@, "wish"@], WordType::Action),
        we("ken"@, seq!["can"@, "able"@, "possible"@, "ability"@], WordType::Action),
        we("lukin"@, seq!["see"@, "look"@, "watch"@, "eye"@], WordType::Action),
        we("kute"@, seq!["hear"@, "listen"@, "ear"@], WordType::Action),
        we("toki"@, seq!["speak"@, "say"@, "talk"@, "communicate"@, "language"@], WordType::Action),
        we("pilin"@, seq!["feel"@, "think"@, "believe"@, "emotion"@, "heart"@], WordType::Action),
        we("moku"@, seq!["eat"@, "food"@, "consume"@], WordType::Action),
        we("lape"@, seq!["sleep"@, "rest"@, "tired"@], WordType::Action),
        we("pali"@, seq!["do"@, "make"@, "create"@, "work"@], WordType::Action),
        we("tawa"@, seq!["go"@, "move"@, "to"@, "towards"@], WordType::Action),
    ]
}

/// Entries of the lexicon model, part b.
pub open spec fn lex_part_b() -> Seq<WordModel> {
    seq![
        we("kama"@, seq!["come"@, "arrive"@, "become"@, "future"@], WordType::Action),
        we("awen"@, seq!["stay"@, "remain"@, "wait"@, "keep"@], WordType::Action),
        we("weka"@, seq!["remove"@, "away"@, "absent"@, "gone"@], WordType::Action),
        we("jo"@, seq!["have"@, "hold"@, "possess"@], WordType::Action),
        we("li"@, seq!["[subject-marker]"@], WordType::Particle),
        we("e"@, seq!["[object-marker]"@], WordType::Particle),
        we("pi"@, seq!["[modifier-marker]"@], WordType::Particle),
        we("la"@, seq!["[context-marker]"@, "if"@, "when"@], WordType::Particle),
        we("anu"@, seq!["or"@], WordType::Particle),
        we("en"@, seq!["and"@], WordType::Particle),
        we("se"@, seq!["[question-marker]"@, "?"@, "what"@], WordType::Particle),
        we("ala"@, seq!["no"@, "not"@, "none"@, "zero"@], WordType::Quality),
        we("kin"@, seq!["also"@, "too"@, "indeed"@], WordType::Particle),
        we("ni"@, seq!["this"@, "that"@, "these"@, "those"@], WordType::Entity),
        we("ale"@, seq!["all"@, "everything"@, "universe"@, "life"@], WordType::Entity),
        we("ijo"@, seq!["thing"@, "something"@, "object"@], WordType::Entity),
        we("ma"@, seq!["land"@, "world"@, "place"@, "country"@, "earth"@], WordType::Entity),
        we("tomo"@, seq!["house"@, "building"@, "room"@, "home"@], WordType::Entity),
        we("ilo"@, seq!["tool"@, "device"@, "machine"@], WordType::Entity),
        we("pana"@, seq!["give"@, "send"@, "release"@, "emit"@], WordType::Action),
        we("olin"@, seq!["love"@, "affection"@, "respect"@, "care"@], WordType::Action),
        we("nasin"@, seq!["way"@, "method"@, "path"@, "road"@, "direction"@], WordType::Entity),
        we("tenpo"@, seq!["time"@, "period"@, "moment"@, "situation"@], WordType::Entity),
    ]
}

/// Entries of the lexicon model, part c.
pub open spec fn lex_part_c() -> Seq<WordModel> {
    seq![
        we("suno"@, seq!["sun"@, "day"@, "light"@, "brightness"@], WordType::Entity),
        we("mun"@, seq!["moon"@, "night"@, "star"@], WordType::Entity),
        we("telo"@, seq!["water"@, "liquid"@, "fluid"@, "drink"@], WordType::Entity),
        we("kon"@, seq!["air"@, "wind"@, "breath"@, "spirit"@], WordType::Entity),
        we("seli"@, seq!["fire"@, "heat"@, "warm"@, "cook"@], WordType::Entity),
        we("lete"@, seq!["cold"@, "ice"@, "cool"@, "frozen"@], WordType::Entity),
        we("akuta"@, seq!["truth"@, "real"@, "honest"@, "transparent"@], WordType::Quality),
        we("jaki"@, seq!["dirty"@, "gross"@, "contaminated"@], WordType::Quality),
        we("sin"@, seq!["new"@, "fresh"@, "another"@, "more"@], WordType::Quality),
        we("pini"@, seq!["done"@, "finished"@, "completed"@, "past"@, "end"@], WordType::Quality),
        we("kule"@, seq!["color"@, "colorful"@, "paint"@], WordType::Quality),
        we("walo"@, seq!["white"@, "light-colored"@, "pale"@], WordType::Quality),
        we("pimeja"@, seq!["black"@, "dark"@, "darkness"@], WordType::Quality),
        we("loje"@, seq!["red"@, "reddish"@], WordType::Quality),
        we("laso"@, seq!["blue"@, "green"@, "bluish"@], WordType::Quality),
        we("jelo"@, seq!["yellow"@, "yellowish"@], WordType::Quality),
        we("luka"@, seq!["hand"@, "arm"@, "five"@, "touch"@], WordType::Entity),
        we("noka"@, seq!["foot"@, "leg"@, "walk"@, "bottom"@], WordType::Entity),
        we("monsi"@, seq!["back"@, "behind"@, "rear"@], WordType::Entity),
        we("sinpin"@, seq!["front"@, "face"@, "wall"@], WordType::Entity),
        we("sewi"@, seq!["up"@, "above"@, "high"@, "sky"@, "divine"@], WordType::Quality),
        we("anpa"@, seq!["down"@, "below"@, "low"@, "humble"@], WordType::Quality),
        we("insa"@, seq!["inside"@, "inner"@, "center"@, "stomach"@], WordType::Entity),
    ]
}

/// Entries of the lexicon model, part d.
pub open spec fn lex_part_d() -> Seq<WordModel> {
    seq![
        we("poka"@, seq!["side"@, "next-to"@, "hip"@, "with"@], WordType::Entity),
        we("lon"@, seq!["located-at"@, "exist"@, "real"@, "true"@], WordType::Action),
        we("tan"@, seq!["from"@, "because-of"@, "origin"@, "cause"@], WordType::Particle),
        we("sama"@, seq!["same"@, "similar"@, "equal"@, "like"@], WordType::Quality),
        we("ante"@, seq!["different"@, "other"@, "changed"@], WordType::Quality),
        we("kepeken"@, seq!["use"@, "with"@, "using"@], WordType::Action),
        we("open"@, seq!["begin"@, "start"@, "open"@], WordType::Action),
        we("pan"@, seq!["grain"@, "bread"@, "rice"@, "food"@], WordType::Entity),
        we("esun"@, seq!["trade"@, "market"@, "buy"@, "sell"@, "shop"@], WordType::Entity),
        we("lape"@, seq!["sleep"@, "rest"@], WordType::Action),
        we("musi"@, seq!["fun"@, "play"@, "entertain"@, "art"@], WordType::Action),
        we("uta"@, seq!["mouth"@, "lips"@], WordType::Entity),
        we("nena"@, seq!["bump"@, "hill"@, "mountain"@, "nose"@], WordType::Entity),
        we("linja"@, seq!["long"@, "rope"@, "hair"@, "line"@], WordType::Entity),
        we("palisa"@, seq!["stick"@, "rod"@, "long-object"@], WordType::Entity),
        we("lupa"@, seq!["hole"@, "door"@, "window"@, "opening"@], WordType::Entity),
        we("lipu"@, seq!["paper"@, "book"@, "document"@, "flat"@], WordType::Entity),
        we("kiwen"@, seq!["hard"@, "solid"@, "stone"@, "metal"@], WordType::Quality),
        we("ko"@, seq!["soft"@, "clay"@, "semisolid"@, "paste"@], WordType::Quality),
        we("namako"@, seq!["spice"@, "extra"@, "additional"@, "flavor"@], WordType::Entity),
        we("oko"@, seq!["eye"@, "vision"@], WordType::Entity),
        we("melome"@, seq!["woman"@, "female"@, "feminine"@], WordType::Entity),
        we("mije"@, seq!["man"@, "male"@, "masculine"@], WordType::Entity),
    ]
}

/// Entries of the lexicon model, part e.
pub open spec fn lex_part_e() -> Seq<WordModel> {
    seq![
        we("kasi"@, seq!["plant"@, "leaf"@, "herb"@, "grow"@], WordType::Entity),
        we("sike"@, seq!["circle"@, "round"@, "ball"@, "cycle"@], WordType::Entity),
        we("len"@, seq!["cloth"@, "clothing"@, "fabric"@, "cover"@], WordType::Entity),
        we("unpa"@, seq!["sexual"@, "marriage"@, "intimate"@], WordType::Action),
        we("pakala"@, seq!["break"@, "damage"@, "destroy"@, "mistake"@], WordType::Action),
        we("selo"@, seq!["outer"@, "skin"@, "surface"@, "boundary"@], WordType::Entity),
        we("leko"@, seq!["square"@, "block"@, "corner"@], WordType::Entity),
        we("lanpan"@, seq!["take"@, "get"@, "receive"@, "grab"@], WordType::Action),
        we("wan"@, seq!["one"@, "unique"@, "unite"@], WordType::Number),
        we("tu"@, seq!["two"@, "split"@, "divide"@], WordType::Number),
        we("mute"@, seq!["many"@, "several"@, "much"@, "quantity"@], WordType::Number),
        we("nanpa"@, seq!["number"@, "order"@, "th"@], WordType::Number),
        we("lawa"@, seq!["head"@, "lead"@, "control"@, "main"@, "ruler"@], WordType::Entity),
        we("kipisi"@, seq!["split"@, "cut"@, "divide"@, "slice"@], WordType::Action),
        we("monsuta"@, seq!["fear"@, "monster"@, "danger"@, "scary"@], WordType::Quality),
        we("tonsili"@, seq!["health"@, "wellness"@, "safe"@], WordType::Quality),
        we("meso"@, seq!["medium"@, "average"@, "middle"@], WordType::Quality),
        we("jami"@, seq!["tasty"@, "delicious"@, "yummy"@], WordType::Quality),
        we("suwi"@, seq!["sweet"@, "cute"@, "candy"@, "sugar"@], WordType::Quality),
        we("wile"@, seq!["want"@, "need"@, "must"@, "should"@], WordType::Action),
        we("kijetesantakalu"@, seq!["raccoon"@, "ferret"@, "mustelid"@], WordType::Entity),
        we("yu"@, seq!["hello"@, "greeting"@, "hi"@], WordType::Particle),
        we("poka"@, seq!["friend"@, "companion"@, "together"@], WordType::Entity),
    ]
}

/// The whole lexicon model, in construction order.
pub open spec fn spec_lexicon() -> Seq<WordModel> {
    lex_part_a() + lex_part_b() + lex_part_c() + lex_part_d() + lex_part_e()
}

fn push_word(v: &mut Vec<Word>, kana: &'static str, english: Vec<&'static str>, wtype: WordType)
    ensures
        final(v)@.map_values(|w: Word| w@) == old(v)@.map_values(|w: Word| w@).push(
            we(kana@, english.deep_view(), wtype),
        ),
{
    let w = Word { kana, english, wtype };
    v.push(w);
    proof {
        assert(v@.map_values(|w: Word| w@) =~~= old(v)@.map_values(|w: Word| w@).push(
            we(kana@, w.english.deep_view(), wtype),
        ));
    }
}

fn lex_a(v: &mut Vec<Word>)
    ensures
        final(v)@.map_values(|w: Word| w@) == old(v)@.map_values(|w: Word| w@) + lex_part_a(),
{
    push_word(v, "mi", vec!["i", "me", "we", "us"], WordType::Entity);
    push_word(v, "sina", vec!["you"], WordType::Entity);
    push_word(v, "ona", vec!["he", "she", "it", "they"], WordType::Entity);
    push_word(v, "jan", vec!["person", "human", "people"], WordType::Entity);
    push_word(v, "kala", vec!["fish", "animal", "creature"], WordType::Entity);
    push_word(v, "kasi", vec!["plant", "tree", "nature", "vegetation"], WordType::Entity);
    push_word(v, "pona", vec!["good", "simple", "positive", "correct"], WordType::Quality);
    push_word(v, "ike", vec!["bad", "wrong", "negative", "complex"], WordType::Quality);
    push_word(v, "suli", vec!["big", "important", "long", "tall"], WordType::Quality);
    push_word(v, "lili", vec!["small", "little", "short", "young"], WordType::Quality);
    push_word(v, "wawa", vec!["strong", "powerful", "energy"], WordType::Quality);
    push_word(v, "mute", vec!["many", "much", "very", "a lot"], WordType::Quality);
    push_word(v, "sona", vec!["know", "knowledge", "wisdom", "understand"], WordType::Action);
    push_word(v, "wile", vec!["want", "need", "desire", "wish"], WordType::Action);
    push_word(v, "ken", vec!["can", "able", "possible", "ability"], WordType::Action);
    push_word(v, "lukin", vec!["see", "look", "watch", "eye"], WordType::Action);
    push_word(v, "kute", vec!["hear", "listen", "ear"], WordType::Action);
    push_word(v, "toki", vec!["speak", "say", "talk", "communicate", "language"], WordType::Action);
    push_word(v, "pilin", vec!["feel", "think", "believe", "emotion", "heart"], WordType::Action);
    push_word(v, "moku", vec!["eat", "food", "consume"], WordType::Action);
    push_word(v, "lape", vec!["sleep", "rest", "tired"], WordType::Action);
    push_word(v, "pali", vec!["do", "make", "create", "work"], WordType::Action);
    push_word(v, "tawa", vec!["go", "move", "to", "towards"], WordType::Action);
    proof {
        assert(v@.map_values(|w: Word| w@) =~~= old(v)@.map_values(|w: Word| w@)
            + lex_part_a());
    }
}

fn lex_b(v: &mut Vec<Word>)
    ensures
        final(v)@.map_values(|w: Word| w@) == old(v)@.map_values(|w: Word| w@) + lex_part_b(),
{
    push_word(v, "kama", vec!["come", "arrive", "become", "future"], WordType::Action);
    push_word(v, "awen", vec!["stay", "remain", "wait", "keep"], WordType::Action);
    push_word(v, "weka", vec!["remove", "away", "absent", "gone"], WordType::Action);
    push_word(v, "jo", vec!["have", "hold", "possess"], WordType::Action);
    push_word(v, "li", vec!["[subject-marker]"], WordType::Particle);
    push_word(v, "e", vec!["[object-marker]"], WordType::Particle);
    push_word(v, "pi", vec!["[modifier-marker]"], WordType::Particle);
    push_word(v, "la", vec!["[context-marker]", "if", "when"], WordType::Particle);
    push_word(v, "anu", vec!["or"], WordType::Particle);
    push_word(v, "en", vec!["and"], WordType::Particle);
    push_word(v, "se", vec!["[question-marker]", "?", "what"], WordType::Particle);
    push_word(v, "ala", vec!["no", "not", "none", "zero"], WordType::Quality);
    push_word(v, "kin", vec!["also", "too", "indeed"], WordType::Particle);
    push_word(v, "ni", vec!["this", "that", "these", "those"], WordType::Entity);
    push_word(v, "ale", vec!["all", "everything", "universe", "life"], WordType::Entity);
    push_word(v, "ijo", vec!["thing", "something", "object"], WordType::Entity);
    push_word(v, "ma", vec!["land", "world", "place", "country", "earth"], WordType::Entity);
    push_word(v, "tomo", vec!["house", "building", "room", "home"], WordType::Entity);
    push_word(v, "ilo", vec!["tool", "device", "machine"], WordType::Entity);
    push_word(v, "pana", vec!["give", "send", "release", "emit"], WordType::Action);
    push_word(v, "olin", vec!["love", "affection", "respect", "care"], WordType::Action);
    push_word(v, "nasin", vec!["way", "method", "path", "road", "direction"], WordType::Entity);
    push_word(v, "tenpo", vec!["time", "period", "moment", "situation"], WordType::Entity);
    proof {
        assert(v@.map_values(|w: Word| w@) =~~= old(v)@.map_values(|w: Word| w@)
            + lex_part_b());
    }
}

fn lex_c(v: &mut Vec<Word>)
    ensures
        final(v)@.map_values(|w: Word| w@) == old(v)@.map_values(|w: Word| w@) + lex_part_c(),
{
    push_word(v, "suno", vec!["sun", "day", "light", "brightness"], WordType::Entity);
    push_word(v, "mun", vec!["moon", "night", "star"], WordType::Entity);
    push_word(v, "telo", vec!["water", "liquid", "fluid", "drink"], WordType::Entity);
    push_word(v, "kon", vec!["air", "wind", "breath", "spirit"], WordType::Entity);
    push_word(v, "seli", vec!["fire", "heat", "warm", "cook"], WordType::Entity);
    push_word(v, "lete", vec!["cold", "ice", "cool", "frozen"], WordType::Entity);
    push_word(v, "akuta", vec!["truth", "real", "honest", "transparent"], WordType::Quality);
    push_word(v, "jaki", vec!["dirty", "gross", "contaminated"], WordType::Quality);
    push_word(v, "sin", vec!["new", "fresh", "another", "more"], WordType::Quality);
    push_word(v, "pini", vec!["done", "finished", "completed", "past", "end"], WordType::Quality);
    push_word(v, "kule", vec!["color", "colorful", "paint"], WordType::Quality);
    push_word(v, "walo", vec!["white", "light-colored", "pale"], WordType::Quality);
    push_word(v, "pimeja", vec!["black", "dark", "darkness"], WordType::Quality);
    push_word(v, "loje", vec!["red", "reddish"], WordType::Quality);
    push_word(v, "laso", vec!["blue", "green", "bluish"], WordType::Quality);
    push_word(v, "jelo", vec!["yellow", "yellowish"], WordType::Quality);
    push_word(v, "luka", vec!["hand", "arm", "five", "touch"], WordType::Entity);
    push_word(v, "noka", vec!["foot", "leg", "walk", "bottom"], WordType::Entity);
    push_word(v, "monsi", vec!["back", "behind", "rear"], WordType::Entity);
    push_word(v, "sinpin", vec!["front", "face", "wall"], WordType::Entity);
    push_word(v, "sewi", vec!["up", "above", "high", "sky", "divine"], WordType::Quality);
    push_word(v, "anpa", vec!["down", "below", "low", "humble"], WordType::Quality);
    push_word(v, "insa", vec!["inside", "inner", "center", "stomach"], WordType::Entity);
    proof {
        assert(v@.map_values(|w: Word| w@) =~~= old(v)@.map_values(|w: Word| w@)
            + lex_part_c());
    }
}

fn lex_d(v: &mut Vec<Word>)
    ensures
        final(v)@.map_values(|w: Word| w@) == old(v)@.map_values(|w: Word| w@) + lex_part_d(),
{
    push_word(v, "poka", vec!["side", "next-to", "hip", "with"], WordType::Entity);
    push_word(v, "lon", vec!["located-at", "exist", "real", "true"], WordType::Action);
    push_word(v, "tan", vec!["from", "because-of", "origin", "cause"], WordType::Particle);
    push_word(v, "sama", vec!["same", "similar", "equal", "like"], WordType::Quality);
    push_word(v, "ante", vec!["different", "other", "changed"], WordType::Quality);
    push_word(v, "kepeken", vec!["use", "with", "using"], WordType::Action);
    push_word(v, "open", vec!["begin", "start", "open"], WordType::Action);
    push_word(v, "pan", vec!["grain", "bread", "rice", "food"], WordType::Entity);
    push_word(v, "esun", vec!["trade", "market", "buy", "sell", "shop"], WordType::Entity);
    push_word(v, "lape", vec!["sleep", "rest"], WordType::Action);
    push_word(v, "musi", vec!["fun", "play", "entertain", "art"], WordType::Action);
    push_word(v, "uta", vec!["mouth", "lips"], WordType::Entity);
    push_word(v, "nena", vec!["bump", "hill", "mountain", "nose"], WordType::Entity);
    push_word(v, "linja", vec!["long", "rope", "hair", "line"], WordType::Entity);
    push_word(v, "palisa", vec!["stick", "rod", "long-object"], WordType::Entity);
    push_word(v, "lupa", vec!["hole", "door", "window", "opening"], WordType::Entity);
    push_word(v, "lipu", vec!["paper", "book", "document", "flat"], WordType::Entity);
    push_word(v, "kiwen", vec!["hard", "solid", "stone", "metal"], WordType::Quality);
    push_word(v, "ko", vec!["soft", "clay", "semisolid", "paste"], WordType::Quality);
    push_word(v, "namako", vec!["spice", "extra", "additional", "flavor"], WordType::Entity);
    push_word(v, "oko", vec!["eye", "vision"], WordType::Entity);
    push_word(v, "melome", vec!["woman", "female", "feminine"], WordType::Entity);
    push_word(v, "mije", vec!["man", "male", "masculine"], WordType::Entity);
    proof {
        assert(v@.map_values(|w: Word| w@) =~~= old(v)@.map_values(|w: Word| w@)
            + lex_part_d());
    }
}

fn lex_e(v: &mut Vec<Word>)
    ensures
        final(v)@.map_values(|w: Word| w@) == old(v)@.map_values(|w: Word| w@) + lex_part_e(),
{
    push_word(v, "kasi", vec!["plant", "leaf", "herb", "grow"], WordType::Entity);
    push_word(v, "sike", vec!["circle", "round", "ball", "cycle"], WordType::Entity);
    push_word(v, "len", vec!["cloth", "clothing", "fabric", "cover"], WordType::Entity);
    push_word(v, "unpa", vec!["sexual", "marriage", "intimate"], WordType::Action);
    push_word(v, "pakala", vec!["break", "damage", "destroy", "mistake"], WordType::Action);
    push_word(v, "selo", vec!["outer", "skin", "surface", "boundary"], WordType::Entity);
    push_word(v, "leko", vec!["square", "block", "corner"], WordType::Entity);
    push_word(v, "lanpan", vec!["take", "get", "receive", "grab"], WordType::Action);
    push_word(v, "wan", vec!["one", "unique", "unite"], WordType::Number);
    push_word(v, "tu", vec!["two", "split", "divide"], WordType::Number);
    push_word(v, "mute", vec!["many", "several", "much", "quantity"], WordType::Number);
    push_word(v, "nanpa", vec!["number", "order", "th"], WordType::Number);
    push_word(v, "lawa", vec!["head", "lead", "control", "main", "ruler"], WordType::Entity);
    push_word(v, "kipisi", vec!["split", "cut", "divide", "slice"], WordType::Action);
    push_word(v, "monsuta", vec!["fear", "monster", "danger", "scary"], WordType::Quality);
    push_word(v, "tonsili", vec!["health", "wellness", "safe"], WordType::Quality);
    push_word(v, "meso", vec!["medium", "average", "middle"], WordType::Quality);
    push_word(v, "jami", vec!["tasty", "delicious", "yummy"], WordType::Quality);
    push_word(v, "suwi", vec!["sweet", "cute", "candy", "sugar"], WordType::Quality);
    push_word(v, "wile", vec!["want", "need", "must", "should"], WordType::Action);
    push_word(v, "kijetesantakalu", vec!["raccoon", "ferret", "mustelid"], WordType::Entity);
    push_word(v, "yu", vec!["hello", "greeting", "hi"], WordType::Particle);
    push_word(v, "poka", vec!["friend", "companion", "together"], WordType::Entity);
    proof {
        assert(v@.map_values(|w: Word| w@) =~~= old(v)@.map_values(|w: Word| w@)
            + lex_part_e());
    }
}

/// Whether some non-bracketed meaning of `e` case-folds to `lw` — executable
/// counterpart of `entry_matches_meaning`.
fn entry_has_meaning(e: &Word, lw: &Vec<char>) -> (r: bool)
    ensures
        r == entry_matches_meaning(e@, lw@),
{
    let mut j: usize = 0;
    while j < e.english.len()
        invariant
            j <= e.english@.len(),
            e@.english.len() == e.english@.len(),
            forall|k: int|
                0 <= k < j ==> !(!is_bracketed(#[trigger] e@.english[k]) && lower_seq(
                    e@.english[k],
                ) == lw@),
        decreases e.english@.len() - j,
    {
        let m: &'static str = e.english[j];
        let mc = str_to_chars(m);
        let bracketed = mc.len() > 0 && mc[0] == '[';
        if !bracketed {
            let ml = lower_vec(&mc);
            if chars_eq(&ml, lw) {
                proof {
                    assert(!is_bracketed(e@.english[j as int]) && lower_seq(e@.english[j as int])
                        == lw@);
                }
                return true;
            }
        }
        j = j + 1;
    }
    false
}

impl Dictionary {
    /// Builds the fixed lexicon, every entry in construction order.
    pub fn new() -> (d: Dictionary)
        ensures
            d@ == spec_lexicon(),
    {
        let mut v: Vec<Word> = Vec::new();
        lex_a(&mut v);
        lex_b(&mut v);
        lex_c(&mut v);
        lex_d(&mut v);
        lex_e(&mut v);
        let d = Dictionary { entries: v };
        proof {
            assert(d@ =~~= spec_lexicon());
        }
        d
    }

    /// Meaning-to-canonical translation, case-insensitive in the query.
    pub fn translate_en_word(&self, word: &str) -> (r: Option<&str>)
        ensures
            match r {
                Some(k) => en_lookup(self@, word@) == Some(k@),
                None => en_lookup(self@, word@) is None,
            },
    {
        let wc = str_to_chars(word);
        let lw = lower_vec(&wc);
        let mut i: usize = self.entries.len();
        proof {
            assert(self@.take(i as int) =~= self@);
        }
        while i > 0
            invariant
                i <= self.entries@.len(),
                self@.len() == self.entries@.len(),
                lw@ == lower_seq(word@),
                en_lookup(self@, word@) == en_lookup(self@.take(i as int), word@),
            decreases i,
        {
            proof {
                assert(self@.take(i as int).last() == self@[i - 1]);
                assert(self@.take(i as int).drop_last() =~= self@.take(i - 1));
            }
            if entry_has_meaning(&self.entries[i - 1], &lw) {
                return Some(self.entries[i - 1].kana);
            }
            i = i - 1;
        }
        proof {
            assert(self@.take(0) =~= Seq::<WordModel>::empty());
        }
        None
    }

    /// Canonical-to-meanings translation, exact match on the canonical form.
    pub fn translate_kana_word(&self, word: &str) -> (r: Option<&Vec<&'static str>>)
        ensures
            match r {
                Some(v) => kana_lookup(self@, word@) == Some(v.deep_view()),
                None => kana_lookup(self@, word@) is None,
            },
    {
        let mut i: usize = self.entries.len();
        proof {
            assert(self@.take(i as int) =~= self@);
        }
        while i > 0
            invariant
                i <= self.entries@.len(),
                self@.len() == self.entries@.len(),
                kana_lookup(self@, word@) == kana_lookup(self@.take(i as int), word@),
            decreases i,
        {
            proof {
                assert(self@.take(i as int).last() == self@[i - 1]);
                assert(self@.take(i as int).drop_last() =~= self@.take(i - 1));
            }
            if str_eq(self.entries[i - 1].kana, word) {
                return Some(&self.entries[i - 1].english);
            }
            i = i - 1;
        }
        proof {
            assert(self@.take(0) =~= Seq::<WordModel>::empty());
        }
        None
    }

    /// Category of a canonical form, exact match.
    pub fn get_word_type(&self, word: &str) -> (r: Option<WordType>)
        ensures
            r == type_lookup(self@, word@),
    {
        let mut i: usize = self.entries.len();
        proof {
            assert(self@.take(i as int) =~= self@);
        }
        while i > 0
            invariant
                i <= self.entries@.len(),
                self@.len() == self.entries@.len(),
                type_lookup(self@, word@) == type_lookup(self@.take(i as int), word@),
        decreases i,
        {
            proof {
                assert(self@.take(i as int).last() == self@[i - 1]);
                assert(self@.take(i as int).drop_last() =~= self@.take(i - 1));
            }
            if str_eq(self.entries[i - 1].kana, word) {
                return Some(self.entries[i - 1].wtype);
            }
            i = i - 1;
        }
        proof {
            assert(self@.take(0) =~= Seq::<WordModel>::empty());
        }
        None
    }
}

} // verus!
