//! Properties of the library stated and proved once for all inputs: the
//! lexicon's gloss discipline, the last-write-wins collision policy, and the
//! determinism of both renderers.

use vstd::prelude::*;

use crate::dict::WordModel;
use crate::dict::is_bracketed;
use crate::dict::kana_lookup;
use crate::dict::type_lookup;
use crate::dict::lex_part_a;
use crate::dict::lex_part_b;
use crate::dict::lex_part_c;
use crate::dict::lex_part_d;
use crate::dict::lex_part_e;
use crate::dict::spec_lexicon;
use crate::translator::spec_e2k;
use crate::translator::spec_k2e;

verus! {

/// An entry whose meanings are non-empty and whose first meaning is only a
/// bracketed placeholder when every meaning of the entry is bracketed.
pub open spec fn entry_glosses_wf(e: WordModel) -> bool {
    e.english.len() > 0 && (!is_bracketed(e.english[0]) || (forall|j: int|
        0 <= j < e.english.len() ==> is_bracketed(#[trigger] e.english[j])))
}

/// What holds of each lexicon entry: either it is one of the two canonical
/// forms whose gloss list mixes a leading placeholder with real glosses, or
/// its glosses are well formed.
pub open spec fn part_entry_ok(e: WordModel) -> bool {
    e.kana == "la"@ || e.kana == "se"@ || entry_glosses_wf(e)
}

proof fn lemma_part_a_wf()
    ensures
        forall|i: int|
            0 <= i < lex_part_a().len() ==> part_entry_ok(#[trigger] lex_part_a()[i]),
{
    reveal_strlit("i");
    reveal_strlit("you");
    reveal_strlit("he");
    reveal_strlit("person");
    reveal_strlit("fish");
    reveal_strlit("plant");
    reveal_strlit("good");
    reveal_strlit("bad");
    reveal_strlit("big");
    reveal_strlit("small");
    reveal_strlit("strong");
    reveal_strlit("many");
    reveal_strlit("know");
    reveal_strlit("want");
    reveal_strlit("can");
    reveal_strlit("see");
    reveal_strlit("hear");
    reveal_strlit("speak");
    reveal_strlit("feel");
    reveal_strlit("eat");
    reveal_strlit("sleep");
    reveal_strlit("do");
    reveal_strlit("go");
    assert forall|i: int|
        0 <= i < lex_part_a().len() implies part_entry_ok(#[trigger] lex_part_a()[i]) by {
    }
}

proof fn lemma_part_b_wf()
    ensures
        forall|i: int|
            0 <= i < lex_part_b().len() ==> part_entry_ok(#[trigger] lex_part_b()[i]),
{
    reveal_strlit("come");
    reveal_strlit("stay");
    reveal_strlit("remove");
    reveal_strlit("have");
    reveal_strlit("[subject-marker]");
    reveal_strlit("[object-marker]");
    reveal_strlit("[modifier-marker]");
    reveal_strlit("or");
    reveal_strlit("and");
    reveal_strlit("no");
    reveal_strlit("also");
    reveal_strlit("this");
    reveal_strlit("all");
    reveal_strlit("thing");
    reveal_strlit("land");
    reveal_strlit("house");
    reveal_strlit("tool");
    reveal_strlit("give");
    reveal_strlit("love");
    reveal_strlit("way");
    reveal_strlit("time");
    assert forall|i: int|
        0 <= i < lex_part_b().len() implies part_entry_ok(#[trigger] lex_part_b()[i]) by {
    }
}

proof fn lemma_part_c_wf()
    ensures
        forall|i: int|
            0 <= i < lex_part_c().len() ==> part_entry_ok(#[trigger] lex_part_c()[i]),
{
    reveal_strlit("sun");
    reveal_strlit("moon");
    reveal_strlit("water");
    reveal_strlit("air");
    reveal_strlit("fire");
    reveal_strlit("cold");
    reveal_strlit("truth");
    reveal_strlit("dirty");
    reveal_strlit("new");
    reveal_strlit("done");
    reveal_strlit("color");
    reveal_strlit("white");
    reveal_strlit("black");
    reveal_strlit("red");
    reveal_strlit("blue");
    reveal_strlit("yellow");
    reveal_strlit("hand");
    reveal_strlit("foot");
    reveal_strlit("back");
    reveal_strlit("front");
    reveal_strlit("up");
    reveal_strlit("down");
    reveal_strlit("inside");
    assert forall|i: int|
        0 <= i < lex_part_c().len() implies part_entry_ok(#[trigger] lex_part_c()[i]) by {
    }
}

proof fn lemma_part_d_wf()
    ensures
        forall|i: int|
            0 <= i < lex_part_d().len() ==> part_entry_ok(#[trigger] lex_part_d()[i]),
{
    reveal_strlit("side");
    reveal_strlit("located-at");
    reveal_strlit("from");
    reveal_strlit("same");
    reveal_strlit("different");
    reveal_strlit("use");
    reveal_strlit("begin");
    reveal_strlit("grain");
    reveal_strlit("trade");
    reveal_strlit("sleep");
    reveal_strlit("fun");
    reveal_strlit("mouth");
    reveal_strlit("bump");
    reveal_strlit("long");
    reveal_strlit("stick");
    reveal_strlit("hole");
    reveal_strlit("paper");
    reveal_strlit("hard");
    reveal_strlit("soft");
    reveal_strlit("spice");
    reveal_strlit("eye");
    reveal_strlit("woman");
    reveal_strlit("man");
    assert forall|i: int|
        0 <= i < lex_part_d().len() implies part_entry_ok(#[trigger] lex_part_d()[i]) by {
    }
}

proof fn lemma_part_e_wf()
    ensures
        forall|i: int|
            0 <= i < lex_part_e().len() ==> part_entry_ok(#[trigger] lex_part_e()[i]),
{
    reveal_strlit("plant");
    reveal_strlit("circle");
    reveal_strlit("cloth");
    reveal_strlit("sexual");
    reveal_strlit("break");
    reveal_strlit("outer");
    reveal_strlit("square");
    reveal_strlit("take");
    reveal_strlit("one");
    reveal_strlit("two");
    reveal_strlit("many");
    reveal_strlit("number");
    reveal_strlit("head");
    reveal_strlit("split");
    reveal_strlit("fear");
    reveal_strlit("health");
    reveal_strlit("medium");
    reveal_strlit("tasty");
    reveal_strlit("sweet");
    reveal_strlit("want");
    reveal_strlit("raccoon");
    reveal_strlit("hello");
    reveal_strlit("friend");
    assert forall|i: int|
        0 <= i < lex_part_e().len() implies part_entry_ok(#[trigger] lex_part_e()[i]) by {
    }
}

/// Every entry of the lexicon satisfies `part_entry_ok`.
proof fn lemma_lexicon_wf()
    ensures
        forall|i: int|
            0 <= i < spec_lexicon().len() ==> part_entry_ok(#[trigger] spec_lexicon()[i]),
{
    lemma_part_a_wf();
    lemma_part_b_wf();
    lemma_part_c_wf();
    lemma_part_d_wf();
    lemma_part_e_wf();
    assert forall|i: int|
        0 <= i < spec_lexicon().len() implies part_entry_ok(#[trigger] spec_lexicon()[i]) by {
        let na = lex_part_a().len() as int;
        let nb = na + lex_part_b().len() as int;
        let nc = nb + lex_part_c().len() as int;
        let nd = nc + lex_part_d().len() as int;
        if i < na {
            assert(spec_lexicon()[i] == lex_part_a()[i]);
        } else if i < nb {
            assert(spec_lexicon()[i] == lex_part_b()[i - na]);
        } else if i < nc {
            assert(spec_lexicon()[i] == lex_part_c()[i - nb]);
        } else if i < nd {
            assert(spec_lexicon()[i] == lex_part_d()[i - nc]);
        } else {
            assert(spec_lexicon()[i] == lex_part_e()[i - nd]);
        }
    }
}

proof fn lemma_kana_lookup_wf_rec(lex: Seq<WordModel>, w: Seq<char>)
    requires
        forall|i: int| 0 <= i < lex.len() ==> part_entry_ok(#[trigger] lex[i]),
        w != "la"@,
        w != "se"@,
    ensures
        match kana_lookup(lex, w) {
            Some(ms) => entry_glosses_wf(WordModel { kana: w, english: ms, wtype: crate::dict::WordType::Entity }),
            None => true,
        },
    decreases lex.len(),
{
    if lex.len() > 0 {
        if lex.last().kana == w {
            assert(part_entry_ok(lex[lex.len() - 1]));
        } else {
            assert forall|i: int|
                0 <= i < lex.drop_last().len() implies part_entry_ok(
                #[trigger] lex.drop_last()[i]) by {
                assert(lex.drop_last()[i] == lex[i]);
            }
            lemma_kana_lookup_wf_rec(lex.drop_last(), w);
        }
    }
}

/// Every canonical form the lexicon knows maps to a non-empty gloss list
/// whose first gloss is not a bracketed placeholder unless every gloss of
/// the entry is bracketed.  The two canonical forms `la` and `se` are the
/// exception: their gloss lists lead with a placeholder but also hold real
/// glosses.
pub proof fn lemma_lookup_canonical_wellformed(w: Seq<char>)
    requires
        w != "la"@,
        w != "se"@,
    ensures
        match kana_lookup(spec_lexicon(), w) {
            Some(ms) => ms.len() > 0 && (!is_bracketed(ms[0]) || (forall|j: int|
                0 <= j < ms.len() ==> is_bracketed(#[trigger] ms[j]))),
            None => true,
        },
{
    lemma_lexicon_wf();
    lemma_kana_lookup_wf_rec(spec_lexicon(), w);
}

/// Last write wins: when entries share a canonical form, both the meanings
/// and the category lookups return what the last such entry holds.
pub proof fn lemma_last_wins(lex: Seq<WordModel>, w: Seq<char>, i: int)
    requires
        0 <= i < lex.len(),
        lex[i].kana == w,
        forall|j: int| i < j < lex.len() ==> (#[trigger] lex[j]).kana != w,
    ensures
        kana_lookup(lex, w) == Some(lex[i].english),
        type_lookup(lex, w) == Some(lex[i].wtype),
    decreases lex.len(),
{
    if i == lex.len() - 1 {
        assert(lex.last() == lex[i]);
    } else {
        assert(lex.last().kana != w);
        assert forall|j: int|
            i < j < lex.drop_last().len() implies (#[trigger] lex.drop_last()[j]).kana != w by {
            assert(lex.drop_last()[j] == lex[j]);
        }
        assert(lex.drop_last()[i] == lex[i]);
        lemma_last_wins(lex.drop_last(), w, i);
    }
}

/// Rendering English to Kana is deterministic: any two results for the same
/// lexicon and input are equal, because each equals a function of them.
pub proof fn lemma_english_to_kana_deterministic(
    lex: Seq<WordModel>,
    s: Seq<char>,
    r1: Seq<char>,
    r2: Seq<char>,
)
    requires
        r1 == spec_e2k(lex, s),
        r2 == spec_e2k(lex, s),
    ensures
        r1 == r2,
{
}

/// Rendering Kana to English is deterministic in the same way.
pub proof fn lemma_kana_to_english_deterministic(
    lex: Seq<WordModel>,
    s: Seq<char>,
    r1: Seq<char>,
    r2: Seq<char>,
)
    requires
        r1 == spec_k2e(lex, s),
        r2 == spec_k2e(lex, s),
    ensures
        r1 == r2,
{
}

} // verus!
