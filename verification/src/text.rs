//! Character and string helpers shared by the tokenizer, the lexicon and the
//! renderers: whitespace and case predicates, sequence equality, joining.

use vstd::prelude::*;

verus! {

/// The characters `str::trim` and `char::is_whitespace` treat as whitespace.
pub open spec fn is_space_char(c: char) -> bool {
    ||| c == ' '
    ||| c == '\t'
    ||| c == '\n'
    ||| c == '\u{0B}'
    ||| c == '\u{0C}'
    ||| c == '\r'
    ||| c == '\u{85}'
    ||| c == '\u{A0}'
    ||| c == '\u{1680}'
    ||| c == '\u{2000}'
    ||| c == '\u{2001}'
    ||| c == '\u{2002}'
    ||| c == '\u{2003}'
    ||| c == '\u{2004}'
    ||| c == '\u{2005}'
    ||| c == '\u{2006}'
    ||| c == '\u{2007}'
    ||| c == '\u{2008}'
    ||| c == '\u{2009}'
    ||| c == '\u{200A}'
    ||| c == '\u{2028}'
    ||| c == '\u{2029}'
    ||| c == '\u{202F}'
    ||| c == '\u{205F}'
    ||| c == '\u{3000}'
}

pub fn is_space(c: char) -> (r: bool)
    ensures
        r == is_space_char(c),
{
    c == ' ' || c == '\t' || c == '\n' || c == '\u{0B}' || c == '\u{0C}' || c == '\r'
        || c == '\u{85}' || c == '\u{A0}' || c == '\u{1680}' || c == '\u{2000}' || c == '\u{2001}'
        || c == '\u{2002}' || c == '\u{2003}' || c == '\u{2004}' || c == '\u{2005}' || c == '\u{2006}'
        || c == '\u{2007}' || c == '\u{2008}' || c == '\u{2009}' || c == '\u{200A}' || c == '\u{2028}'
        || c == '\u{2029}' || c == '\u{202F}' || c == '\u{205F}' || c == '\u{3000}'
}

/// ASCII case folding of one character.
pub open spec fn lower_char(c: char) -> char {
    if 'A' <= c && c <= 'Z' {
        (((c as u8) + 32) as char)
    } else {
        c
    }
}

/// ASCII case folding of a whole sequence.
pub open spec fn lower_seq(s: Seq<char>) -> Seq<char> {
    s.map_values(|c: char| lower_char(c))
}

pub fn to_lower(c: char) -> (r: char)
    ensures
        r == lower_char(c),
{
    if 'A' <= c && c <= 'Z' {
        ((c as u8) + 32) as char
    } else {
        c
    }
}

/// The characters of a string slice, in order.
pub fn str_to_chars(s: &str) -> (v: Vec<char>)
    ensures
        v@ == s@,
{
    let n = s.unicode_len();
    let mut v: Vec<char> = Vec::new();
    let mut i: usize = 0;
    while i < n
        invariant
            n == s@.len(),
            i <= n,
            v@ == s@.take(i as int),
        decreases n - i,
    {
        let c = s.get_char(i);
        v.push(c);
        proof {
            assert(v@ =~= s@.take(i + 1));
        }
        i = i + 1;
    }
    proof {
        assert(s@.take(n as int) =~= s@);
    }
    v
}

/// Relies on `String::from_iter` over `char`: the string holds exactly the
/// characters of the vector, in order.
#[verifier::external_body]
pub fn chars_to_string(v: &Vec<char>) -> (s: String)
    ensures
        s@ == v@,
{
    v.iter().collect()
}

/// A fresh copy of a character vector.
pub fn copy_chars(v: &Vec<char>) -> (r: Vec<char>)
    ensures
        r@ == v@,
{
    let mut r: Vec<char> = Vec::new();
    let mut i: usize = 0;
    while i < v.len()
        invariant
            i <= v@.len(),
            r@ == v@.take(i as int),
        decreases v@.len() - i,
    {
        r.push(v[i]);
        proof {
            assert(r@ =~= v@.take(i + 1));
        }
        i = i + 1;
    }
    proof {
        assert(v@.take(v@.len() as int) =~= v@);
    }
    r
}

/// Case-folded copy of a character vector.
pub fn lower_vec(v: &Vec<char>) -> (r: Vec<char>)
    ensures
        r@ == lower_seq(v@),
{
    let mut r: Vec<char> = Vec::new();
    let mut i: usize = 0;
    while i < v.len()
        invariant
            i <= v@.len(),
            r@ == lower_seq(v@.take(i as int)),
        decreases v@.len() - i,
    {
        r.push(to_lower(v[i]));
        proof {
            assert(r@ =~= lower_seq(v@.take(i + 1)));
        }
        i = i + 1;
    }
    proof {
        assert(v@.take(v@.len() as int) =~= v@);
    }
    r
}

pub fn chars_eq(a: &Vec<char>, b: &Vec<char>) -> (r: bool)
    ensures
        r == (a@ == b@),
{
    if a.len() != b.len() {
        return false;
    }
    let mut i: usize = 0;
    while i < a.len()
        invariant
            a@.len() == b@.len(),
            i <= a@.len(),
            forall|j: int| 0 <= j < i ==> a@[j] == b@[j],
        decreases a@.len() - i,
    {
        if a[i] != b[i] {
            return false;
        }
        i = i + 1;
    }
    proof {
        assert(a@ =~= b@);
    }
    true
}

/// Whether the vector spells the given string.
pub fn chars_eq_str(a: &Vec<char>, s: &str) -> (r: bool)
    ensures
        r == (a@ == s@),
{
    let n = s.unicode_len();
    if a.len() != n {
        return false;
    }
    let mut i: usize = 0;
    while i < n
        invariant
            n == s@.len(),
            a@.len() == n,
            i <= n,
            forall|j: int| 0 <= j < i ==> a@[j] == s@[j],
        decreases n - i,
    {
        if a[i] != s.get_char(i) {
            return false;
        }
        i = i + 1;
    }
    proof {
        assert(a@ =~= s@);
    }
    true
}

pub fn str_eq(a: &str, b: &str) -> (r: bool)
    ensures
        r == (a@ == b@),
{
    let n = a.unicode_len();
    if n != b.unicode_len() {
        return false;
    }
    let mut i: usize = 0;
    while i < n
        invariant
            n == a@.len() == b@.len(),
            i <= n,
            forall|j: int| 0 <= j < i ==> a@[j] == b@[j],
        decreases n - i,
    {
        if a.get_char(i) != b.get_char(i) {
            return false;
        }
        i = i + 1;
    }
    proof {
        assert(a@ =~= b@);
    }
    true
}

pub open spec fn has_prefix(s: Seq<char>, p: Seq<char>) -> bool {
    s.len() >= p.len() && s.take(p.len() as int) == p
}

/// Whether the vector starts with the given string.
pub fn chars_have_prefix(a: &Vec<char>, p: &str) -> (r: bool)
    ensures
        r == has_prefix(a@, p@),
{
    let n = p.unicode_len();
    if a.len() < n {
        proof {
            assert(!has_prefix(a@, p@));
        }
        return false;
    }
    let mut i: usize = 0;
    while i < n
        invariant
            n == p@.len(),
            a@.len() >= n,
            i <= n,
            forall|j: int| 0 <= j < i ==> a@[j] == p@[j],
        decreases n - i,
    {
        if a[i] != p.get_char(i) {
            proof {
                assert(a@.take(n as int)[i as int] != p@[i as int]);
            }
            return false;
        }
        i = i + 1;
    }
    proof {
        assert(a@.take(n as int) =~= p@);
    }
    true
}

/// Whether `p` occurs in `s` as a contiguous substring.
pub open spec fn contains_sub(s: Seq<char>, p: Seq<char>) -> bool {
    exists|i: int| 0 <= i && i + p.len() <= s.len() && #[trigger] s.subrange(i, i + p.len() as int)
        == p
}

/// Whether the vector holds the given string anywhere as a substring.
pub fn chars_contain_sub(a: &Vec<char>, p: &str) -> (r: bool)
    ensures
        r == contains_sub(a@, p@),
{
    let n = p.unicode_len();
    if a.len() < n {
        return false;
    }
    if n == 0 {
        proof {
            assert(contains_sub(a@, p@)) by {
                assert(a@.subrange(0, 0 + p@.len() as int) =~= p@);
            }
        }
        return true;
    }
    let last_start = a.len() - n;
    let mut start: usize = 0;
    while start <= last_start
        invariant
            n == p@.len(),
            1 <= n,
            a@.len() >= n,
            a@.len() <= usize::MAX,
            last_start == a@.len() - n,
            start <= last_start + 1,
            forall|k: int| 0 <= k < start ==> #[trigger] a@.subrange(k, k + p@.len() as int) != p@,
        decreases last_start + 1 - start,
    {
        let mut i: usize = 0;
        let mut all_eq: bool = true;
        while i < n
            invariant
                n == p@.len(),
                a@.len() >= n,
                a@.len() <= usize::MAX,
                start <= a@.len() - n,
                i <= n,
                all_eq ==> forall|j: int| 0 <= j < i ==> a@[start + j] == p@[j],
                !all_eq ==> a@.subrange(start as int, start + p@.len() as int) != p@,
            decreases n - i,
        {
            if a[start + i] != p.get_char(i) {
                proof {
                    assert(a@.subrange(start as int, start + p@.len() as int)[i as int] != p@[i as int]);
                }
                all_eq = false;
                i = n;
            } else {
                i = i + 1;
            }
        }
        if all_eq {
            proof {
                assert(a@.subrange(start as int, start + p@.len() as int) =~= p@);
            }
            return true;
        }
        start = start + 1;
    }
    false
}

/// The sequence with trailing whitespace removed.
pub open spec fn trim_end(s: Seq<char>) -> Seq<char>
    decreases s.len(),
{
    if s.len() == 0 {
        s
    } else if is_space_char(s.last()) {
        trim_end(s.drop_last())
    } else {
        s
    }
}

/// The sequence with leading whitespace removed.
pub open spec fn trim_start(s: Seq<char>) -> Seq<char>
    decreases s.len(),
{
    if s.len() == 0 {
        s
    } else if is_space_char(s[0]) {
        trim_start(s.skip(1))
    } else {
        s
    }
}

/// The sequence with whitespace removed from both ends, as `str::trim` does.
pub open spec fn trim_seq(s: Seq<char>) -> Seq<char> {
    trim_start(trim_end(s))
}

/// Whether the input, once trailing whitespace is dropped, ends in `c`.
pub open spec fn trimmed_ends_in(s: Seq<char>, c: char) -> bool {
    trim_end(s).len() > 0 && trim_end(s).last() == c
}

pub fn chars_trimmed_end_in(a: &Vec<char>, c: char) -> (r: bool)
    ensures
        r == trimmed_ends_in(a@, c),
{
    proof {
        assert(a@.take(a@.len() as int) =~= a@);
    }
    let mut i: usize = a.len();
    while i > 0
        invariant
            i <= a@.len(),
            trim_end(a@) == trim_end(a@.take(i as int)),
        decreases i,
    {
        let d = a[i - 1];
        if is_space(d) {
            proof {
                assert(a@.take(i as int).drop_last() =~= a@.take(i - 1));
            }
            i = i - 1;
        } else {
            proof {
                assert(trim_end(a@.take(i as int)) == a@.take(i as int));
            }
            return d == c;
        }
    }
    proof {
        assert(a@.take(0) =~= Seq::<char>::empty());
    }
    false
}

/// The trimmed copy of a character vector.
pub fn chars_trim(a: &Vec<char>) -> (r: Vec<char>)
    ensures
        r@ == trim_seq(a@),
{
    proof {
        assert(a@.take(a@.len() as int) =~= a@);
    }
    let mut hi: usize = a.len();
    while hi > 0
        invariant_except_break
            hi <= a@.len(),
            trim_end(a@) == trim_end(a@.take(hi as int)),
        ensures
            hi <= a@.len(),
            trim_end(a@) == a@.take(hi as int),
        decreases hi,
    {
        if is_space(a[hi - 1]) {
            proof {
                assert(a@.take(hi as int).drop_last() =~= a@.take(hi - 1));
            }
            hi = hi - 1;
            proof {
                if hi == 0 {
                    assert(a@.take(0) =~= Seq::<char>::empty());
                }
            }
        } else {
            proof {
                assert(trim_end(a@.take(hi as int)) == a@.take(hi as int));
            }
            break;
        }
    }
    proof {
        assert(a@.take(hi as int).skip(0) =~= a@.take(hi as int));
    }
    let mut lo: usize = 0;
    while lo < hi
        invariant_except_break
            lo <= hi <= a@.len(),
            trim_start(a@.take(hi as int)) == trim_start(a@.take(hi as int).skip(lo as int)),
        ensures
            lo <= hi <= a@.len(),
            trim_start(a@.take(hi as int)) == a@.take(hi as int).skip(lo as int),
        decreases hi - lo,
    {
        if is_space(a[lo]) {
            proof {
                assert(a@.take(hi as int).skip(lo as int)[0] == a@[lo as int]);
                assert(a@.take(hi as int).skip(lo as int).skip(1) =~= a@.take(hi as int).skip(
                    lo + 1,
                ));
            }
            lo = lo + 1;
            proof {
                if lo == hi {
                    assert(a@.take(hi as int).skip(hi as int) =~= Seq::<char>::empty());
                }
            }
        } else {
            proof {
                assert(a@.take(hi as int).skip(lo as int)[0] == a@[lo as int]);
                assert(trim_start(a@.take(hi as int).skip(lo as int)) == a@.take(hi as int).skip(
                    lo as int,
                ));
            }
            break;
        }
    }
    let mut r: Vec<char> = Vec::new();
    let mut i: usize = lo;
    while i < hi
        invariant
            lo <= i <= hi <= a@.len(),
            r@ == a@.take(hi as int).skip(lo as int).take(i - lo),
        decreases hi - i,
    {
        r.push(a[i]);
        proof {
            assert(r@ =~= a@.take(hi as int).skip(lo as int).take(i + 1 - lo));
        }
        i = i + 1;
    }
    proof {
        assert(a@.take(hi as int).skip(lo as int).take(hi - lo) =~= a@.take(hi as int).skip(
            lo as int,
        ));
    }
    r
}

/// The parts joined with single spaces, as `join` with `" "` does.
pub open spec fn join_spaces(parts: Seq<Seq<char>>) -> Seq<char>
    decreases parts.len(),
{
    if parts.len() == 0 {
        Seq::empty()
    } else if parts.len() == 1 {
        parts[0]
    } else {
        join_spaces(parts.drop_last()) + seq![' '] + parts.last()
    }
}

/// The views of a vector of character vectors.
pub open spec fn views2(parts: Seq<Vec<char>>) -> Seq<Seq<char>> {
    parts.map_values(|p: Vec<char>| p@)
}

pub fn join_with_spaces(parts: &Vec<Vec<char>>) -> (r: Vec<char>)
    ensures
        r@ == join_spaces(views2(parts@)),
{
    let mut r: Vec<char> = Vec::new();
    let mut i: usize = 0;
    while i < parts.len()
        invariant
            i <= parts@.len(),
            r@ == join_spaces(views2(parts@.take(i as int))),
        decreases parts@.len() - i,
    {
        if i > 0 {
            r.push(' ');
        }
        let mut j: usize = 0;
        let ghost mid = r@;
        while j < parts[i].len()
            invariant
                i < parts@.len(),
                j <= parts@[i as int]@.len(),
                r@ == mid + parts@[i as int]@.take(j as int),
            decreases parts@[i as int]@.len() - j,
        {
            r.push(parts[i][j]);
            proof {
                assert(r@ =~= mid + parts@[i as int]@.take(j + 1));
            }
            j = j + 1;
        }
        proof {
            assert(parts@[i as int]@.take(parts@[i as int]@.len() as int) =~= parts@[i as int]@);
            assert(views2(parts@.take(i + 1)).drop_last() =~= views2(parts@.take(i as int)));
            assert(views2(parts@.take(i + 1)).last() == parts@[i as int]@);
            if i > 0 {
                assert(r@ =~= join_spaces(views2(parts@.take(i as int))) + seq![' ']
                    + parts@[i as int]@);
            } else {
                assert(r@ =~= parts@[i as int]@);
            }
        }
        i = i + 1;
    }
    proof {
        assert(parts@.take(parts@.len() as int) =~= parts@);
    }
    r
}

} // verus!

