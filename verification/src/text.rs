//! Verified text primitives: trimming, cleaning and joining the raw text
//! nodes read out of a document.
//!
//! Whitespace here is the Unicode White_Space class, the set the
//! standard library's trimming removes; every contract in the crate
//! states trimming in those terms.

use vstd::prelude::*;
use vstd::string::*;

verus! {

/// Unicode whitespace, the class our trimming removes: the ASCII
/// spacing characters, next line, no-break space, ogham space mark, the
/// en-quad to hair-space range, the line and paragraph separators, the
/// narrow and medium mathematical spaces and the ideographic space.
pub open spec fn is_space(c: char) -> bool {
    ||| c == ' '
    ||| c == '\t'
    ||| c == '\n'
    ||| ('\u{0B}' <= c && c <= '\u{0D}')
    ||| c == '\u{85}'
    ||| c == '\u{A0}'
    ||| c == '\u{1680}'
    ||| ('\u{2000}' <= c && c <= '\u{200A}')
    ||| c == '\u{2028}'
    ||| c == '\u{2029}'
    ||| c == '\u{202F}'
    ||| c == '\u{205F}'
    ||| c == '\u{3000}'
}

/// The input without its leading whitespace.
pub open spec fn trim_front(s: Seq<char>) -> Seq<char>
    decreases s.len(),
{
    if s.len() > 0 && is_space(s[0]) {
        trim_front(s.drop_first())
    } else {
        s
    }
}

/// The input without its trailing whitespace.
pub open spec fn trim_back(s: Seq<char>) -> Seq<char>
    decreases s.len(),
{
    if s.len() > 0 && is_space(s.last()) {
        trim_back(s.drop_last())
    } else {
        s
    }
}

/// The input with leading and trailing whitespace removed.
pub open spec fn trimmed(s: Seq<char>) -> Seq<char> {
    trim_back(trim_front(s))
}

/// The input with every newline and tab removed.
pub open spec fn without_breaks(s: Seq<char>) -> Seq<char>
    decreases s.len(),
{
    if s.len() == 0 {
        Seq::empty()
    } else {
        let rest = without_breaks(s.drop_last());
        if s.last() == '\n' || s.last() == '\t' {
            rest
        } else {
            rest.push(s.last())
        }
    }
}

/// Trimmed, then stripped of embedded newlines and tabs: the shape in
/// which a single extracted text value is handed to the caller.
pub open spec fn cleaned(s: Seq<char>) -> Seq<char> {
    without_breaks(trimmed(s))
}

/// The first text in the list whose trimmed form is non-empty, cleaned;
/// the empty sequence when there is none.
pub open spec fn first_meaningful(texts: Seq<Seq<char>>) -> Seq<char>
    decreases texts.len(),
{
    if texts.len() == 0 {
        Seq::empty()
    } else if trimmed(texts[0]).len() > 0 {
        without_breaks(trimmed(texts[0]))
    } else {
        first_meaningful(texts.drop_first())
    }
}

/// The trimmed forms of the texts that are non-empty after trimming,
/// in order.
pub open spec fn meaningful_parts(texts: Seq<Seq<char>>) -> Seq<Seq<char>>
    decreases texts.len(),
{
    if texts.len() == 0 {
        Seq::empty()
    } else {
        let rest = meaningful_parts(texts.drop_last());
        if trimmed(texts.last()).len() > 0 {
            rest.push(trimmed(texts.last()))
        } else {
            rest
        }
    }
}

/// The given parts joined with the given separator between them.
pub open spec fn joined(parts: Seq<Seq<char>>, sep: Seq<char>) -> Seq<char>
    decreases parts.len(),
{
    if parts.len() == 0 {
        Seq::empty()
    } else if parts.len() == 1 {
        parts[0]
    } else {
        joined(parts.drop_last(), sep) + sep + parts.last()
    }
}

/// All trimmed non-empty texts joined with the separator: the shape of a
/// table cell's or heading's full text content.
pub open spec fn joined_meaningful(texts: Seq<Seq<char>>, sep: Seq<char>) -> Seq<char> {
    joined(meaningful_parts(texts), sep)
}

fn is_space_char(c: char) -> (r: bool)
    ensures
        r == is_space(c),
{
    c == ' ' || c == '\t' || c == '\n' || ('\u{0B}' <= c && c <= '\u{0D}') || c == '\u{85}'
        || c == '\u{A0}' || c == '\u{1680}' || ('\u{2000}' <= c && c <= '\u{200A}')
        || c == '\u{2028}' || c == '\u{2029}' || c == '\u{202F}' || c == '\u{205F}'
        || c == '\u{3000}'
}

/// The characters of a string, in order.
pub fn str_chars(s: &str) -> (r: Vec<char>)
    ensures
        r@ == s@,
{
    let n = s.unicode_len();
    let mut r: Vec<char> = Vec::new();
    let mut i: usize = 0;
    while i < n
        invariant
            n == s@.len(),
            i <= n,
            r@ == s@.subrange(0, i as int),
        decreases n - i,
    {
        let c = s.get_char(i);
        r.push(c);
        i = i + 1;
        proof {
            assert(r@ =~= s@.subrange(0, i as int));
        }
    }
    proof {
        assert(r@ =~= s@);
    }
    r
}

/// Relies on String's FromIterator over char: collecting yields a string
/// holding exactly the given characters in order.
#[verifier::external_body]
pub fn chars_to_string(v: &Vec<char>) -> (r: String)
    ensures
        r@ == v@,
{
    v.iter().collect()
}

/// Remove leading and trailing whitespace.
pub fn trim_chars(v: &Vec<char>) -> (r: Vec<char>)
    ensures
        r@ == trimmed(v@),
{
    let ghost n = v@.len() as int;
    proof {
        assert(v@.subrange(0, n) =~= v@);
    }
    let mut lo: usize = 0;
    while lo < v.len() && is_space_char(v[lo])
        invariant
            lo <= v@.len(),
            trim_front(v@) == trim_front(v@.subrange(lo as int, n)),
            n == v@.len(),
        decreases v@.len() - lo,
    {
        proof {
            let s = v@.subrange(lo as int, n);
            assert(s[0] == v@[lo as int]);
            assert(s.drop_first() =~= v@.subrange(lo as int + 1, n));
        }
        lo = lo + 1;
    }
    proof {
        let s = v@.subrange(lo as int, n);
        if lo < v@.len() {
            assert(s[0] == v@[lo as int]);
            assert(!is_space(s[0]));
        }
        assert(trim_front(v@) == s);
    }
    let mut hi: usize = v.len();
    while hi > lo && is_space_char(v[hi - 1])
        invariant
            lo <= hi <= v@.len(),
            n == v@.len(),
            trim_back(v@.subrange(lo as int, n)) == trim_back(v@.subrange(lo as int, hi as int)),
        decreases hi,
    {
        proof {
            let s = v@.subrange(lo as int, hi as int);
            assert(s.last() == v@[hi - 1]);
            assert(s.drop_last() =~= v@.subrange(lo as int, hi as int - 1));
        }
        hi = hi - 1;
    }
    proof {
        let s = v@.subrange(lo as int, hi as int);
        if hi > lo {
            assert(s.last() == v@[hi - 1]);
            assert(!is_space(s.last()));
        }
        assert(trim_back(v@.subrange(lo as int, n)) == s);
        assert(trimmed(v@) == s);
    }
    let mut r: Vec<char> = Vec::new();
    let mut i: usize = lo;
    while i < hi
        invariant
            lo <= i <= hi <= v@.len(),
            r@ == v@.subrange(lo as int, i as int),
        decreases hi - i,
    {
        r.push(v[i]);
        i = i + 1;
        proof {
            assert(r@ =~= v@.subrange(lo as int, i as int));
        }
    }
    r
}

/// Remove every newline and tab.
pub fn remove_breaks(v: &Vec<char>) -> (r: Vec<char>)
    ensures
        r@ == without_breaks(v@),
{
    let mut r: Vec<char> = Vec::new();
    let mut i: usize = 0;
    while i < v.len()
        invariant
            i <= v@.len(),
            r@ == without_breaks(v@.subrange(0, i as int)),
        decreases v@.len() - i,
    {
        let c = v[i];
        proof {
            let s = v@.subrange(0, i as int + 1);
            assert(s.drop_last() =~= v@.subrange(0, i as int));
            assert(s.last() == v@[i as int]);
        }
        if !(c == '\n' || c == '\t') {
            r.push(c);
        }
        i = i + 1;
    }
    proof {
        assert(v@.subrange(0, v@.len() as int) =~= v@);
    }
    r
}

/// Trim, then remove embedded newlines and tabs.
pub fn clean_chars(v: &Vec<char>) -> (r: Vec<char>)
    ensures
        r@ == cleaned(v@),
{
    let t = trim_chars(v);
    remove_breaks(&t)
}

/// Clean a string: trim it and strip embedded newlines and tabs.
pub fn clean_str(s: &str) -> (r: String)
    ensures
        r@ == cleaned(s@),
{
    let v = str_chars(s);
    let c = clean_chars(&v);
    chars_to_string(&c)
}

/// The first text whose trimmed form is non-empty, cleaned; empty when
/// no text qualifies.
pub fn first_nonempty_text(texts: &Vec<String>) -> (r: String)
    ensures
        r@ == first_meaningful(texts.deep_view()),
{
    let ghost all = texts.deep_view();
    proof {
        assert(all.subrange(0, all.len() as int) =~= all);
    }
    let mut i: usize = 0;
    while i < texts.len()
        invariant
            i <= texts@.len(),
            all == texts.deep_view(),
            all.len() == texts@.len(),
            forall|j: int| 0 <= j < all.len() ==> all[j] == texts@[j]@,
            first_meaningful(all) == first_meaningful(all.subrange(i as int, all.len() as int)),
        decreases texts@.len() - i,
    {
        let v = str_chars(texts[i].as_str());
        let t = trim_chars(&v);
        proof {
            let s = all.subrange(i as int, all.len() as int);
            assert(s[0] == all[i as int]);
            assert(s.drop_first() =~= all.subrange(i as int + 1, all.len() as int));
        }
        if t.len() > 0 {
            let c = remove_breaks(&t);
            return chars_to_string(&c);
        }
        i = i + 1;
    }
    proof {
        assert(first_meaningful(all.subrange(all.len() as int, all.len() as int)) == Seq::<
            char,
        >::empty());
    }
    String::new()
}

/// Join the trimmed non-empty texts with the separator.
pub fn join_texts(texts: &Vec<String>, sep: &str) -> (r: String)
    ensures
        r@ == joined_meaningful(texts.deep_view(), sep@),
{
    let ghost all = texts.deep_view();
    let mut parts: Vec<Vec<char>> = Vec::new();
    let mut i: usize = 0;
    while i < texts.len()
        invariant
            i <= texts@.len(),
            all == texts.deep_view(),
            all.len() == texts@.len(),
            forall|j: int| 0 <= j < all.len() ==> all[j] == texts@[j]@,
            parts.deep_view() == meaningful_parts(all.subrange(0, i as int)),
        decreases texts@.len() - i,
    {
        let v = str_chars(texts[i].as_str());
        let t = trim_chars(&v);
        proof {
            let s = all.subrange(0, i as int + 1);
            assert(s.drop_last() =~= all.subrange(0, i as int));
            assert(s.last() == all[i as int]);
        }
        if t.len() > 0 {
            parts.push(t);
            proof {
                assert(parts.deep_view() =~~= meaningful_parts(all.subrange(0, i as int + 1)));
            }
        }
        i = i + 1;
    }
    proof {
        assert(all.subrange(0, all.len() as int) =~= all);
    }
    let sep_chars = str_chars(sep);
    let mut out: Vec<char> = Vec::new();
    let mut k: usize = 0;
    while k < parts.len()
        invariant
            k <= parts@.len(),
            sep_chars@ == sep@,
            parts.deep_view() == meaningful_parts(all),
            parts.deep_view().len() == parts@.len(),
            forall|j: int| 0 <= j < parts@.len() ==> parts.deep_view()[j] == parts@[j]@,
            out@ == joined(parts.deep_view().subrange(0, k as int), sep@),
        decreases parts@.len() - k,
    {
        proof {
            let s = parts.deep_view().subrange(0, k as int + 1);
            assert(s.drop_last() =~= parts.deep_view().subrange(0, k as int));
            assert(s.last() == parts.deep_view()[k as int]);
        }
        if k > 0 {
            let mut m: usize = 0;
            while m < sep_chars.len()
                invariant
                    m <= sep_chars@.len(),
                    out@ == joined(parts.deep_view().subrange(0, k as int), sep@) + sep@.subrange(
                        0,
                        m as int,
                    ),
                    k <= parts@.len(),
                    sep_chars@ == sep@,
                    parts.deep_view() == meaningful_parts(all),
                decreases sep_chars@.len() - m,
            {
                out.push(sep_chars[m]);
                m = m + 1;
                proof {
                    assert(out@ =~= joined(parts.deep_view().subrange(0, k as int), sep@)
                        + sep@.subrange(0, m as int));
                }
            }
            proof {
                assert(sep@.subrange(0, sep@.len() as int) =~= sep@);
            }
        }
        let part = &parts[k];
        let mut m: usize = 0;
        while m < part.len()
            invariant
                m <= part@.len(),
                part@ == parts@[k as int]@,
                k < parts@.len(),
                parts.deep_view() == meaningful_parts(all),
                parts.deep_view().len() == parts@.len(),
                forall|j: int| 0 <= j < parts@.len() ==> parts.deep_view()[j] == parts@[j]@,
                ({
                    let prev = joined(parts.deep_view().subrange(0, k as int), sep@);
                    let head = if k > 0 {
                        prev + sep@
                    } else {
                        prev
                    };
                    out@ == head + parts.deep_view()[k as int].subrange(0, m as int)
                }),
            decreases part@.len() - m,
        {
            out.push(part[m]);
            m = m + 1;
            proof {
                let prev = joined(parts.deep_view().subrange(0, k as int), sep@);
                let head = if k > 0 {
                    prev + sep@
                } else {
                    prev
                };
                assert(out@ =~= head + parts.deep_view()[k as int].subrange(0, m as int));
            }
        }
        k = k + 1;
        proof {
            let dv = parts.deep_view();
            let s = dv.subrange(0, k as int);
            assert(s.drop_last() =~= dv.subrange(0, k as int - 1));
            assert(s.last() == dv[k as int - 1]);
            let full = dv[k as int - 1];
            assert(full.subrange(0, full.len() as int) =~= full);
            assert(out@ =~= joined(s, sep@));
        }
    }
    proof {
        assert(parts.deep_view().subrange(0, parts.deep_view().len() as int) =~= parts.deep_view());
    }
    chars_to_string(&out)
}


/// The string begins with the given prefix.
pub open spec fn starts_with(s: Seq<char>, p: Seq<char>) -> bool {
    s.len() >= p.len() && s.subrange(0, p.len() as int) == p
}

/// The string ends with the given suffix.
pub open spec fn ends_with(s: Seq<char>, p: Seq<char>) -> bool {
    s.len() >= p.len() && s.subrange(s.len() - p.len(), s.len() as int) == p
}

/// The pattern occurs at position `i`.
pub open spec fn matches_at(s: Seq<char>, p: Seq<char>, i: int) -> bool {
    0 <= i && i + p.len() <= s.len() && s.subrange(i, i + p.len()) == p
}

/// The pattern occurs somewhere in the string.
pub open spec fn has_substring(s: Seq<char>, p: Seq<char>) -> bool {
    exists|i: int| matches_at(s, p, i)
}

/// The position of the first occurrence of the character, or the length
/// of the string when it does not occur.
pub open spec fn first_index_of(s: Seq<char>, c: char) -> int
    decreases s.len(),
{
    if s.len() == 0 {
        0
    } else if s[0] == c {
        0
    } else {
        1 + first_index_of(s.drop_first(), c)
    }
}

/// How often the character occurs.
pub open spec fn count_char(s: Seq<char>, c: char) -> int
    decreases s.len(),
{
    if s.len() == 0 {
        0int
    } else {
        count_char(s.drop_last(), c) + if s.last() == c {
            1int
        } else {
            0int
        }
    }
}

/// The character lowercased, for the ASCII letters only.
pub open spec fn lower_char(c: char) -> char {
    if 'A' <= c && c <= 'Z' {
        ((c as int) + 32) as char
    } else {
        c
    }
}

/// The string with its ASCII uppercase letters lowercased.
pub open spec fn to_lower(s: Seq<char>) -> Seq<char> {
    s.map_values(|c: char| lower_char(c))
}

pub proof fn lemma_first_index_of(s: Seq<char>, c: char)
    ensures
        0 <= first_index_of(s, c) <= s.len(),
        first_index_of(s, c) < s.len() ==> s[first_index_of(s, c)] == c,
        forall|j: int| 0 <= j < first_index_of(s, c) ==> s[j] != c,
    decreases s.len(),
{
    if s.len() > 0 && s[0] != c {
        lemma_first_index_of(s.drop_first(), c);
        assert forall|j: int| 0 <= j < first_index_of(s, c) implies s[j] != c by {
            if j > 0 {
                assert(s.drop_first()[j - 1] == s[j]);
            }
        }
    }
}

pub proof fn lemma_count_char_nonneg(s: Seq<char>, c: char)
    ensures
        count_char(s, c) >= 0,
    decreases s.len(),
{
    if s.len() > 0 {
        lemma_count_char_nonneg(s.drop_last(), c);
    }
}

/// A string without the character counts zero of it.
pub proof fn lemma_count_char_zero(s: Seq<char>, c: char)
    ensures
        (count_char(s, c) == 0) <==> (forall|j: int| 0 <= j < s.len() ==> s[j] != c),
    decreases s.len(),
{
    if s.len() > 0 {
        lemma_count_char_zero(s.drop_last(), c);
        lemma_count_char_nonneg(s.drop_last(), c);
        assert(forall|j: int| 0 <= j < s.len() - 1 ==> s[j] == s.drop_last()[j]);
    }
}

/// Counting splits around any single occurrence.
pub proof fn lemma_count_char_split(s: Seq<char>, c: char, i: int)
    requires
        0 <= i < s.len(),
        s[i] == c,
    ensures
        count_char(s, c) == count_char(s.subrange(0, i), c) + 1 + count_char(
            s.subrange(i + 1, s.len() as int),
            c,
        ),
    decreases s.len(),
{
    if i == s.len() - 1 {
        assert(s.subrange(0, i) =~= s.drop_last());
        assert(s.subrange(i + 1, s.len() as int) =~= Seq::<char>::empty());
    } else {
        let d = s.drop_last();
        lemma_count_char_split(d, c, i);
        assert(s.subrange(0, i) =~= d.subrange(0, i));
        let tail = s.subrange(i + 1, s.len() as int);
        assert(tail.drop_last() =~= d.subrange(i + 1, d.len() as int));
        assert(tail.last() == s.last());
    }
}

/// Whether the characters equal the given string.
pub fn chars_eq_str(v: &Vec<char>, s: &str) -> (r: bool)
    ensures
        r == (v@ == s@),
{
    let n = s.unicode_len();
    if v.len() != n {
        return false;
    }
    let mut i: usize = 0;
    while i < n
        invariant
            n == s@.len(),
            v@.len() == n,
            i <= n,
            forall|j: int| 0 <= j < i ==> v@[j] == s@[j],
        decreases n - i,
    {
        if v[i] != s.get_char(i) {
            return false;
        }
        i = i + 1;
    }
    proof {
        assert(v@ =~= s@);
    }
    true
}

/// Whether the characters start with the given prefix.
pub fn chars_start_with(v: &Vec<char>, p: &str) -> (r: bool)
    ensures
        r == starts_with(v@, p@),
{
    let m = p.unicode_len();
    if v.len() < m {
        return false;
    }
    let mut i: usize = 0;
    while i < m
        invariant
            m == p@.len(),
            v@.len() >= m,
            i <= m,
            forall|j: int| 0 <= j < i ==> v@[j] == p@[j],
        decreases m - i,
    {
        if v[i] != p.get_char(i) {
            proof {
                assert(v@.subrange(0, p@.len() as int)[i as int] != p@[i as int]);
            }
            return false;
        }
        i = i + 1;
    }
    proof {
        assert(v@.subrange(0, p@.len() as int) =~= p@);
    }
    true
}

/// Strip a prefix: the rest of the string when the prefix is there.
pub fn chars_strip_prefix(v: &Vec<char>, p: &str) -> (r: Option<Vec<char>>)
    ensures
        match r {
            Some(rest) => starts_with(v@, p@) && rest@ == v@.subrange(
                p@.len() as int,
                v@.len() as int,
            ),
            None => !starts_with(v@, p@),
        },
{
    if !chars_start_with(v, p) {
        return None;
    }
    let m = p.unicode_len();
    let mut rest: Vec<char> = Vec::new();
    let mut i: usize = m;
    while i < v.len()
        invariant
            m <= i <= v@.len(),
            rest@ == v@.subrange(m as int, i as int),
        decreases v@.len() - i,
    {
        rest.push(v[i]);
        i = i + 1;
        proof {
            assert(rest@ =~= v@.subrange(m as int, i as int));
        }
    }
    Some(rest)
}

/// Strip a single-character suffix when it is there.
pub fn chars_strip_suffix_char(v: &Vec<char>, c: char) -> (r: Option<Vec<char>>)
    ensures
        match r {
            Some(rest) => v@.len() > 0 && v@.last() == c && rest@ == v@.drop_last(),
            None => !(v@.len() > 0 && v@.last() == c),
        },
{
    if v.len() == 0 {
        return None;
    }
    if v[v.len() - 1] != c {
        return None;
    }
    let mut rest: Vec<char> = Vec::new();
    let mut i: usize = 0;
    while i < v.len() - 1
        invariant
            v@.len() > 0,
            i <= v@.len() - 1,
            rest@ == v@.subrange(0, i as int),
        decreases v@.len() - i,
    {
        rest.push(v[i]);
        i = i + 1;
        proof {
            assert(rest@ =~= v@.subrange(0, i as int));
        }
    }
    proof {
        assert(v@.subrange(0, v@.len() - 1) =~= v@.drop_last());
    }
    Some(rest)
}

/// Copy a range of the characters.
pub fn chars_slice(v: &Vec<char>, from: usize, to: usize) -> (r: Vec<char>)
    requires
        from <= to <= v@.len(),
    ensures
        r@ == v@.subrange(from as int, to as int),
{
    let mut r: Vec<char> = Vec::new();
    let mut i: usize = from;
    while i < to
        invariant
            from <= i <= to <= v@.len(),
            r@ == v@.subrange(from as int, i as int),
        decreases to - i,
    {
        r.push(v[i]);
        i = i + 1;
        proof {
            assert(r@ =~= v@.subrange(from as int, i as int));
        }
    }
    r
}

/// Find the first occurrence of a character.
pub fn chars_find(v: &Vec<char>, c: char) -> (r: Option<usize>)
    ensures
        match r {
            Some(i) => i == first_index_of(v@, c) && i < v@.len() && v@[i as int] == c,
            None => first_index_of(v@, c) == v@.len(),
        },
{
    proof {
        lemma_first_index_of(v@, c);
    }
    let ghost fio = first_index_of(v@, c);
    let mut i: usize = 0;
    while i < v.len()
        invariant
            i <= v@.len(),
            fio == first_index_of(v@, c),
            0 <= fio <= v@.len(),
            fio < v@.len() ==> v@[fio] == c,
            forall|j: int| 0 <= j < fio ==> v@[j] != c,
            forall|j: int| 0 <= j < i ==> v@[j] != c,
        decreases v@.len() - i,
    {
        if v[i] == c {
            proof {
                assert(fio >= i);
                if fio > i {
                    assert(v@[i as int] != c);
                }
            }
            return Some(i);
        }
        i = i + 1;
    }
    proof {
        if fio < v@.len() {
            assert(v@[fio] != c);
        }
    }
    None
}

/// Split at the first occurrence of the character: the part before it,
/// and the part after it when the character occurs at all.
pub fn chars_split_first(v: &Vec<char>, c: char) -> (r: (Vec<char>, Option<Vec<char>>))
    ensures
        ({
            let k = first_index_of(v@, c);
            if k < v@.len() {
                r.0@ == v@.subrange(0, k) && (r.1 matches Some(after) && after@ == v@.subrange(
                    k + 1,
                    v@.len() as int,
                ))
            } else {
                r.0@ == v@ && r.1 is None
            }
        }),
{
    match chars_find(v, c) {
        Some(i) => {
            let n = v.len();
            let before = chars_slice(v, 0, i);
            let after = chars_slice(v, i + 1, n);
            (before, Some(after))
        },
        None => {
            proof {
                assert(v@.subrange(0, v@.len() as int) =~= v@);
            }
            let whole = chars_slice(v, 0, v.len());
            (whole, None)
        },
    }
}

/// Split into exactly two parts: succeeds only when the character occurs
/// exactly once.
pub fn chars_split_exact2(v: &Vec<char>, c: char) -> (r: Option<(Vec<char>, Vec<char>)>)
    ensures
        ({
            let k = first_index_of(v@, c);
            match r {
                Some(parts) => count_char(v@, c) == 1 && parts.0@ == v@.subrange(0, k)
                    && parts.1@ == v@.subrange(k + 1, v@.len() as int),
                None => count_char(v@, c) != 1,
            }
        }),
{
    proof {
        lemma_first_index_of(v@, c);
    }
    match chars_find(v, c) {
        Some(i) => {
            proof {
                lemma_count_char_split(v@, c, i as int);
                lemma_count_char_zero(v@.subrange(0, i as int), c);
                lemma_count_char_nonneg(v@.subrange(i as int + 1, v@.len() as int), c);
            }
            let n = v.len();
            let before = chars_slice(v, 0, i);
            let after = chars_slice(v, i + 1, n);
            match chars_find(&after, c) {
                Some(_) => {
                    proof {
                        let tail = v@.subrange(i as int + 1, v@.len() as int);
                        let k2 = first_index_of(tail, c);
                        lemma_first_index_of(tail, c);
                        lemma_count_char_split(tail, c, k2);
                        lemma_count_char_nonneg(tail.subrange(0, k2), c);
                        lemma_count_char_nonneg(tail.subrange(k2 + 1, tail.len() as int), c);
                    }
                    None
                },
                None => {
                    proof {
                        let tail = v@.subrange(i as int + 1, v@.len() as int);
                        lemma_count_char_zero(tail, c);
                        lemma_first_index_of(tail, c);
                    }
                    Some((before, after))
                },
            }
        },
        None => {
            proof {
                lemma_count_char_zero(v@, c);
            }
            None
        },
    }
}

/// Whether the pattern occurs anywhere in the characters.
pub fn chars_contain(v: &Vec<char>, p: &str) -> (r: bool)
    ensures
        r == has_substring(v@, p@),
{
    let m = p.unicode_len();
    let n = v.len();
    if m > n {
        proof {
            assert(forall|i: int| !matches_at(v@, p@, i));
        }
        return false;
    }
    if m == 0 {
        proof {
            assert(v@.subrange(0, 0) =~= p@);
            assert(matches_at(v@, p@, 0));
        }
        return true;
    }
    let mut i: usize = 0;
    while i <= n - m
        invariant
            m >= 1,
            m == p@.len(),
            n == v@.len(),
            m <= n,
            i <= n - m + 1,
            forall|ii: int| 0 <= ii < i ==> !matches_at(v@, p@, ii),
        decreases n - m + 1 - i,
    {
        let mut j: usize = 0;
        let mut all_match = true;
        while j < m
            invariant
                m == p@.len(),
                n == v@.len(),
                i + m <= n,
                j <= m,
                all_match ==> forall|jj: int| 0 <= jj < j ==> v@[i + jj] == p@[jj],
                !all_match ==> !matches_at(v@, p@, i as int),
            decreases m - j,
        {
            if v[i + j] != p.get_char(j) {
                proof {
                    if matches_at(v@, p@, i as int) {
                        assert(v@.subrange(i as int, i + p@.len())[j as int] == p@[j as int]);
                    }
                }
                all_match = false;
            }
            j = j + 1;
        }
        if all_match {
            proof {
                assert(v@.subrange(i as int, i + p@.len()) =~= p@);
                assert(matches_at(v@, p@, i as int));
            }
            return true;
        }
        i = i + 1;
    }
    proof {
        assert(forall|ii: int| i <= ii ==> !matches_at(v@, p@, ii));
    }
    false
}

fn lower_char_exec(c: char) -> (r: char)
    ensures
        r == lower_char(c),
{
    if c == 'A' {
        'a'
    } else if c == 'B' {
        'b'
    } else if c == 'C' {
        'c'
    } else if c == 'D' {
        'd'
    } else if c == 'E' {
        'e'
    } else if c == 'F' {
        'f'
    } else if c == 'G' {
        'g'
    } else if c == 'H' {
        'h'
    } else if c == 'I' {
        'i'
    } else if c == 'J' {
        'j'
    } else if c == 'K' {
        'k'
    } else if c == 'L' {
        'l'
    } else if c == 'M' {
        'm'
    } else if c == 'N' {
        'n'
    } else if c == 'O' {
        'o'
    } else if c == 'P' {
        'p'
    } else if c == 'Q' {
        'q'
    } else if c == 'R' {
        'r'
    } else if c == 'S' {
        's'
    } else if c == 'T' {
        't'
    } else if c == 'U' {
        'u'
    } else if c == 'V' {
        'v'
    } else if c == 'W' {
        'w'
    } else if c == 'X' {
        'x'
    } else if c == 'Y' {
        'y'
    } else if c == 'Z' {
        'z'
    } else {
        c
    }
}

/// Lowercase the ASCII uppercase letters.
pub fn chars_to_lower(v: &Vec<char>) -> (r: Vec<char>)
    ensures
        r@ == to_lower(v@),
{
    let mut r: Vec<char> = Vec::new();
    let mut i: usize = 0;
    while i < v.len()
        invariant
            i <= v@.len(),
            r@.len() == i,
            forall|j: int| 0 <= j < i ==> r@[j] == lower_char(v@[j]),
        decreases v@.len() - i,
    {
        r.push(lower_char_exec(v[i]));
        i = i + 1;
    }
    proof {
        assert(r@ =~= to_lower(v@));
    }
    r
}

/// Whether one of the strings in the list equals the given one: how a
/// class-token list is tested for a marker class.
pub fn list_has_str(list: &Vec<String>, s: &str) -> (r: bool)
    ensures
        r == list.deep_view().contains(s@),
{
    let mut i: usize = 0;
    while i < list.len()
        invariant
            i <= list@.len(),
            list.deep_view().len() == list@.len(),
            forall|j: int| 0 <= j < list@.len() ==> list.deep_view()[j] == list@[j]@,
            forall|j: int| 0 <= j < i ==> list@[j]@ != s@,
        decreases list@.len() - i,
    {
        let v = str_chars(list[i].as_str());
        if chars_eq_str(&v, s) {
            proof {
                assert(list.deep_view()[i as int] == s@);
            }
            return true;
        }
        i = i + 1;
    }
    proof {
        if list.deep_view().contains(s@) {
            let j = choose|j: int| 0 <= j < list.deep_view().len() && list.deep_view()[j] == s@;
            assert(list@[j]@ == s@);
        }
    }
    false
}

/// The input with every occurrence of the character removed.
pub open spec fn without_char(s: Seq<char>, c: char) -> Seq<char>
    decreases s.len(),
{
    if s.len() == 0 {
        Seq::empty()
    } else {
        let rest = without_char(s.drop_last(), c);
        if s.last() == c {
            rest
        } else {
            rest.push(s.last())
        }
    }
}

/// Remove every occurrence of the character.
pub fn remove_char_all(v: &Vec<char>, c: char) -> (r: Vec<char>)
    ensures
        r@ == without_char(v@, c),
{
    let mut r: Vec<char> = Vec::new();
    let mut i: usize = 0;
    while i < v.len()
        invariant
            i <= v@.len(),
            r@ == without_char(v@.subrange(0, i as int), c),
        decreases v@.len() - i,
    {
        let x = v[i];
        proof {
            let s = v@.subrange(0, i as int + 1);
            assert(s.drop_last() =~= v@.subrange(0, i as int));
            assert(s.last() == v@[i as int]);
        }
        if x != c {
            r.push(x);
        }
        i = i + 1;
    }
    proof {
        assert(v@.subrange(0, v@.len() as int) =~= v@);
    }
    r
}

/// The input without its trailing run of the character.
pub open spec fn strip_trailing(s: Seq<char>, c: char) -> Seq<char>
    decreases s.len(),
{
    if s.len() > 0 && s.last() == c {
        strip_trailing(s.drop_last(), c)
    } else {
        s
    }
}

/// Remove the trailing run of the character.
pub fn strip_trailing_chars(v: &Vec<char>, c: char) -> (r: Vec<char>)
    ensures
        r@ == strip_trailing(v@, c),
{
    let ghost n = v@.len() as int;
    proof {
        assert(v@.subrange(0, n) =~= v@);
    }
    let mut hi: usize = v.len();
    while hi > 0 && v[hi - 1] == c
        invariant
            hi <= v@.len(),
            n == v@.len(),
            strip_trailing(v@, c) == strip_trailing(v@.subrange(0, hi as int), c),
        decreases hi,
    {
        proof {
            let s = v@.subrange(0, hi as int);
            assert(s.last() == v@[hi - 1]);
            assert(s.drop_last() =~= v@.subrange(0, hi as int - 1));
        }
        hi = hi - 1;
    }
    proof {
        let s = v@.subrange(0, hi as int);
        if hi > 0 {
            assert(s.last() == v@[hi - 1]);
        }
        assert(strip_trailing(v@, c) == s);
    }
    chars_slice(v, 0, hi)
}

/// The input with every non-overlapping occurrence of the pattern
/// removed, scanning left to right; an empty pattern removes nothing.
pub open spec fn without_sub(s: Seq<char>, p: Seq<char>) -> Seq<char>
    decreases s.len(),
{
    if p.len() == 0 || s.len() == 0 {
        s
    } else if starts_with(s, p) {
        without_sub(s.subrange(p.len() as int, s.len() as int), p)
    } else {
        seq![s[0]] + without_sub(s.drop_first(), p)
    }
}

fn matches_here(v: &Vec<char>, i: usize, p: &Vec<char>) -> (r: bool)
    requires
        i <= v@.len(),
    ensures
        r == starts_with(v@.subrange(i as int, v@.len() as int), p@),
{
    let ghost tail = v@.subrange(i as int, v@.len() as int);
    let n = v.len();
    if n - i < p.len() {
        return false;
    }
    let mut j: usize = 0;
    while j < p.len()
        invariant
            j <= p@.len(),
            n == v@.len(),
            p@.len() <= v@.len() - i,
            i <= v@.len(),
            tail == v@.subrange(i as int, v@.len() as int),
            forall|k: int| 0 <= k < j ==> tail[k] == p@[k],
        decreases p@.len() - j,
    {
        if v[i + j] != p[j] {
            proof {
                assert(tail[j as int] != p@[j as int]);
                if starts_with(tail, p@) {
                    assert(tail.subrange(0, p@.len() as int)[j as int] == p@[j as int]);
                }
            }
            return false;
        }
        proof {
            assert(tail[j as int] == v@[i + j]);
        }
        j = j + 1;
    }
    proof {
        assert(tail.subrange(0, p@.len() as int) =~= p@);
    }
    true
}

/// Remove every non-overlapping occurrence of the pattern, scanning
/// left to right, the way text is blanked out of a mixed cell.
pub fn remove_substring(v: &Vec<char>, p: &Vec<char>) -> (r: Vec<char>)
    ensures
        r@ == without_sub(v@, p@),
{
    if p.len() == 0 {
        proof {
            assert(without_sub(v@, p@) == v@);
        }
        return chars_slice(v, 0, v.len());
    }
    let mut r: Vec<char> = Vec::new();
    let mut i: usize = 0;
    proof {
        assert(v@.subrange(0, v@.len() as int) =~= v@);
        assert(r@ + without_sub(v@, p@) =~= without_sub(v@, p@));
    }
    while i < v.len()
        invariant
            i <= v@.len(),
            p@.len() > 0,
            without_sub(v@, p@) == r@ + without_sub(v@.subrange(i as int, v@.len() as int), p@),
        decreases v@.len() - i,
    {
        let ghost tail = v@.subrange(i as int, v@.len() as int);
        if matches_here(v, i, p) {
            proof {
                assert(tail.subrange(p@.len() as int, tail.len() as int) =~= v@.subrange(
                    i + p@.len(),
                    v@.len() as int,
                ));
            }
            i = i + p.len();
        } else {
            proof {
                assert(tail[0] == v@[i as int]);
                assert(tail.drop_first() =~= v@.subrange(i as int + 1, v@.len() as int));
                assert((r@ + (seq![v@[i as int]] + without_sub(
                    v@.subrange(i as int + 1, v@.len() as int),
                    p@,
                ))) =~= (r@.push(v@[i as int]) + without_sub(
                    v@.subrange(i as int + 1, v@.len() as int),
                    p@,
                )));
            }
            r.push(v[i]);
            i = i + 1;
        }
    }
    proof {
        assert(v@.subrange(v@.len() as int, v@.len() as int) =~= Seq::<char>::empty());
        assert(r@ + Seq::<char>::empty() =~= r@);
    }
    r
}

/// Copy a list of strings; the values are kept exactly.
pub fn clone_strings(v: &Vec<String>) -> (r: Vec<String>)
    ensures
        r@ == v@,
{
    let mut r: Vec<String> = Vec::new();
    let mut i: usize = 0;
    while i < v.len()
        invariant
            i <= v@.len(),
            r@ == v@.subrange(0, i as int),
        decreases v@.len() - i,
    {
        r.push(v[i].clone());
        i = i + 1;
        proof {
            assert(r@ =~= v@.subrange(0, i as int));
        }
    }
    proof {
        assert(r@ =~= v@);
    }
    r
}

} // verus!
