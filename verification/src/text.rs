//! Character-level string operations with their meaning stated over `Seq<char>`.
//!
//! Everything the editor does to text (trimming, searching, replacing,
//! building) goes through these functions, so each one is specified once here.
use vstd::prelude::*;

verus! {

/// The Unicode `White_Space` property, which is what `char::is_whitespace`
/// (and therefore `str::trim`) tests.
pub open spec fn is_space(c: char) -> bool {
    ||| ('\u{9}' <= c && c <= '\u{d}')
    ||| c == ' '
    ||| c == '\u{85}'
    ||| c == '\u{a0}'
    ||| c == '\u{1680}'
    ||| ('\u{2000}' <= c && c <= '\u{200a}')
    ||| c == '\u{2028}'
    ||| c == '\u{2029}'
    ||| c == '\u{202f}'
    ||| c == '\u{205f}'
    ||| c == '\u{3000}'
}

/// `s` without its leading white space.
pub open spec fn trim_start_spec(s: Seq<char>) -> Seq<char>
    decreases s.len(),
{
    if s.len() > 0 && is_space(s[0]) {
        trim_start_spec(s.drop_first())
    } else {
        s
    }
}

/// `s` without its trailing white space.
pub open spec fn trim_end_spec(s: Seq<char>) -> Seq<char>
    decreases s.len(),
{
    if s.len() > 0 && is_space(s.last()) {
        trim_end_spec(s.drop_last())
    } else {
        s
    }
}

/// `s` without leading and trailing white space (`str::trim`).
pub open spec fn trim_spec(s: Seq<char>) -> Seq<char> {
    trim_end_spec(trim_start_spec(s))
}

/// `pat` occurs in `s` starting at position `i`.
pub open spec fn matches_at(s: Seq<char>, pat: Seq<char>, i: int) -> bool {
    0 <= i && i + pat.len() <= s.len() && s.subrange(i, i + pat.len()) == pat
}

/// The first position at or after `i` where `pat` occurs in `s`.
pub open spec fn find_from(s: Seq<char>, pat: Seq<char>, i: int) -> Option<int>
    decreases s.len() - i,
{
    if i < 0 || i + pat.len() > s.len() {
        None
    } else if matches_at(s, pat, i) {
        Some(i)
    } else if i >= s.len() {
        None
    } else {
        find_from(s, pat, i + 1)
    }
}

/// `pat` occurs somewhere in `s` (`str::contains`).
pub open spec fn contains_spec(s: Seq<char>, pat: Seq<char>) -> bool {
    find_from(s, pat, 0) is Some
}

/// `s` begins with `p` (`str::starts_with`).
pub open spec fn starts_with_spec(s: Seq<char>, p: Seq<char>) -> bool {
    p.len() <= s.len() && s.take(p.len() as int) == p
}

/// `s` ends with `p` (`str::ends_with`).
pub open spec fn ends_with_spec(s: Seq<char>, p: Seq<char>) -> bool {
    p.len() <= s.len() && s.skip(s.len() - p.len()) == p
}

/// Every non-overlapping occurrence of the non-empty `pat`, scanning left to
/// right, replaced by `rep` (`str::replace`).
pub open spec fn replace_spec(s: Seq<char>, pat: Seq<char>, rep: Seq<char>) -> Seq<char>
    decreases s.len(),
{
    if pat.len() == 0 {
        s
    } else {
        match find_from(s, pat, 0) {
            Some(i) => {
                proof {
                    lemma_find_from_in_range(s, pat, 0);
                }
                s.take(i) + rep + replace_spec(s.skip(i + pat.len()), pat, rep)
            },
            None => s,
        }
    }
}

/// A position returned by `find_from` is a real occurrence at or after the start.
pub proof fn lemma_find_from_in_range(s: Seq<char>, pat: Seq<char>, i: int)
    ensures
        find_from(s, pat, i) matches Some(k) ==> i <= k && matches_at(s, pat, k),
        find_from(s, pat, i) matches Some(k) ==> forall|j: int|
            i <= j < k ==> !matches_at(s, pat, j),
    decreases s.len() - i,
{
    if i < 0 || i + pat.len() > s.len() {
    } else if matches_at(s, pat, i) {
    } else if i >= s.len() {
    } else {
        lemma_find_from_in_range(s, pat, i + 1);
    }
}

/// When `find_from` finds nothing, `pat` occurs nowhere at or after `i`.
pub proof fn lemma_find_from_none(s: Seq<char>, pat: Seq<char>, i: int)
    requires
        0 <= i,
        pat.len() > 0,
        find_from(s, pat, i) is None,
    ensures
        forall|j: int| i <= j ==> !matches_at(s, pat, j),
    decreases s.len() - i,
{
    if i + pat.len() > s.len() {
    } else if matches_at(s, pat, i) {
    } else if i >= s.len() {
    } else {
        lemma_find_from_none(s, pat, i + 1);
    }
}

/// Searching the suffix `s.skip(pos)` finds the same occurrences, shifted by `pos`.
pub proof fn lemma_find_from_skip(s: Seq<char>, pat: Seq<char>, pos: int, j: int)
    requires
        0 <= pos <= s.len(),
        0 <= j,
    ensures
        find_from(s, pat, pos + j) == (match find_from(s.skip(pos), pat, j) {
            Some(k) => Some(k + pos),
            None => None,
        }),
    decreases s.len() - pos - j,
{
    let t = s.skip(pos);
    if pos + j + pat.len() > s.len() {
    } else {
        assert(s.subrange(pos + j, pos + j + pat.len()) =~= t.subrange(j, j + pat.len()));
        if matches_at(s, pat, pos + j) {
        } else if pos + j >= s.len() {
        } else {
            lemma_find_from_skip(s, pat, pos, j + 1);
        }
    }
}

/// An occurrence of `pat` at `k` means `s` contains `pat`.
pub proof fn lemma_contains_from_match(s: Seq<char>, pat: Seq<char>, k: int)
    requires
        matches_at(s, pat, k),
    ensures
        contains_spec(s, pat),
{
    if pat.len() == 0 {
        assert(s.subrange(0, 0) =~= pat);
        assert(matches_at(s, pat, 0));
    } else if find_from(s, pat, 0) is None {
        lemma_find_from_none(s, pat, 0);
    }
}

/// When `s` contains `pat`, `pat` occurs at some position.
pub proof fn lemma_contains_match(s: Seq<char>, pat: Seq<char>)
    requires
        contains_spec(s, pat),
    ensures
        exists|k: int| matches_at(s, pat, k),
{
    lemma_find_from_in_range(s, pat, 0);
    let k = find_from(s, pat, 0)->0;
    assert(matches_at(s, pat, k));
}

/// Replacing an occurring pattern puts the replacement into the text.
pub proof fn lemma_replace_inserts(s: Seq<char>, pat: Seq<char>, rep: Seq<char>)
    requires
        pat.len() > 0,
        contains_spec(s, pat),
    ensures
        contains_spec(replace_spec(s, pat, rep), rep),
{
    lemma_find_from_in_range(s, pat, 0);
    let i = find_from(s, pat, 0)->0;
    let rest = replace_spec(s.skip(i + pat.len()), pat, rep);
    let out = s.take(i) + rep + rest;
    assert(replace_spec(s, pat, rep) == out);
    assert(out.subrange(i, i + rep.len()) =~= rep);
    lemma_contains_from_match(out, rep, i);
}

/// An occurrence of `q` that no occurrence of `pat` overlaps is still there
/// after every `pat` is replaced.
pub proof fn lemma_replace_keeps(s: Seq<char>, pat: Seq<char>, rep: Seq<char>, q: Seq<char>, k: int)
    requires
        pat.len() > 0,
        matches_at(s, q, k),
        forall|j: int| #[trigger] matches_at(s, pat, j) ==> j + pat.len() <= k || k + q.len() <= j,
    ensures
        contains_spec(replace_spec(s, pat, rep), q),
    decreases s.len(),
{
    lemma_find_from_in_range(s, pat, 0);
    match find_from(s, pat, 0) {
        None => {
            lemma_contains_from_match(s, q, k);
        },
        Some(i) => {
            assert(matches_at(s, pat, i));
            let t = s.skip(i + pat.len());
            let rest = replace_spec(t, pat, rep);
            let out = s.take(i) + rep + rest;
            assert(replace_spec(s, pat, rep) == out);
            if k + q.len() <= i {
                assert(out.subrange(k, k + q.len()) =~= s.subrange(k, k + q.len()));
                lemma_contains_from_match(out, q, k);
            } else {
                let k2 = k - (i + pat.len());
                assert(t.subrange(k2, k2 + q.len()) =~= s.subrange(k, k + q.len()));
                assert forall|j: int| #[trigger] matches_at(t, pat, j) implies j + pat.len() <= k2
                    || k2 + q.len() <= j by {
                    let j0 = j + i + pat.len();
                    assert(s.subrange(j0, j0 + pat.len()) =~= t.subrange(j, j + pat.len()));
                    assert(matches_at(s, pat, j0));
                }
                lemma_replace_keeps(t, pat, rep, q, k2);
                lemma_contains_match(rest, q);
                let k3 = choose|k3: int| matches_at(rest, q, k3);
                let p = i + rep.len() + k3;
                assert(out.subrange(p, p + q.len()) =~= rest.subrange(k3, k3 + q.len()));
                lemma_contains_from_match(out, q, p);
            }
        },
    }
}

/// The order of `str`'s `<`: character by character by code point, a proper
/// prefix first. (UTF-8 keeps code-point order, so this is also the byte order
/// that `String`'s comparison uses.)
pub open spec fn lex_lt(a: Seq<char>, b: Seq<char>) -> bool
    decreases a.len(),
{
    if a.len() == 0 {
        b.len() > 0
    } else if b.len() == 0 {
        false
    } else if a[0] != b[0] {
        (a[0] as u32) < (b[0] as u32)
    } else {
        lex_lt(a.drop_first(), b.drop_first())
    }
}

/// No text comes before itself.
pub proof fn lemma_lex_irreflexive(a: Seq<char>)
    ensures
        !lex_lt(a, a),
    decreases a.len(),
{
    if a.len() > 0 {
        lemma_lex_irreflexive(a.drop_first());
    }
}

/// Of two different texts one comes first, and not both.
pub proof fn lemma_lex_total(a: Seq<char>, b: Seq<char>)
    ensures
        a != b ==> (lex_lt(a, b) || lex_lt(b, a)),
        !(lex_lt(a, b) && lex_lt(b, a)),
    decreases a.len(),
{
    if a.len() > 0 && b.len() > 0 && a[0] == b[0] {
        lemma_lex_total(a.drop_first(), b.drop_first());
        if a.drop_first() == b.drop_first() {
            assert(a =~= seq![a[0]] + a.drop_first());
            assert(b =~= seq![b[0]] + b.drop_first());
        }
    } else if a.len() == 0 && b.len() == 0 {
        assert(a =~= b);
    } else if a.len() > 0 && b.len() > 0 {
        vstd::utf8::char_u32_cast(a[0], a[0] as u32);
        vstd::utf8::char_u32_cast(b[0], b[0] as u32);
    }
}

/// The order is transitive.
pub proof fn lemma_lex_transitive(a: Seq<char>, b: Seq<char>, c: Seq<char>)
    requires
        lex_lt(a, b),
        lex_lt(b, c),
    ensures
        lex_lt(a, c),
    decreases a.len(),
{
    if a.len() > 0 && b.len() > 0 && c.len() > 0 && a[0] == b[0] && b[0] == c[0] {
        lemma_lex_transitive(a.drop_first(), b.drop_first(), c.drop_first());
    }
}

/// Whether `a` comes before `b`.
pub fn lex_less(a: &str, b: &str) -> (r: bool)
    ensures
        r == lex_lt(a@, b@),
{
    let av = chars_of(a);
    let bv = chars_of(b);
    let mut i: usize = 0;
    proof {
        assert(a@.skip(0) =~= a@);
        assert(b@.skip(0) =~= b@);
    }
    while i < av.len() && i < bv.len()
        invariant
            av@ == a@,
            bv@ == b@,
            i <= av@.len(),
            i <= bv@.len(),
            lex_lt(a@, b@) == lex_lt(a@.skip(i as int), b@.skip(i as int)),
        decreases av@.len() - i,
    {
        let x = av[i];
        let y = bv[i];
        if x != y {
            proof {
                assert(a@.skip(i as int)[0] == x);
                assert(b@.skip(i as int)[0] == y);
            }
            return (x as u32) < (y as u32);
        }
        proof {
            assert(a@.skip(i as int).drop_first() =~= a@.skip(i + 1));
            assert(b@.skip(i as int).drop_first() =~= b@.skip(i + 1));
        }
        i = i + 1;
    }
    i < bv.len()
}

/// Appends one character (`String::push`).
#[verifier::external_body]
pub fn push_char(s: &mut String, c: char)
    ensures
        final(s)@ == old(s)@.push(c),
{
    s.push(c);
}

/// The characters of `s`, in order.
pub fn chars_of(s: &str) -> (out: Vec<char>)
    ensures
        out@ == s@,
{
    let mut out: Vec<char> = Vec::new();
    for c in it: s.chars()
        invariant
            out@ == it.seq().take(it.index() as int),
    {
        out.push(c);
    }
    proof {
        assert(out@ =~= s@);
    }
    out
}

/// Appends `v[lo..hi]` to `out`.
pub fn push_chars(out: &mut String, v: &Vec<char>, lo: usize, hi: usize)
    requires
        lo <= hi <= v@.len(),
    ensures
        final(out)@ == old(out)@ + v@.subrange(lo as int, hi as int),
{
    let ghost start = out@;
    let mut i = lo;
    while i < hi
        invariant
            lo <= i <= hi <= v@.len(),
            out@ == start + v@.subrange(lo as int, i as int),
        decreases hi - i,
    {
        push_char(out, v[i]);
        proof {
            assert(v@.subrange(lo as int, i + 1) =~= v@.subrange(lo as int, i as int).push(v@[i as int]));
        }
        i = i + 1;
    }
}

/// The string made of `v[lo..hi]`.
pub fn string_of(v: &Vec<char>, lo: usize, hi: usize) -> (r: String)
    requires
        lo <= hi <= v@.len(),
    ensures
        r@ == v@.subrange(lo as int, hi as int),
{
    let mut r = String::new();
    push_chars(&mut r, v, lo, hi);
    proof {
        assert(r@ =~= v@.subrange(lo as int, hi as int));
    }
    r
}

/// Whether `c` is white space.
pub fn char_is_space(c: char) -> (b: bool)
    ensures
        b == is_space(c),
{
    ('\u{9}' <= c && c <= '\u{d}') || c == ' ' || c == '\u{85}' || c == '\u{a0}' || c == '\u{1680}'
        || ('\u{2000}' <= c && c <= '\u{200a}') || c == '\u{2028}' || c == '\u{2029}' || c
        == '\u{202f}' || c == '\u{205f}' || c == '\u{3000}'
}

/// The bounds of `trim_spec(v)` inside `v`.
pub fn trim_bounds(v: &Vec<char>) -> (r: (usize, usize))
    ensures
        r.0 <= r.1 <= v@.len(),
        trim_spec(v@) == v@.subrange(r.0 as int, r.1 as int),
{
    let mut i: usize = 0;
    proof {
        assert(v@.skip(0) =~= v@);
    }
    while i < v.len() && char_is_space(v[i])
        invariant
            i <= v@.len(),
            trim_start_spec(v@) == trim_start_spec(v@.skip(i as int)),
        decreases v@.len() - i,
    {
        proof {
            assert(v@.skip(i as int).drop_first() =~= v@.skip(i + 1));
        }
        i = i + 1;
    }
    proof {
        assert(trim_start_spec(v@.skip(i as int)) == v@.skip(i as int));
    }
    let mut j: usize = v.len();
    while j > i && char_is_space(v[j - 1])
        invariant
            i <= j <= v@.len(),
            trim_spec(v@) == trim_end_spec(v@.subrange(i as int, j as int)),
        decreases j,
    {
        proof {
            assert(v@.subrange(i as int, j as int).drop_last() =~= v@.subrange(i as int, j - 1));
        }
        j = j - 1;
    }
    proof {
        assert(v@.skip(i as int) =~= v@.subrange(i as int, v@.len() as int));
    }
    (i, j)
}

/// The length of `v` once its trailing white space is dropped.
pub fn trim_end_len(v: &Vec<char>) -> (j: usize)
    ensures
        j <= v@.len(),
        trim_end_spec(v@) == v@.take(j as int),
{
    let mut j: usize = v.len();
    proof {
        assert(v@.take(j as int) =~= v@);
    }
    while j > 0 && char_is_space(v[j - 1])
        invariant
            j <= v@.len(),
            trim_end_spec(v@) == trim_end_spec(v@.take(j as int)),
        decreases j,
    {
        proof {
            assert(v@.take(j as int).drop_last() =~= v@.take(j - 1));
        }
        j = j - 1;
    }
    j
}

/// `s` without leading and trailing white space (`str::trim`).
pub fn trim(s: &str) -> (r: String)
    ensures
        r@ == trim_spec(s@),
{
    let v = chars_of(s);
    let (i, j) = trim_bounds(&v);
    string_of(&v, i, j)
}

/// Whether `pat` occurs in `s` at position `i`.
pub fn matches_at_exec(s: &Vec<char>, pat: &Vec<char>, i: usize) -> (b: bool)
    ensures
        b == matches_at(s@, pat@, i as int),
{
    if i > s.len() || pat.len() > s.len() - i {
        return false;
    }
    let mut k: usize = 0;
    while k < pat.len()
        invariant
            i + pat.len() <= s.len(),
            k <= pat@.len(),
            forall|m: int| 0 <= m < k ==> s@[i + m] == pat@[m],
        decreases pat@.len() - k,
    {
        if s[i + k] != pat[k] {
            proof {
                assert(s@.subrange(i as int, i + pat@.len())[k as int] != pat@[k as int]);
            }
            return false;
        }
        k = k + 1;
    }
    proof {
        assert(s@.subrange(i as int, i + pat@.len()) =~= pat@);
    }
    true
}

/// The first position at or after `from` where `pat` occurs in `s`.
pub fn find_exec(s: &Vec<char>, pat: &Vec<char>, from: usize) -> (r: Option<usize>)
    ensures
        r matches Some(k) ==> find_from(s@, pat@, from as int) == Some(k as int),
        r is None ==> find_from(s@, pat@, from as int) is None,
{
    let mut i = from;
    loop
        invariant
            from <= i,
            find_from(s@, pat@, from as int) == find_from(s@, pat@, i as int),
        decreases s@.len() + 1 - i,
    {
        if i > s.len() || pat.len() > s.len() - i {
            return None;
        }
        if matches_at_exec(s, pat, i) {
            return Some(i);
        }
        if i >= s.len() {
            return None;
        }
        i = i + 1;
    }
}

/// Whether `pat` occurs in `s` (`str::contains`).
pub fn contains_str(s: &str, pat: &str) -> (b: bool)
    ensures
        b == contains_spec(s@, pat@),
{
    let sv = chars_of(s);
    let pv = chars_of(pat);
    find_exec(&sv, &pv, 0).is_some()
}

/// Whether `s` starts with `p` (`str::starts_with`).
pub fn starts_with_chars(s: &Vec<char>, p: &Vec<char>) -> (b: bool)
    ensures
        b == starts_with_spec(s@, p@),
{
    let b = matches_at_exec(s, p, 0);
    proof {
        if b {
            assert(s@.take(p@.len() as int) =~= s@.subrange(0, p@.len() as int));
        } else if p@.len() <= s@.len() {
            assert(s@.take(p@.len() as int) =~= s@.subrange(0, p@.len() as int));
        }
    }
    b
}

/// Whether `s` ends with `p` (`str::ends_with`).
pub fn ends_with_str(s: &str, p: &str) -> (b: bool)
    ensures
        b == ends_with_spec(s@, p@),
{
    let sv = chars_of(s);
    let pv = chars_of(p);
    if pv.len() > sv.len() {
        return false;
    }
    let off = sv.len() - pv.len();
    let b = matches_at_exec(&sv, &pv, off);
    proof {
        assert(sv@.skip(off as int) =~= sv@.subrange(off as int, off + pv@.len()));
    }
    b
}

/// Every occurrence of the non-empty `pat` replaced by `rep` (`str::replace`).
pub fn replace_all(s: &str, pat: &str, rep: &str) -> (r: String)
    requires
        pat@.len() > 0,
    ensures
        r@ == replace_spec(s@, pat@, rep@),
{
    let sv = chars_of(s);
    let pv = chars_of(pat);
    let mut out = String::new();
    let mut pos: usize = 0;
    proof {
        assert(sv@.skip(0) =~= sv@);
    }
    loop
        invariant
            pos <= sv@.len(),
            sv@ == s@,
            pv@ == pat@,
            pv@.len() > 0,
            replace_spec(sv@, pv@, rep@) == out@ + replace_spec(sv@.skip(pos as int), pv@, rep@),
        decreases sv@.len() - pos,
    {
        let found = find_exec(&sv, &pv, pos);
        proof {
            lemma_find_from_skip(sv@, pv@, pos as int, 0);
            lemma_find_from_in_range(sv@, pv@, pos as int);
        }
        match found {
            None => {
                push_chars(&mut out, &sv, pos, sv.len());
                proof {
                    assert(sv@.skip(pos as int) =~= sv@.subrange(pos as int, sv@.len() as int));
                }
                return out;
            },
            Some(k) => {
                assert(matches_at(sv@, pv@, k as int));
                assert(sv@.len() == sv.len());
                let ghost t = sv@.skip(pos as int);
                let ghost j = k - pos;
                proof {
                    assert(t.take(j) =~= sv@.subrange(pos as int, k as int));
                    assert(t.skip(j + pv@.len()) =~= sv@.skip(k + pv@.len()));
                }
                let ghost before = out@;
                push_chars(&mut out, &sv, pos, k);
                out.append(rep);
                proof {
                    assert(replace_spec(t, pv@, rep@) == t.take(j) + rep@ + replace_spec(
                        t.skip(j + pv@.len()),
                        pv@,
                        rep@,
                    ));
                    assert(before + replace_spec(t, pv@, rep@) =~= out@ + replace_spec(
                        sv@.skip(k + pv@.len()),
                        pv@,
                        rep@,
                    ));
                }
                pos = k + pv.len();
            },
        }
    }
}

/// What `str::to_uppercase` gives for `s` (Unicode case mapping).
pub uninterp spec fn upper_spec(s: Seq<char>) -> Seq<char>;

/// What `str::to_lowercase` gives for `s` (Unicode case mapping).
pub uninterp spec fn lower_spec(s: Seq<char>) -> Seq<char>;

/// `s` in upper case (`str::to_uppercase`).
#[verifier::external_body]
pub fn to_upper(s: &str) -> (r: String)
    ensures
        r@ == upper_spec(s@),
{
    s.to_uppercase()
}

/// `s` in lower case (`str::to_lowercase`).
#[verifier::external_body]
pub fn to_lower(s: &str) -> (r: String)
    ensures
        r@ == lower_spec(s@),
{
    s.to_lowercase()
}

/// The pieces of `s` between occurrences of `sep` (`str::split` on a char):
/// the empty string gives one empty piece.
pub open spec fn split_spec(s: Seq<char>, sep: char) -> Seq<Seq<char>>
    decreases s.len(),
{
    if s.len() == 0 {
        seq![Seq::empty()]
    } else {
        let r = split_spec(s.drop_last(), sep);
        if s.last() == sep {
            r.push(Seq::empty())
        } else {
            r.update(r.len() - 1, r.last().push(s.last()))
        }
    }
}

proof fn lemma_split_nonempty(s: Seq<char>, sep: char)
    ensures
        split_spec(s, sep).len() >= 1,
    decreases s.len(),
{
    if s.len() > 0 {
        lemma_split_nonempty(s.drop_last(), sep);
    }
}

/// The pieces of `s` between occurrences of `sep` (`str::split`).
pub fn split_char(s: &str, sep: char) -> (r: Vec<String>)
    ensures
        r@.map_values(|p: String| p@) == split_spec(s@, sep),
{
    let v = chars_of(s);
    let mut pieces: Vec<String> = Vec::new();
    let mut start: usize = 0;
    let mut i: usize = 0;
    proof {
        assert(v@.take(0) =~= Seq::<char>::empty());
        assert(pieces@.map_values(|p: String| p@).push(v@.subrange(0, 0)) =~= seq![
            Seq::<char>::empty(),
        ]);
    }
    while i < v.len()
        invariant
            v@ == s@,
            start <= i <= v@.len(),
            pieces@.map_values(|p: String| p@).push(v@.subrange(start as int, i as int))
                == split_spec(v@.take(i as int), sep),
        decreases v@.len() - i,
    {
        let ghost prev = pieces@.map_values(|p: String| p@);
        proof {
            assert(v@.take(i + 1).drop_last() =~= v@.take(i as int));
            lemma_split_nonempty(v@.take(i as int), sep);
        }
        if v[i] == sep {
            let piece = string_of(&v, start, i);
            pieces.push(piece);
            proof {
                assert(pieces@.map_values(|p: String| p@) =~= prev.push(
                    v@.subrange(start as int, i as int),
                ));
                assert(v@.subrange(i + 1, i + 1) =~= Seq::<char>::empty());
            }
            start = i + 1;
        } else {
            proof {
                assert(v@.subrange(start as int, i + 1) =~= v@.subrange(start as int, i as int).push(
                    v@[i as int],
                ));
                assert(prev.push(v@.subrange(start as int, i + 1)) =~= prev.push(
                    v@.subrange(start as int, i as int),
                ).update(prev.len() as int, v@.subrange(start as int, i as int).push(v@[i as int])));
            }
        }
        i = i + 1;
    }
    let last = string_of(&v, start, v.len());
    let ghost prev = pieces@.map_values(|p: String| p@);
    pieces.push(last);
    proof {
        assert(v@.take(v@.len() as int) =~= v@);
        assert(pieces@.map_values(|p: String| p@) =~= prev.push(
            v@.subrange(start as int, v@.len() as int),
        ));
    }
    pieces
}

} // verus!
