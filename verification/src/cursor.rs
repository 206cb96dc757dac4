//! The CSS `cursor` value of a theme: built-in presets, composing a custom
//! `url('…') x y, auto` value, and reading the URL back out of one.
use vstd::prelude::*;
use crate::number::i32_dec_spec;
use crate::number::parse_i32;
use crate::number::parse_i32_spec;
use crate::number::push_i32;
use crate::text::chars_of;
use crate::text::find_exec;
use crate::text::find_from;
use crate::text::lemma_find_from_in_range;
use crate::text::lemma_find_from_skip;
use crate::text::matches_at;
use crate::text::push_char;
use crate::text::starts_with_chars;
use crate::text::starts_with_spec;
use crate::text::string_of;
use crate::text::trim;
use crate::text::trim_spec;

verus! {

/// The "Bibata Amber" cursor preset.
pub const BIBATA_AMBER_CURSOR: &'static str = "url('data:image/svg+xml;base64,PHN2ZyB4bWxucz0iaHR0cDovL3d3dy53My5vcmcvMjAwMC9zdmciIHdpZHRoPSIzMiIgaGVpZ2h0PSIzMiIgdmlld0JveD0iMCAwIDMyIDMyIj48cGF0aCBmaWxsPSIjZmZiMzAwIiBzdHJva2U9IiNmZmYiIHN0cm9rZS13aWR0aD0iMiIgZD0iTTQgNGwxMCAyNCA0LTEwIDEwLTR6Ii8+PC9zdmc+'), auto";

/// The "Bibata Ice" cursor preset.
pub const BIBATA_ICE_CURSOR: &'static str = "url('data:image/svg+xml;base64,PHN2ZyB4bWxucz0iaHR0cDovL3d3dy53My5vcmcvMjAwMC9zdmciIHdpZHRoPSIzMiIgaGVpZ2h0PSIzMiIgdmlld0JveD0iMCAwIDMyIDMyIj48cGF0aCBmaWxsPSIjZWNlZmY0IiBzdHJva2U9IiM0YzU2NmEiIHN0cm9rZS13aWR0aD0iMiIgZD0iTTQgNGwxMCAyNCA0LTEwIDEwLTR6Ii8+PC9zdmc+'), auto";

/// The preset names offered in the cursor picker, in menu order.
pub const CURSOR_PRESET_NAMES: [&'static str; 3] = ["Default", "Bibata Amber", "Bibata Ice"];

/// The CSS value of a cursor preset: the two Bibata presets by name, and
/// `auto` for every other name.
pub open spec fn cursor_css_spec(name: Seq<char>) -> Seq<char> {
    if name == "Bibata Amber"@ {
        BIBATA_AMBER_CURSOR@
    } else if name == "Bibata Ice"@ {
        BIBATA_ICE_CURSOR@
    } else {
        "auto"@
    }
}

/// A character that could end the `url('…')` wrapper or the declaration.
pub open spec fn is_css_breaking(c: char) -> bool {
    c == '\'' || c == '"' || c == ';' || c == '{' || c == '}' || c == '(' || c == ')' || c
        == '<' || c == '>' || c == '\n' || c == '\r'
}

/// `s` with every CSS-breaking character removed, the rest kept in order.
pub open spec fn sanitize_spec(s: Seq<char>) -> Seq<char>
    decreases s.len(),
{
    if s.len() == 0 {
        s
    } else {
        let r = sanitize_spec(s.drop_last());
        if is_css_breaking(s.last()) {
            r
        } else {
            r.push(s.last())
        }
    }
}

/// The hotspot coordinate typed in a field: its trimmed text read as an
/// `i32`, or 0 when it is not one.
pub open spec fn hotspot_spec(s: Seq<char>) -> i32 {
    match parse_i32_spec(trim_spec(s)) {
        Some(v) => v,
        None => 0,
    }
}

/// The cursor value for an image URL and a hotspot: `auto` when the cleaned
/// URL is empty, else `url('U') X Y, auto`.
pub open spec fn compose_cursor_spec(url: Seq<char>, x: Seq<char>, y: Seq<char>) -> Seq<char> {
    let u = sanitize_spec(trim_spec(url));
    if u.len() == 0 {
        "auto"@
    } else {
        "url('"@ + u + "') "@ + i32_dec_spec(hotspot_spec(x)) + " "@ + i32_dec_spec(
            hotspot_spec(y),
        ) + ", auto"@
    }
}

/// The URL inside the first `url('…')` of a cursor value, unless it is a
/// `data:` URI; empty when there is none.
pub open spec fn extract_url_spec(s: Seq<char>) -> Seq<char> {
    match find_from(s, "url('"@, 0) {
        Some(p) => {
            let rest = s.skip(p + "url('"@.len());
            match find_from(rest, "')"@, 0) {
                Some(e) => {
                    let u = rest.take(e);
                    if starts_with_spec(u, "data:"@) {
                        Seq::empty()
                    } else {
                        u
                    }
                },
                None => Seq::empty(),
            }
        },
        None => Seq::empty(),
    }
}

/// Whether two strings hold the same characters.
pub fn str_eq(a: &str, b: &str) -> (r: bool)
    ensures
        r == (a@ == b@),
{
    let av = chars_of(a);
    let bv = chars_of(b);
    if av.len() != bv.len() {
        return false;
    }
    let mut i: usize = 0;
    while i < av.len()
        invariant
            av@ == a@,
            bv@ == b@,
            av@.len() == bv@.len(),
            i <= av@.len(),
            forall|k: int| 0 <= k < i ==> av@[k] == bv@[k],
        decreases av@.len() - i,
    {
        if av[i] != bv[i] {
            return false;
        }
        i = i + 1;
    }
    proof {
        assert(av@ =~= bv@);
    }
    true
}

/// The CSS value of the cursor preset called `cursor_type`.
pub fn get_cursor_css(cursor_type: &str) -> (r: &'static str)
    ensures
        r@ == cursor_css_spec(cursor_type@),
{
    if str_eq(cursor_type, "Bibata Amber") {
        BIBATA_AMBER_CURSOR
    } else if str_eq(cursor_type, "Bibata Ice") {
        BIBATA_ICE_CURSOR
    } else {
        "auto"
    }
}

proof fn lemma_sanitize_clean(s: Seq<char>)
    ensures
        forall|i: int|
            0 <= i < sanitize_spec(s).len() ==> !is_css_breaking(#[trigger] sanitize_spec(s)[i]),
    decreases s.len(),
{
    if s.len() > 0 {
        lemma_sanitize_clean(s.drop_last());
        let r = sanitize_spec(s.drop_last());
        assert forall|i: int| 0 <= i < sanitize_spec(s).len() implies !is_css_breaking(
            #[trigger] sanitize_spec(s)[i],
        ) by {
            if i < r.len() {
                assert(sanitize_spec(s)[i] == r[i]);
            }
        }
    }
}

/// A character that could close the `url('…')` wrapper or the declaration:
/// a quote, `;`, a brace, a parenthesis, an angle bracket or a line break.
pub open spec fn closes_css(c: char) -> bool {
    c == '\'' || c == '"' || c == ';' || c == '{' || c == '}' || c == '(' || c == ')' || c
        == '<' || c == '>' || c == '\n' || c == '\r'
}

/// Cleaning a URL removes the characters that could close the CSS around it
/// and nothing else: every other character survives, in order.
pub proof fn law_sanitize_keeps_the_rest(s: Seq<char>)
    ensures
        sanitize_spec(s) == s.filter(|c: char| !closes_css(c)),
        (forall|i: int| 0 <= i < s.len() ==> !closes_css(#[trigger] s[i])) ==> sanitize_spec(s) == s,
    decreases s.len(),
{
    if s.len() > 0 {
        law_sanitize_keeps_the_rest(s.drop_last());
        reveal_with_fuel(Seq::filter, 1);
        if forall|i: int| 0 <= i < s.len() ==> !closes_css(#[trigger] s[i]) {
            assert forall|i: int| 0 <= i < s.drop_last().len() implies !closes_css(
                #[trigger] s.drop_last()[i],
            ) by {
                assert(s.drop_last()[i] == s[i]);
            }
            assert(!closes_css(s[s.len() - 1]));
            assert(s.drop_last().push(s.last()) =~= s);
        }
    }
}

/// A cursor composed from a URL whose trimmed text is not empty and has no
/// character that could close the CSS carries that trimmed URL unchanged:
/// the value begins with `url('`, the URL and `') `.
pub proof fn law_compose_keeps_clean_url(url: Seq<char>, x: Seq<char>, y: Seq<char>)
    requires
        trim_spec(url).len() > 0,
        forall|i: int| 0 <= i < trim_spec(url).len() ==> !closes_css(#[trigger] trim_spec(url)[i]),
    ensures
        starts_with_spec(compose_cursor_spec(url, x, y), "url('"@ + trim_spec(url) + "') "@),
{
    law_sanitize_keeps_the_rest(trim_spec(url));
    let u = trim_spec(url);
    let tail = i32_dec_spec(hotspot_spec(x)) + " "@ + i32_dec_spec(hotspot_spec(y)) + ", auto"@;
    let p = "url('"@ + u + "') "@;
    assert(compose_cursor_spec(url, x, y) =~= p + tail);
    assert((p + tail).take(p.len() as int) =~= p);
}

/// `u` with every character that could break the surrounding CSS removed.
pub fn sanitize_url(u: &str) -> (r: String)
    ensures
        r@ == sanitize_spec(u@),
        forall|i: int| 0 <= i < r@.len() ==> !is_css_breaking(#[trigger] r@[i]),
{
    let v = chars_of(u);
    let mut out = String::new();
    let mut i: usize = 0;
    while i < v.len()
        invariant
            v@ == u@,
            i <= v@.len(),
            out@ == sanitize_spec(v@.take(i as int)),
        decreases v@.len() - i,
    {
        let c = v[i];
        proof {
            assert(v@.take(i + 1).drop_last() =~= v@.take(i as int));
        }
        if !(c == '\'' || c == '"' || c == ';' || c == '{' || c == '}' || c == '(' || c == ')'
            || c == '<' || c == '>' || c == '\n' || c == '\r') {
            push_char(&mut out, c);
        }
        i = i + 1;
    }
    proof {
        assert(v@.take(v@.len() as int) =~= v@);
        lemma_sanitize_clean(u@);
    }
    out
}

/// The cursor value for an image URL and a hotspot typed in three fields.
pub fn compose_cursor(url: &str, x: &str, y: &str) -> (r: String)
    ensures
        r@ == compose_cursor_spec(url@, x@, y@),
{
    let trimmed = trim(url);
    let u = sanitize_url(trimmed.as_str());
    if u.as_str().unicode_len() == 0 {
        return String::from_str("auto");
    }
    let tx = trim(x);
    let ty = trim(y);
    let xi: i32 = match parse_i32(tx.as_str()) {
        Some(v) => v,
        None => 0,
    };
    let yi: i32 = match parse_i32(ty.as_str()) {
        Some(v) => v,
        None => 0,
    };
    let mut out = String::from_str("url('");
    out.append(u.as_str());
    out.append("') ");
    push_i32(&mut out, xi);
    out.append(" ");
    push_i32(&mut out, yi);
    out.append(", auto");
    out
}

/// The URL held in a cursor value, so that reopening the dialog shows it;
/// `data:` presets and values without `url('…')` give the empty string.
pub fn extract_url(s: &str) -> (r: String)
    ensures
        r@ == extract_url_spec(s@),
{
    let v = chars_of(s);
    let open = chars_of("url('");
    let close = chars_of("')");
    match find_exec(&v, &open, 0) {
        Some(p) => {
            proof {
                lemma_find_from_in_range(v@, open@, 0);
                assert(v@.len() == v.len());
            }
            let start = p + open.len();
            let ghost rest = v@.skip(start as int);
            let found = find_exec(&v, &close, start);
            proof {
                lemma_find_from_skip(v@, close@, start as int, 0);
                lemma_find_from_in_range(v@, close@, start as int);
            }
            match found {
                Some(e) => {
                    assert(matches_at(v@, close@, e as int));
                    let uv = string_of(&v, start, e);
                    let uchars = chars_of(uv.as_str());
                    let data = chars_of("data:");
                    proof {
                        assert(rest.take(e - start) =~= v@.subrange(start as int, e as int));
                    }
                    if starts_with_chars(&uchars, &data) {
                        String::new()
                    } else {
                        uv
                    }
                },
                None => String::new(),
            }
        },
        None => String::new(),
    }
}

/// A first occurrence found by hand is what `find_from` returns.
pub proof fn lemma_find_from_first(s: Seq<char>, pat: Seq<char>, i: int, m: int)
    requires
        0 <= i <= m,
        matches_at(s, pat, m),
        forall|j: int| i <= j < m ==> !matches_at(s, pat, j),
    ensures
        find_from(s, pat, i) == Some(m),
    decreases m - i,
{
    if i < m {
        assert(!matches_at(s, pat, i));
        lemma_find_from_first(s, pat, i + 1, m);
    }
}

/// Reading the URL back out of a composed cursor value gives the cleaned URL
/// that went in, whatever the hotspot, unless that URL is a `data:` URI.
pub proof fn lemma_compose_extract_roundtrip(url: Seq<char>, x: Seq<char>, y: Seq<char>)
    requires
        sanitize_spec(trim_spec(url)).len() > 0,
        !starts_with_spec(sanitize_spec(trim_spec(url)), "data:"@),
    ensures
        extract_url_spec(compose_cursor_spec(url, x, y)) == sanitize_spec(trim_spec(url)),
{
    reveal_strlit("url('");
    reveal_strlit("')");
    reveal_strlit("') ");
    let u = sanitize_spec(trim_spec(url));
    lemma_sanitize_clean(trim_spec(url));
    let tail = "') "@ + i32_dec_spec(hotspot_spec(x)) + " "@ + i32_dec_spec(hotspot_spec(y))
        + ", auto"@;
    let c = compose_cursor_spec(url, x, y);
    assert(c =~= "url('"@ + (u + tail));
    assert(c.subrange(0, 5) =~= "url('"@);
    lemma_find_from_first(c, "url('"@, 0, 0);
    let rest = c.skip(5);
    assert(rest =~= u + tail);
    assert(rest.subrange(u.len() as int, (u.len() + 2) as int) =~= "')"@);
    assert forall|j: int| 0 <= j < u.len() implies !matches_at(rest, "')"@, j) by {
        if matches_at(rest, "')"@, j) {
            assert(rest.subrange(j, j + 2)[0] == '\'');
            assert(rest[j] == u[j]);
        }
    }
    lemma_find_from_first(rest, "')"@, 0, u.len() as int);
    assert(rest.take(u.len() as int) =~= u);
}

} // verus!
