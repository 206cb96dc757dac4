//! Typography: per-element style overrides (headings, body, quote, code), the
//! inline style of each preview sample, and which entry a font picker shows.
use vstd::prelude::*;
use crate::cursor::str_eq;
use crate::text::chars_of;
use crate::text::trim;
use crate::text::trim_spec;

verus! {

/// An override of the style of one kind of element; a blank field inherits.
pub struct ElementStyle {
    pub selector: String,
    pub font_size: String,
    pub font_weight: String,
    pub line_height: String,
    pub letter_spacing: String,
    pub color: String,
    pub italic: bool,
}

/// The fields of an element style.
pub struct ElementStyleView {
    pub selector: Seq<char>,
    pub font_size: Seq<char>,
    pub font_weight: Seq<char>,
    pub line_height: Seq<char>,
    pub letter_spacing: Seq<char>,
    pub color: Seq<char>,
    pub italic: bool,
}

impl View for ElementStyle {
    type V = ElementStyleView;

    open spec fn view(&self) -> ElementStyleView {
        ElementStyleView {
            selector: self.selector@,
            font_size: self.font_size@,
            font_weight: self.font_weight@,
            line_height: self.line_height@,
            letter_spacing: self.letter_spacing@,
            color: self.color@,
            italic: self.italic,
        }
    }
}

impl ElementStyle {
    /// A copy of this override.
    pub fn copied(&self) -> (r: ElementStyle)
        ensures
            r@ == self@,
    {
        ElementStyle {
            selector: self.selector.clone(),
            font_size: self.font_size.clone(),
            font_weight: self.font_weight.clone(),
            line_height: self.line_height.clone(),
            letter_spacing: self.letter_spacing.clone(),
            color: self.color.clone(),
            italic: self.italic,
        }
    }
}

/// The overrides of a list, by their fields.
pub open spec fn styles_view(v: Seq<ElementStyle>) -> Seq<ElementStyleView> {
    v.map_values(|e: ElementStyle| e@)
}

/// An override that overrides nothing: every text field blank (white space
/// only) and not italic.
pub open spec fn is_default_style(e: ElementStyleView) -> bool {
    &&& trim_spec(e.font_size).len() == 0
    &&& trim_spec(e.font_weight).len() == 0
    &&& trim_spec(e.line_height).len() == 0
    &&& trim_spec(e.letter_spacing).len() == 0
    &&& trim_spec(e.color).len() == 0
    &&& !e.italic
}

/// The empty override for an element.
pub open spec fn blank_style(selector: Seq<char>) -> ElementStyleView {
    ElementStyleView {
        selector,
        font_size: Seq::empty(),
        font_weight: Seq::empty(),
        line_height: Seq::empty(),
        letter_spacing: Seq::empty(),
        color: Seq::empty(),
        italic: false,
    }
}

/// One edit the per-element editor makes to an override.
pub enum StyleEdit {
    FontSize(String),
    FontWeight(String),
    LineHeight(String),
    LetterSpacing(String),
    Color(String),
    Italic(bool),
}

/// An override with one edit applied.
pub open spec fn apply_edit_spec(e: ElementStyleView, edit: StyleEdit) -> ElementStyleView {
    match edit {
        StyleEdit::FontSize(v) => ElementStyleView { font_size: v@, ..e },
        StyleEdit::FontWeight(v) => ElementStyleView { font_weight: v@, ..e },
        StyleEdit::LineHeight(v) => ElementStyleView { line_height: v@, ..e },
        StyleEdit::LetterSpacing(v) => ElementStyleView { letter_spacing: v@, ..e },
        StyleEdit::Color(v) => ElementStyleView { color: v@, ..e },
        StyleEdit::Italic(b) => ElementStyleView { italic: b, ..e },
    }
}

/// The first position at or after `i` of an override for `selector`.
pub open spec fn style_index_from(s: Seq<ElementStyleView>, selector: Seq<char>, i: int) -> Option<int>
    decreases s.len() - i,
{
    if i < 0 || i >= s.len() {
        None
    } else if s[i].selector == selector {
        Some(i)
    } else {
        style_index_from(s, selector, i + 1)
    }
}

/// The position of the first override for `selector`.
pub open spec fn style_index(s: Seq<ElementStyleView>, selector: Seq<char>) -> Option<int> {
    style_index_from(s, selector, 0)
}

/// The override list after one edit of `selector`'s override: the edit is
/// made to the existing override (or to a blank one); an override that ends
/// up overriding nothing is removed (or not added).
pub open spec fn update_element_spec(s: Seq<ElementStyleView>, selector: Seq<char>, edit: StyleEdit) -> Seq<ElementStyleView> {
    match style_index(s, selector) {
        Some(i) => {
            let entry = apply_edit_spec(s[i], edit);
            if is_default_style(entry) {
                s.remove(i)
            } else {
                s.update(i, entry)
            }
        },
        None => {
            let entry = apply_edit_spec(blank_style(selector), edit);
            if is_default_style(entry) {
                s
            } else {
                s.push(entry)
            }
        },
    }
}

/// A position found by `style_index_from` is in range and has the selector,
/// and no earlier position from `i` has it.
pub proof fn lemma_style_index(s: Seq<ElementStyleView>, selector: Seq<char>, i: int)
    ensures
        style_index_from(s, selector, i) matches Some(k) ==> 0 <= i <= k < s.len() && s[k].selector
            == selector,
        style_index_from(s, selector, i) is None && 0 <= i ==> forall|j: int|
            i <= j < s.len() ==> (#[trigger] s[j]).selector != selector,
    decreases s.len() - i,
{
    if i >= 0 && i < s.len() && s[i].selector != selector {
        lemma_style_index(s, selector, i + 1);
    }
}

/// The position of the first override for `selector`.
fn find_style(v: &Vec<ElementStyle>, selector: &str) -> (r: Option<usize>)
    ensures
        r matches Some(k) ==> style_index(styles_view(v@), selector@) == Some(k as int) && k
            < v@.len(),
        r is None ==> style_index(styles_view(v@), selector@) is None,
{
    let ghost s = styles_view(v@);
    let mut i: usize = 0;
    while i < v.len()
        invariant
            i <= v@.len(),
            s == styles_view(v@),
            style_index_from(s, selector@, 0) == style_index_from(s, selector@, i as int),
        decreases v@.len() - i,
    {
        if str_eq(v[i].selector.as_str(), selector) {
            return Some(i);
        }
        i = i + 1;
    }
    None
}

/// Whether an override overrides nothing.
pub fn is_default(e: &ElementStyle) -> (r: bool)
    ensures
        r == is_default_style(e@),
{
    trim(e.font_size.as_str()).unicode_len() == 0 && trim(e.font_weight.as_str()).unicode_len() == 0
        && trim(e.line_height.as_str()).unicode_len() == 0 && trim(
        e.letter_spacing.as_str(),
    ).unicode_len() == 0 && trim(e.color.as_str()).unicode_len() == 0 && !e.italic
}

/// Applies one edit to an override.
pub fn apply_edit(e: &mut ElementStyle, edit: StyleEdit)
    ensures
        final(e)@ == apply_edit_spec(old(e)@, edit),
{
    match edit {
        StyleEdit::FontSize(v) => e.font_size = v,
        StyleEdit::FontWeight(v) => e.font_weight = v,
        StyleEdit::LineHeight(v) => e.line_height = v,
        StyleEdit::LetterSpacing(v) => e.letter_spacing = v,
        StyleEdit::Color(v) => e.color = v,
        StyleEdit::Italic(b) => e.italic = b,
    }
}

/// Edits `selector`'s override, creating it when needed and dropping it when
/// it no longer overrides anything.
pub fn update_element(elements: &mut Vec<ElementStyle>, selector: &str, edit: StyleEdit)
    ensures
        styles_view(final(elements)@) == update_element_spec(
            styles_view(old(elements)@),
            selector@,
            edit,
        ),
{
    let ghost s = styles_view(elements@);
    let ghost edit_g = edit;
    let idx = find_style(elements, selector);
    let mut entry = match idx {
        Some(i) => elements[i].copied(),
        None => ElementStyle {
            selector: String::from_str(selector),
            font_size: String::new(),
            font_weight: String::new(),
            line_height: String::new(),
            letter_spacing: String::new(),
            color: String::new(),
            italic: false,
        },
    };
    proof {
        if idx is None {
            assert(entry@ == blank_style(selector@));
        }
    }
    apply_edit(&mut entry, edit);
    let d = is_default(&entry);
    match idx {
        Some(i) => {
            if d {
                let ghost before = elements@;
                elements.remove(i);
                proof {
                    assert(styles_view(elements@) =~= s.remove(i as int));
                }
            } else {
                let ghost before = elements@;
                let ghost eg = entry;
                elements.set(i, entry);
                proof {
                    assert(styles_view(elements@) =~= s.update(i as int, eg@));
                }
            }
        },
        None => {
            if !d {
                let ghost eg = entry;
                elements.push(entry);
                proof {
                    assert(styles_view(elements@) =~= s.push(eg@));
                }
            }
        },
    }
}

/// No two overrides are for the same element.
pub open spec fn selectors_unique(s: Seq<ElementStyleView>) -> bool {
    forall|i: int, j: int| 0 <= i < j < s.len() ==> (#[trigger] s[i]).selector != (#[trigger] s[j]).selector
}

/// No stored override overrides nothing.
pub open spec fn all_meaningful(s: Seq<ElementStyleView>) -> bool {
    forall|i: int| 0 <= i < s.len() ==> !is_default_style(#[trigger] s[i])
}

/// Editing an element's override keeps one override per element and never
/// stores an empty one, and afterwards the element's override is exactly the
/// edited one, or there is none when the edit left it empty.
pub proof fn lemma_update_element_lookup(s: Seq<ElementStyleView>, selector: Seq<char>, edit: StyleEdit)
    requires
        selectors_unique(s),
        all_meaningful(s),
    ensures
        ({
            let t = update_element_spec(s, selector, edit);
            let entry = match style_index(s, selector) {
                Some(i) => apply_edit_spec(s[i], edit),
                None => apply_edit_spec(blank_style(selector), edit),
            };
            &&& selectors_unique(t)
            &&& all_meaningful(t)
            &&& (is_default_style(entry) ==> style_index(t, selector) is None)
            &&& (!is_default_style(entry) ==> (style_index(t, selector) matches Some(k) && t[k]
                == entry))
        }),
{
    let t = update_element_spec(s, selector, edit);
    lemma_style_index(s, selector, 0);
    match style_index(s, selector) {
        Some(i) => {
            let entry = apply_edit_spec(s[i], edit);
            assert(entry.selector == selector);
            if is_default_style(entry) {
                assert forall|j: int| 0 <= j < t.len() implies (#[trigger] t[j]).selector != selector by {
                    if j < i {
                        assert(t[j] == s[j]);
                    } else {
                        assert(t[j] == s[j + 1]);
                    }
                }
                assert forall|a: int, b: int| 0 <= a < b < t.len() implies (#[trigger] t[a]).selector
                    != (#[trigger] t[b]).selector by {
                    let a0 = if a < i { a } else { a + 1 };
                    let b0 = if b < i { b } else { b + 1 };
                    assert(t[a] == s[a0] && t[b] == s[b0]);
                }
                assert forall|j: int| 0 <= j < t.len() implies !is_default_style(#[trigger] t[j]) by {
                    if j < i {
                        assert(t[j] == s[j]);
                    } else {
                        assert(t[j] == s[j + 1]);
                    }
                }
                lemma_style_index(t, selector, 0);
            } else {
                assert forall|a: int, b: int| 0 <= a < b < t.len() implies (#[trigger] t[a]).selector
                    != (#[trigger] t[b]).selector by {
                    assert(t[a].selector == s[a].selector && t[b].selector == s[b].selector);
                }
                assert forall|j: int| 0 <= j < t.len() implies !is_default_style(#[trigger] t[j]) by {
                    if j != i {
                        assert(t[j] == s[j]);
                    }
                }
                lemma_style_index(t, selector, 0);
                assert forall|j: int| 0 <= j < i implies (#[trigger] t[j]).selector != selector by {
                    assert(s[j].selector != s[i].selector);
                }
                lemma_first_style_at(t, selector, i);
            }
        },
        None => {
            let entry = apply_edit_spec(blank_style(selector), edit);
            if !is_default_style(entry) {
                assert forall|a: int, b: int| 0 <= a < b < t.len() implies (#[trigger] t[a]).selector
                    != (#[trigger] t[b]).selector by {
                    if b == s.len() {
                        assert(t[a] == s[a]);
                    } else {
                        assert(t[a] == s[a] && t[b] == s[b]);
                    }
                }
                assert forall|j: int| 0 <= j < t.len() implies !is_default_style(#[trigger] t[j]) by {
                    if j < s.len() {
                        assert(t[j] == s[j]);
                    }
                }
                assert forall|j: int| 0 <= j < s.len() implies (#[trigger] t[j]).selector != selector by {
                    assert(t[j] == s[j]);
                }
                lemma_first_style_at(t, selector, s.len() as int);
            }
        },
    }
}

/// `after` is `before` with just the field that `edit` names set to the
/// edit's value: the selector and every other field are as they were.
pub open spec fn edits_only_its_field(before: ElementStyleView, after: ElementStyleView, edit: StyleEdit) -> bool {
    &&& after.selector == before.selector
    &&& after.font_size == (match edit {
        StyleEdit::FontSize(v) => v@,
        _ => before.font_size,
    })
    &&& after.font_weight == (match edit {
        StyleEdit::FontWeight(v) => v@,
        _ => before.font_weight,
    })
    &&& after.line_height == (match edit {
        StyleEdit::LineHeight(v) => v@,
        _ => before.line_height,
    })
    &&& after.letter_spacing == (match edit {
        StyleEdit::LetterSpacing(v) => v@,
        _ => before.letter_spacing,
    })
    &&& after.color == (match edit {
        StyleEdit::Color(v) => v@,
        _ => before.color,
    })
    &&& after.italic == (match edit {
        StyleEdit::Italic(b) => b,
        _ => before.italic,
    })
}

/// An edit sets exactly the field it names and leaves the others alone.
pub proof fn law_edit_sets_its_field(e: ElementStyleView, edit: StyleEdit)
    ensures
        edits_only_its_field(e, apply_edit_spec(e, edit), edit),
{
}

/// After an edit of an element's override, the element's override is the one
/// it had (or a blank one) with just the edited field set to the edit's value,
/// or there is none when that leaves it overriding nothing; no other
/// element's override changes.
pub proof fn law_update_element_sets_its_field(s: Seq<ElementStyleView>, selector: Seq<char>, edit: StyleEdit)
    requires
        selectors_unique(s),
        all_meaningful(s),
    ensures
        ({
            let t = update_element_spec(s, selector, edit);
            let before = match style_index(s, selector) {
                Some(i) => s[i],
                None => blank_style(selector),
            };
            &&& (style_index(t, selector) matches Some(k) ==> edits_only_its_field(before, t[k], edit))
            &&& (style_index(t, selector) is None ==> is_default_style(apply_edit_spec(before, edit)))
            &&& forall|other: Seq<char>| other != selector ==> (match #[trigger] style_index(t, other) {
                Some(k) => style_index(s, other) matches Some(j) && s[j] == t[k],
                None => style_index(s, other) is None,
            })
        }),
{
    lemma_update_element_lookup(s, selector, edit);
    let t = update_element_spec(s, selector, edit);
    lemma_style_index(s, selector, 0);
    assert forall|other: Seq<char>| other != selector implies (match #[trigger] style_index(t, other) {
        Some(k) => style_index(s, other) matches Some(j) && s[j] == t[k],
        None => style_index(s, other) is None,
    }) by {
        lemma_style_index(s, other, 0);
        lemma_style_index(t, other, 0);
        lemma_other_style_unmoved(s, selector, edit, other);
    }
}

/// With one override per element, the override found for an element is the
/// one that has its selector.
proof fn lemma_unique_style_index(s: Seq<ElementStyleView>, x: Seq<char>, j: int)
    requires
        selectors_unique(s),
        0 <= j < s.len(),
        s[j].selector == x,
    ensures
        style_index(s, x) == Some(j),
{
    assert forall|k: int| 0 <= k < j implies (#[trigger] s[k]).selector != x by {
        assert(s[k].selector != s[j].selector);
    }
    lemma_first_style_at(s, x, j);
}

/// An edit of one element's override leaves the override of every other
/// element where the search finds it unchanged.
proof fn lemma_other_style_unmoved(s: Seq<ElementStyleView>, selector: Seq<char>, edit: StyleEdit, other: Seq<char>)
    requires
        selectors_unique(s),
        all_meaningful(s),
        other != selector,
    ensures
        ({
            let t = update_element_spec(s, selector, edit);
            match style_index(t, other) {
                Some(k) => style_index(s, other) matches Some(j) && s[j] == t[k],
                None => style_index(s, other) is None,
            }
        }),
{
    lemma_update_element_lookup(s, selector, edit);
    let t = update_element_spec(s, selector, edit);
    lemma_style_index(s, selector, 0);
    lemma_style_index(s, other, 0);
    lemma_style_index(t, other, 0);
    // Each override of `t` for another element is an override of `s` and back.
    let ghost pos = style_index(s, selector);
    match style_index(t, other) {
        Some(k) => {
            let j: int = match pos {
                Some(i) => if is_default_style(apply_edit_spec(s[i], edit)) {
                    if k < i { k } else { k + 1 }
                } else {
                    k
                },
                None => k,
            };
            assert(0 <= j < s.len() && s[j] == t[k]) by {
                match pos {
                    Some(i) => {
                        if !is_default_style(apply_edit_spec(s[i], edit)) {
                            assert(k != i);
                        }
                    },
                    None => {
                        if !is_default_style(apply_edit_spec(blank_style(selector), edit)) {
                            assert(k < s.len());
                        }
                    },
                }
            }
            lemma_unique_style_index(s, other, j);
        },
        None => {
            if style_index(s, other) is Some {
                let j = style_index(s, other).unwrap();
                let k: int = match pos {
                    Some(i) => if is_default_style(apply_edit_spec(s[i], edit)) {
                        if j < i { j } else { j - 1 }
                    } else {
                        j
                    },
                    None => j,
                };
                match pos {
                    Some(i) => {
                        assert(j != i);
                    },
                    None => {},
                }
                assert(0 <= k < t.len() && t[k] == s[j]);
                assert(t[k].selector == other);
            }
        },
    }
}

/// When position `k` is the first with `selector`, the search finds it.
proof fn lemma_first_style_at(s: Seq<ElementStyleView>, selector: Seq<char>, k: int)
    requires
        0 <= k < s.len(),
        s[k].selector == selector,
        forall|j: int| 0 <= j < k ==> (#[trigger] s[j]).selector != selector,
    ensures
        style_index(s, selector) == Some(k),
{
    lemma_first_style_from(s, selector, k, 0);
}

/// Searching from `i <= k` finds the first position `k` with `selector`.
proof fn lemma_first_style_from(s: Seq<ElementStyleView>, selector: Seq<char>, k: int, i: int)
    requires
        0 <= i <= k < s.len(),
        s[k].selector == selector,
        forall|j: int| 0 <= j < k ==> (#[trigger] s[j]).selector != selector,
    ensures
        style_index_from(s, selector, i) == Some(k),
    decreases k - i,
{
    if i < k {
        lemma_first_style_from(s, selector, k, i + 1);
    }
}

/// Removes every override of `selector` (the editor's Clear button).
pub fn clear_element(elements: &mut Vec<ElementStyle>, selector: &str)
    ensures
        styles_view(final(elements)@) == styles_view(old(elements)@).filter(
            |e: ElementStyleView| e.selector != selector@,
        ),
{
    let ghost s = styles_view(elements@);
    let mut kept: Vec<ElementStyle> = Vec::new();
    let mut i: usize = 0;
    while i < elements.len()
        invariant
            i <= elements@.len(),
            s == styles_view(elements@),
            styles_view(kept@) == s.take(i as int).filter(|e: ElementStyleView| e.selector != selector@),
        decreases elements@.len() - i,
    {
        proof {
            assert(s.take(i + 1).drop_last() =~= s.take(i as int));
            reveal(Seq::filter);
        }
        if !str_eq(elements[i].selector.as_str(), selector) {
            let ghost before = styles_view(kept@);
            kept.push(elements[i].copied());
            proof {
                assert(styles_view(kept@) =~= before.push(elements@[i as int]@));
            }
        }
        i = i + 1;
    }
    proof {
        assert(s.take(elements@.len() as int) =~= s);
    }
    *elements = kept;
}

/// The elements the per-element editor offers: CSS selector, tab label, full
/// label and the preview's default size.
pub open spec fn elements_spec() -> Seq<(Seq<char>, Seq<char>, Seq<char>, Seq<char>)> {
    seq![
        ("h1"@, "H1"@, "Heading 1"@, "1.9em"@),
        ("h2"@, "H2"@, "Heading 2"@, "1.45em"@),
        ("h3"@, "H3"@, "Heading 3"@, "1.15em"@),
        ("p"@, "Body"@, "Body text"@, "1em"@),
        ("blockquote"@, "Quote"@, "Blockquote"@, "1em"@),
        ("code"@, "Code"@, "Inline / code"@, "0.9em"@),
    ]
}

/// The element of tab `idx`; a tab past the last shows the last element.
pub fn element_at(idx: usize) -> (r: (&'static str, &'static str, &'static str, &'static str))
    ensures
        (r.0@, r.1@, r.2@, r.3@) == elements_spec()[if idx < 6 { idx as int } else { 5 }],
{
    let i = if idx < 6 { idx } else { 5 };
    let table = [
        ("h1", "H1", "Heading 1", "1.9em"),
        ("h2", "H2", "Heading 2", "1.45em"),
        ("h3", "H3", "Heading 3", "1.15em"),
        ("p", "Body", "Body text", "1em"),
        ("blockquote", "Quote", "Blockquote", "1em"),
        ("code", "Code", "Inline / code", "0.9em"),
    ];
    table[i]
}

/// A field's text trimmed, when anything is left of it.
pub open spec fn nz(s: Seq<char>) -> Option<Seq<char>> {
    if trim_spec(s).len() > 0 {
        Some(trim_spec(s))
    } else {
        None
    }
}

/// One CSS declaration when there is a value: ` name: value;`.
pub open spec fn decl(name: Seq<char>, v: Option<Seq<char>>) -> Seq<char> {
    match v {
        Some(x) => " "@ + name + ": "@ + x + ";"@,
        None => Seq::empty(),
    }
}

/// The size of a sample: the override's, or the default.
pub open spec fn sample_size(ov: Option<ElementStyleView>, default_size: Seq<char>) -> Seq<char> {
    match ov {
        Some(o) => match nz(o.font_size) {
            Some(v) => v,
            None => default_size,
        },
        None => default_size,
    }
}

/// The weight of a sample: the override's, or the default (which may be
/// blank).
pub open spec fn sample_weight(ov: Option<ElementStyleView>, default_weight: Seq<char>) -> Seq<char> {
    match ov {
        Some(o) => match nz(o.font_weight) {
            Some(v) => v,
            None => default_weight,
        },
        None => default_weight,
    }
}

/// The declarations an override adds beyond size and weight.
pub open spec fn override_decls(o: ElementStyleView) -> Seq<char> {
    decl("line-height"@, nz(o.line_height)) + decl("letter-spacing"@, nz(o.letter_spacing)) + decl(
        "color"@,
        nz(o.color),
    ) + (if o.italic { " font-style: italic;"@ } else { Seq::empty() })
}

/// The inline style of one preview sample: the family, the override's size
/// or the default size, the override's weight or the default weight (when
/// there is one), the override's other fields, then the sample's own extra
/// style.
pub open spec fn sample_style_spec(
    family: Seq<char>,
    default_size: Seq<char>,
    default_weight: Seq<char>,
    ov: Option<ElementStyleView>,
    extra: Seq<char>,
) -> Seq<char> {
    let weight = sample_weight(ov, default_weight);
    "font-family: "@ + family + "; font-size: "@ + sample_size(ov, default_size) + ";"@ + (if weight.len()
        > 0 {
        decl("font-weight"@, Some(weight))
    } else {
        Seq::empty()
    }) + (match ov {
        Some(o) => override_decls(o),
        None => Seq::empty(),
    }) + (if extra.len() > 0 { " "@ + extra } else { Seq::empty() })
}

/// A field's text trimmed, when anything is left of it.
fn nz_exec(s: &str) -> (r: Option<String>)
    ensures
        match r {
            Some(v) => nz(s@) == Some(v@),
            None => nz(s@) is None,
        },
{
    let t = trim(s);
    if t.unicode_len() > 0 {
        Some(t)
    } else {
        None
    }
}

/// Appends ` name: value;` when there is a value.
fn push_decl(out: &mut String, name: &str, v: Option<String>)
    ensures
        final(out)@ == old(out)@ + decl(name@, opt_chars(v)),
{
    match v {
        Some(x) => {
            out.append(" ");
            out.append(name);
            out.append(": ");
            out.append(x.as_str());
            out.append(";");
        },
        None => {
            assert(old(out)@ + Seq::<char>::empty() =~= old(out)@);
        },
    }
}

/// The characters of an optional string.
pub open spec fn opt_chars(v: Option<String>) -> Option<Seq<char>> {
    match v {
        Some(s) => Some(s@),
        None => None,
    }
}

/// Appends the declarations an override adds beyond size and weight.
fn push_override_decls(out: &mut String, o: &ElementStyle)
    ensures
        final(out)@ == old(out)@ + override_decls(o@),
{
    let ghost start = out@;
    push_decl(out, "line-height", nz_exec(o.line_height.as_str()));
    let ghost a = out@;
    push_decl(out, "letter-spacing", nz_exec(o.letter_spacing.as_str()));
    let ghost b = out@;
    push_decl(out, "color", nz_exec(o.color.as_str()));
    let ghost c = out@;
    if o.italic {
        out.append(" font-style: italic;");
    }
    proof {
        assert(out@ =~= start + override_decls(o@));
    }
}

/// The inline style of one preview sample.
pub fn sample_style(
    family: &str,
    default_size: &str,
    default_weight: &str,
    ov: Option<&ElementStyle>,
    extra: &str,
) -> (r: String)
    ensures
        r@ == sample_style_spec(
            family@,
            default_size@,
            default_weight@,
            match ov {
                Some(o) => Some(o@),
                None => None,
            },
            extra@,
        ),
{
    let ghost ovv = match ov {
        Some(o) => Some(o@),
        None => None,
    };
    let size = match ov {
        Some(o) => match nz_exec(o.font_size.as_str()) {
            Some(v) => v,
            None => String::from_str(default_size),
        },
        None => String::from_str(default_size),
    };
    assert(size@ == sample_size(ovv, default_size@));
    let weight = match ov {
        Some(o) => match nz_exec(o.font_weight.as_str()) {
            Some(v) => v,
            None => String::from_str(default_weight),
        },
        None => String::from_str(default_weight),
    };
    assert(weight@ == sample_weight(ovv, default_weight@));
    let mut s = String::from_str("font-family: ");
    s.append(family);
    s.append("; font-size: ");
    s.append(size.as_str());
    s.append(";");
    let ghost p1 = s@;
    let ghost wpart = if weight@.len() > 0 {
        decl("font-weight"@, Some(weight@))
    } else {
        Seq::<char>::empty()
    };
    if weight.unicode_len() > 0 {
        push_decl(&mut s, "font-weight", Some(weight));
    }
    assert(s@ =~= p1 + wpart);
    let ghost p2 = s@;
    let ghost rpart = match ovv {
        Some(o) => override_decls(o),
        None => Seq::<char>::empty(),
    };
    match ov {
        Some(o) => push_override_decls(&mut s, o),
        None => {},
    }
    assert(s@ =~= p2 + rpart);
    let ghost p3 = s@;
    if extra.unicode_len() > 0 {
        s.append(" ");
        s.append(extra);
    }
    proof {
        assert(s@ =~= sample_style_spec(family@, default_size@, default_weight@, ovv, extra@));
    }
    s
}

/// A font the pickers offer: its name, its CSS font stack and its group.
pub struct FontPreset {
    pub name: String,
    pub css_stack: String,
    pub category: String,
}

/// ASCII letters folded to lower case; every other character kept.
pub open spec fn ascii_fold(c: char) -> char {
    if 'A' <= c && c <= 'Z' {
        ((c as u32) + 32) as char
    } else {
        c
    }
}

/// Equal but for the case of ASCII letters (`str::eq_ignore_ascii_case`).
pub open spec fn eq_ignore_ascii_case_spec(a: Seq<char>, b: Seq<char>) -> bool {
    a.len() == b.len() && forall|i: int| 0 <= i < a.len() ==> ascii_fold(#[trigger] a[i]) == ascii_fold(b[i])
}

/// ASCII letters folded to lower case.
fn ascii_fold_exec(c: char) -> (r: char)
    ensures
        r == ascii_fold(c),
{
    if 'A' <= c && c <= 'Z' {
        let u = (c as u32) + 32;
        assert(u <= 0x7a);
        char_from_ascii(u)
    } else {
        c
    }
}

/// The character of an ASCII code.
fn char_from_ascii(u: u32) -> (r: char)
    requires
        u < 128,
    ensures
        r == u as char,
{
    let b: u8 = u as u8;
    b as char
}

/// Whether two strings are equal but for the case of ASCII letters.
pub fn eq_ignore_ascii_case(a: &str, b: &str) -> (r: bool)
    ensures
        r == eq_ignore_ascii_case_spec(a@, b@),
{
    let av = chars_of(a);
    let bv = chars_of(b);
    if av.len() != bv.len() {
        return false;
    }
    let mut i: usize = 0;
    while i < av.len()
        invariant
            av@ == a@,
            bv@ == b@,
            av@.len() == bv@.len(),
            i <= av@.len(),
            forall|k: int| 0 <= k < i ==> ascii_fold(#[trigger] a@[k]) == ascii_fold(b@[k]),
        decreases av@.len() - i,
    {
        if ascii_fold_exec(av[i]) != ascii_fold_exec(bv[i]) {
            return false;
        }
        i = i + 1;
    }
    true
}

/// The fonts of a picker, by name, stack and group.
pub open spec fn fonts_view(v: Seq<FontPreset>) -> Seq<(Seq<char>, Seq<char>, Seq<char>)> {
    v.map_values(|f: FontPreset| (f.name@, f.css_stack@, f.category@))
}

/// A font that the picker's value names, by name or by stack.
pub open spec fn font_matches(f: (Seq<char>, Seq<char>, Seq<char>), value: Seq<char>) -> bool {
    eq_ignore_ascii_case_spec(f.0, value) || eq_ignore_ascii_case_spec(f.1, value)
}

/// The first font at or after `i` that the value names.
pub open spec fn font_match_from(fonts: Seq<(Seq<char>, Seq<char>, Seq<char>)>, value: Seq<char>, i: int) -> Option<int>
    decreases fonts.len() - i,
{
    if i < 0 || i >= fonts.len() {
        None
    } else if font_matches(fonts[i], value) {
        Some(i)
    } else {
        font_match_from(fonts, value, i + 1)
    }
}

/// How the picker shows its value.
pub enum FontDisplay {
    /// A custom family typed by the user (blank: the placeholder entry); the
    /// preview uses the typed family resolved with its fallbacks.
    Custom(String),
    /// The heading picker follows the body font.
    MatchBody,
    /// A font of the list, shown by name and previewed in its stack.
    Listed(usize),
    /// Nothing chosen.
    Nothing,
}

/// How the picker shows the (trimmed) value: custom when forced or when the
/// value names no listed font; "Match body" for an empty heading value;
/// otherwise the named font.
pub open spec fn font_display_spec(
    fonts: Seq<(Seq<char>, Seq<char>, Seq<char>)>,
    value: Seq<char>,
    include_match_body: bool,
    force_custom: bool,
) -> FontDisplayView {
    let t = trim_spec(value);
    let matched = font_match_from(fonts, t, 0);
    let is_match_body = include_match_body && t.len() == 0 && !force_custom;
    let is_custom = force_custom || (!is_match_body && matched is None && t.len() > 0);
    if is_custom {
        FontDisplayView::Custom(t)
    } else if is_match_body {
        FontDisplayView::MatchBody
    } else {
        match matched {
            Some(i) => FontDisplayView::Listed(i),
            None => FontDisplayView::Nothing,
        }
    }
}

/// The meaning of a `FontDisplay`.
pub enum FontDisplayView {
    Custom(Seq<char>),
    MatchBody,
    Listed(int),
    Nothing,
}

/// The meaning of a `FontDisplay`.
pub open spec fn font_display_view(d: FontDisplay) -> FontDisplayView {
    match d {
        FontDisplay::Custom(s) => FontDisplayView::Custom(s@),
        FontDisplay::MatchBody => FontDisplayView::MatchBody,
        FontDisplay::Listed(i) => FontDisplayView::Listed(i as int),
        FontDisplay::Nothing => FontDisplayView::Nothing,
    }
}

/// The first font of the list that `t` names.
fn find_font(fonts: &Vec<FontPreset>, t: &String) -> (r: Option<usize>)
    ensures
        match r {
            Some(k) => font_match_from(fonts_view(fonts@), t@, 0) == Some(k as int),
            None => font_match_from(fonts_view(fonts@), t@, 0) is None,
        },
{
    let ghost fv = fonts_view(fonts@);
    let mut i: usize = 0;
    while i < fonts.len()
        invariant
            i <= fonts@.len(),
            fv == fonts_view(fonts@),
            font_match_from(fv, t@, 0) == font_match_from(fv, t@, i as int),
        decreases fonts@.len() - i,
    {
        if eq_ignore_ascii_case(fonts[i].name.as_str(), t.as_str()) || eq_ignore_ascii_case(
            fonts[i].css_stack.as_str(),
            t.as_str(),
        ) {
            return Some(i);
        }
        i = i + 1;
    }
    None
}

/// How a font picker shows its value.
pub fn font_display(fonts: &Vec<FontPreset>, value: &str, include_match_body: bool, force_custom: bool) -> (r: FontDisplay)
    ensures
        font_display_view(r) == font_display_spec(fonts_view(fonts@), value@, include_match_body, force_custom),
{
    let t = trim(value);
    let matched = find_font(fonts, &t);
    let empty = t.unicode_len() == 0;
    let is_match_body = include_match_body && empty && !force_custom;
    let is_custom = force_custom || (!is_match_body && matched.is_none() && !empty);
    if is_custom {
        FontDisplay::Custom(t)
    } else if is_match_body {
        FontDisplay::MatchBody
    } else {
        match matched {
            Some(k) => FontDisplay::Listed(k),
            None => FontDisplay::Nothing,
        }
    }
}

/// The preview's headings use the body font when the heading font is blank.
pub fn heading_follows_body(heading_font: &str) -> (r: bool)
    ensures
        r == (trim_spec(heading_font@).len() == 0),
{
    trim(heading_font).unicode_len() == 0
}

} // verus!
