//! The widget blueprint library: friendly labels for blueprint slugs, fresh
//! names for new blueprints, the grouping of the library list, and the
//! property form of one widget.
use vstd::prelude::*;
use vstd::set_lib::lemma_int_range;
use vstd::set_lib::lemma_len_subset;
use vstd::set_lib::set_int_range;
use crate::editor::strings_view;
use crate::number::dec_spec;
use crate::number::lemma_dec_injective;
use crate::number::push_dec;
use crate::text::chars_of;
use crate::text::string_of;
use crate::text::to_upper;
use crate::text::upper_spec;

verus! {

/// A reusable widget: the group (folder) it is filed under, its name and its
/// Blogger XML.
pub struct WidgetBlueprint {
    pub group: String,
    pub name: String,
    pub xml: String,
}

/// The group, name and XML of a blueprint.
pub struct BlueprintView {
    pub group: Seq<char>,
    pub name: Seq<char>,
    pub xml: Seq<char>,
}

impl View for WidgetBlueprint {
    type V = BlueprintView;

    open spec fn view(&self) -> BlueprintView {
        BlueprintView { group: self.group@, name: self.name@, xml: self.xml@ }
    }
}

/// The blueprints of a list, by their fields.
pub open spec fn blueprints_view(v: Seq<WidgetBlueprint>) -> Seq<BlueprintView> {
    v.map_values(|b: WidgetBlueprint| b@)
}

/// A character that separates the words of a slug.
pub open spec fn is_slug_sep(c: char) -> bool {
    c == '-' || c == '_'
}

/// The pieces of `s` between separators (`str::split(['-', '_'])`).
pub open spec fn slug_pieces(s: Seq<char>) -> Seq<Seq<char>>
    decreases s.len(),
{
    if s.len() == 0 {
        seq![Seq::empty()]
    } else {
        let r = slug_pieces(s.drop_last());
        if is_slug_sep(s.last()) {
            r.push(Seq::empty())
        } else {
            r.update(r.len() - 1, r.last().push(s.last()))
        }
    }
}

proof fn lemma_slug_pieces_nonempty(s: Seq<char>)
    ensures
        slug_pieces(s).len() >= 1,
    decreases s.len(),
{
    if s.len() > 0 {
        lemma_slug_pieces_nonempty(s.drop_last());
    }
}

/// The pieces of a slug between `-` and `_`.
pub fn split_slug(s: &str) -> (r: Vec<String>)
    ensures
        strings_view(r@) == slug_pieces(s@),
{
    let v = chars_of(s);
    let mut pieces: Vec<String> = Vec::new();
    let mut start: usize = 0;
    let mut i: usize = 0;
    proof {
        assert(v@.take(0) =~= Seq::<char>::empty());
        assert(strings_view(pieces@).push(v@.subrange(0, 0)) =~= seq![Seq::<char>::empty()]);
    }
    while i < v.len()
        invariant
            v@ == s@,
            start <= i <= v@.len(),
            strings_view(pieces@).push(v@.subrange(start as int, i as int)) == slug_pieces(
                v@.take(i as int),
            ),
        decreases v@.len() - i,
    {
        let ghost prev = strings_view(pieces@);
        proof {
            assert(v@.take(i + 1).drop_last() =~= v@.take(i as int));
            lemma_slug_pieces_nonempty(v@.take(i as int));
        }
        if v[i] == '-' || v[i] == '_' {
            let piece = string_of(&v, start, i);
            pieces.push(piece);
            proof {
                assert(strings_view(pieces@) =~= prev.push(v@.subrange(start as int, i as int)));
                assert(v@.subrange(i + 1, i + 1) =~= Seq::<char>::empty());
            }
            start = i + 1;
        } else {
            proof {
                assert(v@.subrange(start as int, i + 1) =~= v@.subrange(start as int, i as int).push(
                    v@[i as int],
                ));
                assert(prev.push(v@.subrange(start as int, i + 1)) =~= prev.push(
                    v@.subrange(start as int, i as int),
                ).update(prev.len() as int, v@.subrange(start as int, i as int).push(v@[i as int])));
            }
        }
        i = i + 1;
    }
    let last = string_of(&v, start, v.len());
    let ghost prev = strings_view(pieces@);
    pieces.push(last);
    proof {
        assert(v@.take(v@.len() as int) =~= v@);
        assert(strings_view(pieces@) =~= prev.push(v@.subrange(start as int, v@.len() as int)));
    }
    pieces
}

/// A word with its first character in upper case.
pub open spec fn capitalized(w: Seq<char>) -> Seq<char> {
    if w.len() == 0 {
        w
    } else {
        upper_spec(seq![w[0]]) + w.drop_first()
    }
}

/// A word with its first character in upper case (`char::to_uppercase`, which
/// for one character is what `str::to_uppercase` does).
pub fn capitalize(w: &str) -> (r: String)
    ensures
        r@ == capitalized(w@),
{
    let v = chars_of(w);
    if v.len() == 0 {
        return String::new();
    }
    let first = string_of(&v, 0, 1);
    let mut r = to_upper(first.as_str());
    let rest = string_of(&v, 1, v.len());
    r.append(rest.as_str());
    proof {
        assert(v@.subrange(0, 1) =~= seq![w@[0]]);
        assert(v@.subrange(1, v@.len() as int) =~= w@.drop_first());
    }
    r
}

/// The words joined with single spaces.
pub open spec fn join_spaces(ws: Seq<Seq<char>>) -> Seq<char>
    decreases ws.len(),
{
    if ws.len() == 0 {
        Seq::empty()
    } else if ws.len() == 1 {
        ws[0]
    } else {
        join_spaces(ws.drop_last()) + " "@ + ws.last()
    }
}

/// The non-empty pieces, each capitalised.
pub open spec fn label_words(pieces: Seq<Seq<char>>) -> Seq<Seq<char>> {
    pieces.filter(|w: Seq<char>| w.len() > 0).map_values(|w: Seq<char>| capitalized(w))
}

/// A slug as a label: its words between `-` and `_`, empty ones dropped,
/// each capitalised, joined with spaces.
pub open spec fn pretty_spec(slug: Seq<char>) -> Seq<char> {
    join_spaces(label_words(slug_pieces(slug)))
}

/// A slug as a friendly label.
pub fn pretty(slug: &str) -> (r: String)
    ensures
        r@ == pretty_spec(slug@),
{
    let pieces = split_slug(slug);
    let ghost ps = strings_view(pieces@);
    let mut words: Vec<String> = Vec::new();
    let mut i: usize = 0;
    while i < pieces.len()
        invariant
            i <= pieces@.len(),
            ps == strings_view(pieces@),
            strings_view(words@) == label_words(ps.take(i as int)),
        decreases pieces@.len() - i,
    {
        proof {
            assert(ps.take(i + 1).drop_last() =~= ps.take(i as int));
            assert(ps.take(i + 1).last() == ps[i as int]);
            reveal(Seq::filter);
        }
        if pieces[i].unicode_len() > 0 {
            let ghost before = strings_view(words@);
            let c = capitalize(pieces[i].as_str());
            words.push(c);
            proof {
                assert(strings_view(words@) =~= before.push(capitalized(ps[i as int])));
                assert(label_words(ps.take(i + 1)) =~= label_words(ps.take(i as int)).push(
                    capitalized(ps[i as int]),
                ));
            }
        } else {
            proof {
                assert(label_words(ps.take(i + 1)) =~= label_words(ps.take(i as int)));
            }
        }
        i = i + 1;
    }
    proof {
        assert(ps.take(pieces@.len() as int) =~= ps);
    }
    let ghost ws = strings_view(words@);
    let mut out = String::new();
    let mut k: usize = 0;
    while k < words.len()
        invariant
            k <= words@.len(),
            ws == strings_view(words@),
            out@ == join_spaces(ws.take(k as int)),
        decreases words@.len() - k,
    {
        proof {
            assert(ws.take(k + 1).drop_last() =~= ws.take(k as int));
        }
        if k > 0 {
            out.append(" ");
        }
        out.append(words[k].as_str());
        proof {
            if k == 0 {
                assert(ws.take(1) =~= seq![ws[0]]);
                assert(out@ =~= ws[0]);
            }
        }
        k = k + 1;
    }
    proof {
        assert(ws.take(words@.len() as int) =~= ws);
    }
    out
}

/// Some blueprint of `group` has the name `name`.
pub open spec fn name_taken(bps: Seq<WidgetBlueprint>, group: Seq<char>, name: Seq<char>) -> bool {
    exists|j: int| 0 <= j < bps.len() && (#[trigger] bps[j]).group@ == group && bps[j].name@ == name
}

/// The `i`-th fresh name for `base`: `base-i`.
pub open spec fn numbered(base: Seq<char>, i: nat) -> Seq<char> {
    base + "-"@ + dec_spec(i)
}

/// Whether some blueprint of `group` has the name `name`.
pub fn is_name_taken(bps: &Vec<WidgetBlueprint>, group: &str, name: &str) -> (r: Option<usize>)
    ensures
        r is None <==> !name_taken(bps@, group@, name@),
        r matches Some(j) ==> j < bps@.len() && bps@[j as int].group@ == group@ && bps@[j as int].name@
            == name@,
{
    let mut j: usize = 0;
    while j < bps.len()
        invariant
            j <= bps@.len(),
            forall|k: int| 0 <= k < j ==> !((#[trigger] bps@[k]).group@ == group@ && bps@[k].name@ == name@),
        decreases bps@.len() - j,
    {
        if crate::cursor::str_eq(bps[j].group.as_str(), group) && crate::cursor::str_eq(
            bps[j].name.as_str(),
            name,
        ) {
            return Some(j);
        }
        j = j + 1;
    }
    None
}

/// A free name for a new blueprint in `group`: `base` when it is free, else
/// the first free `base-2`, `base-3`, …. (A list that fits in memory is far
/// shorter than the bound, which keeps the counter from overflowing.)
pub fn unique_name(bps: &Vec<WidgetBlueprint>, group: &str, base: &str) -> (r: String)
    requires
        bps@.len() < u64::MAX - 2,
    ensures
        !name_taken(bps@, group@, r@),
        r@ == base@ || exists|i: nat| i >= 2 && r@ == numbered(base@, i) && name_taken(bps@, group@, base@)
            && forall|k: nat| 2 <= k < i ==> name_taken(bps@, group@, #[trigger] numbered(base@, k)),
{
    if is_name_taken(bps, group, base).is_none() {
        return String::from_str(base);
    }
    let n = bps.len();
    let ghost mut used: Seq<int> = Seq::empty();
    let mut i: u64 = 2;
    loop
        invariant
            n == bps@.len(),
            n < u64::MAX - 2,
            2 <= i <= n + 2,
            used.len() == i - 2,
            name_taken(bps@, group@, base@),
            forall|k: int| 0 <= k < used.len() ==> 0 <= #[trigger] used[k] < n,
            forall|k: int|
                0 <= k < used.len() ==> bps@[#[trigger] used[k]].name@ == numbered(base@, (k + 2) as nat),
            forall|k: nat| 2 <= k < i ==> name_taken(bps@, group@, #[trigger] numbered(base@, k)),
            used.no_duplicates(),
        decreases n + 2 - i,
    {
        let mut cand = String::from_str(base);
        cand.append("-");
        push_dec(&mut cand, i);
        assert(cand@ == numbered(base@, i as nat));
        match is_name_taken(bps, group, cand.as_str()) {
            None => {
                return cand;
            },
            Some(j) => {
                proof {
                    assert forall|k: int| 0 <= k < used.len() implies used[k] != j as int by {
                        if used[k] == j as int {
                            reveal_strlit("-");
                            assert(numbered(base@, (k + 2) as nat) == numbered(base@, i as nat));
                            assert(dec_spec((k + 2) as nat) =~= numbered(base@, (k + 2) as nat).skip(
                                base@.len() + 1 as int,
                            ));
                            assert(dec_spec(i as nat) =~= numbered(base@, i as nat).skip(base@.len() + 1 as int));
                            lemma_dec_injective((k + 2) as nat, i as nat);
                        }
                    }
                    let old_used = used;
                    used = used.push(j as int);
                    assert forall|a: int, b: int| 0 <= a < b < used.len() implies used[a] != used[b] by {
                        if b < old_used.len() {
                            assert(old_used[a] != old_used[b]);
                        }
                    }
                    assert(name_taken(bps@, group@, numbered(base@, i as nat)));
                    used.unique_seq_to_set();
                    lemma_int_range(0, n as int);
                    assert(used.to_set().subset_of(set_int_range(0, n as int)));
                    lemma_len_subset(used.to_set(), set_int_range(0, n as int));
                }
                i = i + 1;
            },
        }
    }
}

/// The blueprints folded by group: each run of consecutive blueprints of one
/// group under one header, in order.
pub open spec fn fold_groups(s: Seq<BlueprintView>) -> Seq<(Seq<char>, Seq<BlueprintView>)>
    decreases s.len(),
{
    if s.len() == 0 {
        Seq::empty()
    } else {
        let g = fold_groups(s.drop_last());
        let b = s.last();
        if g.len() > 0 && g.last().0 == b.group {
            g.update(g.len() - 1, (g.last().0, g.last().1.push(b)))
        } else {
            g.push((b.group, seq![b]))
        }
    }
}

/// The blueprints of folded groups, in order.
pub open spec fn flatten_groups(g: Seq<(Seq<char>, Seq<BlueprintView>)>) -> Seq<BlueprintView>
    decreases g.len(),
{
    if g.len() == 0 {
        Seq::empty()
    } else {
        flatten_groups(g.drop_last()) + g.last().1
    }
}

/// Folding loses and reorders nothing, no group is empty, each blueprint sits
/// under its own group, and neighbouring groups differ.
pub proof fn lemma_fold_groups(s: Seq<BlueprintView>)
    ensures
        flatten_groups(fold_groups(s)) == s,
        forall|i: int| 0 <= i < fold_groups(s).len() ==> (#[trigger] fold_groups(s)[i]).1.len() > 0,
        forall|i: int, k: int|
            0 <= i < fold_groups(s).len() && 0 <= k < fold_groups(s)[i].1.len() ==> (#[trigger] fold_groups(
                s,
            )[i].1[k]).group == fold_groups(s)[i].0,
        forall|i: int|
            0 <= i < fold_groups(s).len() - 1 ==> (#[trigger] fold_groups(s)[i]).0 != fold_groups(s)[i
                + 1].0,
    decreases s.len(),
{
    if s.len() > 0 {
        let t = s.drop_last();
        lemma_fold_groups(t);
        let g = fold_groups(t);
        let b = s.last();
        let r = fold_groups(s);
        if g.len() > 0 && g.last().0 == b.group {
            assert(r.drop_last() =~= g.drop_last());
            assert(flatten_groups(g) == flatten_groups(g.drop_last()) + g.last().1);
            assert(flatten_groups(r) == flatten_groups(g.drop_last()) + g.last().1.push(b));
            assert(flatten_groups(r) =~= t.push(b));
            assert(forall|i: int, k: int|
                0 <= i < r.len() && 0 <= k < r[i].1.len() ==> (#[trigger] r[i].1[k]).group == r[i].0) by {
                assert forall|i: int, k: int| 0 <= i < r.len() && 0 <= k < r[i].1.len() implies (
                #[trigger] r[i].1[k]).group == r[i].0 by {
                    if i < r.len() - 1 {
                        assert(r[i] == g[i]);
                    } else if k < g.last().1.len() {
                        assert(r[i].1[k] == g[i].1[k]);
                    }
                }
            }
            assert forall|i: int| 0 <= i < r.len() - 1 implies (#[trigger] r[i]).0 != r[i + 1].0 by {
                assert(r[i] == g[i]);
                assert(r[i + 1].0 == g[i + 1].0);
            }
        } else {
            assert(r.drop_last() =~= g);
            assert(flatten_groups(r) =~= t.push(b));
            assert forall|i: int| 0 <= i < r.len() - 1 implies (#[trigger] r[i]).0 != r[i + 1].0 by {
                assert(r[i] == g[i]);
                if i + 1 < g.len() {
                    assert(r[i + 1] == g[i + 1]);
                }
            }
        }
    } else {
        assert(flatten_groups(fold_groups(s)) =~= s);
    }
}

/// A copy of a blueprint.
pub fn copy_blueprint(b: &WidgetBlueprint) -> (r: WidgetBlueprint)
    ensures
        r@ == b@,
{
    WidgetBlueprint { group: b.group.clone(), name: b.name.clone(), xml: b.xml.clone() }
}

/// The folded groups, by group name and blueprint fields.
pub open spec fn groups_view(g: Seq<(String, Vec<WidgetBlueprint>)>) -> Seq<(Seq<char>, Seq<BlueprintView>)> {
    g.map_values(|e: (String, Vec<WidgetBlueprint>)| (e.0@, blueprints_view(e.1@)))
}

/// Folds the (already sorted) blueprint list under one header per run of
/// consecutive blueprints of a group.
pub fn group_blueprints(bps: &Vec<WidgetBlueprint>) -> (r: Vec<(String, Vec<WidgetBlueprint>)>)
    ensures
        groups_view(r@) == fold_groups(blueprints_view(bps@)),
{
    let ghost s = blueprints_view(bps@);
    let mut groups: Vec<(String, Vec<WidgetBlueprint>)> = Vec::new();
    let mut i: usize = 0;
    while i < bps.len()
        invariant
            i <= bps@.len(),
            s == blueprints_view(bps@),
            groups_view(groups@) == fold_groups(s.take(i as int)),
        decreases bps@.len() - i,
    {
        proof {
            assert(s.take(i + 1).drop_last() =~= s.take(i as int));
            assert(s.take(i + 1).last() == bps@[i as int]@);
        }
        let b = &bps[i];
        let ghost before = groups_view(groups@);
        let n = groups.len();
        let same = n > 0 && groups[n - 1].0 == b.group;
        if same {
            let (g, mut items) = groups.pop().unwrap();
            let ghost old_items = blueprints_view(items@);
            items.push(copy_blueprint(b));
            proof {
                assert(blueprints_view(items@) =~= old_items.push(b@));
            }
            groups.push((g, items));
            proof {
                assert(groups_view(groups@) =~= before.update(
                    before.len() - 1,
                    (before.last().0, before.last().1.push(b@)),
                ));
            }
        } else {
            let items = vec![copy_blueprint(b)];
            let ghost iv = blueprints_view(items@);
            groups.push((b.group.clone(), items));
            proof {
                assert(iv =~= seq![b@]);
                assert(groups_view(groups@) =~= before.push((b.group@, seq![b@])));
            }
        }
        i = i + 1;
    }
    proof {
        assert(s.take(bps@.len() as int) =~= s);
    }
    groups
}

/// What came of an action of the widget library.
pub enum WidgetOutcome {
    Created(String),
    CreateFailed(String),
    Deleted(String),
    DeleteFailed(String),
    FolderOpened,
    FolderFailed(String),
}

/// The status line the widget library shows after an action.
pub open spec fn widget_status_spec(o: WidgetOutcome) -> Seq<char> {
    match o {
        WidgetOutcome::Created(name) => "Created "@ + name@,
        WidgetOutcome::CreateFailed(e) => "Create failed: "@ + e@,
        WidgetOutcome::Deleted(name) => "Deleted "@ + name@,
        WidgetOutcome::DeleteFailed(e) => "Delete failed: "@ + e@,
        WidgetOutcome::FolderOpened => "Widgets folder opened."@,
        WidgetOutcome::FolderFailed(e) => "Could not open folder: "@ + e@,
    }
}

/// `prefix` followed by `rest`.
fn joined(prefix: &str, rest: &String) -> (r: String)
    ensures
        r@ == prefix@ + rest@,
{
    let mut r = String::from_str(prefix);
    r.append(rest.as_str());
    r
}

/// The status line the widget library shows after an action.
pub fn widget_status(o: &WidgetOutcome) -> (r: String)
    ensures
        r@ == widget_status_spec(*o),
{
    match o {
        WidgetOutcome::Created(name) => joined("Created ", name),
        WidgetOutcome::CreateFailed(e) => joined("Create failed: ", e),
        WidgetOutcome::Deleted(name) => joined("Deleted ", name),
        WidgetOutcome::DeleteFailed(e) => joined("Delete failed: ", e),
        WidgetOutcome::FolderOpened => String::from_str("Widgets folder opened."),
        WidgetOutcome::FolderFailed(e) => joined("Could not open folder: ", e),
    }
}

/// Where the Add buttons send a gadget: the targeted slot, or the module the
/// workbench has open.
pub fn add_target_label(slot: &Option<String>) -> (r: String)
    ensures
        r@ == (match slot {
            Some(k) => "Add \u{2192} slot: "@ + k@,
            None => "Add \u{2192} active module"@,
        }),
{
    match slot {
        Some(k) => joined("Add \u{2192} slot: ", k),
        None => String::from_str("Add \u{2192} active module"),
    }
}

/// The XML of a freshly created widget: a blank HTML gadget.
pub const NEW_WIDGET_XML: &'static str = "<b:widget id='HTML1' type='HTML' title='New Widget' visible='true'>\n  <b:includable id='main'>\n    <![CDATA[<div class='mor-widget'>New widget content</div>]]>\n  </b:includable>\n</b:widget>\n";

/// A widget setting's starting value: what the widget's XML holds, or the
/// schema default when the widget does not declare it.
pub fn seed_value(in_xml: Option<String>, default_text: String) -> (r: String)
    ensures
        r@ == (match in_xml {
            Some(v) => v@,
            None => default_text@,
        }),
{
    match in_xml {
        Some(v) => v,
        None => default_text,
    }
}

/// The settings Apply writes into the widget, in schema order: each setting
/// whose draft value differs from what the widget holds (a setting without a
/// draft value is left alone), so untouched defaults are never inserted.
pub open spec fn settings_to_apply_spec(
    names: Seq<Seq<char>>,
    draft: Seq<Option<Seq<char>>>,
    base: Seq<Option<Seq<char>>>,
) -> Seq<(Seq<char>, Seq<char>)>
    decreases names.len(),
{
    if names.len() == 0 {
        Seq::empty()
    } else {
        let k = names.len() - 1;
        let rest = settings_to_apply_spec(names.drop_last(), draft.take(k), base.take(k));
        match draft[k] {
            Some(v) => if base[k] == Some(v) {
                rest
            } else {
                rest.push((names[k], v))
            },
            None => rest,
        }
    }
}

/// The characters of each optional string of a list.
pub open spec fn opts_view(v: Seq<Option<String>>) -> Seq<Option<Seq<char>>> {
    v.map_values(|o: Option<String>| crate::shortcuts::opt_view(o))
}

/// The settings Apply writes into the widget.
pub fn settings_to_apply(names: &Vec<String>, draft: &Vec<Option<String>>, base: &Vec<Option<String>>) -> (r:
    Vec<(String, String)>)
    requires
        names@.len() == draft@.len(),
        names@.len() == base@.len(),
    ensures
        r@.map_values(|p: (String, String)| (p.0@, p.1@)) == settings_to_apply_spec(
            strings_view(names@),
            opts_view(draft@),
            opts_view(base@),
        ),
{
    let ghost n = strings_view(names@);
    let ghost d = opts_view(draft@);
    let ghost b = opts_view(base@);
    let mut r: Vec<(String, String)> = Vec::new();
    let mut i: usize = 0;
    while i < names.len()
        invariant
            i <= names@.len(),
            names@.len() == draft@.len(),
            names@.len() == base@.len(),
            n == strings_view(names@),
            d == opts_view(draft@),
            b == opts_view(base@),
            r@.map_values(|p: (String, String)| (p.0@, p.1@)) == settings_to_apply_spec(
                n.take(i as int),
                d.take(i as int),
                b.take(i as int),
            ),
        decreases names@.len() - i,
    {
        proof {
            assert(n.take(i + 1).drop_last() =~= n.take(i as int));
            assert(d.take(i + 1).take(i as int) =~= d.take(i as int));
            assert(b.take(i + 1).take(i as int) =~= b.take(i as int));
            assert(d.take(i + 1)[i as int] == d[i as int]);
            assert(b.take(i + 1)[i as int] == b[i as int]);
        }
        match &draft[i] {
            Some(v) => {
                let same = match &base[i] {
                    Some(w) => *w == *v,
                    None => false,
                };
                if !same {
                    let ghost before = r@.map_values(|p: (String, String)| (p.0@, p.1@));
                    r.push((names[i].clone(), v.clone()));
                    proof {
                        assert(r@.map_values(|p: (String, String)| (p.0@, p.1@)) =~= before.push(
                            (n[i as int], v@),
                        ));
                    }
                }
            },
            None => {},
        }
        i = i + 1;
    }
    proof {
        assert(n.take(names@.len() as int) =~= n);
        assert(d.take(names@.len() as int) =~= d);
        assert(b.take(names@.len() as int) =~= b);
    }
    r
}

/// A checkbox setting is on exactly when its text is `true`.
pub fn setting_checked(current: &str) -> (r: bool)
    ensures
        r == (current@ == "true"@),
{
    crate::cursor::str_eq(current, "true")
}

/// The text a checkbox setting stores.
pub fn checkbox_text(on: bool) -> (r: &'static str)
    ensures
        r@ == (if on { "true"@ } else { "false"@ }),
{
    if on {
        "true"
    } else {
        "false"
    }
}

/// A form whose draft is what the widget holds writes nothing on Apply.
pub proof fn lemma_untouched_form_writes_nothing(names: Seq<Seq<char>>, vals: Seq<Option<Seq<char>>>)
    requires
        names.len() == vals.len(),
    ensures
        settings_to_apply_spec(names, vals, vals) == Seq::<(Seq<char>, Seq<char>)>::empty(),
    decreases names.len(),
{
    if names.len() > 0 {
        let k = names.len() - 1;
        lemma_untouched_form_writes_nothing(names.drop_last(), vals.take(k));
    }
}

} // verus!
