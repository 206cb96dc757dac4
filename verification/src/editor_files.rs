//! The file tabs of the CSS and JS editors: which files each editor offers for
//! the current view, from the theme's baseline files and the stylesheets and
//! scripts of the modules the template pack uses.
use vstd::prelude::*;
use crate::editor::first_index;
use crate::editor::index_of;
use crate::editor::lemma_first_index_in_range;
use crate::editor::strings_view;
use crate::shortcuts::opt_view;
use crate::template_pack::category_for_key;
use crate::template_pack::category_for_key_spec;
use crate::template_pack::ModuleCategory;
use crate::template_pack::TemplatePack;
use crate::text::lemma_lex_total;
use crate::text::lemma_lex_transitive;
use crate::text::lex_less;
use crate::text::lex_lt;

verus! {

/// What the centre of the editor shows.
#[derive(Clone, Copy, PartialEq, Eq, Debug, Structural)]
pub enum CenterView {
    Preview,
    CodeEditor,
    Split,
    StaticPageEditor,
    ModuleWorkbench,
    JsWorkbench,
}

/// A module of the template resolver with the stylesheets and scripts it needs.
pub struct ComponentManifest {
    pub id: String,
    pub css_deps: Vec<String>,
    pub js_deps: Vec<String>,
}

/// The resolver's modules, one registry per structural slot.
pub struct ModuleRegistries {
    pub header: Vec<ComponentManifest>,
    pub layout: Vec<ComponentManifest>,
    pub content: Vec<ComponentManifest>,
    pub sidebar_left: Vec<ComponentManifest>,
    pub sidebar_right: Vec<ComponentManifest>,
    pub footer: Vec<ComponentManifest>,
}

/// Stylesheets or scripts.
#[derive(Clone, Copy, PartialEq, Eq, Debug, Structural)]
pub enum AssetKind {
    Css,
    Js,
}

/// The ids of a registry's modules.
pub open spec fn manifest_ids(reg: Seq<ComponentManifest>) -> Seq<Seq<char>> {
    reg.map_values(|c: ComponentManifest| c.id@)
}

/// The files of one kind that a manifest lists.
pub open spec fn manifest_deps(c: ComponentManifest, kind: AssetKind) -> Seq<Seq<char>> {
    match kind {
        AssetKind::Css => strings_view(c.css_deps@),
        AssetKind::Js => strings_view(c.js_deps@),
    }
}

/// The files of one kind that module `target` of a registry needs: those of
/// the first module with that id, none when there is no such module.
pub open spec fn deps_spec(reg: Seq<ComponentManifest>, target: Seq<char>, kind: AssetKind) -> Seq<Seq<char>> {
    match first_index(manifest_ids(reg), target) {
        Some(i) => manifest_deps(reg[i], kind),
        None => Seq::empty(),
    }
}

impl ModuleRegistries {
    /// The registry of a structural slot (the script slot reads the header's,
    /// which no caller asks for).
    pub open spec fn registry_spec(&self, cat: ModuleCategory) -> Seq<ComponentManifest> {
        match cat {
            ModuleCategory::Header => self.header@,
            ModuleCategory::MainCanvas => self.layout@,
            ModuleCategory::Content => self.content@,
            ModuleCategory::LeftSidebar => self.sidebar_left@,
            ModuleCategory::RightSidebar => self.sidebar_right@,
            ModuleCategory::Footer => self.footer@,
            ModuleCategory::Scripts => self.header@,
        }
    }

    /// The registry of a structural slot.
    pub fn registry(&self, cat: ModuleCategory) -> (r: &Vec<ComponentManifest>)
        ensures
            r@ == self.registry_spec(cat),
    {
        match cat {
            ModuleCategory::Header => &self.header,
            ModuleCategory::MainCanvas => &self.layout,
            ModuleCategory::Content => &self.content,
            ModuleCategory::LeftSidebar => &self.sidebar_left,
            ModuleCategory::RightSidebar => &self.sidebar_right,
            ModuleCategory::Footer => &self.footer,
            ModuleCategory::Scripts => &self.header,
        }
    }
}

/// A copy of a list of strings.
pub fn copy_strings(v: &Vec<String>) -> (r: Vec<String>)
    ensures
        strings_view(r@) == strings_view(v@),
{
    let mut r: Vec<String> = Vec::new();
    let mut i: usize = 0;
    while i < v.len()
        invariant
            i <= v@.len(),
            strings_view(r@) == strings_view(v@).take(i as int),
        decreases v@.len() - i,
    {
        let ghost before = strings_view(r@);
        r.push(v[i].clone());
        proof {
            assert(strings_view(r@) =~= before.push(v@[i as int]@));
            assert(strings_view(v@).take(i + 1) =~= strings_view(v@).take(i as int).push(v@[i as int]@));
        }
        i = i + 1;
    }
    proof {
        assert(strings_view(v@).take(v@.len() as int) =~= strings_view(v@));
    }
    r
}

/// The position of the first module with id `target`.
fn find_manifest(reg: &Vec<ComponentManifest>, target: &String) -> (r: Option<usize>)
    ensures
        r matches Some(k) ==> first_index(manifest_ids(reg@), target@) == Some(k as int) && k
            < reg@.len(),
        r is None ==> first_index(manifest_ids(reg@), target@) is None,
{
    let mut ids: Vec<String> = Vec::new();
    let mut i: usize = 0;
    while i < reg.len()
        invariant
            i <= reg@.len(),
            strings_view(ids@) == manifest_ids(reg@).take(i as int),
        decreases reg@.len() - i,
    {
        let ghost before = strings_view(ids@);
        ids.push(reg[i].id.clone());
        proof {
            assert(strings_view(ids@) =~= before.push(reg@[i as int].id@));
            assert(manifest_ids(reg@).take(i + 1) =~= manifest_ids(reg@).take(i as int).push(
                reg@[i as int].id@,
            ));
        }
        i = i + 1;
    }
    proof {
        assert(manifest_ids(reg@).take(reg@.len() as int) =~= manifest_ids(reg@));
        lemma_first_index_in_range(manifest_ids(reg@), target@, 0);
    }
    index_of(&ids, target)
}

/// The stylesheets that module `target` of a registry needs.
pub fn get_css_deps(reg: &Vec<ComponentManifest>, target: &String) -> (r: Vec<String>)
    ensures
        strings_view(r@) == deps_spec(reg@, target@, AssetKind::Css),
{
    match find_manifest(reg, target) {
        Some(k) => copy_strings(&reg[k].css_deps),
        None => Vec::new(),
    }
}

/// The scripts that module `target` of a registry needs.
pub fn get_js_deps(reg: &Vec<ComponentManifest>, target: &String) -> (r: Vec<String>)
    ensures
        strings_view(r@) == deps_spec(reg@, target@, AssetKind::Js),
{
    match find_manifest(reg, target) {
        Some(k) => copy_strings(&reg[k].js_deps),
        None => Vec::new(),
    }
}

/// The file the editor offers for a slot whose module lists none of a kind.
pub open spec fn fallback_spec(cat: ModuleCategory, kind: AssetKind) -> Seq<char> {
    match (cat, kind) {
        (ModuleCategory::Header, AssetKind::Css) => "header.css"@,
        (ModuleCategory::Header, AssetKind::Js) => "header.js"@,
        (ModuleCategory::MainCanvas, AssetKind::Css) => "layout.css"@,
        (ModuleCategory::MainCanvas, AssetKind::Js) => "layout.js"@,
        (ModuleCategory::Content, AssetKind::Css) => "content.css"@,
        (ModuleCategory::Content, AssetKind::Js) => "content.js"@,
        (ModuleCategory::Footer, AssetKind::Css) => "footer.css"@,
        (ModuleCategory::Footer, AssetKind::Js) => "footer.js"@,
        (_, AssetKind::Css) => "sidebar.css"@,
        (_, AssetKind::Js) => "sidebar.js"@,
    }
}

/// The file the editor offers for a slot whose module lists none of a kind.
pub fn fallback_file(cat: ModuleCategory, kind: AssetKind) -> (r: &'static str)
    ensures
        r@ == fallback_spec(cat, kind),
{
    match (cat, kind) {
        (ModuleCategory::Header, AssetKind::Css) => "header.css",
        (ModuleCategory::Header, AssetKind::Js) => "header.js",
        (ModuleCategory::MainCanvas, AssetKind::Css) => "layout.css",
        (ModuleCategory::MainCanvas, AssetKind::Js) => "layout.js",
        (ModuleCategory::Content, AssetKind::Css) => "content.css",
        (ModuleCategory::Content, AssetKind::Js) => "content.js",
        (ModuleCategory::Footer, AssetKind::Css) => "footer.css",
        (ModuleCategory::Footer, AssetKind::Js) => "footer.js",
        (_, AssetKind::Css) => "sidebar.css",
        (_, AssetKind::Js) => "sidebar.js",
    }
}

/// The files of one kind for the module workbench on slot `key`: those the
/// slot's chosen module lists, or the slot's fallback file; none for a key
/// that names no slot.
pub open spec fn workbench_deps_spec(
    regs: ModuleRegistries,
    pack: TemplatePack,
    key: Seq<char>,
    kind: AssetKind,
) -> Seq<Seq<char>> {
    match category_for_key_spec(key) {
        Some(cat) => {
            let d = deps_spec(regs.registry_spec(cat), pack.variant_spec(cat), kind);
            if d.len() == 0 {
                seq![fallback_spec(cat, kind)]
            } else {
                d
            }
        },
        None => Seq::empty(),
    }
}

/// The files of one kind for the module workbench on slot `key`.
pub fn workbench_deps(regs: &ModuleRegistries, pack: &TemplatePack, key: &str, kind: AssetKind) -> (r: Vec<String>)
    ensures
        strings_view(r@) == workbench_deps_spec(*regs, *pack, key@, kind),
{
    match category_for_key(key) {
        Some(cat) => {
            let reg = regs.registry(cat);
            let target = pack.variant(cat);
            let mut d = match kind {
                AssetKind::Css => get_css_deps(reg, &target),
                AssetKind::Js => get_js_deps(reg, &target),
            };
            if d.len() == 0 {
                d.push(String::from_str(fallback_file(cat, kind)));
                proof {
                    assert(strings_view(d@) =~= seq![fallback_spec(cat, kind)]);
                }
            }
            d
        },
        None => Vec::new(),
    }
}

/// Every text of the list comes before every later one: the list is sorted
/// and holds no text twice.
pub open spec fn strictly_sorted(s: Seq<Seq<char>>) -> bool {
    forall|i: int, j: int| 0 <= i < j < s.len() ==> lex_lt(#[trigger] s[i], #[trigger] s[j])
}

/// Inserting a text at its place in a sorted list keeps the list sorted and
/// adds just that text.
proof fn lemma_insert_sorted(s: Seq<Seq<char>>, p: int, x: Seq<char>)
    requires
        strictly_sorted(s),
        0 <= p <= s.len(),
        forall|k: int| 0 <= k < p ==> lex_lt(#[trigger] s[k], x),
        p < s.len() ==> lex_lt(x, s[p]),
    ensures
        strictly_sorted(s.insert(p, x)),
        forall|y: Seq<char>| s.insert(p, x).contains(y) <==> (s.contains(y) || y == x),
{
    s.insert_ensures(p, x);
    let t = s.insert(p, x);
    assert forall|a: int, b: int| 0 <= a < b < t.len() implies lex_lt(
        #[trigger] t[a],
        #[trigger] t[b],
    ) by {
        if b < p {
            assert(t[a] == s[a] && t[b] == s[b]);
        } else if b == p {
            assert(t[a] == s[a]);
        } else if a < p {
            assert(t[a] == s[a] && t[b] == s[b - 1]);
            lemma_lex_transitive(s[a], x, s[p]);
            if b - 1 > p {
                lemma_lex_transitive(s[a], s[p], s[b - 1]);
            }
        } else if a == p {
            assert(t[b] == s[b - 1]);
            if b - 1 > p {
                lemma_lex_transitive(x, s[p], s[b - 1]);
            }
        } else {
            assert(t[a] == s[a - 1] && t[b] == s[b - 1]);
        }
    }
    assert forall|y: Seq<char>| t.contains(y) <==> (s.contains(y) || y == x) by {
        if t.contains(y) {
            let k = choose|k: int| 0 <= k < t.len() && t[k] == y;
            if k < p {
                assert(s[k] == y);
            } else if k > p {
                assert(s[k - 1] == y);
            }
        }
        if s.contains(y) {
            let k = choose|k: int| 0 <= k < s.len() && s[k] == y;
            if k < p {
                assert(t[k] == y);
            } else {
                assert(t[k + 1] == y);
            }
        }
        if y == x {
            assert(t[p] == y);
        }
    }
}

/// The files of a list sorted, each once (`sort` followed by `dedup`).
pub fn sorted_unique(v: &Vec<String>) -> (r: Vec<String>)
    ensures
        strictly_sorted(strings_view(r@)),
        forall|y: Seq<char>| strings_view(r@).contains(y) <==> strings_view(v@).contains(y),
{
    let ghost sv = strings_view(v@);
    let mut r: Vec<String> = Vec::new();
    let mut i: usize = 0;
    while i < v.len()
        invariant
            i <= v@.len(),
            sv == strings_view(v@),
            strictly_sorted(strings_view(r@)),
            forall|y: Seq<char>| strings_view(r@).contains(y) <==> sv.take(i as int).contains(y),
        decreases v@.len() - i,
    {
        let x = &v[i];
        let ghost rs = strings_view(r@);
        let mut p: usize = 0;
        while p < r.len() && lex_less(r[p].as_str(), x.as_str())
            invariant
                p <= r@.len(),
                rs == strings_view(r@),
                forall|k: int| 0 <= k < p ==> lex_lt(#[trigger] rs[k], x@),
            decreases r@.len() - p,
        {
            p = p + 1;
        }
        proof {
            let t1 = sv.take(i + 1);
            let t0 = sv.take(i as int);
            assert(t1 =~= t0.push(x@));
            assert forall|y: Seq<char>| t1.contains(y) <==> (t0.contains(y) || y == x@) by {
                if t1.contains(y) {
                    let k = choose|k: int| 0 <= k < t1.len() && t1[k] == y;
                    if k < i {
                        assert(t0[k] == y);
                    }
                }
                if t0.contains(y) {
                    let k = choose|k: int| 0 <= k < t0.len() && t0[k] == y;
                    assert(t1[k] == y);
                }
                if y == x@ {
                    assert(t1[i as int] == y);
                }
            }
        }
        if p < r.len() && r[p] == *x {
            proof {
                assert(rs[p as int] == x@);
                assert(rs.contains(x@));
                assert(strings_view(r@) == rs);
                assert forall|y: Seq<char>| strings_view(r@).contains(y) <==> sv.take(i + 1).contains(
                    y,
                ) by {
                    if y == x@ {
                        assert(rs.contains(y));
                    }
                }
            }
        } else {
            proof {
                if p < rs.len() {
                    lemma_lex_total(rs[p as int], x@);
                }
                lemma_insert_sorted(rs, p as int, x@);
            }
            let ghost old_r = r@;
            let c = x.clone();
            let ghost cg = c;
            r.insert(p, c);
            proof {
                old_r.insert_ensures(p as int, cg);
                rs.insert_ensures(p as int, x@);
                assert(strings_view(r@) =~= rs.insert(p as int, x@));
                assert forall|y: Seq<char>| strings_view(r@).contains(y) <==> sv.take(i + 1).contains(
                    y,
                ) by {
                    assert(rs.insert(p as int, x@).contains(y) <==> (rs.contains(y) || y == x@));
                }
            }
        }
        i = i + 1;
    }
    proof {
        assert(sv.take(v@.len() as int) =~= sv);
    }
    r
}

/// Two sorted lists without repeats that hold the same texts are the same
/// list: the sorted, repeat-free file list of a set of files is determined.
pub proof fn lemma_sorted_unique_determined(a: Seq<Seq<char>>, b: Seq<Seq<char>>)
    requires
        strictly_sorted(a),
        strictly_sorted(b),
        forall|y: Seq<char>| a.contains(y) <==> b.contains(y),
    ensures
        a == b,
    decreases a.len(),
{
    if a.len() == 0 {
        if b.len() > 0 {
            assert(b.contains(b[0]));
        }
        assert(a =~= b);
    } else if b.len() == 0 {
        assert(a.contains(a[0]));
    } else {
        assert(a.contains(a[0]));
        assert(b.contains(b[0]));
        if a[0] != b[0] {
            let k = choose|k: int| 0 <= k < b.len() && b[k] == a[0];
            let j = choose|j: int| 0 <= j < a.len() && a[j] == b[0];
            assert(k > 0 && j > 0);
            assert(lex_lt(b[0], b[k]));
            assert(lex_lt(a[0], a[j]));
            lemma_lex_total(a[0], b[0]);
        }
        let a1 = a.drop_first();
        let b1 = b.drop_first();
        assert forall|i: int, j: int| 0 <= i < j < a1.len() implies lex_lt(#[trigger] a1[i], #[trigger] a1[j]) by {
            assert(a1[i] == a[i + 1] && a1[j] == a[j + 1]);
        }
        assert forall|i: int, j: int| 0 <= i < j < b1.len() implies lex_lt(#[trigger] b1[i], #[trigger] b1[j]) by {
            assert(b1[i] == b[i + 1] && b1[j] == b[j + 1]);
        }
        assert forall|y: Seq<char>| a1.contains(y) <==> b1.contains(y) by {
            if a1.contains(y) {
                let i = choose|i: int| 0 <= i < a1.len() && a1[i] == y;
                assert(a[i + 1] == y);
                assert(lex_lt(a[0], a[i + 1]));
                crate::text::lemma_lex_irreflexive(y);
                assert(b.contains(y));
                let k = choose|k: int| 0 <= k < b.len() && b[k] == y;
                assert(k != 0);
                assert(b1[k - 1] == y);
            }
            if b1.contains(y) {
                let i = choose|i: int| 0 <= i < b1.len() && b1[i] == y;
                assert(b[i + 1] == y);
                assert(lex_lt(b[0], b[i + 1]));
                crate::text::lemma_lex_irreflexive(y);
                assert(a.contains(y));
                let k = choose|k: int| 0 <= k < a.len() && a[k] == y;
                assert(k != 0);
                assert(a1[k - 1] == y);
            }
        }
        lemma_sorted_unique_determined(a1, b1);
        assert(a =~= seq![a[0]] + a1);
        assert(b =~= seq![b[0]] + b1);
    }
}

/// The theme's baseline stylesheets, offered in every page view.
pub open spec fn css_baseline_spec() -> Seq<Seq<char>> {
    seq![
        "00-Root-Section.css"@,
        "01-Reset-Base.css"@,
        "02-Typography-Links.css"@,
        "03-Buttons.css"@,
        "12-Terminal-Post-Styling.css"@,
        "13-Pagination.css"@,
        "17-Scrollbars.css"@,
        "19-Responsive-Mobile-Tablet.css"@,
        "20-Responsive-Very-Small-Screens.css"@,
        "21-Responsive-Desktop.css"@,
        "22-Export-Safety.css"@,
        "23-Comments.css"@,
        "24-Author-Profile.css"@,
        "25-Share-Menu.css"@,
        "26-Analytics-Dashboard.css"@,
    ]
}

/// The theme's baseline stylesheets.
pub fn css_baseline() -> (r: Vec<String>)
    ensures
        strings_view(r@) == css_baseline_spec(),
{
    let r = vec![
        String::from_str("00-Root-Section.css"),
        String::from_str("01-Reset-Base.css"),
        String::from_str("02-Typography-Links.css"),
        String::from_str("03-Buttons.css"),
        String::from_str("12-Terminal-Post-Styling.css"),
        String::from_str("13-Pagination.css"),
        String::from_str("17-Scrollbars.css"),
        String::from_str("19-Responsive-Mobile-Tablet.css"),
        String::from_str("20-Responsive-Very-Small-Screens.css"),
        String::from_str("21-Responsive-Desktop.css"),
        String::from_str("22-Export-Safety.css"),
        String::from_str("23-Comments.css"),
        String::from_str("24-Author-Profile.css"),
        String::from_str("25-Share-Menu.css"),
        String::from_str("26-Analytics-Dashboard.css"),
    ];
    proof {
        assert(strings_view(r@) =~= css_baseline_spec());
    }
    r
}

/// The files of one kind of the six chosen modules, slot by slot.
pub open spec fn theme_deps_spec(regs: ModuleRegistries, pack: TemplatePack, kind: AssetKind) -> Seq<Seq<char>> {
    deps_spec(regs.header@, pack.header_variant@, kind)
        + deps_spec(regs.layout@, pack.main_variant@, kind)
        + deps_spec(regs.content@, pack.content_variant@, kind)
        + deps_spec(regs.sidebar_left@, pack.left_sidebar_variant@, kind)
        + deps_spec(regs.sidebar_right@, pack.right_sidebar_variant@, kind)
        + deps_spec(regs.footer@, pack.footer_variant@, kind)
}

/// Appends the strings of `v` to `out`.
pub fn append_strings(out: &mut Vec<String>, v: Vec<String>)
    ensures
        strings_view(final(out)@) == strings_view(old(out)@) + strings_view(v@),
{
    let ghost start = strings_view(out@);
    let mut i: usize = 0;
    while i < v.len()
        invariant
            i <= v@.len(),
            strings_view(out@) == start + strings_view(v@).take(i as int),
        decreases v@.len() - i,
    {
        let ghost before = strings_view(out@);
        out.push(v[i].clone());
        proof {
            assert(strings_view(out@) =~= before.push(v@[i as int]@));
            assert(strings_view(v@).take(i + 1) =~= strings_view(v@).take(i as int).push(v@[i as int]@));
        }
        i = i + 1;
    }
    proof {
        assert(strings_view(v@).take(v@.len() as int) =~= strings_view(v@));
    }
}

/// The files of one kind of the six chosen modules, slot by slot.
pub fn theme_deps(regs: &ModuleRegistries, pack: &TemplatePack, kind: AssetKind) -> (r: Vec<String>)
    ensures
        strings_view(r@) == theme_deps_spec(*regs, *pack, kind),
{
    let mut r: Vec<String> = Vec::new();
    let slots = [
        (&regs.header, &pack.header_variant),
        (&regs.layout, &pack.main_variant),
        (&regs.content, &pack.content_variant),
        (&regs.sidebar_left, &pack.left_sidebar_variant),
        (&regs.sidebar_right, &pack.right_sidebar_variant),
        (&regs.footer, &pack.footer_variant),
    ];
    let d0 = match kind { AssetKind::Css => get_css_deps(slots[0].0, slots[0].1), AssetKind::Js => get_js_deps(slots[0].0, slots[0].1) };
    append_strings(&mut r, d0);
    let d1 = match kind { AssetKind::Css => get_css_deps(slots[1].0, slots[1].1), AssetKind::Js => get_js_deps(slots[1].0, slots[1].1) };
    append_strings(&mut r, d1);
    let d2 = match kind { AssetKind::Css => get_css_deps(slots[2].0, slots[2].1), AssetKind::Js => get_js_deps(slots[2].0, slots[2].1) };
    append_strings(&mut r, d2);
    let d3 = match kind { AssetKind::Css => get_css_deps(slots[3].0, slots[3].1), AssetKind::Js => get_js_deps(slots[3].0, slots[3].1) };
    append_strings(&mut r, d3);
    let d4 = match kind { AssetKind::Css => get_css_deps(slots[4].0, slots[4].1), AssetKind::Js => get_js_deps(slots[4].0, slots[4].1) };
    append_strings(&mut r, d4);
    let d5 = match kind { AssetKind::Css => get_css_deps(slots[5].0, slots[5].1), AssetKind::Js => get_js_deps(slots[5].0, slots[5].1) };
    append_strings(&mut r, d5);
    proof {
        assert(strings_view(r@) =~= theme_deps_spec(*regs, *pack, kind));
    }
    r
}

/// A search from `i <= k` finds `x` first at `k` when no earlier place holds it.
proof fn lemma_first_index_at(s: Seq<Seq<char>>, x: Seq<char>, k: int, i: int)
    requires
        0 <= i <= k < s.len(),
        s[k] == x,
        forall|j: int| 0 <= j < k ==> s[j] != x,
    ensures
        crate::editor::first_index_from(s, x, i) == Some(k),
    decreases k - i,
{
    if i < k {
        lemma_first_index_at(s, x, k, i + 1);
    }
}

/// A text of either part is a text of the two joined.
proof fn lemma_contains_join(a: Seq<Seq<char>>, b: Seq<Seq<char>>, y: Seq<char>)
    ensures
        (a.contains(y) || b.contains(y)) ==> (a + b).contains(y),
{
    if a.contains(y) {
        let k = choose|k: int| 0 <= k < a.len() && a[k] == y;
        assert((a + b)[k] == y);
    } else if b.contains(y) {
        let k = choose|k: int| 0 <= k < b.len() && b[k] == y;
        assert((a + b)[a.len() + k] == y);
    }
}

/// Every file that the module chosen for a slot lists (the first module of
/// the slot's registry with the chosen id) is among the files of the six
/// chosen modules, for each of the six slots: header, main canvas, content,
/// left sidebar, right sidebar and footer. So in a page view each of them is
/// a tab of the CSS editor.
pub proof fn law_theme_deps_cover_each_slot(
    regs: ModuleRegistries,
    pack: TemplatePack,
    reg: Seq<ComponentManifest>,
    chosen: Seq<char>,
    i: int,
    y: Seq<char>,
)
    requires
        is_slot(regs, pack, reg, chosen),
        is_chosen_module(reg, chosen, i),
    ensures
        reg[i].css_deps@.map_values(|f: String| f@).contains(y) ==> theme_deps_spec(regs, pack, AssetKind::Css).contains(y),
        reg[i].js_deps@.map_values(|f: String| f@).contains(y) ==> theme_deps_spec(regs, pack, AssetKind::Js).contains(y),
{
    let ids = manifest_ids(reg);
    assert forall|j: int| 0 <= j < i implies ids[j] != chosen by {
        assert(ids[j] == reg[j].id@);
    }
    lemma_first_index_at(ids, chosen, i, 0);
    assert(deps_spec(reg, chosen, AssetKind::Css) == strings_view(reg[i].css_deps@));
    assert(deps_spec(reg, chosen, AssetKind::Js) == strings_view(reg[i].js_deps@));
    assert forall|a: Seq<Seq<char>>, b: Seq<Seq<char>>| (a.contains(y) || b.contains(y)) implies #[trigger] (a + b).contains(y) by {
        lemma_contains_join(a, b, y);
    }
}

/// `reg` is the registry of one of the six structural slots and `chosen` the
/// id the template pack picks for that slot.
pub open spec fn is_slot(regs: ModuleRegistries, pack: TemplatePack, reg: Seq<ComponentManifest>, chosen: Seq<char>) -> bool {
    ||| (reg == regs.header@ && chosen == pack.header_variant@)
    ||| (reg == regs.layout@ && chosen == pack.main_variant@)
    ||| (reg == regs.content@ && chosen == pack.content_variant@)
    ||| (reg == regs.sidebar_left@ && chosen == pack.left_sidebar_variant@)
    ||| (reg == regs.sidebar_right@ && chosen == pack.right_sidebar_variant@)
    ||| (reg == regs.footer@ && chosen == pack.footer_variant@)
}

/// Position `i` holds the first module of `reg` with id `chosen`.
pub open spec fn is_chosen_module(reg: Seq<ComponentManifest>, chosen: Seq<char>, i: int) -> bool {
    &&& 0 <= i < reg.len()
    &&& reg[i].id@ == chosen
    &&& forall|j: int| 0 <= j < i ==> (#[trigger] reg[j]).id@ != chosen
}

/// The files of one kind that a module lists, by their text.
pub open spec fn listed_files(c: ComponentManifest, kind: AssetKind) -> Seq<Seq<char>> {
    match kind {
        AssetKind::Css => c.css_deps@.map_values(|f: String| f@),
        AssetKind::Js => c.js_deps@.map_values(|f: String| f@),
    }
}

/// A text of two joined parts is a text of one of them.
proof fn lemma_contains_split(a: Seq<Seq<char>>, b: Seq<Seq<char>>, y: Seq<char>)
    ensures
        (a + b).contains(y) ==> a.contains(y) || b.contains(y),
{
    if (a + b).contains(y) {
        let k = choose|k: int| 0 <= k < (a + b).len() && (a + b)[k] == y;
        if k < a.len() {
            assert(a[k] == y);
        } else {
            assert(b[k - a.len()] == y);
        }
    }
}

/// A position found by `first_index_from` has no earlier match from `i`.
proof fn lemma_first_index_first(s: Seq<Seq<char>>, x: Seq<char>, i: int)
    ensures
        crate::editor::first_index_from(s, x, i) matches Some(k) ==> forall|j: int| i <= j < k ==> s[j] != x,
    decreases s.len() - i,
{
    if i >= 0 && i < s.len() && s[i] != x {
        lemma_first_index_first(s, x, i + 1);
    }
}

/// A file listed for a slot's chosen module comes from that module.
proof fn lemma_slot_file_from_module(reg: Seq<ComponentManifest>, chosen: Seq<char>, kind: AssetKind, y: Seq<char>)
    requires
        deps_spec(reg, chosen, kind).contains(y),
    ensures
        exists|i: int| is_chosen_module(reg, chosen, i) && listed_files(reg[i], kind).contains(y),
{
    let ids = manifest_ids(reg);
    lemma_first_index_in_range(ids, chosen, 0);
    lemma_first_index_first(ids, chosen, 0);
    let i = first_index(ids, chosen).unwrap();
    assert(ids[i] == reg[i].id@);
    assert forall|j: int| 0 <= j < i implies (#[trigger] reg[j]).id@ != chosen by {
        assert(ids[j] == reg[j].id@);
    }
    assert(is_chosen_module(reg, chosen, i));
    assert(listed_files(reg[i], kind) == deps_spec(reg, chosen, kind));
}

/// Every file of the six chosen modules is listed by the module chosen for
/// one of the slots: the page tabs hold nothing but the baseline and these.
pub proof fn law_theme_deps_come_from_chosen_modules(regs: ModuleRegistries, pack: TemplatePack, kind: AssetKind, y: Seq<char>)
    requires
        theme_deps_spec(regs, pack, kind).contains(y),
    ensures
        exists|reg: Seq<ComponentManifest>, chosen: Seq<char>, i: int|
            is_slot(regs, pack, reg, chosen) && #[trigger] is_chosen_module(reg, chosen, i)
                && listed_files(reg[i], kind).contains(y),
{
    let d0 = deps_spec(regs.header@, pack.header_variant@, kind);
    let d1 = deps_spec(regs.layout@, pack.main_variant@, kind);
    let d2 = deps_spec(regs.content@, pack.content_variant@, kind);
    let d3 = deps_spec(regs.sidebar_left@, pack.left_sidebar_variant@, kind);
    let d4 = deps_spec(regs.sidebar_right@, pack.right_sidebar_variant@, kind);
    let d5 = deps_spec(regs.footer@, pack.footer_variant@, kind);
    lemma_contains_split(d0 + d1 + d2 + d3 + d4, d5, y);
    lemma_contains_split(d0 + d1 + d2 + d3, d4, y);
    lemma_contains_split(d0 + d1 + d2, d3, y);
    lemma_contains_split(d0 + d1, d2, y);
    lemma_contains_split(d0, d1, y);
    if d0.contains(y) {
        lemma_slot_file_from_module(regs.header@, pack.header_variant@, kind, y);
    } else if d1.contains(y) {
        lemma_slot_file_from_module(regs.layout@, pack.main_variant@, kind, y);
    } else if d2.contains(y) {
        lemma_slot_file_from_module(regs.content@, pack.content_variant@, kind, y);
    } else if d3.contains(y) {
        lemma_slot_file_from_module(regs.sidebar_left@, pack.left_sidebar_variant@, kind, y);
    } else if d4.contains(y) {
        lemma_slot_file_from_module(regs.sidebar_right@, pack.right_sidebar_variant@, kind, y);
    } else {
        lemma_slot_file_from_module(regs.footer@, pack.footer_variant@, kind, y);
    }
}

/// The views that show the rendered theme or its code.
pub open spec fn is_page_view(view: CenterView) -> bool {
    view == CenterView::Preview || view == CenterView::CodeEditor || view == CenterView::Split
        || view == CenterView::StaticPageEditor
}

/// The CSS editor's tabs: the theme's own CSS first; in the module workbench
/// the files of the slot being edited; in a page view the baseline and module
/// stylesheets, sorted, each once; nothing more in other views.
pub fn css_editor_files(
    view: CenterView,
    key: &Option<String>,
    pack: &TemplatePack,
    regs: &ModuleRegistries,
) -> (r: Vec<String>)
    ensures
        r@.len() >= 1,
        r@[0]@ == "preset_css.css"@,
        view == CenterView::ModuleWorkbench ==> strings_view(r@).drop_first() == (match key {
            Some(k) => workbench_deps_spec(*regs, *pack, k@, AssetKind::Css),
            None => Seq::empty(),
        }),
        is_page_view(view) ==> strictly_sorted(strings_view(r@).drop_first()),
        is_page_view(view) ==> forall|y: Seq<char>|
            strings_view(r@).drop_first().contains(y) <==> (css_baseline_spec() + theme_deps_spec(
                *regs,
                *pack,
                AssetKind::Css,
            )).contains(y),
        view == CenterView::JsWorkbench ==> r@.len() == 1,
{
    let mut r: Vec<String> = vec![String::from_str("preset_css.css")];
    let ghost head = strings_view(r@);
    if view == CenterView::ModuleWorkbench {
        match key {
            Some(k) => {
                let d = workbench_deps(regs, pack, k.as_str(), AssetKind::Css);
                append_strings(&mut r, d);
            },
            None => {},
        }
        proof {
            assert(strings_view(r@).drop_first() =~= strings_view(r@).subrange(1, r@.len() as int));
        }
    } else if view == CenterView::Preview || view == CenterView::CodeEditor || view
        == CenterView::Split || view == CenterView::StaticPageEditor {
        let mut all = css_baseline();
        append_strings(&mut all, theme_deps(regs, pack, AssetKind::Css));
        let sorted = sorted_unique(&all);
        append_strings(&mut r, sorted);
        proof {
            assert(strings_view(r@).drop_first() =~= strings_view(sorted@));
        }
    }
    proof {
        assert(head[0] == "preset_css.css"@);
        assert(strings_view(r@)[0] == head[0]);
    }
    r
}

/// The JS editor's tabs: the theme's own script first; in the module
/// workbench the scripts of the slot being edited; in a page view or the JS
/// workbench the core scripts and the magazine grid script.
pub fn js_editor_files(
    view: CenterView,
    key: &Option<String>,
    pack: &TemplatePack,
    regs: &ModuleRegistries,
    core_js: &Vec<String>,
    magazine_js: &str,
) -> (r: Vec<String>)
    ensures
        view == CenterView::ModuleWorkbench ==> strings_view(r@) == seq!["custom_js.js"@] + (
        match key {
            Some(k) => workbench_deps_spec(*regs, *pack, k@, AssetKind::Js),
            None => Seq::empty(),
        }),
        view != CenterView::ModuleWorkbench ==> strings_view(r@) == seq!["custom_js.js"@]
            + strings_view(core_js@) + seq![magazine_js@],
{
    let mut r: Vec<String> = vec![String::from_str("custom_js.js")];
    proof {
        assert(strings_view(r@) =~= seq!["custom_js.js"@]);
    }
    match view {
        CenterView::ModuleWorkbench => {
            match key {
                Some(k) => {
                    let d = workbench_deps(regs, pack, k.as_str(), AssetKind::Js);
                    append_strings(&mut r, d);
                },
                None => {
                    proof {
                        assert(strings_view(r@) =~= seq!["custom_js.js"@] + Seq::<Seq<char>>::empty());
                    }
                },
            }
        },
        _ => {
            append_strings(&mut r, copy_strings(core_js));
            let ghost before = strings_view(r@);
            r.push(String::from_str(magazine_js));
            proof {
                assert(strings_view(r@) =~= before.push(magazine_js@));
            }
        },
    }
    r
}

/// When the module workbench turns to another slot, the CSS editor moves to
/// the slot's first own file (the tab after the theme's CSS); outside the
/// workbench it forgets the slot.
pub fn workbench_tab_reset(
    last_key: &mut Option<String>,
    active: &mut String,
    in_workbench: bool,
    key: &Option<String>,
    files: &Vec<String>,
)
    ensures
        !in_workbench ==> *final(last_key) is None && final(active)@ == old(active)@,
        in_workbench && key is Some && opt_view(*old(last_key)) != opt_view(*key) ==> opt_view(
            *final(last_key),
        ) == opt_view(*key) && final(active)@ == (if files@.len() > 1 {
            files@[1]@
        } else {
            old(active)@
        }),
        in_workbench && (key is None || opt_view(*old(last_key)) == opt_view(*key)) ==> opt_view(
            *final(last_key),
        ) == opt_view(*old(last_key)) && final(active)@ == old(active)@,
{
    if !in_workbench {
        *last_key = None;
        return;
    }
    match key {
        Some(k) => {
            let same = match last_key {
                Some(l) => *l == *k,
                None => false,
            };
            if !same {
                *last_key = Some(k.clone());
                if files.len() > 1 {
                    *active = files[1].clone();
                }
            }
        },
        None => {},
    }
}

} // verus!
