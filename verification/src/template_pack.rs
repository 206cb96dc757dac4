//! The template pack: which built-in module fills each structural slot of the
//! theme, the catalogue of modules a slot can take, and the choices the module
//! panels make.
use vstd::prelude::*;
use crate::cursor::str_eq;
use crate::text::contains_spec;
use crate::text::contains_str;

verus! {

/// The module chosen for each slot of the theme.
pub struct TemplatePack {
    pub header_variant: String,
    pub main_variant: String,
    pub content_variant: String,
    pub left_sidebar_variant: String,
    pub right_sidebar_variant: String,
    pub footer_variant: String,
    pub script_variant: String,
}

/// A slot of the template pack.
#[derive(Clone, Copy, PartialEq, Eq, Debug, Structural)]
pub enum ModuleCategory {
    Header,
    MainCanvas,
    Content,
    LeftSidebar,
    RightSidebar,
    Footer,
    Scripts,
}

impl TemplatePack {
    /// The module chosen for a slot.
    pub open spec fn variant_spec(&self, cat: ModuleCategory) -> Seq<char> {
        match cat {
            ModuleCategory::Header => self.header_variant@,
            ModuleCategory::MainCanvas => self.main_variant@,
            ModuleCategory::Content => self.content_variant@,
            ModuleCategory::LeftSidebar => self.left_sidebar_variant@,
            ModuleCategory::RightSidebar => self.right_sidebar_variant@,
            ModuleCategory::Footer => self.footer_variant@,
            ModuleCategory::Scripts => self.script_variant@,
        }
    }

    /// The module chosen for a slot.
    pub fn variant(&self, cat: ModuleCategory) -> (r: String)
        ensures
            r@ == self.variant_spec(cat),
    {
        match cat {
            ModuleCategory::Header => self.header_variant.clone(),
            ModuleCategory::MainCanvas => self.main_variant.clone(),
            ModuleCategory::Content => self.content_variant.clone(),
            ModuleCategory::LeftSidebar => self.left_sidebar_variant.clone(),
            ModuleCategory::RightSidebar => self.right_sidebar_variant.clone(),
            ModuleCategory::Footer => self.footer_variant.clone(),
            ModuleCategory::Scripts => self.script_variant.clone(),
        }
    }

    /// Chooses module `id` for slot `cat`: reading that slot gives `id`, and
    /// every other slot keeps its module.
    pub fn set_variant(&mut self, cat: ModuleCategory, id: String)
        ensures
            final(self).variant_spec(cat) == id@,
            forall|c: ModuleCategory| c != cat ==> #[trigger] final(self).variant_spec(c) == old(
                self,
            ).variant_spec(c),
    {
        match cat {
            ModuleCategory::Header => self.header_variant = id,
            ModuleCategory::MainCanvas => self.main_variant = id,
            ModuleCategory::Content => self.content_variant = id,
            ModuleCategory::LeftSidebar => self.left_sidebar_variant = id,
            ModuleCategory::RightSidebar => self.right_sidebar_variant = id,
            ModuleCategory::Footer => self.footer_variant = id,
            ModuleCategory::Scripts => self.script_variant = id,
        }
    }

    /// Whether module `id` is the one chosen for slot `cat` (the highlighted
    /// card of the module grid).
    pub fn is_selected(&self, cat: ModuleCategory, id: &str) -> (r: bool)
        ensures
            r == (self.variant_spec(cat) == id@),
    {
        let v = self.variant(cat);
        str_eq(v.as_str(), id)
    }
}

/// A built-in module: its id, its display name and a one-line description.
pub struct ModuleDef {
    pub id: &'static str,
    pub name: &'static str,
    pub desc: &'static str,
}

/// The id, name and description of each module of a list.
pub open spec fn defs_view(v: Seq<ModuleDef>) -> Seq<(Seq<char>, Seq<char>, Seq<char>)> {
    v.map_values(|d: ModuleDef| (d.id@, d.name@, d.desc@))
}

/// The built-in modules of each slot.
pub open spec fn modules_spec(cat: ModuleCategory) -> Seq<(Seq<char>, Seq<char>, Seq<char>)> {
    match cat {
        ModuleCategory::Header => seq![
            ("mor"@, "Mor (Default)"@, "The standard multi-row header with centered navigation."@),
            ("mor_search_center"@, "Mor \u{2014} Centered Search"@, "Multi-row header with a centered, rounded, slightly larger search bar."@),
            ("gtk_headerbar"@, "GTK4 Headerbar"@, "A compact, desktop-style unified titlebar and navigation row."@),
            ("minimal"@, "Minimal Flexbox"@, "A lean single-stack flexbox header with branding and links."@),
        ],
        ModuleCategory::MainCanvas => seq![
            ("sidebars"@, "Three Column (Sidebars)"@, "Classic blog layout with left and right docking panels."@),
            ("single_column"@, "Single Column"@, "A focused, distraction-free reading environment without sidebars."@),
            ("two_column_right"@, "Two Column Right CSS Grid"@, "Content with a single right rail on a CSS grid."@),
        ],
        ModuleCategory::Content => seq![
            ("standard_feed"@, "Standard Feed (Default)"@, "Chronological vertical list of full posts."@),
            ("mor_magazine"@, "Mor Magazine (Hero + Grid)"@, "A large featured hero post followed by a structured grid."@),
            ("mor_masonry"@, "Mor Masonry (Pinterest Grid)"@, "A dense, interlocking Pinterest-style grid of post cards."@),
            ("mor_minimal"@, "Mor Minimal (Dense List)"@, "Stripped-down, text-heavy list for rapid scanning."@),
        ],
        ModuleCategory::LeftSidebar => seq![
            ("blogger_left"@, "Blogger Widgets (Labels, Archive)"@, "Native Blogger widget wrappers for Archives and Labels."@),
        ],
        ModuleCategory::RightSidebar => seq![
            ("toc_right"@, "Table of Contents"@, "An empty socket ready for the Dewey Indexer plugin to inject the TOC."@),
        ],
        ModuleCategory::Footer => seq![
            ("mega"@, "Mega Grid (Default)"@, "Massive 6-column link directory for institutional sites."@),
            ("basic"@, "Basic Columns"@, "A standard 4-column layout for links and resources."@),
            ("compact"@, "Compact Centered"@, "A single minimal line for copyright and legal links."@),
            ("social"@, "Social Centered Row"@, "A centered row of social links with the copyright line."@),
        ],
        ModuleCategory::Scripts => seq![
            ("mor_collapsible_sidebars"@, "Mor Collapsible Sidebars"@, "Includes the core framework for mobile collapsible sidebars."@),
            ("vanilla_base"@, "Vanilla Base (No JS)"@, "No panel toggle behaviors. Purely static CSS grids."@),
        ],
    }
}

/// The built-in modules of a slot, the one list both module panels show.
pub fn modules(cat: ModuleCategory) -> (r: Vec<ModuleDef>)
    ensures
        defs_view(r@) == modules_spec(cat),
{
    let r = match cat {
        ModuleCategory::Header => vec![
            ModuleDef { id: "mor", name: "Mor (Default)", desc: "The standard multi-row header with centered navigation." },
            ModuleDef { id: "mor_search_center", name: "Mor \u{2014} Centered Search", desc: "Multi-row header with a centered, rounded, slightly larger search bar." },
            ModuleDef { id: "gtk_headerbar", name: "GTK4 Headerbar", desc: "A compact, desktop-style unified titlebar and navigation row." },
            ModuleDef { id: "minimal", name: "Minimal Flexbox", desc: "A lean single-stack flexbox header with branding and links." },
        ],
        ModuleCategory::MainCanvas => vec![
            ModuleDef { id: "sidebars", name: "Three Column (Sidebars)", desc: "Classic blog layout with left and right docking panels." },
            ModuleDef { id: "single_column", name: "Single Column", desc: "A focused, distraction-free reading environment without sidebars." },
            ModuleDef { id: "two_column_right", name: "Two Column Right CSS Grid", desc: "Content with a single right rail on a CSS grid." },
        ],
        ModuleCategory::Content => vec![
            ModuleDef { id: "standard_feed", name: "Standard Feed (Default)", desc: "Chronological vertical list of full posts." },
            ModuleDef { id: "mor_magazine", name: "Mor Magazine (Hero + Grid)", desc: "A large featured hero post followed by a structured grid." },
            ModuleDef { id: "mor_masonry", name: "Mor Masonry (Pinterest Grid)", desc: "A dense, interlocking Pinterest-style grid of post cards." },
            ModuleDef { id: "mor_minimal", name: "Mor Minimal (Dense List)", desc: "Stripped-down, text-heavy list for rapid scanning." },
        ],
        ModuleCategory::LeftSidebar => vec![
            ModuleDef { id: "blogger_left", name: "Blogger Widgets (Labels, Archive)", desc: "Native Blogger widget wrappers for Archives and Labels." },
        ],
        ModuleCategory::RightSidebar => vec![
            ModuleDef { id: "toc_right", name: "Table of Contents", desc: "An empty socket ready for the Dewey Indexer plugin to inject the TOC." },
        ],
        ModuleCategory::Footer => vec![
            ModuleDef { id: "mega", name: "Mega Grid (Default)", desc: "Massive 6-column link directory for institutional sites." },
            ModuleDef { id: "basic", name: "Basic Columns", desc: "A standard 4-column layout for links and resources." },
            ModuleDef { id: "compact", name: "Compact Centered", desc: "A single minimal line for copyright and legal links." },
            ModuleDef { id: "social", name: "Social Centered Row", desc: "A centered row of social links with the copyright line." },
        ],
        ModuleCategory::Scripts => vec![
            ModuleDef { id: "mor_collapsible_sidebars", name: "Mor Collapsible Sidebars", desc: "Includes the core framework for mobile collapsible sidebars." },
            ModuleDef { id: "vanilla_base", name: "Vanilla Base (No JS)", desc: "No panel toggle behaviors. Purely static CSS grids." },
        ],
    };
    proof {
        assert(defs_view(r@) =~= modules_spec(cat));
    }
    r
}

/// The (id, name) options of a module list, in order, for a dropdown.
pub fn options_of(defs: &Vec<ModuleDef>) -> (r: Vec<(&'static str, &'static str)>)
    ensures
        r@.len() == defs@.len(),
        forall|i: int|
            0 <= i < r@.len() ==> (#[trigger] r@[i]).0@ == defs@[i].id@ && r@[i].1@ == defs@[i].name@,
{
    let mut r: Vec<(&'static str, &'static str)> = Vec::new();
    let mut i: usize = 0;
    while i < defs.len()
        invariant
            i <= defs@.len(),
            r@.len() == i,
            forall|k: int|
                0 <= k < i ==> (#[trigger] r@[k]).0@ == defs@[k].id@ && r@[k].1@ == defs@[k].name@,
        decreases defs@.len() - i,
    {
        r.push((defs[i].id, defs[i].name));
        i = i + 1;
    }
    r
}

/// The label of a slot in the module dialog's navigation.
pub open spec fn category_label_spec(cat: ModuleCategory) -> Seq<char> {
    match cat {
        ModuleCategory::Header => "Header Variant"@,
        ModuleCategory::MainCanvas => "Main Canvas"@,
        ModuleCategory::Content => "Content Layout"@,
        ModuleCategory::LeftSidebar => "Left Sidebar"@,
        ModuleCategory::RightSidebar => "Right Sidebar"@,
        ModuleCategory::Footer => "Footer Variant"@,
        ModuleCategory::Scripts => "JS Behaviors"@,
    }
}

/// The label of a slot in the module dialog's navigation.
pub fn category_label(cat: ModuleCategory) -> (r: &'static str)
    ensures
        r@ == category_label_spec(cat),
{
    match cat {
        ModuleCategory::Header => "Header Variant",
        ModuleCategory::MainCanvas => "Main Canvas",
        ModuleCategory::Content => "Content Layout",
        ModuleCategory::LeftSidebar => "Left Sidebar",
        ModuleCategory::RightSidebar => "Right Sidebar",
        ModuleCategory::Footer => "Footer Variant",
        ModuleCategory::Scripts => "JS Behaviors",
    }
}

/// The key of a structural slot in the module workbench and the theme file;
/// the script slot has none.
pub open spec fn module_key_spec(cat: ModuleCategory) -> Option<Seq<char>> {
    match cat {
        ModuleCategory::Header => Some("header_variant"@),
        ModuleCategory::MainCanvas => Some("main_variant"@),
        ModuleCategory::Content => Some("content_variant"@),
        ModuleCategory::LeftSidebar => Some("left_sidebar_variant"@),
        ModuleCategory::RightSidebar => Some("right_sidebar_variant"@),
        ModuleCategory::Footer => Some("footer_variant"@),
        ModuleCategory::Scripts => None,
    }
}

/// The slot that a workbench key names.
pub open spec fn category_for_key_spec(key: Seq<char>) -> Option<ModuleCategory> {
    if key == "header_variant"@ {
        Some(ModuleCategory::Header)
    } else if key == "main_variant"@ {
        Some(ModuleCategory::MainCanvas)
    } else if key == "content_variant"@ {
        Some(ModuleCategory::Content)
    } else if key == "left_sidebar_variant"@ {
        Some(ModuleCategory::LeftSidebar)
    } else if key == "right_sidebar_variant"@ {
        Some(ModuleCategory::RightSidebar)
    } else if key == "footer_variant"@ {
        Some(ModuleCategory::Footer)
    } else {
        None
    }
}

/// The key of a structural slot.
pub fn module_key(cat: ModuleCategory) -> (r: Option<&'static str>)
    ensures
        match r {
            Some(k) => module_key_spec(cat) == Some(k@),
            None => module_key_spec(cat) is None,
        },
{
    match cat {
        ModuleCategory::Header => Some("header_variant"),
        ModuleCategory::MainCanvas => Some("main_variant"),
        ModuleCategory::Content => Some("content_variant"),
        ModuleCategory::LeftSidebar => Some("left_sidebar_variant"),
        ModuleCategory::RightSidebar => Some("right_sidebar_variant"),
        ModuleCategory::Footer => Some("footer_variant"),
        ModuleCategory::Scripts => None,
    }
}

/// The slot that a workbench key names.
pub fn category_for_key(key: &str) -> (r: Option<ModuleCategory>)
    ensures
        r == category_for_key_spec(key@),
{
    if str_eq(key, "header_variant") {
        Some(ModuleCategory::Header)
    } else if str_eq(key, "main_variant") {
        Some(ModuleCategory::MainCanvas)
    } else if str_eq(key, "content_variant") {
        Some(ModuleCategory::Content)
    } else if str_eq(key, "left_sidebar_variant") {
        Some(ModuleCategory::LeftSidebar)
    } else if str_eq(key, "right_sidebar_variant") {
        Some(ModuleCategory::RightSidebar)
    } else if str_eq(key, "footer_variant") {
        Some(ModuleCategory::Footer)
    } else {
        None
    }
}

/// A slot's key names that slot again.
pub proof fn lemma_module_key_round_trip(cat: ModuleCategory)
    ensures
        module_key_spec(cat) matches Some(k) ==> category_for_key_spec(k) == Some(cat),
{
    reveal_strlit("header_variant");
    reveal_strlit("main_variant");
    reveal_strlit("content_variant");
    reveal_strlit("left_sidebar_variant");
    reveal_strlit("right_sidebar_variant");
    reveal_strlit("footer_variant");
    let h = "header_variant"@;
    let m = "main_variant"@;
    let c = "content_variant"@;
    let l = "left_sidebar_variant"@;
    let r = "right_sidebar_variant"@;
    let f = "footer_variant"@;
    assert(h.len() != m.len() && h.len() != c.len() && h.len() != l.len() && h.len() != r.len());
    assert(m.len() != c.len() && m.len() != l.len() && m.len() != r.len() && m.len() != f.len());
    assert(c.len() != l.len() && c.len() != r.len() && c.len() != f.len());
    assert(l.len() != r.len() && l.len() != f.len() && r.len() != f.len());
    assert(h[0] != f[0]);
}

/// A content layout that lays posts out in a grid.
pub open spec fn requires_grid_spec(selected: Seq<char>) -> bool {
    selected == "mor_magazine"@ || selected == "mor_masonry"@ || contains_spec(selected, "Grid"@)
}

/// Whether a content layout lays posts out in a grid (and so needs a few
/// posts to show it).
pub fn requires_grid(selected: &str) -> (r: bool)
    ensures
        r == requires_grid_spec(selected@),
{
    str_eq(selected, "mor_magazine") || str_eq(selected, "mor_masonry") || contains_str(selected, "Grid")
}

/// How many sample posts the site data must have after choosing a content
/// layout: four for a grid layout, no minimum otherwise.
pub fn grid_posts_needed(selected: &str) -> (r: Option<u32>)
    ensures
        r == (if requires_grid_spec(selected@) { Some(4u32) } else { None }),
{
    if requires_grid(selected) {
        Some(4)
    } else {
        None
    }
}

/// What came of loading a slot's module from a file.
pub enum ModuleFileOutcome {
    /// The module was installed as the slot's override.
    Loaded,
    /// The file could not be read; the reason.
    ReadFailed(String),
    /// The override could not be saved; the reason.
    SaveFailed(String),
}

/// The status line shown after loading a slot's module from a file.
pub open spec fn module_file_status_spec(label: Seq<char>, outcome: ModuleFileOutcome) -> Seq<char> {
    match outcome {
        ModuleFileOutcome::Loaded => label
            + " loaded from file \u{2014} overrides the dropdown until reset in the Module Workbench."@,
        ModuleFileOutcome::ReadFailed(e) => "Could not read file: "@ + e@,
        ModuleFileOutcome::SaveFailed(e) => "Load failed: "@ + e@,
    }
}

/// The status line shown after loading a slot's module from a file.
pub fn module_file_status(label: &str, outcome: &ModuleFileOutcome) -> (r: String)
    ensures
        r@ == module_file_status_spec(label@, *outcome),
{
    match outcome {
        ModuleFileOutcome::Loaded => {
            let mut r = String::from_str(label);
            r.append(" loaded from file \u{2014} overrides the dropdown until reset in the Module Workbench.");
            r
        },
        ModuleFileOutcome::ReadFailed(e) => {
            let mut r = String::from_str("Could not read file: ");
            r.append(e.as_str());
            r
        },
        ModuleFileOutcome::SaveFailed(e) => {
            let mut r = String::from_str("Load failed: ");
            r.append(e.as_str());
            r
        },
    }
}

} // verus!
