//! The right-click menus: the title of the menu, the entries it offers for
//! icons, docks and typography, and the plan of the preview canvas's menu from
//! what lies under the cursor.
use vstd::prelude::*;
use crate::cursor::str_eq;
use crate::shortcuts::opt_view;
use crate::text::chars_of;
use crate::text::push_char;
use crate::text::starts_with_chars;
use crate::text::starts_with_spec;

verus! {

/// A target id shown to the user: without an `icons.` prefix, underscores as
/// spaces.
pub open spec fn friendly_name_spec(id: Seq<char>) -> Seq<char> {
    let base = if starts_with_spec(id, "icons."@) { id.skip(6) } else { id };
    base.map_values(|c: char| if c == '_' { ' ' } else { c })
}

/// A target id shown to the user.
pub fn friendly_name(id: &str) -> (r: String)
    ensures
        r@ == friendly_name_spec(id@),
{
    proof {
        reveal_strlit("icons.");
    }
    let v = chars_of(id);
    let p = chars_of("icons.");
    let start: usize = if starts_with_chars(&v, &p) { 6 } else { 0 };
    let ghost base = if starts_with_spec(id@, "icons."@) { id@.skip(6) } else { id@ };
    proof {
        if start == 0 {
            assert(v@.skip(0) =~= v@);
        }
    }
    let mut r = String::new();
    let mut i: usize = start;
    while i < v.len()
        invariant
            v@ == id@,
            start <= i <= v@.len(),
            base == v@.skip(start as int),
            r@ == base.take(i - start).map_values(|c: char| if c == '_' { ' ' } else { c }),
        decreases v@.len() - i,
    {
        let c = v[i];
        let ghost before = r@;
        push_char(&mut r, if c == '_' { ' ' } else { c });
        proof {
            assert(base.take(i + 1 - start) =~= base.take(i - start).push(c));
            assert(r@ =~= base.take(i + 1 - start).map_values(
                |c: char| if c == '_' { ' ' } else { c },
            ));
        }
        i = i + 1;
    }
    proof {
        assert(base.take(v@.len() - start) =~= base);
    }
    r
}

/// The docks whose icons can be pinned to the activity bar.
pub open spec fn is_dock_target_spec(id: Seq<char>) -> bool {
    id == "Theme Palette"@ || id == "CSS Editor"@ || id == "JS Editor"@ || id == "XML Editor"@ || id
        == "Site Data"@
}

/// Whether an icon belongs to a dock that can be pinned.
pub fn is_dock_target(id: &str) -> (r: bool)
    ensures
        r == is_dock_target_spec(id@),
{
    str_eq(id, "Theme Palette") || str_eq(id, "CSS Editor") || str_eq(id, "JS Editor") || str_eq(
        id,
        "XML Editor",
    ) || str_eq(id, "Site Data")
}

/// The title of a context menu by its kind; the preview's names the region
/// under the cursor.
pub open spec fn menu_title_spec(kind: Seq<char>, region: Seq<char>) -> Seq<char> {
    if kind == "preview"@ {
        "Preview \u{b7} "@ + region
    } else if kind == "svg"@ {
        "Icon Context Menu"@
    } else if kind == "ui_typography"@ {
        "UI Context Menu"@
    } else {
        "Context Menu"@
    }
}

/// The title of a context menu.
pub fn menu_title(kind: &str, region: &str) -> (r: String)
    ensures
        r@ == menu_title_spec(kind@, region@),
{
    if str_eq(kind, "preview") {
        let mut r = String::from_str("Preview \u{b7} ");
        r.append(region);
        r
    } else if str_eq(kind, "svg") {
        String::from_str("Icon Context Menu")
    } else if str_eq(kind, "ui_typography") {
        String::from_str("UI Context Menu")
    } else {
        String::from_str("Context Menu")
    }
}

/// An entry of an icon, dock or typography context menu.
#[derive(Clone, Copy, PartialEq, Eq, Debug, Structural)]
pub enum MenuEntry {
    /// Pin or unpin the dock; `pinned` tells which label and icon it shows.
    PinToggle { pinned: bool, long_label: bool },
    /// Open the icon picker for the icon.
    SwapIcon,
    /// Open the activity-bar icon picker for the dock.
    ChangeIcon,
    /// Open the typography settings.
    EditTypography,
    /// The kind is not known.
    Unknown,
}

/// The entries of a context menu that is not the preview's.
pub open spec fn menu_entries_spec(kind: Seq<char>, target: Seq<char>, pinned: bool) -> Seq<MenuEntry> {
    if kind == "svg"@ {
        if is_dock_target_spec(target) {
            seq![MenuEntry::PinToggle { pinned, long_label: false }, MenuEntry::SwapIcon]
        } else {
            seq![MenuEntry::SwapIcon]
        }
    } else if kind == "ui_typography"@ {
        seq![MenuEntry::EditTypography]
    } else if kind == "dock"@ {
        seq![MenuEntry::PinToggle { pinned, long_label: true }, MenuEntry::ChangeIcon]
    } else {
        seq![MenuEntry::Unknown]
    }
}

/// The entries of an icon, typography or dock context menu.
pub fn menu_entries(kind: &str, target: &str, pinned: bool) -> (r: Vec<MenuEntry>)
    ensures
        r@ == menu_entries_spec(kind@, target@, pinned),
{
    let r = if str_eq(kind, "svg") {
        if is_dock_target(target) {
            vec![MenuEntry::PinToggle { pinned, long_label: false }, MenuEntry::SwapIcon]
        } else {
            vec![MenuEntry::SwapIcon]
        }
    } else if str_eq(kind, "ui_typography") {
        vec![MenuEntry::EditTypography]
    } else if str_eq(kind, "dock") {
        vec![MenuEntry::PinToggle { pinned, long_label: true }, MenuEntry::ChangeIcon]
    } else {
        vec![MenuEntry::Unknown]
    };
    proof {
        assert(r@ =~= menu_entries_spec(kind@, target@, pinned));
    }
    r
}

/// The label of a pin entry.
pub open spec fn pin_label_spec(pinned: bool, long_label: bool) -> Seq<char> {
    if pinned {
        if long_label {
            "Unpin from Activity Bar"@
        } else {
            "Unpin"@
        }
    } else {
        "Pin to Activity Bar"@
    }
}

/// The label of a pin entry.
pub fn pin_label(pinned: bool, long_label: bool) -> (r: &'static str)
    ensures
        r@ == pin_label_spec(pinned, long_label),
{
    if pinned {
        if long_label {
            "Unpin from Activity Bar"
        } else {
            "Unpin"
        }
    } else {
        "Pin to Activity Bar"
    }
}

/// What lies under the cursor in the preview.
pub struct PreviewContextInfo {
    pub region: String,
    pub tag: String,
    pub edit_target: Option<String>,
    pub field_path: Option<String>,
    pub block_id: Option<String>,
    pub color: Option<String>,
    pub bg: Option<String>,
    pub link: Option<String>,
}

/// Tags whose right-click offers the typography editor.
pub open spec fn is_text_tag_spec(tag: Seq<char>) -> bool {
    tag == "h1"@ || tag == "h2"@ || tag == "h3"@ || tag == "h4"@ || tag == "h5"@ || tag == "h6"@ || tag
        == "p"@ || tag == "span"@ || tag == "a"@ || tag == "li"@ || tag == "blockquote"@ || tag
        == "time"@ || tag == "small"@
}

/// Whether a tag holds text.
pub fn is_text_tag(tag: &str) -> (r: bool)
    ensures
        r == is_text_tag_spec(tag@),
{
    str_eq(tag, "h1") || str_eq(tag, "h2") || str_eq(tag, "h3") || str_eq(tag, "h4") || str_eq(tag, "h5")
        || str_eq(tag, "h6") || str_eq(tag, "p") || str_eq(tag, "span") || str_eq(tag, "a")
        || str_eq(tag, "li") || str_eq(tag, "blockquote") || str_eq(tag, "time") || str_eq(
        tag,
        "small",
    )
}

/// What the preview's menu offers for what lies under the cursor.
pub struct PreviewPlan {
    /// The icon to swap: an edit target that names an icon.
    pub icon_target: Option<String>,
    /// The field to edit in place.
    pub inline_field: Option<String>,
    /// What to reveal in the code editor: the field, else the edit target,
    /// else the block.
    pub reveal_target: Option<String>,
    /// Offer the typography editor.
    pub edit_typography: bool,
    /// Show the Edit section at all.
    pub edit_section: bool,
    /// Show the Colors section at all.
    pub colors_section: bool,
}

/// The first of two optional strings that is there.
pub open spec fn or_else_spec(a: Option<Seq<char>>, b: Option<Seq<char>>) -> Option<Seq<char>> {
    match a {
        Some(x) => Some(x),
        None => b,
    }
}

/// A copy of an optional string.
fn copy_opt(o: &Option<String>) -> (r: Option<String>)
    ensures
        opt_view(r) == opt_view(*o),
{
    match o {
        Some(s) => Some(s.clone()),
        None => None,
    }
}

/// The preview menu's plan for what lies under the cursor.
pub fn preview_plan(info: &PreviewContextInfo) -> (r: PreviewPlan)
    ensures
        opt_view(r.icon_target) == (match opt_view(info.edit_target) {
            Some(t) => if starts_with_spec(t, "icons."@) {
                Some(t)
            } else {
                None
            },
            None => None,
        }),
        opt_view(r.inline_field) == opt_view(info.field_path),
        opt_view(r.reveal_target) == or_else_spec(
            opt_view(info.field_path),
            or_else_spec(opt_view(info.edit_target), opt_view(info.block_id)),
        ),
        r.edit_typography == is_text_tag_spec(info.tag@),
        r.edit_section == (r.icon_target is Some || info.field_path is Some || r.reveal_target is Some
            || r.edit_typography),
        r.colors_section == (info.color is Some || info.bg is Some),
{
    let is_text = is_text_tag(info.tag.as_str());
    let icon_target = match &info.edit_target {
        Some(t) => {
            let tv = chars_of(t.as_str());
            let pv = chars_of("icons.");
            if starts_with_chars(&tv, &pv) {
                Some(t.clone())
            } else {
                None
            }
        },
        None => None,
    };
    let reveal_target = match &info.field_path {
        Some(f) => Some(f.clone()),
        None => match &info.edit_target {
            Some(t) => Some(t.clone()),
            None => copy_opt(&info.block_id),
        },
    };
    let edit_section = icon_target.is_some() || info.field_path.is_some() || reveal_target.is_some()
        || is_text;
    PreviewPlan {
        icon_target,
        inline_field: copy_opt(&info.field_path),
        reveal_target,
        edit_typography: is_text,
        edit_section,
        colors_section: info.color.is_some() || info.bg.is_some(),
    }
}

/// The label of the X-ray entry.
pub fn xray_label(active: bool) -> (r: &'static str)
    ensures
        r@ == (if active { "X-Ray Off"@ } else { "X-Ray Inspect"@ }),
{
    if active {
        "X-Ray Off"
    } else {
        "X-Ray Inspect"
    }
}

/// The icon and label of the light/dark entry: it offers the other mode.
pub fn mode_toggle_entry(dark: bool) -> (r: (&'static str, &'static str))
    ensures
        r.0@ == (if dark { "\u{2600}"@ } else { "\u{263e}"@ }),
        r.1@ == (if dark { "Switch to Light Mode"@ } else { "Switch to Dark Mode"@ }),
{
    if dark {
        ("\u{2600}", "Switch to Light Mode")
    } else {
        ("\u{263e}", "Switch to Dark Mode")
    }
}

/// The shortcut hint after Undo or Redo: ` (combo)` when the action has a
/// shortcut, nothing otherwise.
pub fn shortcut_hint(combo: &Option<String>) -> (r: String)
    ensures
        r@ == (match combo {
            Some(c) => " ("@ + c@ + ")"@,
            None => Seq::empty(),
        }),
{
    match combo {
        Some(c) => {
            let mut r = String::from_str(" (");
            r.append(c.as_str());
            r.append(")");
            r
        },
        None => String::new(),
    }
}

} // verus!
