//! Keyboard shortcuts: the rebindable actions, the user's bindings, and the
//! canonical combo text captured from a key press.
use vstd::prelude::*;
use crate::cursor::str_eq;
use crate::text::chars_of;
use crate::text::contains_spec;
use crate::text::contains_str;
use crate::text::split_char;
use crate::text::split_spec;
use crate::text::to_lower;
use crate::text::to_upper;
use crate::text::lower_spec;
use crate::text::upper_spec;

verus! {

/// The rebindable actions: (stable id, display label, group), in menu order.
pub const ACTIONS: [(&'static str, &'static str, &'static str); 15] = [
    ("user_prefs", "User Preferences", "Global App"),
    ("theme_diagnostics", "Theme Diagnostics", "Global App"),
    ("toggle_preview", "Toggle Preview", "Global App"),
    ("exit_architect", "Exit Architect", "Global App"),
    ("open_project", "Load Theme (.toml)", "Project & File"),
    ("save_project", "Save Theme (.toml)", "Project & File"),
    ("export_xml", "Export Blogger XML", "Project & File"),
    ("undo", "Undo", "Workspace"),
    ("redo", "Redo", "Workspace"),
    ("copy_raw_xml", "Copy Raw XML", "Workspace"),
    ("toggle_left_dock", "Toggle Left Dock", "Workspace"),
    ("toggle_right_dock", "Toggle Right Dock", "Workspace"),
    ("close_left_dock", "Close Left Pane", "Workspace"),
    ("close_right_dock", "Close Right Pane", "Workspace"),
    ("reset_zoom", "Reset Zoom", "Workspace"),
];

/// The groups the shortcuts dialog shows, in order.
pub const ACTION_GROUPS: [&'static str; 3] = ["Global App", "Project & File", "Workspace"];

/// The user's key binding for each rebindable action (`None`: unbound).
#[derive(Clone, PartialEq, Eq, Debug)]
pub struct ShortcutPrefs {
    pub user_prefs: Option<String>,
    pub theme_diagnostics: Option<String>,
    pub toggle_preview: Option<String>,
    pub exit_architect: Option<String>,
    pub open_project: Option<String>,
    pub save_project: Option<String>,
    pub export_xml: Option<String>,
    pub undo: Option<String>,
    pub redo: Option<String>,
    pub copy_raw_xml: Option<String>,
    pub toggle_left_dock: Option<String>,
    pub toggle_right_dock: Option<String>,
    pub close_left_dock: Option<String>,
    pub close_right_dock: Option<String>,
    pub reset_zoom: Option<String>,
}

/// The characters of an optional string.
pub open spec fn opt_view(o: Option<String>) -> Option<Seq<char>> {
    match o {
        Some(s) => Some(s@),
        None => None,
    }
}

/// `id` names one of the rebindable actions.
pub open spec fn is_action_id(id: Seq<char>) -> bool {
    id == "user_prefs"@
        || id == "theme_diagnostics"@
        || id == "toggle_preview"@
        || id == "exit_architect"@
        || id == "open_project"@
        || id == "save_project"@
        || id == "export_xml"@
        || id == "undo"@
        || id == "redo"@
        || id == "copy_raw_xml"@
        || id == "toggle_left_dock"@
        || id == "toggle_right_dock"@
        || id == "close_left_dock"@
        || id == "close_right_dock"@
        || id == "reset_zoom"@
}

impl ShortcutPrefs {
    /// The binding of the action `id`: `None` when it is unbound or when
    /// `id` names no action.
    pub open spec fn binding(&self, id: Seq<char>) -> Option<Seq<char>> {
        if id == "user_prefs"@ {
            opt_view(self.user_prefs)
        } else if id == "theme_diagnostics"@ {
            opt_view(self.theme_diagnostics)
        } else if id == "toggle_preview"@ {
            opt_view(self.toggle_preview)
        } else if id == "exit_architect"@ {
            opt_view(self.exit_architect)
        } else if id == "open_project"@ {
            opt_view(self.open_project)
        } else if id == "save_project"@ {
            opt_view(self.save_project)
        } else if id == "export_xml"@ {
            opt_view(self.export_xml)
        } else if id == "undo"@ {
            opt_view(self.undo)
        } else if id == "redo"@ {
            opt_view(self.redo)
        } else if id == "copy_raw_xml"@ {
            opt_view(self.copy_raw_xml)
        } else if id == "toggle_left_dock"@ {
            opt_view(self.toggle_left_dock)
        } else if id == "toggle_right_dock"@ {
            opt_view(self.toggle_right_dock)
        } else if id == "close_left_dock"@ {
            opt_view(self.close_left_dock)
        } else if id == "close_right_dock"@ {
            opt_view(self.close_right_dock)
        } else if id == "reset_zoom"@ {
            opt_view(self.reset_zoom)
        } else {
            None
        }
    }

    /// The binding of the action `id`.
    pub fn field(&self, id: &str) -> (r: Option<String>)
        ensures
            opt_view(r) == self.binding(id@),
    {
        if str_eq(id, "user_prefs") {
            self.user_prefs.clone()
        } else if str_eq(id, "theme_diagnostics") {
            self.theme_diagnostics.clone()
        } else if str_eq(id, "toggle_preview") {
            self.toggle_preview.clone()
        } else if str_eq(id, "exit_architect") {
            self.exit_architect.clone()
        } else if str_eq(id, "open_project") {
            self.open_project.clone()
        } else if str_eq(id, "save_project") {
            self.save_project.clone()
        } else if str_eq(id, "export_xml") {
            self.export_xml.clone()
        } else if str_eq(id, "undo") {
            self.undo.clone()
        } else if str_eq(id, "redo") {
            self.redo.clone()
        } else if str_eq(id, "copy_raw_xml") {
            self.copy_raw_xml.clone()
        } else if str_eq(id, "toggle_left_dock") {
            self.toggle_left_dock.clone()
        } else if str_eq(id, "toggle_right_dock") {
            self.toggle_right_dock.clone()
        } else if str_eq(id, "close_left_dock") {
            self.close_left_dock.clone()
        } else if str_eq(id, "close_right_dock") {
            self.close_right_dock.clone()
        } else if str_eq(id, "reset_zoom") {
            self.reset_zoom.clone()
        } else {
            None
        }
    }

    /// Binds the action `id` to `combo` and hands back its previous binding;
    /// an `id` that names no action changes nothing and gives `None`.
    pub fn rebind(&mut self, id: &str, combo: String) -> (prev: Option<Option<String>>)
        ensures
            is_action_id(id@) ==> (prev matches Some(p) && opt_view(p) == old(self).binding(id@)),
            is_action_id(id@) ==> final(self).binding(id@) == Some(combo@),
            !is_action_id(id@) ==> prev is None,
            forall|k: Seq<char>| k != id@ ==> final(self).binding(k) == old(self).binding(k),
    {
        proof {
            reveal_strlit("user_prefs");
            reveal_strlit("theme_diagnostics");
            reveal_strlit("toggle_preview");
            reveal_strlit("exit_architect");
            reveal_strlit("open_project");
            reveal_strlit("save_project");
            reveal_strlit("export_xml");
            reveal_strlit("undo");
            reveal_strlit("redo");
            reveal_strlit("copy_raw_xml");
            reveal_strlit("toggle_left_dock");
            reveal_strlit("toggle_right_dock");
            reveal_strlit("close_left_dock");
            reveal_strlit("close_right_dock");
            reveal_strlit("reset_zoom");
        }
        if str_eq(id, "user_prefs") {
            let p = self.user_prefs.clone();
            self.user_prefs = Some(combo);
            Some(p)
        } else if str_eq(id, "theme_diagnostics") {
            let p = self.theme_diagnostics.clone();
            self.theme_diagnostics = Some(combo);
            Some(p)
        } else if str_eq(id, "toggle_preview") {
            let p = self.toggle_preview.clone();
            self.toggle_preview = Some(combo);
            Some(p)
        } else if str_eq(id, "exit_architect") {
            let p = self.exit_architect.clone();
            self.exit_architect = Some(combo);
            Some(p)
        } else if str_eq(id, "open_project") {
            let p = self.open_project.clone();
            self.open_project = Some(combo);
            Some(p)
        } else if str_eq(id, "save_project") {
            let p = self.save_project.clone();
            self.save_project = Some(combo);
            Some(p)
        } else if str_eq(id, "export_xml") {
            let p = self.export_xml.clone();
            self.export_xml = Some(combo);
            Some(p)
        } else if str_eq(id, "undo") {
            let p = self.undo.clone();
            self.undo = Some(combo);
            Some(p)
        } else if str_eq(id, "redo") {
            let p = self.redo.clone();
            self.redo = Some(combo);
            Some(p)
        } else if str_eq(id, "copy_raw_xml") {
            let p = self.copy_raw_xml.clone();
            self.copy_raw_xml = Some(combo);
            Some(p)
        } else if str_eq(id, "toggle_left_dock") {
            let p = self.toggle_left_dock.clone();
            self.toggle_left_dock = Some(combo);
            Some(p)
        } else if str_eq(id, "toggle_right_dock") {
            let p = self.toggle_right_dock.clone();
            self.toggle_right_dock = Some(combo);
            Some(p)
        } else if str_eq(id, "close_left_dock") {
            let p = self.close_left_dock.clone();
            self.close_left_dock = Some(combo);
            Some(p)
        } else if str_eq(id, "close_right_dock") {
            let p = self.close_right_dock.clone();
            self.close_right_dock = Some(combo);
            Some(p)
        } else if str_eq(id, "reset_zoom") {
            let p = self.reset_zoom.clone();
            self.reset_zoom = Some(combo);
            Some(p)
        } else {
            None
        }
    }
}

/// The action that each row of the quick shortcuts sheet edits, by label.
pub open spec fn sheet_action_spec(label: Seq<char>) -> Option<Seq<char>> {
    if label == "User Preferences"@ {
        Some("user_prefs"@)
    }     else if label == "Theme Diagnostics"@ {
        Some("theme_diagnostics"@)
    }     else if label == "Toggle Preview"@ {
        Some("toggle_preview"@)
    }     else if label == "Exit Architect"@ {
        Some("exit_architect"@)
    }     else if label == "Open Project"@ {
        Some("open_project"@)
    }     else if label == "Save Project"@ {
        Some("save_project"@)
    }     else if label == "Export Blogger XML"@ {
        Some("export_xml"@)
    }     else if label == "Undo"@ {
        Some("undo"@)
    }     else if label == "Redo"@ {
        Some("redo"@)
    }     else if label == "Copy Raw XML"@ {
        Some("copy_raw_xml"@)
    }     else if label == "Toggle Left Dock"@ {
        Some("toggle_left_dock"@)
    }     else if label == "Toggle Right Dock"@ {
        Some("toggle_right_dock"@)
    }     else if label == "Reset Zoom"@ {
        Some("reset_zoom"@)
    } else {
        None
    }
}

/// The combo the quick shortcuts sheet shows for an unbound action, by label.
pub open spec fn sheet_default_spec(label: Seq<char>) -> Option<Seq<char>> {
    if label == "User Preferences"@ {
        Some("Ctrl+P"@)
    }     else if label == "Theme Diagnostics"@ {
        Some("Ctrl+D"@)
    }     else if label == "Toggle Preview"@ {
        Some("F9"@)
    }     else if label == "Exit Architect"@ {
        Some("Ctrl+Q"@)
    }     else if label == "Open Project"@ {
        Some("Ctrl+O"@)
    }     else if label == "Save Project"@ {
        Some("Ctrl+S"@)
    }     else if label == "Export Blogger XML"@ {
        Some("Shift+Ctrl+E"@)
    }     else if label == "Undo"@ {
        Some("Ctrl+Z"@)
    }     else if label == "Redo"@ {
        Some("Ctrl+Y"@)
    }     else if label == "Copy Raw XML"@ {
        Some("Ctrl+C"@)
    }     else if label == "Toggle Left Dock"@ {
        Some("Ctrl+B"@)
    }     else if label == "Toggle Right Dock"@ {
        Some("Ctrl+E"@)
    }     else if label == "Reset Zoom"@ {
        Some("Ctrl+0"@)
    } else {
        None
    }
}

/// The action id that a row label of the quick shortcuts sheet edits.
pub fn sheet_action_for_label(label: &str) -> (r: Option<&'static str>)
    ensures
        r matches Some(id) ==> sheet_action_spec(label@) == Some(id@),
        r is None ==> sheet_action_spec(label@) is None,
{
    if str_eq(label, "User Preferences") {
        Some("user_prefs")
    }     else if str_eq(label, "Theme Diagnostics") {
        Some("theme_diagnostics")
    }     else if str_eq(label, "Toggle Preview") {
        Some("toggle_preview")
    }     else if str_eq(label, "Exit Architect") {
        Some("exit_architect")
    }     else if str_eq(label, "Open Project") {
        Some("open_project")
    }     else if str_eq(label, "Save Project") {
        Some("save_project")
    }     else if str_eq(label, "Export Blogger XML") {
        Some("export_xml")
    }     else if str_eq(label, "Undo") {
        Some("undo")
    }     else if str_eq(label, "Redo") {
        Some("redo")
    }     else if str_eq(label, "Copy Raw XML") {
        Some("copy_raw_xml")
    }     else if str_eq(label, "Toggle Left Dock") {
        Some("toggle_left_dock")
    }     else if str_eq(label, "Toggle Right Dock") {
        Some("toggle_right_dock")
    }     else if str_eq(label, "Reset Zoom") {
        Some("reset_zoom")
    } else {
        None
    }
}

/// The combo the quick shortcuts sheet shows for an unbound action.
pub fn sheet_default_for_label(label: &str) -> (r: Option<&'static str>)
    ensures
        r matches Some(c) ==> sheet_default_spec(label@) == Some(c@),
        r is None ==> sheet_default_spec(label@) is None,
{
    if str_eq(label, "User Preferences") {
        Some("Ctrl+P")
    }     else if str_eq(label, "Theme Diagnostics") {
        Some("Ctrl+D")
    }     else if str_eq(label, "Toggle Preview") {
        Some("F9")
    }     else if str_eq(label, "Exit Architect") {
        Some("Ctrl+Q")
    }     else if str_eq(label, "Open Project") {
        Some("Ctrl+O")
    }     else if str_eq(label, "Save Project") {
        Some("Ctrl+S")
    }     else if str_eq(label, "Export Blogger XML") {
        Some("Shift+Ctrl+E")
    }     else if str_eq(label, "Undo") {
        Some("Ctrl+Z")
    }     else if str_eq(label, "Redo") {
        Some("Ctrl+Y")
    }     else if str_eq(label, "Copy Raw XML") {
        Some("Ctrl+C")
    }     else if str_eq(label, "Toggle Left Dock") {
        Some("Ctrl+B")
    }     else if str_eq(label, "Toggle Right Dock") {
        Some("Ctrl+E")
    }     else if str_eq(label, "Reset Zoom") {
        Some("Ctrl+0")
    } else {
        None
    }
}

/// A captured key press: a character key, a bare modifier (Control, Shift,
/// Alt or Meta), or any other named key.
#[derive(Clone, PartialEq, Eq, Debug)]
pub enum KeyPress {
    Character(String),
    Modifier,
    Other(String),
}

/// Whether a named (non-character) key is one of the modifier keys.
pub open spec fn is_modifier_name(name: Seq<char>) -> bool {
    name == "Control"@ || name == "Shift"@ || name == "Alt"@ || name == "Meta"@
}

/// Classifies a named (non-character) key: Control, Shift, Alt and Meta are
/// bare modifiers, which start no combo; every other name is an ordinary key.
pub fn key_press_for_named(name: &str) -> (r: KeyPress)
    ensures
        is_modifier_name(name@) ==> r == KeyPress::Modifier,
        !is_modifier_name(name@) ==> (r matches KeyPress::Other(o) && o@ == name@),
{
    proof {
        reveal_strlit("Control");
        reveal_strlit("Shift");
        reveal_strlit("Alt");
        reveal_strlit("Meta");
    }
    if str_eq(name, "Control") || str_eq(name, "Shift") || str_eq(name, "Alt") || str_eq(name, "Meta") {
        KeyPress::Modifier
    } else {
        KeyPress::Other(name.to_string())
    }
}

/// The canonical combo for a key press: held modifiers in the order
/// `Ctrl+`, `Shift+`, `Alt+`, then the key's name in upper case; nothing
/// while only a modifier is pressed.
pub open spec fn combo_spec(key: KeyPress, ctrl: bool, shift: bool, alt: bool) -> Option<Seq<char>> {
    match key {
        KeyPress::Modifier => None,
        KeyPress::Character(name) => Some(modifier_prefix(ctrl, shift, alt) + upper_spec(name@)),
        KeyPress::Other(name) => Some(modifier_prefix(ctrl, shift, alt) + upper_spec(name@)),
    }
}

/// The modifier part of a combo.
pub open spec fn modifier_prefix(ctrl: bool, shift: bool, alt: bool) -> Seq<char> {
    (if ctrl { "Ctrl+"@ } else { Seq::empty() }) + (if shift { "Shift+"@ } else { Seq::empty() })
        + (if alt { "Alt+"@ } else { Seq::empty() })
}

/// The canonical combo for a captured key press, or `None` while only
/// modifiers are held.
pub fn combo_from_key(key: &KeyPress, ctrl: bool, shift: bool, alt: bool) -> (r: Option<String>)
    ensures
        opt_view(r) == combo_spec(*key, ctrl, shift, alt),
{
    let name = match key {
        KeyPress::Modifier => {
            return None;
        },
        KeyPress::Character(c) => to_upper(c.as_str()),
        KeyPress::Other(o) => to_upper(o.as_str()),
    };
    let mut combo = String::new();
    if ctrl {
        combo.append("Ctrl+");
    }
    if shift {
        combo.append("Shift+");
    }
    if alt {
        combo.append("Alt+");
    }
    combo.append(name.as_str());
    proof {
        assert(combo@ =~= modifier_prefix(ctrl, shift, alt) + name@);
    }
    Some(combo)
}

/// Whether the shortcuts dialog lists an action under `group` while the
/// search box holds `query`: the action is in that group and the lower-cased
/// query is empty or occurs in the lower-cased label or bound combo.
pub open spec fn action_shown_spec(
    action_group: Seq<char>,
    group: Seq<char>,
    label: Seq<char>,
    keys: Seq<char>,
    query: Seq<char>,
) -> bool {
    let q = lower_spec(query);
    action_group == group && (q.len() == 0 || contains_spec(lower_spec(label), q) || contains_spec(
        lower_spec(keys),
        q,
    ))
}

/// Whether the shortcuts dialog lists an action under `group` for `query`.
pub fn action_shown(action_group: &str, group: &str, label: &str, keys: &str, query: &str) -> (r:
    bool)
    ensures
        r == action_shown_spec(action_group@, group@, label@, keys@, query@),
{
    if !str_eq(action_group, group) {
        return false;
    }
    let q = to_lower(query);
    if q.as_str().unicode_len() == 0 {
        return true;
    }
    let l = to_lower(label);
    if contains_str(l.as_str(), q.as_str()) {
        return true;
    }
    let k = to_lower(keys);
    contains_str(k.as_str(), q.as_str())
}

/// The keys of a binding as the quick shortcuts sheet shows them: the bound
/// combo, or the sheet's default when unbound, split at each `+`.
pub fn sheet_keys(binding: &Option<String>, default: &str) -> (r: Vec<String>)
    ensures
        r@.map_values(|p: String| p@) == split_spec(
            match binding {
                Some(b) => b@,
                None => default@,
            },
            '+',
        ),
{
    match binding {
        Some(b) => split_char(b.as_str(), '+'),
        None => split_char(default, '+'),
    }
}

} // verus!
