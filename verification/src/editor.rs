//! The asset editor (CSS and JS): which file tab is current, how the keyboard
//! moves between tabs, how the editor text follows the file it shows, where an
//! edit is written, and which files a save writes out.
use vstd::prelude::*;
use crate::cursor::str_eq;
use crate::dock::EditorEvent;
use vstd::arithmetic::div_mod::lemma_mod_self_0;
use vstd::arithmetic::div_mod::lemma_small_mod;
use crate::shortcuts::opt_view;
use crate::text::ends_with_spec;
use crate::text::ends_with_str;

verus! {

/// The characters of each string of a list.
pub open spec fn strings_view(v: Seq<String>) -> Seq<Seq<char>> {
    v.map_values(|s: String| s@)
}

/// The first position at or after `i` that holds `x`.
pub open spec fn first_index_from(s: Seq<Seq<char>>, x: Seq<char>, i: int) -> Option<int>
    decreases s.len() - i,
{
    if i < 0 || i >= s.len() {
        None
    } else if s[i] == x {
        Some(i)
    } else {
        first_index_from(s, x, i + 1)
    }
}

/// The first position that holds `x`.
pub open spec fn first_index(s: Seq<Seq<char>>, x: Seq<char>) -> Option<int> {
    first_index_from(s, x, 0)
}

/// A position found by `first_index_from` is in range and holds `x`.
pub proof fn lemma_first_index_in_range(s: Seq<Seq<char>>, x: Seq<char>, i: int)
    ensures
        first_index_from(s, x, i) matches Some(k) ==> 0 <= i <= k < s.len() && s[k] == x,
    decreases s.len() - i,
{
    if i >= 0 && i < s.len() && s[i] != x {
        lemma_first_index_in_range(s, x, i + 1);
    }
}

/// The position of the first string equal to `x`.
pub fn index_of(v: &Vec<String>, x: &String) -> (r: Option<usize>)
    ensures
        r matches Some(k) ==> first_index(strings_view(v@), x@) == Some(k as int),
        r is None ==> first_index(strings_view(v@), x@) is None,
{
    let ghost s = strings_view(v@);
    let mut i: usize = 0;
    while i < v.len()
        invariant
            i <= v@.len(),
            s == strings_view(v@),
            first_index_from(s, x@, 0) == first_index_from(s, x@, i as int),
        decreases v@.len() - i,
    {
        if v[i] == *x {
            return Some(i);
        }
        i = i + 1;
    }
    None
}

/// The file the editor shows: the chosen tab when it is one of the files,
/// else the first file, else the editor's own file.
pub open spec fn current_file_spec(files: Seq<Seq<char>>, active: Seq<char>, default_file: Seq<char>) -> Seq<char> {
    match first_index(files, active) {
        Some(_) => active,
        None => if files.len() > 0 {
            files[0]
        } else {
            default_file
        },
    }
}

/// The file the editor shows.
pub fn current_file(files: &Vec<String>, active: &String, default_file: &str) -> (r: String)
    ensures
        r@ == current_file_spec(strings_view(files@), active@, default_file@),
{
    match index_of(files, active) {
        Some(_) => active.clone(),
        None => if files.len() > 0 {
            files[0].clone()
        } else {
            String::from_str(default_file)
        },
    }
}

/// The position of the current tab among the files.
pub open spec fn tab_position(files: Seq<Seq<char>>, active: Seq<char>) -> int {
    match first_index(files, active) {
        Some(i) => i,
        None => 0,
    }
}

/// The tab after tab `i` of `n`, wrapping to the first.
pub open spec fn next_tab_spec(i: int, n: int) -> int {
    (i + 1) % n
}

/// The tab before tab `i` of `n`, wrapping to the last.
pub open spec fn prev_tab_spec(i: int, n: int) -> int {
    if i == 0 {
        n - 1
    } else {
        i - 1
    }
}

/// The tab after tab `i` of `n`.
pub fn next_tab_index(i: usize, n: usize) -> (r: usize)
    requires
        i < n,
    ensures
        r == next_tab_spec(i as int, n as int),
        r < n,
{
    (i + 1) % n
}

/// The tab before tab `i` of `n`.
pub fn prev_tab_index(i: usize, n: usize) -> (r: usize)
    requires
        i < n,
    ensures
        r == prev_tab_spec(i as int, n as int),
        r < n,
{
    if i == 0 {
        n - 1
    } else {
        i - 1
    }
}

/// Moving one tab forward and one back (or back, then forward) returns to
/// the tab one started from.
pub proof fn lemma_tab_steps_undo(i: int, n: int)
    requires
        0 <= i < n,
    ensures
        0 <= next_tab_spec(i, n) < n,
        0 <= prev_tab_spec(i, n) < n,
        prev_tab_spec(next_tab_spec(i, n), n) == i,
        next_tab_spec(prev_tab_spec(i, n), n) == i,
{
    if i + 1 < n {
        lemma_small_mod((i + 1) as nat, n as nat);
    } else {
        lemma_mod_self_0(n);
    }
    if i == 0 {
        lemma_mod_self_0(n);
    } else {
        lemma_small_mod(i as nat, n as nat);
    }
}

/// Keys that move to the next tab (with Alt held).
pub open spec fn is_next_tab_key(key: Seq<char>) -> bool {
    key == "ArrowRight"@ || key == "k"@ || key == "K"@
}

/// Keys that move to the previous tab (with Alt held).
pub open spec fn is_prev_tab_key(key: Seq<char>) -> bool {
    key == "ArrowLeft"@ || key == "j"@ || key == "J"@
}

/// The tab a key press moves to, if any.
pub open spec fn tab_key_spec(files: Seq<Seq<char>>, active: Seq<char>, alt: bool, key: Seq<char>) -> Option<Seq<char>> {
    let n = files.len() as int;
    let i = tab_position(files, active);
    if n == 0 || !alt {
        None
    } else if is_next_tab_key(key) {
        Some(files[next_tab_spec(i, n)])
    } else if is_prev_tab_key(key) {
        Some(files[prev_tab_spec(i, n)])
    } else {
        None
    }
}

/// The tab that Alt with an arrow key (or j / k) moves to.
pub fn tab_for_key(files: &Vec<String>, active: &String, alt: bool, key: &str) -> (r: Option<String>)
    ensures
        opt_view(r) == tab_key_spec(strings_view(files@), active@, alt, key@),
{
    let ghost s = strings_view(files@);
    let n = files.len();
    if n == 0 || !alt {
        return None;
    }
    proof {
        lemma_first_index_in_range(s, active@, 0);
    }
    let i = match index_of(files, active) {
        Some(k) => k,
        None => 0,
    };
    assert(i as int == tab_position(s, active@));
    if str_eq(key, "ArrowRight") || str_eq(key, "k") || str_eq(key, "K") {
        let j = next_tab_index(i, n);
        Some(files[j].clone())
    } else if str_eq(key, "ArrowLeft") || str_eq(key, "j") || str_eq(key, "J") {
        let j = prev_tab_index(i, n);
        Some(files[j].clone())
    } else {
        None
    }
}

/// What the editor last loaded: from which file, and the text that file had.
pub struct ContentSync {
    pub last_file: String,
    pub last_external: String,
}

/// One render of the editor: `file` is the file shown now and `val` its
/// stored text. A new file, or a stored text that changed outside the editor,
/// replaces what the editor shows; an empty editor takes a non-empty stored
/// text; otherwise the editor keeps its text. The result is the new last file,
/// last stored text and shown text.
pub open spec fn sync_spec(
    last_file: Seq<char>,
    last_external: Seq<char>,
    shown: Seq<char>,
    file: Seq<char>,
    val: Seq<char>,
) -> (Seq<char>, Seq<char>, Seq<char>) {
    if last_file != file {
        (file, val, val)
    } else if last_external != val {
        (last_file, val, val)
    } else if shown.len() == 0 && val.len() > 0 {
        (last_file, last_external, val)
    } else {
        (last_file, last_external, shown)
    }
}

/// Brings the editor text in line with the file it shows.
pub fn sync_content(state: &mut ContentSync, shown: &mut String, file: &String, val: &String)
    ensures
        (final(state).last_file@, final(state).last_external@, final(shown)@) == sync_spec(
            old(state).last_file@,
            old(state).last_external@,
            old(shown)@,
            file@,
            val@,
        ),
{
    if state.last_file != *file {
        state.last_file = file.clone();
        state.last_external = val.clone();
        *shown = val.clone();
    } else if state.last_external != *val {
        state.last_external = val.clone();
        *shown = val.clone();
    } else if shown.unicode_len() == 0 && val.unicode_len() > 0 {
        *shown = val.clone();
    }
}

/// After a render the editor remembers the file it shows and that file's
/// stored text, and a second render with nothing changed changes nothing.
pub proof fn lemma_sync_settles(
    last_file: Seq<char>,
    last_external: Seq<char>,
    shown: Seq<char>,
    file: Seq<char>,
    val: Seq<char>,
)
    ensures
        ({
            let once = sync_spec(last_file, last_external, shown, file, val);
            &&& once.0 == file
            &&& once.1 == val
            &&& sync_spec(once.0, once.1, once.2, file, val) == once
        }),
{
}

/// Records a user edit: the editor shows it and it is the stored text now.
pub fn record_edit(state: &mut ContentSync, shown: &mut String, new_val: &String)
    ensures
        final(state).last_file@ == old(state).last_file@,
        final(state).last_external@ == new_val@,
        final(shown)@ == new_val@,
{
    state.last_external = new_val.clone();
    *shown = new_val.clone();
}

/// An edit is never undone by the next render of the same file, which reads
/// the edit back as the stored text.
pub proof fn lemma_edit_survives_render(file: Seq<char>, new_val: Seq<char>)
    ensures
        sync_spec(file, new_val, new_val, file, new_val) == (file, new_val, new_val),
{
}

/// Where the text of a file lives, for reading and for writing edits.
#[derive(Clone, Copy, PartialEq, Eq, Debug, Structural)]
pub enum EditTarget {
    /// The theme's own CSS.
    PresetCss,
    /// The theme's own script.
    CustomJs,
    /// A file of the workspace's file table.
    Workspace,
}

/// The editor's own file is the theme's CSS or script, by mode; every other
/// file lives in the workspace's file table.
pub open spec fn edit_target_spec(file: Seq<char>, default_file: Seq<char>, mode: Seq<char>) -> EditTarget {
    if file == default_file {
        if mode == "css"@ {
            EditTarget::PresetCss
        } else {
            EditTarget::CustomJs
        }
    } else {
        EditTarget::Workspace
    }
}

/// Where the text of a file lives.
pub fn edit_target(file: &str, default_file: &str, mode: &str) -> (r: EditTarget)
    ensures
        r == edit_target_spec(file@, default_file@, mode@),
{
    if str_eq(file, default_file) {
        if str_eq(mode, "css") {
            EditTarget::PresetCss
        } else {
            EditTarget::CustomJs
        }
    } else {
        EditTarget::Workspace
    }
}

/// The mode's name in the editor's script and style hooks: `Css` for the CSS
/// editor, `Js` otherwise.
pub fn mode_cap(mode: &str) -> (r: &'static str)
    ensures
        r@ == (if mode@ == "css"@ { "Css"@ } else { "Js"@ }),
{
    if str_eq(mode, "css") {
        "Css"
    } else {
        "Js"
    }
}

/// The dock id that the editor asks for when it docks: `css` or `js`.
pub fn dock_target(mode: &str) -> (r: &'static str)
    ensures
        r@ == (if mode@ == "css"@ { "css"@ } else { "js"@ }),
{
    if str_eq(mode, "css") {
        "css"
    } else {
        "js"
    }
}

/// Where a floating editor first appears: 100 pixels in for CSS, 150 for JS.
pub fn floating_offset(mode: &str) -> (r: u32)
    ensures
        r == (if mode@ == "css"@ { 100u32 } else { 150u32 }),
{
    if str_eq(mode, "css") {
        100
    } else {
        150
    }
}

/// The workspace files a CSS save writes out: all but the theme's own CSS.
pub open spec fn css_save_spec(names: Seq<Seq<char>>) -> Seq<Seq<char>> {
    names.filter(|n: Seq<char>| n != "preset_css.css"@)
}

/// The workspace files a JS save writes out: no stylesheet and not the
/// theme's own script.
pub open spec fn js_save_spec(names: Seq<Seq<char>>) -> Seq<Seq<char>> {
    names.filter(|n: Seq<char>| !ends_with_spec(n, ".css"@) && n != "custom_js.js"@)
}

/// The workspace files a CSS save writes out, in the given order.
pub fn css_files_to_save(names: &Vec<String>) -> (r: Vec<String>)
    ensures
        strings_view(r@) == css_save_spec(strings_view(names@)),
{
    let ghost s = strings_view(names@);
    let mut r: Vec<String> = Vec::new();
    let mut i: usize = 0;
    while i < names.len()
        invariant
            i <= names@.len(),
            s == strings_view(names@),
            strings_view(r@) == css_save_spec(s.take(i as int)),
        decreases names@.len() - i,
    {
        proof {
            assert(s.take(i + 1).drop_last() =~= s.take(i as int));
            reveal(Seq::filter);
        }
        if !str_eq(names[i].as_str(), "preset_css.css") {
            let ghost before = strings_view(r@);
            r.push(names[i].clone());
            proof {
                assert(strings_view(r@) =~= before.push(names@[i as int]@));
            }
        }
        i = i + 1;
    }
    proof {
        assert(s.take(names@.len() as int) =~= s);
    }
    r
}

/// The workspace files a JS save writes out, in the given order.
pub fn js_files_to_save(names: &Vec<String>) -> (r: Vec<String>)
    ensures
        strings_view(r@) == js_save_spec(strings_view(names@)),
{
    let ghost s = strings_view(names@);
    let mut r: Vec<String> = Vec::new();
    let mut i: usize = 0;
    while i < names.len()
        invariant
            i <= names@.len(),
            s == strings_view(names@),
            strings_view(r@) == js_save_spec(s.take(i as int)),
        decreases names@.len() - i,
    {
        proof {
            assert(s.take(i + 1).drop_last() =~= s.take(i as int));
            reveal(Seq::filter);
        }
        let name = names[i].as_str();
        if !ends_with_str(name, ".css") && !str_eq(name, "custom_js.js") {
            let ghost before = strings_view(r@);
            r.push(names[i].clone());
            proof {
                assert(strings_view(r@) =~= before.push(names@[i as int]@));
            }
        }
        i = i + 1;
    }
    proof {
        assert(s.take(names@.len() as int) =~= s);
    }
    r
}

/// The file name and badge of the theme code editor: the compiled XML is
/// read-only, the TOML reloads live.
pub fn code_view_labels(show_xml: bool) -> (r: (&'static str, &'static str))
    ensures
        r.0@ == (if show_xml { "exported_theme.xml"@ } else { "theme_config.toml"@ }),
        r.1@ == (if show_xml { "Compiled \u{b7} Read-only"@ } else { "Live Reload Active"@ }),
{
    if show_xml {
        ("exported_theme.xml", "Compiled \u{b7} Read-only")
    } else {
        ("theme_config.toml", "Live Reload Active")
    }
}

/// The text of the compiled-XML view: the XML, or the reason it could not be
/// rendered.
pub fn export_view_text(rendered: Result<String, String>) -> (r: String)
    ensures
        r@ == (match rendered {
            Ok(x) => x@,
            Err(e) => "Render failed: "@ + e@,
        }),
{
    match rendered {
        Ok(x) => x,
        Err(e) => {
            let mut r = String::from_str("Render failed: ");
            r.append(e.as_str());
            r
        },
    }
}

/// The jump links of the theme code editor's takeover view: each label with
/// the text it reveals in the TOML (template slots first, then the core
/// identity tables).
pub open spec fn jump_links_spec() -> Seq<(Seq<char>, Seq<char>)> {
    seq![
        ("Header Variant"@, "header_variant"@),
        ("Main Canvas Variant"@, "main_variant"@),
        ("Content Feed"@, "content_variant"@),
        ("Left Sidebar"@, "left_sidebar_variant"@),
        ("Right Sidebar"@, "right_sidebar_variant"@),
        ("Footer Grid"@, "footer_variant"@),
        ("Site Information"@, "[site]"@),
        ("Color Palette"@, "[colors]"@),
        ("Typography"@, "[typography]"@),
    ]
}

/// The jump links of the theme code editor's takeover view.
pub fn jump_links() -> (r: Vec<(&'static str, &'static str)>)
    ensures
        r@.map_values(|p: (&'static str, &'static str)| (p.0@, p.1@)) == jump_links_spec(),
{
    let r = vec![
        ("Header Variant", "header_variant"),
        ("Main Canvas Variant", "main_variant"),
        ("Content Feed", "content_variant"),
        ("Left Sidebar", "left_sidebar_variant"),
        ("Right Sidebar", "right_sidebar_variant"),
        ("Footer Grid", "footer_variant"),
        ("Site Information", "[site]"),
        ("Color Palette", "[colors]"),
        ("Typography", "[typography]"),
    ];
    proof {
        assert(r@.map_values(|p: (&'static str, &'static str)| (p.0@, p.1@)) =~= jump_links_spec());
    }
    r
}

/// The status after saving the theme XML: where it went, or why it failed.
pub fn xml_save_status(result: Result<String, String>) -> (r: String)
    ensures
        r@ == (match result {
            Ok(path) => "Saved theme.xml to "@ + path@,
            Err(e) => "Save failed: "@ + e@,
        }),
{
    match result {
        Ok(path) => {
            let mut r = String::from_str("Saved theme.xml to ");
            r.append(path.as_str());
            r
        },
        Err(e) => {
            let mut r = String::from_str("Save failed: ");
            r.append(e.as_str());
            r
        },
    }
}

/// An edit in a floating editor window: where the new text is written, and
/// the one event that reports it to the main window, naming the current tab
/// and the new text.
pub fn standalone_edit(active: &String, default_file: &str, mode: &str, new_val: &String) -> (r: (
    EditTarget,
    EditorEvent,
))
    ensures
        r.0 == edit_target_spec(active@, default_file@, mode@),
        r.1 matches EditorEvent::Change { file, content } && file@ == active@ && content@ == new_val@,
{
    let target = edit_target(active.as_str(), default_file, mode);
    (target, EditorEvent::Change { file: active.clone(), content: new_val.clone() })
}

/// Choosing a tab in a floating editor window: the tab becomes current and
/// the main window is told which file is shown.
pub fn select_tab(active: &mut String, file: &String) -> (r: EditorEvent)
    ensures
        final(active)@ == file@,
        r matches EditorEvent::SelectFile(f) && f@ == file@,
{
    *active = file.clone();
    EditorEvent::SelectFile(file.clone())
}

/// The event a floating editor window's dock buttons send before the window
/// closes: dock left, or dock right.
pub fn dock_request(left: bool) -> (r: EditorEvent)
    ensures
        left ==> r is DockLeft,
        !left ==> r is DockRight,
{
    if left {
        EditorEvent::DockLeft
    } else {
        EditorEvent::DockRight
    }
}

} // verus!
