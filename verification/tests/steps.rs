use mor_blogger_ui_logic::dock::EditorEvent;
use mor_blogger_ui_logic::editor::dock_request;
use mor_blogger_ui_logic::editor::select_tab;
use mor_blogger_ui_logic::editor::standalone_edit;
use mor_blogger_ui_logic::editor::EditTarget;
use mor_blogger_ui_logic::plugins::finish_install;
use mor_blogger_ui_logic::plugins::github_request;
use mor_blogger_ui_logic::plugins::InstallOutcome;
use mor_blogger_ui_logic::plugins::InstallState;
use mor_blogger_ui_logic::shortcuts::combo_from_key;
use mor_blogger_ui_logic::shortcuts::key_press_for_named;
use mor_blogger_ui_logic::shortcuts::KeyPress;
use mor_blogger_ui_logic::static_pages::community_fetch_step;
use mor_blogger_ui_logic::static_pages::raw_import_step;
use mor_blogger_ui_logic::static_pages::CommunityPage;

fn s(x: &str) -> String {
    x.to_string()
}

fn page(title: &str, html: &str) -> CommunityPage {
    CommunityPage { title: s(title), html: s(html) }
}

#[test]
fn community_fetch_success_replaces_index() {
    let mut index = vec![page("Old", "<p>old</p>")];
    let fetched = vec![page("About", "<p>a</p>"), page("Contact", "<p>c</p>")];
    let status = community_fetch_step(&mut index, Ok(fetched.clone()));
    assert_eq!(index, fetched);
    assert_eq!(status, "2 community page(s).");
}

#[test]
fn community_fetch_empty_feed() {
    let mut index = vec![page("Old", "<p>old</p>")];
    let status = community_fetch_step(&mut index, Ok(Vec::new()));
    assert!(index.is_empty());
    assert_eq!(status, "No community pages published yet.");
}

#[test]
fn community_fetch_failure_keeps_index() {
    let mut index = vec![page("Old", "<p>old</p>")];
    let status = community_fetch_step(&mut index, Err(s("HTTP 404")));
    assert_eq!(index, vec![page("Old", "<p>old</p>")]);
    assert_eq!(status, "Fetch failed: HTTP 404");
}

#[test]
fn raw_import_success_and_failure() {
    let mut html = s("<p>before</p>");
    let status = raw_import_step(&mut html, Ok(s("<h1>new</h1>")));
    assert_eq!(html, "<h1>new</h1>");
    assert_eq!(status, "Imported page from URL.");
    let status = raw_import_step(&mut html, Err(s("timeout")));
    assert_eq!(html, "<h1>new</h1>");
    assert_eq!(status, "Import failed: timeout");
}

#[test]
fn empty_repository_starts_no_install() {
    assert_eq!(github_request(&s("")), None);
    assert_eq!(github_request(&s("owner/repo")), Some(s("owner/repo")));
}

#[test]
fn github_install_appends_file() {
    let mut state = InstallState { status: None, installed: vec![s("a.exe")] };
    finish_install(&mut state, InstallOutcome::GithubInstalled(s("tool.exe")), None);
    assert_eq!(state.status, Some(Ok(s("Successfully installed plugin: tool.exe"))));
    assert_eq!(state.installed, vec![s("a.exe"), s("tool.exe")]);
}

#[test]
fn github_failure_keeps_list() {
    let mut state = InstallState { status: None, installed: vec![s("a.exe")] };
    finish_install(&mut state, InstallOutcome::GithubFailed(s("404")), None);
    assert_eq!(state.status, Some(Err(s("GitHub Install Failed: 404"))));
    assert_eq!(state.installed, vec![s("a.exe")]);
}

#[test]
fn disk_install_appends_picked_file() {
    let mut state = InstallState { status: None, installed: Vec::new() };
    finish_install(&mut state, InstallOutcome::DiskInstalled { copied: true }, Some(s("mcp.exe")));
    assert_eq!(
        state.status,
        Some(Ok(s("Successfully installed MCP plugin (copied to internal config dir)!")))
    );
    assert_eq!(state.installed, vec![s("mcp.exe")]);
    finish_install(&mut state, InstallOutcome::DiskFailed(s("denied")), Some(s("x.exe")));
    assert_eq!(state.status, Some(Err(s("Failed to install MCP: denied"))));
    assert_eq!(state.installed, vec![s("mcp.exe")]);
}

#[test]
fn standalone_edit_sends_one_change() {
    let (target, event) = standalone_edit(&s("preset_css.css"), "preset_css.css", "css", &s("body{}"));
    assert_eq!(target, EditTarget::PresetCss);
    assert_eq!(event, EditorEvent::Change { file: s("preset_css.css"), content: s("body{}") });
    let (target, event) = standalone_edit(&s("header.css"), "preset_css.css", "css", &s("h1{}"));
    assert_eq!(target, EditTarget::Workspace);
    assert_eq!(event, EditorEvent::Change { file: s("header.css"), content: s("h1{}") });
}

#[test]
fn select_tab_switches_and_reports() {
    let mut active = s("preset_css.css");
    let event = select_tab(&mut active, &s("footer.css"));
    assert_eq!(active, "footer.css");
    assert_eq!(event, EditorEvent::SelectFile(s("footer.css")));
}

#[test]
fn dock_buttons_send_requests() {
    assert_eq!(dock_request(true), EditorEvent::DockLeft);
    assert_eq!(dock_request(false), EditorEvent::DockRight);
}

#[test]
fn bare_modifiers_give_no_combo() {
    for name in ["Control", "Shift", "Alt", "Meta"] {
        let key = key_press_for_named(name);
        assert_eq!(key, KeyPress::Modifier);
        assert_eq!(combo_from_key(&key, true, false, false), None);
    }
    let key = key_press_for_named("F5");
    assert_eq!(key, KeyPress::Other(s("F5")));
    assert_eq!(combo_from_key(&key, true, false, false), Some(s("Ctrl+F5")));
}
