use mor_blogger_ui_logic::code_editor::effective_mode;
use mor_blogger_ui_logic::code_editor::line_numbers;
use mor_blogger_ui_logic::code_editor::paint_text;
use mor_blogger_ui_logic::code_editor::painted_html;
use mor_blogger_ui_logic::code_editor::EditorBuffer;
use mor_blogger_ui_logic::code_editor::Highlighter;
use mor_blogger_ui_logic::context_menu::friendly_name;
use mor_blogger_ui_logic::context_menu::is_dock_target;
use mor_blogger_ui_logic::context_menu::menu_entries;
use mor_blogger_ui_logic::context_menu::menu_title;
use mor_blogger_ui_logic::context_menu::mode_toggle_entry;
use mor_blogger_ui_logic::context_menu::pin_label;
use mor_blogger_ui_logic::context_menu::preview_plan;
use mor_blogger_ui_logic::context_menu::shortcut_hint;
use mor_blogger_ui_logic::context_menu::xray_label;
use mor_blogger_ui_logic::context_menu::MenuEntry;
use mor_blogger_ui_logic::context_menu::PreviewContextInfo;
use mor_blogger_ui_logic::css_tokens::tab_inputs;
use mor_blogger_ui_logic::css_tokens::tab_label;
use mor_blogger_ui_logic::css_tokens::token_css;
use mor_blogger_ui_logic::css_tokens::CssTokens;
use mor_blogger_ui_logic::css_tokens::Tab;
use mor_blogger_ui_logic::css_tokens::Token;
use mor_blogger_ui_logic::dock::after_window_closed;
use mor_blogger_ui_logic::dock::dock_menu_label;
use mor_blogger_ui_logic::dock::dock_render;
use mor_blogger_ui_logic::dock::handle_window_event;
use mor_blogger_ui_logic::dock::header_buttons;
use mor_blogger_ui_logic::dock::menu_item_binding;
use mor_blogger_ui_logic::dock::toggle_dock;
use mor_blogger_ui_logic::dock::tool_dock_action;
use mor_blogger_ui_logic::dock::window_effect;
use mor_blogger_ui_logic::dock::DockPosition;
use mor_blogger_ui_logic::dock::DockRender;
use mor_blogger_ui_logic::dock::EditorEvent;
use mor_blogger_ui_logic::dock::ToolDockAction;
use mor_blogger_ui_logic::dock::WindowEffect;
use mor_blogger_ui_logic::dock::WindowReply;
use mor_blogger_ui_logic::editor::code_view_labels;
use mor_blogger_ui_logic::editor::css_files_to_save;
use mor_blogger_ui_logic::editor::current_file;
use mor_blogger_ui_logic::editor::dock_target;
use mor_blogger_ui_logic::editor::edit_target;
use mor_blogger_ui_logic::editor::export_view_text;
use mor_blogger_ui_logic::editor::floating_offset;
use mor_blogger_ui_logic::editor::js_files_to_save;
use mor_blogger_ui_logic::editor::jump_links;
use mor_blogger_ui_logic::editor::mode_cap;
use mor_blogger_ui_logic::editor::next_tab_index;
use mor_blogger_ui_logic::editor::prev_tab_index;
use mor_blogger_ui_logic::editor::record_edit;
use mor_blogger_ui_logic::editor::sync_content;
use mor_blogger_ui_logic::editor::tab_for_key;
use mor_blogger_ui_logic::editor::xml_save_status;
use mor_blogger_ui_logic::editor::ContentSync;
use mor_blogger_ui_logic::editor::EditTarget;
use mor_blogger_ui_logic::editor_files::css_editor_files;
use mor_blogger_ui_logic::editor_files::get_css_deps;
use mor_blogger_ui_logic::editor_files::get_js_deps;
use mor_blogger_ui_logic::editor_files::js_editor_files;
use mor_blogger_ui_logic::editor_files::sorted_unique;
use mor_blogger_ui_logic::editor_files::workbench_deps;
use mor_blogger_ui_logic::editor_files::workbench_tab_reset;
use mor_blogger_ui_logic::editor_files::AssetKind;
use mor_blogger_ui_logic::editor_files::CenterView;
use mor_blogger_ui_logic::editor_files::ComponentManifest;
use mor_blogger_ui_logic::editor_files::ModuleRegistries;
use mor_blogger_ui_logic::number::parse_i32;
use mor_blogger_ui_logic::palette::build_css_vars;
use mor_blogger_ui_logic::palette::BackgroundMode;
use mor_blogger_ui_logic::palette::PaletteColors;
use mor_blogger_ui_logic::plugins::daemon_card;
use mor_blogger_ui_logic::plugins::discoverable;
use mor_blogger_ui_logic::plugins::empty_tab_note;
use mor_blogger_ui_logic::plugins::install;
use mor_blogger_ui_logic::plugins::install_status;
use mor_blogger_ui_logic::plugins::is_installed;
use mor_blogger_ui_logic::plugins::manager_tab_label;
use mor_blogger_ui_logic::plugins::needs_restart;
use mor_blogger_ui_logic::plugins::remove_plugin;
use mor_blogger_ui_logic::plugins::set_enabled;
use mor_blogger_ui_logic::plugins::sync_update;
use mor_blogger_ui_logic::plugins::updates_available;
use mor_blogger_ui_logic::plugins::version_change_label;
use mor_blogger_ui_logic::plugins::CompendiumManifest;
use mor_blogger_ui_logic::plugins::InstallOutcome;
use mor_blogger_ui_logic::plugins::ManagerTab;
use mor_blogger_ui_logic::plugins::PluginState;
use mor_blogger_ui_logic::shortcuts::action_shown;
use mor_blogger_ui_logic::shortcuts::combo_from_key;
use mor_blogger_ui_logic::shortcuts::sheet_keys;
use mor_blogger_ui_logic::shortcuts::KeyPress;
use mor_blogger_ui_logic::static_pages::community_fetch_status;
use mor_blogger_ui_logic::static_pages::fetch_failure_message;
use mor_blogger_ui_logic::static_pages::inject_static_page;
use mor_blogger_ui_logic::static_pages::page_kind_for_tab;
use mor_blogger_ui_logic::static_pages::should_refresh_preview;
use mor_blogger_ui_logic::static_pages::FetchFailure;
use mor_blogger_ui_logic::static_pages::StaticPageKind;
use mor_blogger_ui_logic::template_pack::category_for_key;
use mor_blogger_ui_logic::template_pack::category_label;
use mor_blogger_ui_logic::template_pack::grid_posts_needed;
use mor_blogger_ui_logic::template_pack::module_file_status;
use mor_blogger_ui_logic::template_pack::module_key;
use mor_blogger_ui_logic::template_pack::modules;
use mor_blogger_ui_logic::template_pack::options_of;
use mor_blogger_ui_logic::template_pack::requires_grid;
use mor_blogger_ui_logic::template_pack::ModuleCategory;
use mor_blogger_ui_logic::template_pack::ModuleFileOutcome;
use mor_blogger_ui_logic::template_pack::TemplatePack;
use mor_blogger_ui_logic::typography::clear_element;
use mor_blogger_ui_logic::typography::element_at;
use mor_blogger_ui_logic::typography::eq_ignore_ascii_case;
use mor_blogger_ui_logic::typography::font_display;
use mor_blogger_ui_logic::typography::sample_style;
use mor_blogger_ui_logic::typography::update_element;
use mor_blogger_ui_logic::typography::ElementStyle;
use mor_blogger_ui_logic::typography::FontDisplay;
use mor_blogger_ui_logic::typography::FontPreset;
use mor_blogger_ui_logic::typography::StyleEdit;
use mor_blogger_ui_logic::widgets::add_target_label;
use mor_blogger_ui_logic::widgets::group_blueprints;
use mor_blogger_ui_logic::widgets::pretty;
use mor_blogger_ui_logic::widgets::unique_name;
use mor_blogger_ui_logic::widgets::widget_status;
use mor_blogger_ui_logic::widgets::WidgetBlueprint;
use mor_blogger_ui_logic::widgets::WidgetOutcome;
use mor_blogger_ui_logic::theme::native_os_theme_for;
use mor_blogger_ui_logic::theme::with_panel_title_color;
use mor_blogger_ui_logic::theme::GTK4_DARK_TOML;
use mor_blogger_ui_logic::theme::MAC_OS_LIGHT_TOML;
use mor_blogger_ui_logic::theme::WIN_11_DARK_TOML;

use mor_blogger_ui_logic::shortcuts::ShortcutPrefs;
use mor_blogger_ui_logic::theme::MorTheme;
use mor_blogger_ui_logic::widgets::checkbox_text;
use mor_blogger_ui_logic::widgets::seed_value;
use mor_blogger_ui_logic::widgets::setting_checked;
use mor_blogger_ui_logic::widgets::settings_to_apply;
use mor_blogger_ui_logic::static_pages::palette_resets_preview;
use mor_blogger_ui_logic::typography::heading_follows_body;

use mor_blogger_ui_logic::theme::border_url_input;
use mor_blogger_ui_logic::theme::icon_label;
use mor_blogger_ui_logic::theme::svg_upload_status;
use mor_blogger_ui_logic::theme::ui_mode_json;
use mor_blogger_ui_logic::theme::ui_modes;
use mor_blogger_ui_logic::theme::window_mode_needs_restart;

fn s(x: &str) -> String {
    x.to_string()
}

fn strings(v: &[&str]) -> Vec<String> {
    v.iter().map(|x| x.to_string()).collect()
}

// ---------------------------------------------------------------- docks

#[test]
fn window_events_save_dock_and_close() {
    let mut pos = DockPosition::Floating;
    let r = handle_window_event(&EditorEvent::Save, &mut pos);
    assert_eq!(r, WindowReply { save: true, close: false, stop: false });
    assert_eq!(pos, DockPosition::Floating);
    let r = handle_window_event(&EditorEvent::Change { file: s("a.css"), content: s("x") }, &mut pos);
    assert_eq!(r, WindowReply { save: false, close: false, stop: false });
    let r = handle_window_event(&EditorEvent::SelectFile(s("b.css")), &mut pos);
    assert_eq!(r, WindowReply { save: false, close: false, stop: false });
    let r = handle_window_event(&EditorEvent::DockRight, &mut pos);
    assert_eq!(r, WindowReply { save: false, close: false, stop: true });
    assert_eq!(pos, DockPosition::Right);
    let mut pos = DockPosition::Floating;
    let r = handle_window_event(&EditorEvent::DockLeft, &mut pos);
    assert!(r.stop);
    assert_eq!(pos, DockPosition::Left);
    let mut pos = DockPosition::Floating;
    let r = handle_window_event(&EditorEvent::Close, &mut pos);
    assert_eq!(r, WindowReply { save: false, close: true, stop: true });
    assert_eq!(after_window_closed(pos), DockPosition::Hidden);
}

#[test]
fn closed_window_never_leaves_dock_floating() {
    assert_eq!(after_window_closed(DockPosition::Floating), DockPosition::Hidden);
    assert_eq!(after_window_closed(DockPosition::Left), DockPosition::Left);
    assert_eq!(after_window_closed(DockPosition::Hidden), DockPosition::Hidden);
}

#[test]
fn window_effect_cases() {
    assert_eq!(window_effect(true, DockPosition::Floating, false), WindowEffect::Skip);
    assert_eq!(window_effect(false, DockPosition::Floating, false), WindowEffect::Open);
    assert_eq!(window_effect(false, DockPosition::Floating, true), WindowEffect::Keep);
    assert_eq!(window_effect(false, DockPosition::Left, true), WindowEffect::Close);
}

#[test]
fn dock_render_cases() {
    assert_eq!(dock_render(DockPosition::Hidden, true), DockRender::Nothing);
    assert_eq!(dock_render(DockPosition::Floating, false), DockRender::Nothing);
    assert_eq!(dock_render(DockPosition::Floating, true), DockRender::FloatingPanel);
    assert_eq!(dock_render(DockPosition::Left, false), DockRender::LeftPanel);
    assert_eq!(dock_render(DockPosition::Right, false), DockRender::RightPanel);
}

#[test]
fn header_buttons_hide_current_place() {
    let b = header_buttons(false, DockPosition::Left);
    assert!(b.save && !b.dock_left && b.dock_right && b.float && b.close);
    let b = header_buttons(false, DockPosition::Floating);
    assert!(b.dock_left && b.dock_right && !b.float);
    let b = header_buttons(true, DockPosition::Floating);
    assert!(b.save && !b.dock_left && !b.dock_right && !b.float && !b.close);
}

#[test]
fn toggling_a_dock_twice() {
    let once = toggle_dock(DockPosition::Hidden, DockPosition::Left);
    assert_eq!(once, DockPosition::Left);
    assert_eq!(toggle_dock(once, DockPosition::Left), DockPosition::Hidden);
    assert_eq!(toggle_dock(DockPosition::Right, DockPosition::Left), DockPosition::Hidden);
    assert_eq!(
        tool_dock_action(DockPosition::Hidden, DockPosition::Left),
        ToolDockAction::OpenExclusive(DockPosition::Left)
    );
    assert_eq!(tool_dock_action(DockPosition::Floating, DockPosition::Left), ToolDockAction::Hide);
}

#[test]
fn dock_menu_labels() {
    assert_eq!(dock_menu_label("CSS Editor", DockPosition::Left), "CSS Editor \u{2713}");
    assert_eq!(dock_menu_label("CSS Editor", DockPosition::Hidden), "CSS Editor ");
    assert_eq!(menu_item_binding(true, Some(s("Ctrl+Z"))), (false, None));
    assert_eq!(menu_item_binding(false, Some(s("Ctrl+Z"))), (true, Some(s("Ctrl+Z"))));
}

// ---------------------------------------------------------------- editor

#[test]
fn current_file_choice() {
    let files = strings(&["a.css", "b.css"]);
    assert_eq!(current_file(&files, &s("b.css"), "d.css"), "b.css");
    assert_eq!(current_file(&files, &s("x.css"), "d.css"), "a.css");
    assert_eq!(current_file(&Vec::new(), &s("x.css"), "d.css"), "d.css");
}

#[test]
fn tab_keys_wrap_around() {
    let files = strings(&["a", "b", "c"]);
    assert_eq!(tab_for_key(&files, &s("c"), true, "ArrowRight"), Some(s("a")));
    assert_eq!(tab_for_key(&files, &s("a"), true, "k"), Some(s("b")));
    assert_eq!(tab_for_key(&files, &s("a"), true, "J"), Some(s("c")));
    assert_eq!(tab_for_key(&files, &s("b"), true, "ArrowLeft"), Some(s("a")));
    assert_eq!(tab_for_key(&files, &s("zzz"), true, "K"), Some(s("b")));
    assert_eq!(tab_for_key(&files, &s("a"), false, "k"), None);
    assert_eq!(tab_for_key(&files, &s("a"), true, "x"), None);
    assert_eq!(tab_for_key(&Vec::new(), &s("a"), true, "k"), None);
}

#[test]
fn tab_steps_undo_each_other() {
    for n in 1..6usize {
        for i in 0..n {
            assert_eq!(prev_tab_index(next_tab_index(i, n), n), i);
            assert_eq!(next_tab_index(prev_tab_index(i, n), n), i);
        }
    }
    assert_eq!(next_tab_index(2, 3), 0);
    assert_eq!(prev_tab_index(0, 3), 2);
}

#[test]
fn content_follows_file_and_settles() {
    let mut st = ContentSync { last_file: s("a.css"), last_external: s("A") };
    let mut shown = s("typed");
    sync_content(&mut st, &mut shown, &s("b.css"), &s("B"));
    assert_eq!((st.last_file.as_str(), st.last_external.as_str(), shown.as_str()), ("b.css", "B", "B"));
    sync_content(&mut st, &mut shown, &s("b.css"), &s("B"));
    assert_eq!((st.last_file.as_str(), st.last_external.as_str(), shown.as_str()), ("b.css", "B", "B"));
    sync_content(&mut st, &mut shown, &s("b.css"), &s("B2"));
    assert_eq!(shown, "B2");
    let mut empty = String::new();
    sync_content(&mut st, &mut empty, &s("b.css"), &s("B2"));
    assert_eq!(empty, "B2");
    let mut user = s("edited");
    sync_content(&mut st, &mut user, &s("b.css"), &s("B2"));
    assert_eq!(user, "edited");
}

#[test]
fn edit_survives_its_echo() {
    let mut st = ContentSync { last_file: s("a.css"), last_external: s("old") };
    let mut shown = s("old");
    record_edit(&mut st, &mut shown, &s("new"));
    sync_content(&mut st, &mut shown, &s("a.css"), &s("new"));
    assert_eq!(shown, "new");
    assert_eq!(st.last_external, "new");
}

#[test]
fn edit_targets_and_mode_hooks() {
    assert_eq!(edit_target("preset_css.css", "preset_css.css", "css"), EditTarget::PresetCss);
    assert_eq!(edit_target("custom_js.js", "custom_js.js", "javascript"), EditTarget::CustomJs);
    assert_eq!(edit_target("header.css", "preset_css.css", "css"), EditTarget::Workspace);
    assert_eq!(mode_cap("css"), "Css");
    assert_eq!(mode_cap("javascript"), "Js");
    assert_eq!(dock_target("css"), "css");
    assert_eq!(dock_target("javascript"), "js");
    assert_eq!(floating_offset("css"), 100);
    assert_eq!(floating_offset("javascript"), 150);
}

#[test]
fn save_filters() {
    let names = strings(&["preset_css.css", "a.css", "b.js", "custom_js.js", "c.js"]);
    assert_eq!(css_files_to_save(&names), strings(&["a.css", "b.js", "custom_js.js", "c.js"]));
    assert_eq!(js_files_to_save(&names), strings(&["b.js", "c.js"]));
}

#[test]
fn code_dock_labels() {
    assert_eq!(code_view_labels(true), ("exported_theme.xml", "Compiled \u{b7} Read-only"));
    assert_eq!(code_view_labels(false), ("theme_config.toml", "Live Reload Active"));
    assert_eq!(export_view_text(Err(s("boom"))), "Render failed: boom");
    assert_eq!(export_view_text(Ok(s("<xml/>"))), "<xml/>");
    let links = jump_links();
    assert_eq!(links.len(), 9);
    assert_eq!(links[0], ("Header Variant", "header_variant"));
    assert_eq!(links[8], ("Typography", "[typography]"));
    assert_eq!(xml_save_status(Ok(s("/tmp/theme.xml"))), "Saved theme.xml to /tmp/theme.xml");
    assert_eq!(xml_save_status(Err(s("denied"))), "Save failed: denied");
}

// ---------------------------------------------------------------- editor files

fn manifest(id: &str, css: &[&str], js: &[&str]) -> ComponentManifest {
    ComponentManifest { id: s(id), css_deps: strings(css), js_deps: strings(js) }
}

fn sample_regs() -> ModuleRegistries {
    ModuleRegistries {
        header: vec![manifest("mor", &["header-mor.css", "00-Root-Section.css"], &["header.js"])],
        layout: vec![manifest("sidebars", &["layout-sidebars.css"], &[])],
        content: vec![],
        sidebar_left: vec![],
        sidebar_right: vec![],
        footer: vec![manifest("mega", &["a-footer.css"], &[])],
    }
}

fn sample_pack() -> TemplatePack {
    TemplatePack {
        header_variant: s("mor"),
        main_variant: s("sidebars"),
        content_variant: s("standard_feed"),
        left_sidebar_variant: s("blogger_left"),
        right_sidebar_variant: s("toc_right"),
        footer_variant: s("mega"),
        script_variant: s("vanilla_base"),
    }
}

#[test]
fn module_deps_and_fallbacks() {
    let regs = sample_regs();
    let pack = sample_pack();
    assert_eq!(get_css_deps(&regs.header, &s("mor")), strings(&["header-mor.css", "00-Root-Section.css"]));
    assert_eq!(get_js_deps(&regs.header, &s("mor")), strings(&["header.js"]));
    assert!(get_css_deps(&regs.header, &s("none")).is_empty());
    assert_eq!(workbench_deps(&regs, &pack, "header_variant", AssetKind::Css), strings(&["header-mor.css", "00-Root-Section.css"]));
    assert_eq!(workbench_deps(&regs, &pack, "content_variant", AssetKind::Css), strings(&["content.css"]));
    assert_eq!(workbench_deps(&regs, &pack, "left_sidebar_variant", AssetKind::Js), strings(&["sidebar.js"]));
    assert_eq!(workbench_deps(&regs, &pack, "main_variant", AssetKind::Js), strings(&["layout.js"]));
    assert!(workbench_deps(&regs, &pack, "bogus", AssetKind::Css).is_empty());
}

#[test]
fn css_editor_tabs_per_view() {
    let regs = sample_regs();
    let pack = sample_pack();
    let wb = css_editor_files(CenterView::ModuleWorkbench, &Some(s("footer_variant")), &pack, &regs);
    assert_eq!(wb, strings(&["preset_css.css", "a-footer.css"]));
    let none = css_editor_files(CenterView::ModuleWorkbench, &None, &pack, &regs);
    assert_eq!(none, strings(&["preset_css.css"]));
    assert_eq!(css_editor_files(CenterView::JsWorkbench, &None, &pack, &regs), strings(&["preset_css.css"]));
    let page = css_editor_files(CenterView::Preview, &None, &pack, &regs);
    let mut expected = strings(&[
        "00-Root-Section.css",
        "01-Reset-Base.css",
        "02-Typography-Links.css",
        "03-Buttons.css",
        "12-Terminal-Post-Styling.css",
        "13-Pagination.css",
        "17-Scrollbars.css",
        "19-Responsive-Mobile-Tablet.css",
        "20-Responsive-Very-Small-Screens.css",
        "21-Responsive-Desktop.css",
        "22-Export-Safety.css",
        "23-Comments.css",
        "24-Author-Profile.css",
        "25-Share-Menu.css",
        "26-Analytics-Dashboard.css",
        "header-mor.css",
        "00-Root-Section.css",
        "layout-sidebars.css",
        "a-footer.css",
    ]);
    expected.sort();
    expected.dedup();
    expected.insert(0, s("preset_css.css"));
    assert_eq!(page, expected);
    assert_eq!(page.len(), 19);
}

#[test]
fn js_editor_tabs_per_view() {
    let regs = sample_regs();
    let pack = sample_pack();
    let core = strings(&["core.js", "panels.js"]);
    let page = js_editor_files(CenterView::Split, &None, &pack, &regs, &core, "magazine.js");
    assert_eq!(page, strings(&["custom_js.js", "core.js", "panels.js", "magazine.js"]));
    let wb = js_editor_files(CenterView::ModuleWorkbench, &Some(s("footer_variant")), &pack, &regs, &core, "magazine.js");
    assert_eq!(wb, strings(&["custom_js.js", "footer.js"]));
    let wb = js_editor_files(CenterView::ModuleWorkbench, &None, &pack, &regs, &core, "magazine.js");
    assert_eq!(wb, strings(&["custom_js.js"]));
}

#[test]
fn sorted_unique_orders_by_code_point() {
    assert_eq!(sorted_unique(&strings(&["b", "a", "b", "A", "ab", ""])), strings(&["", "A", "a", "ab", "b"]));
    assert!(sorted_unique(&Vec::new()).is_empty());
}

#[test]
fn workbench_tab_moves_to_slot_file() {
    let files = strings(&["preset_css.css", "header.css"]);
    let mut last = None;
    let mut active = s("preset_css.css");
    workbench_tab_reset(&mut last, &mut active, true, &Some(s("header_variant")), &files);
    assert_eq!(last, Some(s("header_variant")));
    assert_eq!(active, "header.css");
    active = s("preset_css.css");
    workbench_tab_reset(&mut last, &mut active, true, &Some(s("header_variant")), &files);
    assert_eq!(active, "preset_css.css");
    workbench_tab_reset(&mut last, &mut active, false, &Some(s("header_variant")), &files);
    assert_eq!(last, None);
}

// ---------------------------------------------------------------- template pack

#[test]
fn choosing_a_module_changes_one_slot() {
    let mut pack = sample_pack();
    pack.set_variant(ModuleCategory::Footer, s("social"));
    assert_eq!(pack.variant(ModuleCategory::Footer), "social");
    assert_eq!(pack.variant(ModuleCategory::Header), "mor");
    assert_eq!(pack.variant(ModuleCategory::Scripts), "vanilla_base");
    assert!(pack.is_selected(ModuleCategory::Footer, "social"));
    assert!(!pack.is_selected(ModuleCategory::Footer, "mega"));
}

#[test]
fn module_catalogue() {
    let headers = modules(ModuleCategory::Header);
    let ids: Vec<&str> = headers.iter().map(|m| m.id).collect();
    assert_eq!(ids, vec!["mor", "mor_search_center", "gtk_headerbar", "minimal"]);
    assert_eq!(headers[1].name, "Mor \u{2014} Centered Search");
    assert_eq!(modules(ModuleCategory::Content).len(), 4);
    assert_eq!(modules(ModuleCategory::LeftSidebar).len(), 1);
    let opts = options_of(&modules(ModuleCategory::Scripts));
    assert_eq!(opts, vec![("mor_collapsible_sidebars", "Mor Collapsible Sidebars"), ("vanilla_base", "Vanilla Base (No JS)")]);
    assert_eq!(category_label(ModuleCategory::Scripts), "JS Behaviors");
    assert_eq!(module_key(ModuleCategory::Scripts), None);
    for cat in [ModuleCategory::Header, ModuleCategory::MainCanvas, ModuleCategory::Content, ModuleCategory::LeftSidebar, ModuleCategory::RightSidebar, ModuleCategory::Footer] {
        assert_eq!(category_for_key(module_key(cat).unwrap()), Some(cat));
    }
    assert_eq!(category_for_key("script_variant"), None);
}

#[test]
fn grid_layouts_need_posts() {
    assert!(requires_grid("mor_magazine"));
    assert!(requires_grid("mor_masonry"));
    assert!(requires_grid("Photo Grid"));
    assert!(!requires_grid("standard_feed"));
    assert!(!requires_grid("grid"));
    assert_eq!(grid_posts_needed("mor_masonry"), Some(4));
    assert_eq!(grid_posts_needed("mor_minimal"), None);
}

#[test]
fn module_file_statuses() {
    assert_eq!(
        module_file_status("Header Variant", &ModuleFileOutcome::Loaded),
        "Header Variant loaded from file \u{2014} overrides the dropdown until reset in the Module Workbench."
    );
    assert_eq!(module_file_status("x", &ModuleFileOutcome::ReadFailed(s("nope"))), "Could not read file: nope");
    assert_eq!(module_file_status("x", &ModuleFileOutcome::SaveFailed(s("disk"))), "Load failed: disk");
}

// ---------------------------------------------------------------- typography

fn style(sel: &str) -> ElementStyle {
    ElementStyle {
        selector: s(sel),
        font_size: String::new(),
        font_weight: String::new(),
        line_height: String::new(),
        letter_spacing: String::new(),
        color: String::new(),
        italic: false,
    }
}

#[test]
fn sample_styles() {
    assert_eq!(
        sample_style("Inter", "1.9em", "700", None, ""),
        "font-family: Inter; font-size: 1.9em; font-weight: 700;"
    );
    assert_eq!(sample_style("Inter", "1em", "", None, ""), "font-family: Inter; font-size: 1em;");
    let mut ov = style("h1");
    ov.font_size = s("  2em ");
    ov.font_weight = s("   ");
    ov.color = s("#f00");
    ov.italic = true;
    ov.letter_spacing = s("1px");
    assert_eq!(
        sample_style("Inter", "1.9em", "700", Some(&ov), "padding: 1px;"),
        "font-family: Inter; font-size: 2em; font-weight: 700; letter-spacing: 1px; color: #f00; font-style: italic; padding: 1px;"
    );
}

#[test]
fn element_overrides_stay_clean() {
    let mut v: Vec<ElementStyle> = Vec::new();
    update_element(&mut v, "h1", StyleEdit::FontSize(s("   ")));
    assert!(v.is_empty());
    update_element(&mut v, "h1", StyleEdit::FontSize(s("2em")));
    assert_eq!(v.len(), 1);
    assert_eq!(v[0].font_size, "2em");
    update_element(&mut v, "p", StyleEdit::Italic(true));
    assert_eq!(v.len(), 2);
    update_element(&mut v, "h1", StyleEdit::Color(s("#111")));
    assert_eq!(v[0].color, "#111");
    assert_eq!(v[0].font_size, "2em");
    update_element(&mut v, "h1", StyleEdit::FontSize(s("")));
    update_element(&mut v, "h1", StyleEdit::Color(s(" ")));
    assert_eq!(v.len(), 1);
    assert_eq!(v[0].selector, "p");
    clear_element(&mut v, "p");
    assert!(v.is_empty());
}

#[test]
fn element_tabs() {
    assert_eq!(element_at(0), ("h1", "H1", "Heading 1", "1.9em"));
    assert_eq!(element_at(4), ("blockquote", "Quote", "Blockquote", "1em"));
    assert_eq!(element_at(99), ("code", "Code", "Inline / code", "0.9em"));
}

#[test]
fn font_picker_display() {
    assert!(eq_ignore_ascii_case("Inter", "iNTER"));
    assert!(!eq_ignore_ascii_case("Inter", "Inte"));
    assert!(!eq_ignore_ascii_case("É", "é"));
    let fonts = vec![
        FontPreset { name: s("Inter"), css_stack: s("'Inter', sans-serif"), category: s("Sans") },
        FontPreset { name: s("Lora"), css_stack: s("'Lora', serif"), category: s("Serif") },
    ];
    assert!(matches!(font_display(&fonts, " lora ", false, false), FontDisplay::Listed(1)));
    assert!(matches!(font_display(&fonts, "'inter', SANS-SERIF", false, false), FontDisplay::Listed(0)));
    assert!(matches!(font_display(&fonts, "", true, false), FontDisplay::MatchBody));
    assert!(matches!(font_display(&fonts, "", false, false), FontDisplay::Nothing));
    match font_display(&fonts, " Fira Code ", false, false) {
        FontDisplay::Custom(t) => assert_eq!(t, "Fira Code"),
        _ => panic!("expected a custom font"),
    }
    match font_display(&fonts, "", true, true) {
        FontDisplay::Custom(t) => assert_eq!(t, ""),
        _ => panic!("expected the custom entry"),
    }
}

// ---------------------------------------------------------------- widgets

fn bp(group: &str, name: &str) -> WidgetBlueprint {
    WidgetBlueprint { group: s(group), name: s(name), xml: s("<b:widget/>") }
}

#[test]
fn pretty_labels() {
    assert_eq!(pretty("my-cool_widget"), "My Cool Widget");
    assert_eq!(pretty("--a__b-"), "A B");
    assert_eq!(pretty(""), "");
    assert_eq!(pretty("\u{e9}clair"), "\u{c9}clair");
    assert_eq!(pretty("custom"), "Custom");
}

#[test]
fn unique_names() {
    let mut lib: Vec<WidgetBlueprint> = Vec::new();
    assert_eq!(unique_name(&lib, "custom", "new-widget"), "new-widget");
    lib.push(bp("custom", "new-widget"));
    lib.push(bp("other", "new-widget-2"));
    assert_eq!(unique_name(&lib, "custom", "new-widget"), "new-widget-2");
    lib.push(bp("custom", "new-widget-2"));
    assert_eq!(unique_name(&lib, "custom", "new-widget"), "new-widget-3");
    assert_eq!(unique_name(&lib, "other", "new-widget"), "new-widget");
}

#[test]
fn groups_fold_consecutive_runs() {
    let lib = vec![bp("a", "x"), bp("a", "y"), bp("b", "z"), bp("a", "w")];
    let g = group_blueprints(&lib);
    let summary: Vec<(String, Vec<String>)> =
        g.iter().map(|(n, items)| (n.clone(), items.iter().map(|b| b.name.clone()).collect())).collect();
    assert_eq!(
        summary,
        vec![(s("a"), strings(&["x", "y"])), (s("b"), strings(&["z"])), (s("a"), strings(&["w"]))]
    );
    assert!(group_blueprints(&Vec::new()).is_empty());
}

#[test]
fn widget_statuses() {
    assert_eq!(widget_status(&WidgetOutcome::Created(s("new-widget"))), "Created new-widget");
    assert_eq!(widget_status(&WidgetOutcome::DeleteFailed(s("io"))), "Delete failed: io");
    assert_eq!(widget_status(&WidgetOutcome::FolderOpened), "Widgets folder opened.");
    assert_eq!(add_target_label(&Some(s("sidebar"))), "Add \u{2192} slot: sidebar");
    assert_eq!(add_target_label(&None), "Add \u{2192} active module");
}

// ---------------------------------------------------------------- code editor

#[test]
fn editor_modes_and_gutter() {
    assert_eq!(effective_mode("toml"), "ini");
    assert_eq!(effective_mode("javascript"), "js");
    assert_eq!(effective_mode("js"), "js");
    assert_eq!(effective_mode("xml"), "html");
    assert_eq!(effective_mode("css"), "css");
    assert_eq!(effective_mode("rust"), "rust");
    assert_eq!(paint_text("a\n"), "a\n\n");
    assert_eq!(paint_text(""), "\n");
    assert_eq!(paint_text("a"), "a");
    assert_eq!(painted_html(None, "x<"), "<pre><code>x<</code></pre>");
    assert_eq!(painted_html(Some(s("<pre>h</pre>")), "x"), "<pre>h</pre>");
    assert_eq!(line_numbers("a\nb\nc"), "1\n2\n3");
    assert_eq!(line_numbers(""), "1");
    assert_eq!(line_numbers("\n\n\n\n\n\n\n\n\n\n"), "1\n2\n3\n4\n5\n6\n7\n8\n9\n10\n11");
}

#[test]
fn highlighting_wraps_in_pre() {
    let h = Highlighter::new();
    let out = h.render("body { color: red; }", "css");
    assert!(out.starts_with("<pre style=\"background-color:#"));
    assert!(out.ends_with("</pre>\n"));
    assert!(out.contains("color"));
    let out = h.render("key = 1\n", "toml");
    assert!(out.starts_with("<pre style=\"background-color:#"));
}

#[test]
fn typing_keeps_the_text_area_seed() {
    let mut b = EditorBuffer::new(&s("start"));
    assert_eq!(b.on_input(false, &s("typed")), Some(s("typed")));
    b.reconcile_external(&s("typed"));
    assert_eq!(b.seed, "start");
    assert_eq!(b.local, "typed");
    b.reconcile_external(&s("loaded"));
    assert_eq!(b.seed, "loaded");
    assert_eq!(b.on_input(true, &s("ignored")), None);
    assert_eq!(b.local, "loaded");
}

// ---------------------------------------------------------------- context menu

#[test]
fn context_menu_titles_and_entries() {
    assert_eq!(friendly_name("icons.dock_left"), "dock left");
    assert_eq!(friendly_name("my_icon"), "my icon");
    assert_eq!(friendly_name("icons."), "");
    assert!(is_dock_target("CSS Editor"));
    assert!(!is_dock_target("css editor"));
    assert_eq!(menu_title("preview", "header"), "Preview \u{b7} header");
    assert_eq!(menu_title("svg", ""), "Icon Context Menu");
    assert_eq!(menu_title("dock", ""), "Context Menu");
    assert_eq!(
        menu_entries("svg", "CSS Editor", true),
        vec![MenuEntry::PinToggle { pinned: true, long_label: false }, MenuEntry::SwapIcon]
    );
    assert_eq!(menu_entries("svg", "icons.x", false), vec![MenuEntry::SwapIcon]);
    assert_eq!(
        menu_entries("dock", "Site Data", false),
        vec![MenuEntry::PinToggle { pinned: false, long_label: true }, MenuEntry::ChangeIcon]
    );
    assert_eq!(menu_entries("ui_typography", "", false), vec![MenuEntry::EditTypography]);
    assert_eq!(menu_entries("???", "", false), vec![MenuEntry::Unknown]);
    assert_eq!(pin_label(true, true), "Unpin from Activity Bar");
    assert_eq!(pin_label(true, false), "Unpin");
    assert_eq!(pin_label(false, true), "Pin to Activity Bar");
}

#[test]
fn preview_menu_plan() {
    let info = PreviewContextInfo {
        region: s("header"),
        tag: s("h2"),
        edit_target: Some(s("icons.search")),
        field_path: None,
        block_id: Some(s("blk")),
        color: Some(s("#fff")),
        bg: None,
        link: None,
    };
    let p = preview_plan(&info);
    assert_eq!(p.icon_target, Some(s("icons.search")));
    assert_eq!(p.reveal_target, Some(s("icons.search")));
    assert!(p.edit_typography && p.edit_section && p.colors_section);
    let info = PreviewContextInfo {
        region: s("body"),
        tag: s("div"),
        edit_target: Some(s("site.title")),
        field_path: Some(s("site.title.text")),
        block_id: None,
        color: None,
        bg: None,
        link: Some(s("https://x")),
    };
    let p = preview_plan(&info);
    assert_eq!(p.icon_target, None);
    assert_eq!(p.inline_field, Some(s("site.title.text")));
    assert_eq!(p.reveal_target, Some(s("site.title.text")));
    assert!(!p.edit_typography && p.edit_section && !p.colors_section);
    let info = PreviewContextInfo {
        region: s("body"),
        tag: s("div"),
        edit_target: None,
        field_path: None,
        block_id: None,
        color: None,
        bg: None,
        link: None,
    };
    let p = preview_plan(&info);
    assert!(!p.edit_section && p.reveal_target.is_none());
    assert_eq!(xray_label(true), "X-Ray Off");
    assert_eq!(mode_toggle_entry(true), ("\u{2600}", "Switch to Light Mode"));
    assert_eq!(shortcut_hint(&Some(s("Ctrl+Z"))), " (Ctrl+Z)");
    assert_eq!(shortcut_hint(&None), "");
}

// ---------------------------------------------------------------- tokens and palette

#[test]
fn token_blocks() {
    let mut t = CssTokens::initial();
    assert_eq!(token_css(Tab::Light, &t), ":root.light {\n  --primary: #3b82f6;\n  --bg: #ffffff;\n  --radius: 6px;\n}");
    assert_eq!(token_css(Tab::Dark, &t), ":root.dark {\n  --primary: #60a5fa;\n  --bg: #1e293b;\n  --radius: 6px;\n}");
    assert_eq!(token_css(Tab::Shared, &t), ":root {\n  --radius: 6px;\n}");
    t.set(Token::BorderRadius, s("2px"));
    assert_eq!(token_css(Tab::Shared, &t), ":root {\n  --radius: 2px;\n}");
    assert_eq!(t.light_primary, "#3b82f6");
    assert_eq!(tab_label(Tab::Shared), "Shared Tokens");
    assert_eq!(tab_inputs(Tab::Dark), vec![("Primary Color", Token::DarkPrimary), ("Background Color", Token::DarkBg)]);
}

fn palette(glow: &str, bg: BackgroundMode) -> PaletteColors {
    PaletteColors {
        bg_base: s("#000"),
        bg_panel_css: s("#111"),
        bg_elevated_css: s("#222"),
        fg_base: s("#eee"),
        fg_muted: s("#999"),
        accent: s("#f80"),
        glow_color: s(glow),
        border: s("#333"),
        panel_border_width: s("1px"),
        glow_spread: s("8px"),
        background: bg,
    }
}

#[test]
fn preset_preview_variables() {
    let light = palette("", BackgroundMode::Solid { color: s("#fff") });
    let dark = palette("#0ff", BackgroundMode::Gradient { from: s("#100"), to: s("#001") });
    let out = build_css_vars(&light, &dark, true, &None);
    assert_eq!(out, "--bg-base: #000; --bg-panel: #111; --bg-highlight: #222; --bg-soft: #111; --bg-elevated: #222; --bg-workspace: #000; --fg-base: #eee; --fg-dim: #999; --fg-muted: #999; --accent: #f80; --border-color: #333; --border-soft: #333; --theme-border-color: #333; --panel-border-width: 1px; --bg-gradient-from: #fff; --bg-gradient-to: #fff; --glow: 0 0 8px #f80; --glow-strong: 0 0 calc(8px * 2) #f80; --theme-cursor: default;");
    let out = build_css_vars(&light, &dark, false, &Some(s("crosshair")));
    assert!(out.contains("--accent: #0ff;"));
    assert!(out.contains("--bg-gradient-from: #100; --bg-gradient-to: #001;"));
    assert!(out.ends_with("--theme-cursor: crosshair;"));
    let tiled = palette("", BackgroundMode::Tile);
    let out = build_css_vars(&tiled, &tiled, true, &None);
    assert!(out.contains("--bg-gradient-from: transparent; --bg-gradient-to: transparent;"));
}

// ---------------------------------------------------------------- plugins

fn plugin(id: &str, on: bool, v: &str) -> PluginState {
    PluginState { id: s(id), enabled: on, version: s(v) }
}

fn remote(id: &str, v: &str) -> CompendiumManifest {
    CompendiumManifest { id: s(id), display_name: id.to_uppercase(), version: s(v), description: s("d") }
}

#[test]
fn plugin_manager_edits() {
    let launch = vec![plugin("dewey", true, "1.0"), plugin("glow", false, "0.2")];
    let compendium = vec![remote("dewey", "1.1"), remote("glow", "0.2"), remote("toc", "3.0")];
    let mut current = launch.clone();
    let ups = updates_available(&current, &compendium);
    assert_eq!(ups.len(), 1);
    assert_eq!(ups[0].0.id, "dewey");
    assert_eq!(ups[0].1.version, "1.1");
    let disc = discoverable(&current, &compendium);
    assert_eq!(disc.len(), 1);
    assert_eq!(disc[0].id, "toc");
    install(&mut current, &disc[0]);
    assert!(is_installed(&current, &s("toc")));
    assert!(discoverable(&current, &compendium).is_empty());
    assert!(needs_restart(&launch, &current));
    sync_update(&mut current, &s("dewey"), &s("1.1"));
    assert!(updates_available(&current, &compendium).is_empty());
    set_enabled(&mut current, &s("glow"), true);
    assert!(current[1].enabled);
    remove_plugin(&mut current, &s("glow"));
    assert!(!is_installed(&current, &s("glow")));
    assert_eq!(current.len(), 2);
    assert!(!needs_restart(&launch, &launch.clone()));
}

#[test]
fn plugin_manager_labels() {
    assert_eq!(
        install_status(&InstallOutcome::DiskInstalled { copied: true }),
        Ok(s("Successfully installed MCP plugin (copied to internal config dir)!"))
    );
    assert_eq!(install_status(&InstallOutcome::DiskInstalled { copied: false }), Ok(s("Successfully installed MCP plugin directly!")));
    assert_eq!(install_status(&InstallOutcome::DiskFailed(s("x"))), Err(s("Failed to install MCP: x")));
    assert_eq!(install_status(&InstallOutcome::GithubInstalled(s("a.bin"))), Ok(s("Successfully installed plugin: a.bin")));
    assert_eq!(install_status(&InstallOutcome::GithubFailed(s("404"))), Err(s("GitHub Install Failed: 404")));
    assert_eq!(version_change_label(&s("1.0"), &s("1.1")), "v1.0 \u{2192} v1.1");
    let c = daemon_card(&s("srv"), None, None);
    assert_eq!((c.key.as_str(), c.display_name.as_str(), c.prompt.as_str()), ("srv", "srv", ""));
    let c = daemon_card(&s("srv"), Some(s("Server")), Some(s("be nice")));
    assert_eq!((c.display_name.as_str(), c.prompt.as_str()), ("Server", "be nice"));
    assert_eq!(manager_tab_label(ManagerTab::Installed, 3, 0), "Installed (3)");
    assert_eq!(manager_tab_label(ManagerTab::Updates, 0, 12), "Updates (12)");
    assert_eq!(manager_tab_label(ManagerTab::Discover, 3, 12), "Discover");
    assert_eq!(empty_tab_note(ManagerTab::Updates), Some("Everything is up to date."));
    assert_eq!(empty_tab_note(ManagerTab::Installed), None);
}

// ---------------------------------------------------------------- shortcuts, numbers, pages

#[test]
fn shortcut_combos_and_search() {
    assert_eq!(combo_from_key(&KeyPress::Character(s("z")), true, false, false), Some(s("Ctrl+Z")));
    assert_eq!(combo_from_key(&KeyPress::Other(s("F5")), false, true, true), Some(s("Shift+Alt+F5")));
    assert_eq!(combo_from_key(&KeyPress::Modifier, true, false, false), None);
    assert!(action_shown("Workspace", "Workspace", "Reset Zoom", "Ctrl+0", "ZOOM"));
    assert!(action_shown("Workspace", "Workspace", "Reset Zoom", "Ctrl+0", "ctrl"));
    assert!(!action_shown("Workspace", "Global App", "Reset Zoom", "Ctrl+0", ""));
    assert!(!action_shown("Workspace", "Workspace", "Reset Zoom", "Ctrl+0", "undo"));
    assert_eq!(sheet_keys(&None, "Ctrl+Shift+C"), strings(&["Ctrl", "Shift", "C"]));
    assert_eq!(sheet_keys(&Some(s("Alt+1")), "Ctrl+Shift+C"), strings(&["Alt", "1"]));
}

#[test]
fn numbers_parse_like_i32() {
    assert_eq!(parse_i32("42"), Some(42));
    assert_eq!(parse_i32("-7"), Some(-7));
    assert_eq!(parse_i32("+3"), Some(3));
    assert_eq!(parse_i32(""), None);
    assert_eq!(parse_i32("4x"), None);
    assert_eq!(parse_i32("2147483648"), None);
    assert_eq!(parse_i32("-2147483648"), Some(i32::MIN));
}

#[test]
fn static_page_tabs_and_statuses() {
    assert_eq!(page_kind_for_tab("Directory"), Some(StaticPageKind::Categories));
    assert_eq!(page_kind_for_tab("LMS"), Some(StaticPageKind::CourseCatalog));
    assert_eq!(page_kind_for_tab("Community"), None);
    assert!(should_refresh_preview("Archive", false));
    assert!(!should_refresh_preview("Community", false));
    assert!(!should_refresh_preview("Archive", true));
    assert_eq!(community_fetch_status(0), "No community pages published yet.");
    assert_eq!(community_fetch_status(3), "3 community page(s).");
    assert_eq!(fetch_failure_message(&FetchFailure::Status(s("404 Not Found"))), "HTTP 404 Not Found");
    assert_eq!(fetch_failure_message(&FetchFailure::BadFeed(s("eof"))), "bad feed: eof");
}

#[test]
fn injected_page_keeps_base_and_adds_block() {
    let out = inject_static_page("<body>x</body><body>y</body>", "<i>P</i>");
    assert_eq!(out.matches("<i>P</i>").count(), 2);
    assert!(out.contains("x"));
    let untouched = inject_static_page("<p>no tags</p>", "<i>P</i>");
    assert_eq!(untouched, "<p>no tags</p>");
    let with_head = inject_static_page("<head></head><body></body>", "Q");
    assert!(with_head.starts_with("<head>\n<script>"));
    assert!(with_head.contains("Q"));
}

#[test]
fn native_themes_and_title_colour() {
    assert_eq!(native_os_theme_for("macos"), MAC_OS_LIGHT_TOML);
    assert_eq!(native_os_theme_for("windows"), WIN_11_DARK_TOML);
    assert_eq!(native_os_theme_for("linux"), GTK4_DARK_TOML);
    assert_eq!(
        with_panel_title_color(":root {\n  --a: 1;\n}\n", "#f00"),
        ":root {\n  --a: 1;\n  --panel-title-color: #f00;\n}"
    );
    assert_eq!(with_panel_title_color("no brace", "#f00"), "no brace");
}

fn no_bindings() -> ShortcutPrefs {
    ShortcutPrefs {
        user_prefs: None,
        theme_diagnostics: None,
        toggle_preview: None,
        exit_architect: None,
        open_project: None,
        save_project: None,
        export_xml: None,
        undo: Some(s("Ctrl+Z")),
        redo: None,
        copy_raw_xml: None,
        toggle_left_dock: None,
        toggle_right_dock: None,
        close_left_dock: None,
        close_right_dock: None,
        reset_zoom: None,
    }
}

#[test]
fn rebinding_reads_back() {
    let mut p = no_bindings();
    assert_eq!(p.field("undo"), Some(s("Ctrl+Z")));
    assert_eq!(p.rebind("undo", s("Ctrl+U")), Some(Some(s("Ctrl+Z"))));
    assert_eq!(p.field("undo"), Some(s("Ctrl+U")));
    assert_eq!(p.rebind("reset_zoom", s("Ctrl+0")), Some(None));
    assert_eq!(p.field("reset_zoom"), Some(s("Ctrl+0")));
    assert_eq!(p.field("redo"), None);
    assert_eq!(p.rebind("nope", s("X")), None);
    assert_eq!(p.field("nope"), None);
}

#[test]
fn default_theme_variables() {
    let t = MorTheme::default();
    assert_eq!(t.svg_border_slice, "30");
    assert_eq!(t.image_border_width, "20px");
    assert!(t.target_sidebars && !t.target_canvas);
    let css = t.to_css_vars();
    assert!(css.starts_with(":root {\n  --mor-bg: #2c2c2c;\n  --mor-panel: #2e2e2e;\n"));
    assert!(css.ends_with("  --mor-border-image: none;\n  --mor-border-slice: 0;\n  --mor-border-width-img: var(--panel-border-width);\n}"));
    let mut framed = t.clone();
    framed.enable_image_borders = true;
    framed.custom_border_url = Some(s("f.svg"));
    assert!(framed.to_css_vars().ends_with("  --mor-border-image: url(\"f.svg\");\n  --mor-border-slice: 30;\n  --mor-border-width-img: 20px;\n}"));
    let mut no_url = t.clone();
    no_url.enable_image_borders = true;
    assert_eq!(no_url.to_css_vars(), t.to_css_vars());
}

#[test]
fn widget_form_applies_changes_only() {
    let names = strings(&["title", "count", "show"]);
    let base = vec![Some(s("Hi")), None, Some(s("true"))];
    let draft = vec![Some(s("Hello")), Some(s("5")), Some(s("true"))];
    assert_eq!(settings_to_apply(&names, &draft, &base), vec![(s("title"), s("Hello")), (s("count"), s("5"))]);
    assert!(settings_to_apply(&names, &base, &base).is_empty());
    let draft = vec![None, None, Some(s("false"))];
    assert_eq!(settings_to_apply(&names, &draft, &base), vec![(s("show"), s("false"))]);
    assert_eq!(seed_value(None, s("def")), "def");
    assert_eq!(seed_value(Some(s("x")), s("def")), "x");
    assert!(setting_checked("true"));
    assert!(!setting_checked("True"));
    assert_eq!(checkbox_text(false), "false");
}

#[test]
fn preview_resets_and_heading_font() {
    assert!(palette_resets_preview("Colors", false));
    assert!(!palette_resets_preview("Pages", false));
    assert!(!palette_resets_preview("Colors", true));
    assert!(heading_follows_body("   "));
    assert!(!heading_follows_body(" Lora "));
}

#[test]
fn preference_and_icon_inputs() {
    assert_eq!(ui_modes()[2], ("tiling", "Tiling WM (No Buttons)"));
    assert_eq!(ui_mode_json("native"), "{ \"ui_mode\": \"native\" }");
    assert!(window_mode_needs_restart("native", "frameless"));
    assert!(!window_mode_needs_restart("native", "native"));
    assert_eq!(border_url_input(s("  ")), None);
    assert_eq!(border_url_input(s(" a.png")), Some(s(" a.png")));
    assert_eq!(icon_label("  plank "), Ok(s("plank")));
    assert_eq!(icon_label("   "), Err("Error: Provide an icon label first."));
    assert_eq!(svg_upload_status(true), "SVG added to dictionary!");
    assert_eq!(svg_upload_status(false), "Error: File is not a valid SVG.");
}
