//! Editing logic of the MorBlogger theme editor: cursor values, static-page
//! injection, theme and preset CSS variables, shortcuts, plugins, template
//! modules, docks and editor windows, editor file tabs, code highlighting,
//! typography overrides, widget blueprints and context menus.
use vstd::prelude::*;

pub mod code_editor;
pub mod context_menu;
pub mod css_tokens;
pub mod cursor;
pub mod dock;
pub mod editor;
pub mod editor_files;
pub mod number;
pub mod palette;
pub mod plugins;
pub mod shortcuts;
pub mod static_pages;
pub mod template_pack;
pub mod text;
pub mod theme;
pub mod theme_signals;
pub mod typography;
pub mod widgets;

verus! {

} // verus!
