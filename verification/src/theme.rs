//! The editor's own look: the MOR theme, its CSS variables, and the
//! built-in TOML themes for each desktop.
use vstd::prelude::*;
use crate::cursor::str_eq;
use crate::text::chars_of;
use crate::text::matches_at;
use crate::text::lemma_contains_match;
use crate::text::lemma_contains_from_match;
use crate::text::contains_spec;
use crate::text::push_chars;
use crate::text::trim_end_len;
use crate::text::trim_end_spec;
use crate::text::trim;
use crate::text::trim_spec;

verus! {

/// The GTK4 dark theme (also the theme for Linux and unknown systems).
pub const GTK4_DARK_TOML: &'static str = r##"
bg            = "#242424"
panel         = "#2d2d2d"
header        = "#1e1e1e"
text          = "#deddda"
text_muted    = "#77767b"
border        = "#171717"
border_light  = "#3d3d3d"
accent        = "#1c71d8"
accent_hover  = "#3584e4"
btn           = "#3d3d3d"
btn_hover     = "#4a4a4a"
font_family   = "Cantarell, system-ui, sans-serif"
font_size_base= "13px"
font_size_h1  = "20px"
padding_base  = "8px"
border_radius = "6px"
destructive   = "#ff5555"
success       = "#50fa7b"
warning       = "#f1fa8c"
"##;

/// The macOS light theme.
pub const MAC_OS_LIGHT_TOML: &'static str = r##"
bg            = "#ececec"
panel         = "#f5f5f5"
header        = "#d8d8d8"
text          = "#1e1e1e"
text_muted    = "#7a7a7a"
border        = "#c8c8c8"
border_light  = "#e0e0e0"
accent        = "#007aff"
accent_hover  = "#005bb5"
btn           = "#ffffff"
btn_hover     = "#f0f0f0"
font_family   = "-apple-system, BlinkMacSystemFont, 'Helvetica Neue', sans-serif"
font_size_base= "13px"
font_size_h1  = "20px"
padding_base  = "8px"
border_radius = "8px"
destructive   = "#ff5555"
success       = "#50fa7b"
warning       = "#f1fa8c"
"##;

/// The Windows 11 dark theme.
pub const WIN_11_DARK_TOML: &'static str = r##"
bg            = "#202020"
panel         = "#282828"
header        = "#181818"
text          = "#ffffff"
text_muted    = "#a0a0a0"
border        = "#333333"
border_light  = "#444444"
accent        = "#60cdff"
accent_hover  = "#3fb0e6"
btn           = "#2d2d2d"
btn_hover     = "#323232"
font_family   = "'Segoe UI Variable', 'Segoe UI', system-ui, sans-serif"
font_size_base= "13px"
font_size_h1  = "20px"
padding_base  = "8px"
border_radius = "4px"
destructive   = "#ff5555"
success       = "#50fa7b"
warning       = "#f1fa8c"
"##;

/// The editor's base style sheet; it reads the `--mor-*` variables.
pub const MOR_CSS: &'static str = r##"
/* Base */
.mor-root {
  font-family: var(--mor-font);
  font-size: var(--mor-font-size);
  color: var(--mor-text);
  background-color: transparent;
}

/* ── Global App Menu Bar (OBS Style Default) ── */
.mor-menu-bar {
  display: flex;
  background-color: var(--mor-bg);
  border-bottom: 1px solid var(--mor-border);
  height: 30px;
  align-items: center;
  font-family: var(--mor-font);
  font-size: var(--mor-font-size);
  color: var(--mor-text);
  user-select: none;
  position: relative;
  z-index: 9999;
}

.mor-menu-item {
  position: relative;
  height: 100%;
  display: flex;
  align-items: center;
  padding: 0 10px;
  cursor: default;
  color: var(--mor-text);
}

.mor-menu-item:hover {
  background-color: var(--mor-btn-hover);
  color: var(--mor-text);
}

.mor-menu-dropdown {
  display: none;
  position: absolute;
  top: 30px;
  left: 0;
  background-color: var(--mor-panel);
  border: 1px solid var(--mor-border);
  box-shadow: 0 12px 32px rgba(0, 0, 0, 0.65);
  min-width: 200px;
  padding: 4px 0;
}

.mor-menu-item:hover .mor-menu-dropdown {
  display: block;
}

/* Force standard mor-menu-item inside the dropdown to behave like an action list */
.mor-menu-dropdown .mor-menu-item {
  display: flex;
  width: 100%;
  text-align: left;
  background: transparent;
  border: none;
  color: var(--mor-text);
  padding: 6px 16px;
  font-size: var(--mor-font-size);
  cursor: pointer;
  height: auto;
  transition: none;
}

.mor-menu-dropdown .mor-menu-item:hover {
  background-color: var(--mor-accent-hover);
  color: #ffffff;
}

.mor-menu-divider, .mor-separator {
  height: 1px;
  background-color: var(--mor-border-light);
  margin: 4px 0;
}

/* ── Modals ── */
.mor-modal-backdrop {
  position: fixed;
  inset: 0;
  z-index: 200;
  display: flex;
  align-items: center;
  justify-content: center;
  background-color: rgba(0, 0, 0, 0.7);
}

.mor-modal {
  background-color: var(--mor-bg);
  color: var(--mor-text);
  border: 1px solid var(--mor-border-light);
  box-shadow: 0 20px 50px rgba(0, 0, 0, 0.7);
  border-radius: var(--mor-radius);
  overflow: hidden;
  min-width: 380px;
  max-width: 620px;
  font-family: var(--mor-font);
  /* Column layout so the body fills/scrolls when the modal is resized. */
  display: flex;
  flex-direction: column;
}

.mor-modal-header {
  display: flex;
  align-items: center;
  justify-content: space-between;
  padding: var(--mor-padding) calc(var(--mor-padding) * 2);
  background-color: var(--mor-header);
  border-bottom: 1px solid var(--mor-border-light);
  font-size: var(--mor-font-size);
  font-weight: 500;
  letter-spacing: 0.3px;
  /* Drag handle for moving the dialog. */
  cursor: move;
  flex-shrink: 0;
  user-select: none;
}

.mor-modal-close {
  padding: 0 var(--mor-padding);
  font-size: 22px;
  line-height: 1;
  color: var(--mor-text-muted);
  cursor: pointer;
  transition: color 80ms ease;
}
.mor-modal-close:hover { color: white; }

.mor-modal-body {
  padding: calc(var(--mor-padding) * 2.5);
  font-size: var(--mor-font-size);
  line-height: 1.5;
  /* Fill the resizable modal and scroll internally instead of a fixed cap. */
  flex: 1 1 auto;
  min-height: 0;
  overflow-y: auto;
}

.mor-tabs {
  display: flex;
  border-bottom: 1px solid var(--mor-border-light);
  margin-bottom: calc(var(--mor-padding) * 2);
  font-size: var(--mor-font-size);
}

.mor-tab {
  padding: var(--mor-padding) calc(var(--mor-padding) * 2);
  cursor: pointer;
  color: var(--mor-text-muted);
  border-bottom: 2px solid transparent;
  transition: all 80ms ease;
  background: transparent;
  border-top: none; border-left: none; border-right: none;
}
.mor-tab:hover { color: var(--mor-text); }
.mor-tab.active {
  color: var(--mor-accent-hover);
  border-bottom-color: var(--mor-accent-hover);
  font-weight: 500;
}

.mor-btn {
  padding: 6px calc(var(--mor-padding) * 2);
  font-size: var(--mor-font-size);
  border-radius: var(--mor-radius);
  border: 1px solid var(--mor-border-light);
  background-color: var(--mor-btn);
  color: var(--mor-text);
  font-family: var(--mor-font);
  cursor: pointer;
  transition: background-color 80ms ease;
}
.mor-btn:hover { background-color: var(--mor-btn-hover); }
.mor-btn:active { background-color: var(--mor-bg); }

.mor-btn.primary, .mor-btn-primary {
  padding: 6px calc(var(--mor-padding) * 2);
  font-size: var(--mor-font-size);
  border-radius: var(--mor-radius);
  border: 1px solid var(--mor-accent-hover);
  background-color: var(--mor-accent-hover);
  color: white;
  font-family: var(--mor-font);
  cursor: pointer;
  transition: background-color 80ms ease;
}
.mor-btn.primary:hover, .mor-btn-primary:hover { background-color: var(--mor-accent); }
.mor-btn.primary:active, .mor-btn-primary:active { background-color: var(--mor-bg); }

.mor-btn-secondary {
  padding: 6px calc(var(--mor-padding) * 2);
  font-size: var(--mor-font-size);
  border-radius: var(--mor-radius);
  border: 1px solid var(--mor-border-light);
  background-color: var(--mor-bg);
  color: var(--mor-text-muted);
  font-family: var(--mor-font);
  cursor: pointer;
  transition: all 80ms ease;
}
.mor-btn-secondary:hover {
  background-color: var(--mor-btn);
  color: var(--mor-text);
}

.mor-btn-outline {
  padding: 6px calc(var(--mor-padding) * 2);
  font-size: var(--mor-font-size);
  border-radius: var(--mor-radius);
  border: 1px solid var(--mor-border);
  background-color: transparent;
  color: var(--mor-text);
  font-family: var(--mor-font);
  cursor: pointer;
  transition: all 80ms ease;
}
.mor-btn-outline:hover {
  background-color: var(--mor-btn-hover);
  border-color: var(--mor-accent-hover);
}


/* ── Forms ── */
.mor-checkbox-wrapper {
    display: flex;
    align-items: center;
    gap: 10px;
    cursor: pointer;
    font-size: var(--mor-font-size);
    color: var(--mor-text);
    user-select: none;
    margin: 6px 0;
    font-family: var(--mor-font);
}

.mor-checkbox {
    -webkit-appearance: none;
    appearance: none;
    width: 16px;
    height: 16px;
    border: 1px solid var(--mor-border);
    border-radius: 3px;
    background: var(--mor-bg);
    cursor: pointer;
    position: relative;
    transition: all 0.1s ease;
    margin: 0;
}

.mor-checkbox:checked {
    background: var(--mor-accent-hover);
    border-color: var(--mor-accent-hover);
}

.mor-checkbox:checked::after {
    content: '';
    position: absolute;
    left: 4px;
    top: 1px;
    width: 4px;
    height: 8px;
    border: solid var(--mor-bg);
    border-width: 0 2px 2px 0;
    transform: rotate(45deg);
}

.mor-select-wrapper {
    display: flex;
    flex-direction: column;
    gap: 4px;
    margin: var(--mor-padding) 0;
    width: 100%;
    font-family: var(--mor-font);
}

.mor-select-label {
    font-size: calc(var(--mor-font-size) - 1px);
    color: var(--mor-text-muted);
    font-weight: 500;
}

.mor-select {
    -webkit-appearance: none;
    appearance: none;
    background: var(--mor-bg);
    color: var(--mor-text);
    border: 1px solid var(--mor-border);
    border-radius: var(--mor-radius);
    padding: 6px 28px 6px 10px;
    font-size: var(--mor-font-size);
    font-family: var(--mor-font);
    cursor: pointer;
    outline: none;
    transition: border-color 0.1s ease;
    background-image: url("data:image/svg+xml;charset=US-ASCII,%3Csvg%20xmlns%3D%22http%3A%2F%2Fwww.w3.org%2F2000%2Fsvg%22%20width%3D%22292.4%22%20height%3D%22292.4%22%3E%3Cpath%20fill%3D%22%2377767b%22%20d%3D%22M287%2069.4a17.6%2017.6%200%200%200-13-5.4H18.4c-5%200-9.3%201.8-12.9%205.4A17.6%2017.6%200%200%200%200%2082.2c0%205%201.8%209.3%205.4%2012.9l128%20127.9c3.6%203.6%207.8%205.4%2012.8%205.4s9.2-1.8%2012.8-5.4L287%2095c3.5-3.5%205.4-7.8%205.4-12.8%200-5-1.9-9.2-5.5-12.8z%22%2F%3E%3C%2Fsvg%3E");
    background-repeat: no-repeat;
    background-position: right 10px top 50%;
    background-size: 8px auto;
}

.mor-select:hover, .mor-select:focus-visible {
    border-color: var(--mor-accent-hover);
}

.mor-input-wrapper {
    display: flex;
    flex-direction: column;
    gap: 4px;
    margin: var(--mor-padding) 0;
    width: 100%;
}

.mor-input-label {
    font-size: calc(var(--mor-font-size) - 1px);
    color: var(--mor-text-muted);
    font-weight: 500;
}

.mor-input {
    background: var(--mor-bg);
    color: var(--mor-text);
    border: 1px solid var(--mor-border);
    border-radius: var(--mor-radius);
    padding: var(--mor-padding);
    font-size: var(--mor-font-size);
    font-family: var(--mor-font);
    outline: none;
    transition: border-color 0.1s ease;
}

.mor-input:focus-visible {
    border-color: var(--mor-accent-hover);
    box-shadow: 0 0 0 1px var(--mor-accent-hover);
}

/* ── MOR Slider ── */
.mor-slider-shell {
    display: flex;
    flex-direction: column;
    gap: 6px;
    width: 100%;
    user-select: none;
    font-family: var(--mor-font);
}

.mor-slider-header {
    display: flex;
    justify-content: space-between;
    align-items: baseline;
    font-size: calc(var(--mor-font-size) - 1px);
    color: var(--mor-text-muted);
}

.mor-slider-label {
    font-weight: 500;
    color: var(--mor-text);
}

.mor-slider-value {
    font-variant-numeric: tabular-nums;
    min-width: 3ch;
    text-align: right;
}

.mor-slider-input {
    -webkit-appearance: none;
    -moz-appearance: none;
    appearance: none;
    width: 100%;
    height: 6px;
    border-radius: var(--mor-radius);
    background: var(--mor-bg);
    outline: none;
    cursor: pointer;
    transition: background 0.15s ease;
    margin: 4px 0;
}

.mor-slider-input:hover { background: var(--mor-btn); }
.mor-slider-input:focus-visible { outline: 1px solid var(--mor-accent-hover); outline-offset: 3px; }

.mor-slider-input::-webkit-slider-thumb {
    -webkit-appearance: none;
    appearance: none;
    width: 14px;
    height: 14px;
    border-radius: 50%;
    background: var(--mor-accent-hover);
    border: 2px solid var(--mor-border);
    cursor: grab;
}

.mor-slider-input::-moz-range-thumb {
    width: 14px;
    height: 14px;
    border-radius: 50%;
    background: var(--mor-accent-hover);
    border: 2px solid var(--mor-border);
    cursor: grab;
}
"##;

/// The TOML theme that matches the host system: macOS light on `macos`,
/// Windows 11 dark on `windows`, GTK4 dark everywhere else.
pub open spec fn native_theme_spec(os: Seq<char>) -> Seq<char> {
    if os == "macos"@ {
        MAC_OS_LIGHT_TOML@
    } else if os == "windows"@ {
        WIN_11_DARK_TOML@
    } else {
        GTK4_DARK_TOML@
    }
}

/// The TOML theme for the operating system named `os` (as
/// `std::env::consts::OS` names it).
pub fn native_os_theme_for(os: &str) -> (r: &'static str)
    ensures
        r@ == native_theme_spec(os@),
{
    if str_eq(os, "macos") {
        MAC_OS_LIGHT_TOML
    } else if str_eq(os, "windows") {
        WIN_11_DARK_TOML
    } else {
        GTK4_DARK_TOML
    }
}

/// The editor theme: colours, fonts, sizes and the optional image borders.
#[derive(Clone, PartialEq, Eq, Debug)]
pub struct MorTheme {
    pub bg: String,
    pub panel: String,
    pub header: String,
    pub text: String,
    pub text_muted: String,
    pub border: String,
    pub border_light: String,
    pub accent: String,
    pub accent_hover: String,
    pub btn: String,
    pub btn_hover: String,
    pub font_family: String,
    pub font_size_base: String,
    pub font_size_h1: String,
    pub padding_base: String,
    pub border_radius: String,
    pub destructive: String,
    pub success: String,
    pub warning: String,
    pub enable_image_borders: bool,
    pub custom_border_url: Option<String>,
    pub svg_border_slice: String,
    pub image_border_width: String,
    pub target_sidebars: bool,
    pub target_canvas: bool,
}

/// The 9-slice value a theme gets when it names none.
pub fn default_slice() -> (r: String)
    ensures
        r@ == "30"@,
{
    String::from_str("30")
}

/// The image-frame width a theme gets when it names none.
pub fn default_image_width() -> (r: String)
    ensures
        r@ == "20px"@,
{
    String::from_str("20px")
}

/// Whether image borders target the sidebars when a theme does not say.
pub fn default_true() -> (r: bool)
    ensures
        r,
{
    true
}

impl MorTheme {
    /// The fields of the default editor theme.
    pub open spec fn is_default(&self) -> bool {
        &&& self.bg@ == "#2c2c2c"@
        &&& self.panel@ == "#2e2e2e"@
        &&& self.header@ == "#252525"@
        &&& self.text@ == "#e0e0e0"@
        &&& self.text_muted@ == "#888888"@
        &&& self.border@ == "#1f1f1f"@
        &&& self.border_light@ == "#444444"@
        &&& self.accent@ == "#4a6984"@
        &&& self.accent_hover@ == "#4a90d9"@
        &&& self.btn@ == "#3a3a3a"@
        &&& self.btn_hover@ == "#4a4a4a"@
        &&& self.font_family@ == "system-ui, -apple-system, BlinkMacSystemFont, 'Segoe UI', Roboto, sans-serif"@
        &&& self.font_size_base@ == "13px"@
        &&& self.font_size_h1@ == "20px"@
        &&& self.padding_base@ == "8px"@
        &&& self.border_radius@ == "3px"@
        &&& self.destructive@ == "#ff5555"@
        &&& self.success@ == "#50fa7b"@
        &&& self.warning@ == "#f1fa8c"@
        &&& !self.enable_image_borders
        &&& self.custom_border_url is None
        &&& self.svg_border_slice@ == "30"@
        &&& self.image_border_width@ == "20px"@
        &&& self.target_sidebars
        &&& !self.target_canvas
    }

    /// The image-border variables: the frame image, its slice and its width
    /// when image borders are on and a URL is set, else the no-image values.
    pub open spec fn image_vars_spec(&self) -> Seq<char> {
        if self.enable_image_borders && self.custom_border_url is Some {
            "  --mor-border-image: url(\""@ + self.custom_border_url.unwrap()@
                + "\");\n  --mor-border-slice: "@ + self.svg_border_slice@
                + ";\n  --mor-border-width-img: "@ + self.image_border_width@ + ";"@
        } else {
            "  --mor-border-image: none;\n  --mor-border-slice: 0;\n  --mor-border-width-img: var(--panel-border-width);"@
        }
    }

    /// The `:root` block that declares every `--mor-*` variable of the theme.
    pub open spec fn css_vars_spec(&self) -> Seq<char> {
        ":root {\n"@
            + "  --mor-bg: "@ + self.bg@ + ";\n"@
            + "  --mor-panel: "@ + self.panel@ + ";\n"@
            + "  --mor-header: "@ + self.header@ + ";\n"@
            + "  --mor-text: "@ + self.text@ + ";\n"@
            + "  --mor-text-muted: "@ + self.text_muted@ + ";\n"@
            + "  --mor-border: "@ + self.border@ + ";\n"@
            + "  --mor-border-light: "@ + self.border_light@ + ";\n"@
            + "  --mor-accent: "@ + self.accent@ + ";\n"@
            + "  --mor-accent-hover: "@ + self.accent_hover@ + ";\n"@
            + "  --mor-btn: "@ + self.btn@ + ";\n"@
            + "  --mor-btn-hover: "@ + self.btn_hover@ + ";\n"@
            + "  --mor-font: "@ + self.font_family@ + ";\n"@
            + "  --mor-font-size: "@ + self.font_size_base@ + ";\n"@
            + "  --mor-font-h1: "@ + self.font_size_h1@ + ";\n"@
            + "  --mor-padding: "@ + self.padding_base@ + ";\n"@
            + "  --mor-radius: "@ + self.border_radius@ + ";\n"@
            + "  --mor-destructive: "@ + self.destructive@ + ";\n"@
            + "  --mor-success: "@ + self.success@ + ";\n"@
            + "  --mor-warning: "@ + self.warning@ + ";\n"@
            + self.image_vars_spec() + "\n}"@
    }

    /// The `:root` block that declares every `--mor-*` variable of the theme.
    pub fn to_css_vars(&self) -> (r: String)
        ensures
            r@ == self.css_vars_spec(),
    {
        let mut r = String::from_str(":root {\n");
        r.append("  --mor-bg: ");
        r.append(self.bg.as_str());
        r.append(";\n");
        r.append("  --mor-panel: ");
        r.append(self.panel.as_str());
        r.append(";\n");
        r.append("  --mor-header: ");
        r.append(self.header.as_str());
        r.append(";\n");
        r.append("  --mor-text: ");
        r.append(self.text.as_str());
        r.append(";\n");
        r.append("  --mor-text-muted: ");
        r.append(self.text_muted.as_str());
        r.append(";\n");
        r.append("  --mor-border: ");
        r.append(self.border.as_str());
        r.append(";\n");
        r.append("  --mor-border-light: ");
        r.append(self.border_light.as_str());
        r.append(";\n");
        r.append("  --mor-accent: ");
        r.append(self.accent.as_str());
        r.append(";\n");
        r.append("  --mor-accent-hover: ");
        r.append(self.accent_hover.as_str());
        r.append(";\n");
        r.append("  --mor-btn: ");
        r.append(self.btn.as_str());
        r.append(";\n");
        r.append("  --mor-btn-hover: ");
        r.append(self.btn_hover.as_str());
        r.append(";\n");
        r.append("  --mor-font: ");
        r.append(self.font_family.as_str());
        r.append(";\n");
        r.append("  --mor-font-size: ");
        r.append(self.font_size_base.as_str());
        r.append(";\n");
        r.append("  --mor-font-h1: ");
        r.append(self.font_size_h1.as_str());
        r.append(";\n");
        r.append("  --mor-padding: ");
        r.append(self.padding_base.as_str());
        r.append(";\n");
        r.append("  --mor-radius: ");
        r.append(self.border_radius.as_str());
        r.append(";\n");
        r.append("  --mor-destructive: ");
        r.append(self.destructive.as_str());
        r.append(";\n");
        r.append("  --mor-success: ");
        r.append(self.success.as_str());
        r.append(";\n");
        r.append("  --mor-warning: ");
        r.append(self.warning.as_str());
        r.append(";\n");
        match (&self.custom_border_url, self.enable_image_borders) {
            (Some(url), true) => {
                r.append("  --mor-border-image: url(\"");
                r.append(url.as_str());
                r.append("\");\n  --mor-border-slice: ");
                r.append(self.svg_border_slice.as_str());
                r.append(";\n  --mor-border-width-img: ");
                r.append(self.image_border_width.as_str());
                r.append(";");
            },
            _ => {
                r.append("  --mor-border-image: none;\n  --mor-border-slice: 0;\n  --mor-border-width-img: var(--panel-border-width);");
            },
        }
        r.append("\n}");
        proof {
            assert(r@ =~= self.css_vars_spec());
        }
        r
    }
}

impl Default for MorTheme {
    fn default() -> (t: Self)
        ensures
            t.is_default(),
    {
        MorTheme {
            bg: String::from_str("#2c2c2c"),
            panel: String::from_str("#2e2e2e"),
            header: String::from_str("#252525"),
            text: String::from_str("#e0e0e0"),
            text_muted: String::from_str("#888888"),
            border: String::from_str("#1f1f1f"),
            border_light: String::from_str("#444444"),
            accent: String::from_str("#4a6984"),
            accent_hover: String::from_str("#4a90d9"),
            btn: String::from_str("#3a3a3a"),
            btn_hover: String::from_str("#4a4a4a"),
            font_family: String::from_str("system-ui, -apple-system, BlinkMacSystemFont, 'Segoe UI', Roboto, sans-serif"),
            font_size_base: String::from_str("13px"),
            font_size_h1: String::from_str("20px"),
            padding_base: String::from_str("8px"),
            border_radius: String::from_str("3px"),
            destructive: String::from_str("#ff5555"),
            success: String::from_str("#50fa7b"),
            warning: String::from_str("#f1fa8c"),
            enable_image_borders: false,
            custom_border_url: None,
            svg_border_slice: default_slice(),
            image_border_width: default_image_width(),
            target_sidebars: default_true(),
            target_canvas: false,
        }
    }
}

/// A text that ends in a declaration line holds that line.
proof fn lemma_holds_last_line(p: Seq<char>, label: Seq<char>, v: Seq<char>, end: Seq<char>)
    ensures
        contains_spec(p + label + v + end, label + v + end),
{
    let w = p + label + v + end;
    let line = label + v + end;
    assert(w.subrange(p.len() as int, (p.len() + line.len()) as int) =~= line);
    lemma_contains_from_match(w, line, p.len() as int);
}

/// What a text holds, the text with more after it holds too.
proof fn lemma_contains_extend(s: Seq<char>, more: Seq<char>, pat: Seq<char>)
    requires
        contains_spec(s, pat),
    ensures
        contains_spec(s + more, pat),
{
    lemma_contains_match(s, pat);
    let k = choose|k: int| matches_at(s, pat, k);
    assert((s + more).subrange(k, k + pat.len()) =~= s.subrange(k, k + pat.len()));
    lemma_contains_from_match(s + more, pat, k);
}

/// Each `--mor-*` variable of the theme's block carries the theme's own value
/// for it: the block holds the line `  --mor-NAME: VALUE;` for each colour,
/// font and size field.
pub proof fn law_css_vars_carry_each_field(t: MorTheme)
    ensures
        contains_spec(t.css_vars_spec(), "  --mor-bg: "@ + t.bg@ + ";\n"@),
        contains_spec(t.css_vars_spec(), "  --mor-panel: "@ + t.panel@ + ";\n"@),
        contains_spec(t.css_vars_spec(), "  --mor-header: "@ + t.header@ + ";\n"@),
        contains_spec(t.css_vars_spec(), "  --mor-text: "@ + t.text@ + ";\n"@),
        contains_spec(t.css_vars_spec(), "  --mor-text-muted: "@ + t.text_muted@ + ";\n"@),
        contains_spec(t.css_vars_spec(), "  --mor-border: "@ + t.border@ + ";\n"@),
        contains_spec(t.css_vars_spec(), "  --mor-border-light: "@ + t.border_light@ + ";\n"@),
        contains_spec(t.css_vars_spec(), "  --mor-accent: "@ + t.accent@ + ";\n"@),
        contains_spec(t.css_vars_spec(), "  --mor-accent-hover: "@ + t.accent_hover@ + ";\n"@),
        contains_spec(t.css_vars_spec(), "  --mor-btn: "@ + t.btn@ + ";\n"@),
        contains_spec(t.css_vars_spec(), "  --mor-btn-hover: "@ + t.btn_hover@ + ";\n"@),
        contains_spec(t.css_vars_spec(), "  --mor-font: "@ + t.font_family@ + ";\n"@),
        contains_spec(t.css_vars_spec(), "  --mor-font-size: "@ + t.font_size_base@ + ";\n"@),
        contains_spec(t.css_vars_spec(), "  --mor-font-h1: "@ + t.font_size_h1@ + ";\n"@),
        contains_spec(t.css_vars_spec(), "  --mor-padding: "@ + t.padding_base@ + ";\n"@),
        contains_spec(t.css_vars_spec(), "  --mor-radius: "@ + t.border_radius@ + ";\n"@),
        contains_spec(t.css_vars_spec(), "  --mor-destructive: "@ + t.destructive@ + ";\n"@),
        contains_spec(t.css_vars_spec(), "  --mor-success: "@ + t.success@ + ";\n"@),
        contains_spec(t.css_vars_spec(), "  --mor-warning: "@ + t.warning@ + ";\n"@),
{
    assert forall|p: Seq<char>, label: Seq<char>, v: Seq<char>, end: Seq<char>|
        #[trigger] contains_spec(p + label + v + end, label + v + end) by {
        lemma_holds_last_line(p, label, v, end);
    }
    assert forall|x: Seq<char>, more: Seq<char>, pat: Seq<char>|
        contains_spec(x, pat) implies #[trigger] contains_spec(x + more, pat) by {
        lemma_contains_extend(x, more, pat);
    }
}

/// The theme's CSS variables with `--panel-title-color` added as the last
/// declaration: the closing brace (after trailing white space is dropped) is
/// replaced by the declaration and a new brace. A block that does not end in
/// a brace is returned unchanged.
pub open spec fn with_title_color_spec(css: Seq<char>, color: Seq<char>) -> Seq<char> {
    let t = trim_end_spec(css);
    if t.len() > 0 && t.last() == '}' {
        t.drop_last() + "  --panel-title-color: "@ + color + ";\n}"@
    } else {
        css
    }
}

/// Adds the user's panel-title colour to the theme's CSS variables.
pub fn with_panel_title_color(css_vars: &str, color: &str) -> (r: String)
    ensures
        r@ == with_title_color_spec(css_vars@, color@),
{
    let v = chars_of(css_vars);
    let j = trim_end_len(&v);
    if j > 0 && v[j - 1] == '}' {
        let mut r = String::new();
        push_chars(&mut r, &v, 0, j - 1);
        r.append("  --panel-title-color: ");
        r.append(color);
        r.append(";\n}");
        proof {
            assert(v@.take(j as int).drop_last() =~= v@.subrange(0, j - 1));
            assert(r@ =~= with_title_color_spec(css_vars@, color@));
        }
        r
    } else {
        String::from_str(css_vars)
    }
}

/// The window modes the preferences offer: (stored value, label).
pub open spec fn ui_modes_spec() -> Seq<(Seq<char>, Seq<char>)> {
    seq![
        ("frameless"@, "Frameless (Custom OS Buttons)"@),
        ("native"@, "Native OS Window"@),
        ("tiling"@, "Tiling WM (No Buttons)"@),
    ]
}

/// The window modes the preferences offer.
pub fn ui_modes() -> (r: Vec<(&'static str, &'static str)>)
    ensures
        r@.map_values(|p: (&'static str, &'static str)| (p.0@, p.1@)) == ui_modes_spec(),
{
    let r = vec![
        ("frameless", "Frameless (Custom OS Buttons)"),
        ("native", "Native OS Window"),
        ("tiling", "Tiling WM (No Buttons)"),
    ];
    proof {
        assert(r@.map_values(|p: (&'static str, &'static str)| (p.0@, p.1@)) =~= ui_modes_spec());
    }
    r
}

/// The preferences file written when the window mode changes.
pub fn ui_mode_json(mode: &str) -> (r: String)
    ensures
        r@ == "{ \"ui_mode\": \""@ + mode@ + "\" }"@,
{
    let mut r = String::from_str("{ \"ui_mode\": \"");
    r.append(mode);
    r.append("\" }");
    r
}

/// A restart is needed when the chosen window mode is not the running one.
pub fn window_mode_needs_restart(chosen: &str, running: &str) -> (r: bool)
    ensures
        r == (chosen@ != running@),
{
    !str_eq(chosen, running)
}

/// The frame image URL typed by the user: none when the field is blank.
pub fn border_url_input(val: String) -> (r: Option<String>)
    ensures
        match r {
            Some(u) => u@ == val@ && trim_spec(val@).len() > 0,
            None => trim_spec(val@).len() == 0,
        },
{
    if trim(val.as_str()).unicode_len() == 0 {
        None
    } else {
        Some(val)
    }
}

/// The label a new custom icon is filed under: the typed label trimmed, or
/// the message asking for one when it is blank.
pub fn icon_label(typed: &str) -> (r: Result<String, &'static str>)
    ensures
        match r {
            Ok(k) => k@ == trim_spec(typed@) && k@.len() > 0,
            Err(m) => trim_spec(typed@).len() == 0 && m@ == "Error: Provide an icon label first."@,
        },
{
    let k = trim(typed);
    if k.unicode_len() == 0 {
        Err("Error: Provide an icon label first.")
    } else {
        Ok(k)
    }
}

/// The status after an SVG upload: added, or refused as not an SVG.
pub fn svg_upload_status(is_svg: bool) -> (r: &'static str)
    ensures
        r@ == (if is_svg { "SVG added to dictionary!"@ } else { "Error: File is not a valid SVG."@ }),
{
    if is_svg {
        "SVG added to dictionary!"
    } else {
        "Error: File is not a valid SVG."
    }
}

} // verus!
