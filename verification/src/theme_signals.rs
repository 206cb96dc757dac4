//! The theme's live values as the editor's panels edit them, and how a
//! whole theme, a preset or a preset's palette is loaded into them.
//!
//! The value types that the theme configuration leaves open (surface fills,
//! background, icon set, static pages, ads, template pack) are type
//! parameters: the values are moved between configuration and editor as
//! clones, whatever they hold.
use vstd::prelude::*;

verus! {

/// The colours of a palette: base colours, panel frame, glow colours and
/// glow switches. `F` is a panel surface fill.
pub struct ColorSet<F> {
    pub bg_base: String,
    pub bg_panel: F,
    pub bg_elevated: F,
    pub fg_base: String,
    pub fg_muted: String,
    pub accent: String,
    pub border: String,
    pub panel_border_width: String,
    pub glow_spread: String,
    pub hover_scale: String,
    pub panel_border_image_url: String,
    pub panel_border_image_slice: String,
    pub panel_border_image_repeat: String,
    pub glow_color: String,
    pub glow_logo_color: String,
    pub glow_title_color: String,
    pub glow_toc_color: String,
    pub glow_sidebar_color: String,
    pub glow_logo: bool,
    pub glow_title: bool,
    pub glow_toc: bool,
    pub glow_sidebar: bool,
    pub glow_text: bool,
    pub glow_containers: bool,
    pub glow_icons: bool,
    pub glow_text_color: String,
    pub glow_containers_color: String,
    pub glow_icons_color: String,
}

/// One mode (light or dark) of a preset: its colours and background.
pub struct PresetPalette<F, B> {
    pub colors: ColorSet<F>,
    pub background: B,
}

/// The site's identity.
pub struct SiteInfo {
    pub site_title: String,
    pub site_subtitle: String,
    pub header_logo_url: String,
    pub home_url: String,
}

/// The button style.
pub struct ButtonStyle {
    pub radius: String,
    pub border_width: String,
    pub text_transform: String,
}

/// The typography settings.
pub struct TypographyConfig {
    pub body_font_stack: String,
    pub heading_font_stack: String,
    pub mono_font_stack: String,
    pub base_size: String,
    pub scale_ratio: String,
    pub line_height: String,
    pub heading_weight: String,
}

/// The favicon and social card.
pub struct AssetsConfig {
    pub favicon_url: String,
    pub social_card_image_url: String,
}

/// The search-engine settings.
pub struct SeoConfig {
    pub meta_description: String,
    pub meta_keywords: String,
    pub custom_robots: String,
    pub license_url: String,
    pub author_name: String,
}

/// A link of the site menu.
pub struct MenuLink {
    pub label: String,
    pub url: String,
}

/// The footer texts.
pub struct FooterConfig {
    pub footer_text: String,
    pub footer_license_label: String,
    pub footer_license_url: String,
}

/// The theme's own script.
pub struct PluginsConfig {
    pub custom_js: String,
}

/// A whole theme as it is saved.
pub struct ThemeConfig<F, B, I, SP, A, P> {
    pub site: SiteInfo,
    pub colors: ColorSet<F>,
    pub buttons: ButtonStyle,
    pub typography: TypographyConfig,
    pub background: B,
    pub assets: AssetsConfig,
    pub seo: SeoConfig,
    pub menu_links: Vec<MenuLink>,
    pub footer: FooterConfig,
    pub plugins: PluginsConfig,
    pub static_pages: SP,
    pub ads: A,
    pub icons: I,
    pub template_pack: P,
    pub enable_image_borders: bool,
    pub custom_border_url: Option<String>,
    pub svg_border_slice: String,
    pub image_border_width: String,
    pub target_sidebars: bool,
    pub target_canvas: bool,
    pub cursor_style: String,
    pub scrollbar_width: String,
    pub scrollbar_track_color: String,
    pub scrollbar_thumb_color: String,
    pub scrollbar_thumb_hover_color: String,
    pub preset_css: String,
}

/// A preset: a light and a dark palette, the theme it is based on, and its
/// own CSS.
pub struct Preset<F, B, I, SP, A, P> {
    pub light: PresetPalette<F, B>,
    pub dark: PresetPalette<F, B>,
    pub base_config: ThemeConfig<F, B, I, SP, A, P>,
    pub preset_css: String,
}

/// The live values the editor's panels edit.
pub struct ThemeSignals<F, B, I, SP, A, P> {
    pub is_dark_mode: bool,
    pub site_title: String,
    pub site_subtitle: String,
    pub header_logo_url: String,
    pub home_url: String,
    pub bg_base: String,
    pub bg_panel: F,
    pub bg_elevated: F,
    pub fg_base: String,
    pub fg_muted: String,
    pub accent: String,
    pub border: String,
    pub panel_border_width: String,
    pub glow_spread: String,
    pub hover_scale: String,
    pub panel_border_image_url: String,
    pub panel_border_image_slice: String,
    pub panel_border_image_repeat: String,
    pub btn_radius: String,
    pub btn_border_width: String,
    pub btn_text_transform: String,
    pub body_font_stack: String,
    pub heading_font_stack: String,
    pub mono_font_stack: String,
    pub base_size: String,
    pub scale_ratio: String,
    pub line_height: String,
    pub heading_weight: String,
    pub background: B,
    pub favicon_url: String,
    pub social_card_image_url: String,
    pub meta_description: String,
    pub meta_keywords: String,
    pub custom_robots: String,
    pub license_url: String,
    pub author_name: String,
    pub menu_1_label: String,
    pub menu_1_url: String,
    pub menu_2_label: String,
    pub menu_2_url: String,
    pub menu_3_label: String,
    pub menu_3_url: String,
    pub menu_4_label: String,
    pub menu_4_url: String,
    pub footer_text: String,
    pub footer_license_label: String,
    pub footer_license_url: String,
    pub custom_js: String,
    pub preset_css: String,
    pub static_pages: SP,
    pub ads: A,
    pub icons: I,
    pub template_pack: P,
    pub enable_image_borders: bool,
    pub custom_border_url: Option<String>,
    pub svg_border_slice: String,
    pub image_border_width: String,
    pub target_sidebars: bool,
    pub target_canvas: bool,
    pub glow_color: String,
    pub glow_logo: bool,
    pub glow_title: bool,
    pub glow_toc: bool,
    pub glow_sidebar: bool,
    pub glow_logo_color: String,
    pub glow_title_color: String,
    pub glow_toc_color: String,
    pub glow_sidebar_color: String,
    pub glow_text: bool,
    pub glow_containers: bool,
    pub glow_icons: bool,
    pub glow_text_color: String,
    pub glow_containers_color: String,
    pub glow_icons_color: String,
    pub cursor_style: String,
    pub scrollbar_width: String,
    pub scrollbar_track_color: String,
    pub scrollbar_thumb_color: String,
    pub scrollbar_thumb_hover_color: String,
}

/// Menu slot `i` (of four) for a list of links: the link's label and URL, or
/// two empty texts when there are fewer links.
pub open spec fn menu_slot_spec(links: Seq<MenuLink>, i: int) -> (Seq<char>, Seq<char>) {
    if 0 <= i < links.len() {
        (links[i].label@, links[i].url@)
    } else {
        (Seq::empty(), Seq::empty())
    }
}

/// Menu slot `i` for a list of links.
pub fn menu_slot(links: &Vec<MenuLink>, i: usize) -> (r: (String, String))
    ensures
        (r.0@, r.1@) == menu_slot_spec(links@, i as int),
{
    if i < links.len() {
        (links[i].label.clone(), links[i].url.clone())
    } else {
        (String::new(), String::new())
    }
}

/// A copy of an optional text.
fn copy_opt_string(o: &Option<String>) -> (r: Option<String>)
    ensures
        r == *o,
{
    match o {
        Some(s) => Some(s.clone()),
        None => None,
    }
}

/// The values after a palette swap: the palette's base colours, glow colours,
/// glow switches and background; every other value as it was.
pub open spec fn palette_swapped<F: Clone, B: Clone, I: Clone, SP: Clone, A: Clone, P: Clone>(
    old: ThemeSignals<F, B, I, SP, A, P>,
    new: ThemeSignals<F, B, I, SP, A, P>,
    pal: PresetPalette<F, B>,
) -> bool {
    &&& new.is_dark_mode == old.is_dark_mode
    &&& new.site_title == old.site_title
    &&& new.site_subtitle == old.site_subtitle
    &&& new.header_logo_url == old.header_logo_url
    &&& new.home_url == old.home_url
    &&& new.bg_base == pal.colors.bg_base
    &&& cloned(pal.colors.bg_panel, new.bg_panel)
    &&& cloned(pal.colors.bg_elevated, new.bg_elevated)
    &&& new.fg_base == pal.colors.fg_base
    &&& new.fg_muted == pal.colors.fg_muted
    &&& new.accent == pal.colors.accent
    &&& new.border == pal.colors.border
    &&& new.panel_border_width == old.panel_border_width
    &&& new.glow_spread == old.glow_spread
    &&& new.hover_scale == old.hover_scale
    &&& new.panel_border_image_url == old.panel_border_image_url
    &&& new.panel_border_image_slice == old.panel_border_image_slice
    &&& new.panel_border_image_repeat == old.panel_border_image_repeat
    &&& new.btn_radius == old.btn_radius
    &&& new.btn_border_width == old.btn_border_width
    &&& new.btn_text_transform == old.btn_text_transform
    &&& new.body_font_stack == old.body_font_stack
    &&& new.heading_font_stack == old.heading_font_stack
    &&& new.mono_font_stack == old.mono_font_stack
    &&& new.base_size == old.base_size
    &&& new.scale_ratio == old.scale_ratio
    &&& new.line_height == old.line_height
    &&& new.heading_weight == old.heading_weight
    &&& cloned(pal.background, new.background)
    &&& new.favicon_url == old.favicon_url
    &&& new.social_card_image_url == old.social_card_image_url
    &&& new.meta_description == old.meta_description
    &&& new.meta_keywords == old.meta_keywords
    &&& new.custom_robots == old.custom_robots
    &&& new.license_url == old.license_url
    &&& new.author_name == old.author_name
    &&& new.menu_1_label == old.menu_1_label
    &&& new.menu_1_url == old.menu_1_url
    &&& new.menu_2_label == old.menu_2_label
    &&& new.menu_2_url == old.menu_2_url
    &&& new.menu_3_label == old.menu_3_label
    &&& new.menu_3_url == old.menu_3_url
    &&& new.menu_4_label == old.menu_4_label
    &&& new.menu_4_url == old.menu_4_url
    &&& new.footer_text == old.footer_text
    &&& new.footer_license_label == old.footer_license_label
    &&& new.footer_license_url == old.footer_license_url
    &&& new.custom_js == old.custom_js
    &&& new.preset_css == old.preset_css
    &&& new.static_pages == old.static_pages
    &&& new.ads == old.ads
    &&& new.icons == old.icons
    &&& new.template_pack == old.template_pack
    &&& new.enable_image_borders == old.enable_image_borders
    &&& new.custom_border_url == old.custom_border_url
    &&& new.svg_border_slice == old.svg_border_slice
    &&& new.image_border_width == old.image_border_width
    &&& new.target_sidebars == old.target_sidebars
    &&& new.target_canvas == old.target_canvas
    &&& new.glow_color == pal.colors.glow_color
    &&& new.glow_logo == old.glow_logo
    &&& new.glow_title == old.glow_title
    &&& new.glow_toc == old.glow_toc
    &&& new.glow_sidebar == old.glow_sidebar
    &&& new.glow_logo_color == pal.colors.glow_logo_color
    &&& new.glow_title_color == pal.colors.glow_title_color
    &&& new.glow_toc_color == pal.colors.glow_toc_color
    &&& new.glow_sidebar_color == pal.colors.glow_sidebar_color
    &&& new.glow_text == pal.colors.glow_text
    &&& new.glow_containers == pal.colors.glow_containers
    &&& new.glow_icons == pal.colors.glow_icons
    &&& new.glow_text_color == pal.colors.glow_text_color
    &&& new.glow_containers_color == pal.colors.glow_containers_color
    &&& new.glow_icons_color == pal.colors.glow_icons_color
    &&& new.cursor_style == old.cursor_style
    &&& new.scrollbar_width == old.scrollbar_width
    &&& new.scrollbar_track_color == old.scrollbar_track_color
    &&& new.scrollbar_thumb_color == old.scrollbar_thumb_color
    &&& new.scrollbar_thumb_hover_color == old.scrollbar_thumb_hover_color
}

/// The values after a preset is applied in the current mode: every colour
/// of the mode's palette and its background, and the preset's icons, CSS,
/// buttons, typography and scrollbars; the site data, menus, footer, script,
/// pages, ads, template pack, frames and cursor as they were.
pub open spec fn preset_applied<F: Clone, B: Clone, I: Clone, SP: Clone, A: Clone, P: Clone>(
    old: ThemeSignals<F, B, I, SP, A, P>,
    new: ThemeSignals<F, B, I, SP, A, P>,
    preset: Preset<F, B, I, SP, A, P>,
) -> bool {
    let pal = if old.is_dark_mode { preset.dark } else { preset.light };
    let base = preset.base_config;
    &&& new.is_dark_mode == old.is_dark_mode
    &&& new.site_title == old.site_title
    &&& new.site_subtitle == old.site_subtitle
    &&& new.header_logo_url == old.header_logo_url
    &&& new.home_url == old.home_url
    &&& new.bg_base == pal.colors.bg_base
    &&& cloned(pal.colors.bg_panel, new.bg_panel)
    &&& cloned(pal.colors.bg_elevated, new.bg_elevated)
    &&& new.fg_base == pal.colors.fg_base
    &&& new.fg_muted == pal.colors.fg_muted
    &&& new.accent == pal.colors.accent
    &&& new.border == pal.colors.border
    &&& new.panel_border_width == pal.colors.panel_border_width
    &&& new.glow_spread == pal.colors.glow_spread
    &&& new.hover_scale == pal.colors.hover_scale
    &&& new.panel_border_image_url == pal.colors.panel_border_image_url
    &&& new.panel_border_image_slice == pal.colors.panel_border_image_slice
    &&& new.panel_border_image_repeat == pal.colors.panel_border_image_repeat
    &&& new.btn_radius == base.buttons.radius
    &&& new.btn_border_width == base.buttons.border_width
    &&& new.btn_text_transform == base.buttons.text_transform
    &&& new.body_font_stack == base.typography.body_font_stack
    &&& new.heading_font_stack == base.typography.heading_font_stack
    &&& new.mono_font_stack == base.typography.mono_font_stack
    &&& new.base_size == base.typography.base_size
    &&& new.scale_ratio == base.typography.scale_ratio
    &&& new.line_height == base.typography.line_height
    &&& new.heading_weight == base.typography.heading_weight
    &&& cloned(pal.background, new.background)
    &&& new.favicon_url == old.favicon_url
    &&& new.social_card_image_url == old.social_card_image_url
    &&& new.meta_description == old.meta_description
    &&& new.meta_keywords == old.meta_keywords
    &&& new.custom_robots == old.custom_robots
    &&& new.license_url == old.license_url
    &&& new.author_name == old.author_name
    &&& new.menu_1_label == old.menu_1_label
    &&& new.menu_1_url == old.menu_1_url
    &&& new.menu_2_label == old.menu_2_label
    &&& new.menu_2_url == old.menu_2_url
    &&& new.menu_3_label == old.menu_3_label
    &&& new.menu_3_url == old.menu_3_url
    &&& new.menu_4_label == old.menu_4_label
    &&& new.menu_4_url == old.menu_4_url
    &&& new.footer_text == old.footer_text
    &&& new.footer_license_label == old.footer_license_label
    &&& new.footer_license_url == old.footer_license_url
    &&& new.custom_js == old.custom_js
    &&& new.preset_css == preset.preset_css
    &&& new.static_pages == old.static_pages
    &&& new.ads == old.ads
    &&& cloned(base.icons, new.icons)
    &&& new.template_pack == old.template_pack
    &&& new.enable_image_borders == old.enable_image_borders
    &&& new.custom_border_url == old.custom_border_url
    &&& new.svg_border_slice == old.svg_border_slice
    &&& new.image_border_width == old.image_border_width
    &&& new.target_sidebars == old.target_sidebars
    &&& new.target_canvas == old.target_canvas
    &&& new.glow_color == pal.colors.glow_color
    &&& new.glow_logo == pal.colors.glow_logo
    &&& new.glow_title == pal.colors.glow_title
    &&& new.glow_toc == pal.colors.glow_toc
    &&& new.glow_sidebar == pal.colors.glow_sidebar
    &&& new.glow_logo_color == pal.colors.glow_logo_color
    &&& new.glow_title_color == pal.colors.glow_title_color
    &&& new.glow_toc_color == pal.colors.glow_toc_color
    &&& new.glow_sidebar_color == pal.colors.glow_sidebar_color
    &&& new.glow_text == pal.colors.glow_text
    &&& new.glow_containers == pal.colors.glow_containers
    &&& new.glow_icons == pal.colors.glow_icons
    &&& new.glow_text_color == pal.colors.glow_text_color
    &&& new.glow_containers_color == pal.colors.glow_containers_color
    &&& new.glow_icons_color == pal.colors.glow_icons_color
    &&& new.cursor_style == old.cursor_style
    &&& new.scrollbar_width == base.scrollbar_width
    &&& new.scrollbar_track_color == base.scrollbar_track_color
    &&& new.scrollbar_thumb_color == base.scrollbar_thumb_color
    &&& new.scrollbar_thumb_hover_color == base.scrollbar_thumb_hover_color
}

/// The values after the non-colour part of a theme is applied: site, buttons,
/// typography, assets, SEO, the four menu slots, footer, script, pages, ads,
/// frames, cursor and scrollbars from the theme; colours, background, icons,
/// template pack and CSS as they were.
pub open spec fn config_applied_except_palette<F: Clone, B: Clone, I: Clone, SP: Clone, A: Clone, P: Clone>(
    old: ThemeSignals<F, B, I, SP, A, P>,
    new: ThemeSignals<F, B, I, SP, A, P>,
    c: ThemeConfig<F, B, I, SP, A, P>,
) -> bool {
    &&& new.is_dark_mode == old.is_dark_mode
    &&& new.site_title == c.site.site_title
    &&& new.site_subtitle == c.site.site_subtitle
    &&& new.header_logo_url == c.site.header_logo_url
    &&& new.home_url == c.site.home_url
    &&& new.bg_base == old.bg_base
    &&& new.bg_panel == old.bg_panel
    &&& new.bg_elevated == old.bg_elevated
    &&& new.fg_base == old.fg_base
    &&& new.fg_muted == old.fg_muted
    &&& new.accent == old.accent
    &&& new.border == old.border
    &&& new.panel_border_width == old.panel_border_width
    &&& new.glow_spread == old.glow_spread
    &&& new.hover_scale == old.hover_scale
    &&& new.panel_border_image_url == old.panel_border_image_url
    &&& new.panel_border_image_slice == old.panel_border_image_slice
    &&& new.panel_border_image_repeat == old.panel_border_image_repeat
    &&& new.btn_radius == c.buttons.radius
    &&& new.btn_border_width == c.buttons.border_width
    &&& new.btn_text_transform == c.buttons.text_transform
    &&& new.body_font_stack == c.typography.body_font_stack
    &&& new.heading_font_stack == c.typography.heading_font_stack
    &&& new.mono_font_stack == c.typography.mono_font_stack
    &&& new.base_size == c.typography.base_size
    &&& new.scale_ratio == c.typography.scale_ratio
    &&& new.line_height == c.typography.line_height
    &&& new.heading_weight == c.typography.heading_weight
    &&& new.background == old.background
    &&& new.favicon_url == c.assets.favicon_url
    &&& new.social_card_image_url == c.assets.social_card_image_url
    &&& new.meta_description == c.seo.meta_description
    &&& new.meta_keywords == c.seo.meta_keywords
    &&& new.custom_robots == c.seo.custom_robots
    &&& new.license_url == c.seo.license_url
    &&& new.author_name == c.seo.author_name
    &&& new.menu_1_label@ == menu_slot_spec(c.menu_links@, 0).0
    &&& new.menu_1_url@ == menu_slot_spec(c.menu_links@, 0).1
    &&& new.menu_2_label@ == menu_slot_spec(c.menu_links@, 1).0
    &&& new.menu_2_url@ == menu_slot_spec(c.menu_links@, 1).1
    &&& new.menu_3_label@ == menu_slot_spec(c.menu_links@, 2).0
    &&& new.menu_3_url@ == menu_slot_spec(c.menu_links@, 2).1
    &&& new.menu_4_label@ == menu_slot_spec(c.menu_links@, 3).0
    &&& new.menu_4_url@ == menu_slot_spec(c.menu_links@, 3).1
    &&& new.footer_text == c.footer.footer_text
    &&& new.footer_license_label == c.footer.footer_license_label
    &&& new.footer_license_url == c.footer.footer_license_url
    &&& new.custom_js == c.plugins.custom_js
    &&& new.preset_css == old.preset_css
    &&& cloned(c.static_pages, new.static_pages)
    &&& cloned(c.ads, new.ads)
    &&& new.icons == old.icons
    &&& new.template_pack == old.template_pack
    &&& new.enable_image_borders == c.enable_image_borders
    &&& new.custom_border_url == c.custom_border_url
    &&& new.svg_border_slice == c.svg_border_slice
    &&& new.image_border_width == c.image_border_width
    &&& new.target_sidebars == c.target_sidebars
    &&& new.target_canvas == c.target_canvas
    &&& new.glow_color == old.glow_color
    &&& new.glow_logo == old.glow_logo
    &&& new.glow_title == old.glow_title
    &&& new.glow_toc == old.glow_toc
    &&& new.glow_sidebar == old.glow_sidebar
    &&& new.glow_logo_color == old.glow_logo_color
    &&& new.glow_title_color == old.glow_title_color
    &&& new.glow_toc_color == old.glow_toc_color
    &&& new.glow_sidebar_color == old.glow_sidebar_color
    &&& new.glow_text == old.glow_text
    &&& new.glow_containers == old.glow_containers
    &&& new.glow_icons == old.glow_icons
    &&& new.glow_text_color == old.glow_text_color
    &&& new.glow_containers_color == old.glow_containers_color
    &&& new.glow_icons_color == old.glow_icons_color
    &&& new.cursor_style == c.cursor_style
    &&& new.scrollbar_width == c.scrollbar_width
    &&& new.scrollbar_track_color == c.scrollbar_track_color
    &&& new.scrollbar_thumb_color == c.scrollbar_thumb_color
    &&& new.scrollbar_thumb_hover_color == c.scrollbar_thumb_hover_color
}

/// The values after a whole theme is applied: every value from the theme
/// (the menus from its first four links), except the light/dark mode.
pub open spec fn config_applied<F: Clone, B: Clone, I: Clone, SP: Clone, A: Clone, P: Clone>(
    old: ThemeSignals<F, B, I, SP, A, P>,
    new: ThemeSignals<F, B, I, SP, A, P>,
    c: ThemeConfig<F, B, I, SP, A, P>,
) -> bool {
    &&& new.is_dark_mode == old.is_dark_mode
    &&& new.site_title == c.site.site_title
    &&& new.site_subtitle == c.site.site_subtitle
    &&& new.header_logo_url == c.site.header_logo_url
    &&& new.home_url == c.site.home_url
    &&& new.bg_base == c.colors.bg_base
    &&& cloned(c.colors.bg_panel, new.bg_panel)
    &&& cloned(c.colors.bg_elevated, new.bg_elevated)
    &&& new.fg_base == c.colors.fg_base
    &&& new.fg_muted == c.colors.fg_muted
    &&& new.accent == c.colors.accent
    &&& new.border == c.colors.border
    &&& new.panel_border_width == c.colors.panel_border_width
    &&& new.glow_spread == c.colors.glow_spread
    &&& new.hover_scale == c.colors.hover_scale
    &&& new.panel_border_image_url == c.colors.panel_border_image_url
    &&& new.panel_border_image_slice == c.colors.panel_border_image_slice
    &&& new.panel_border_image_repeat == c.colors.panel_border_image_repeat
    &&& new.btn_radius == c.buttons.radius
    &&& new.btn_border_width == c.buttons.border_width
    &&& new.btn_text_transform == c.buttons.text_transform
    &&& new.body_font_stack == c.typography.body_font_stack
    &&& new.heading_font_stack == c.typography.heading_font_stack
    &&& new.mono_font_stack == c.typography.mono_font_stack
    &&& new.base_size == c.typography.base_size
    &&& new.scale_ratio == c.typography.scale_ratio
    &&& new.line_height == c.typography.line_height
    &&& new.heading_weight == c.typography.heading_weight
    &&& cloned(c.background, new.background)
    &&& new.favicon_url == c.assets.favicon_url
    &&& new.social_card_image_url == c.assets.social_card_image_url
    &&& new.meta_description == c.seo.meta_description
    &&& new.meta_keywords == c.seo.meta_keywords
    &&& new.custom_robots == c.seo.custom_robots
    &&& new.license_url == c.seo.license_url
    &&& new.author_name == c.seo.author_name
    &&& new.menu_1_label@ == menu_slot_spec(c.menu_links@, 0).0
    &&& new.menu_1_url@ == menu_slot_spec(c.menu_links@, 0).1
    &&& new.menu_2_label@ == menu_slot_spec(c.menu_links@, 1).0
    &&& new.menu_2_url@ == menu_slot_spec(c.menu_links@, 1).1
    &&& new.menu_3_label@ == menu_slot_spec(c.menu_links@, 2).0
    &&& new.menu_3_url@ == menu_slot_spec(c.menu_links@, 2).1
    &&& new.menu_4_label@ == menu_slot_spec(c.menu_links@, 3).0
    &&& new.menu_4_url@ == menu_slot_spec(c.menu_links@, 3).1
    &&& new.footer_text == c.footer.footer_text
    &&& new.footer_license_label == c.footer.footer_license_label
    &&& new.footer_license_url == c.footer.footer_license_url
    &&& new.custom_js == c.plugins.custom_js
    &&& new.preset_css == c.preset_css
    &&& cloned(c.static_pages, new.static_pages)
    &&& cloned(c.ads, new.ads)
    &&& cloned(c.icons, new.icons)
    &&& cloned(c.template_pack, new.template_pack)
    &&& new.enable_image_borders == c.enable_image_borders
    &&& new.custom_border_url == c.custom_border_url
    &&& new.svg_border_slice == c.svg_border_slice
    &&& new.image_border_width == c.image_border_width
    &&& new.target_sidebars == c.target_sidebars
    &&& new.target_canvas == c.target_canvas
    &&& new.glow_color == c.colors.glow_color
    &&& new.glow_logo == c.colors.glow_logo
    &&& new.glow_title == c.colors.glow_title
    &&& new.glow_toc == c.colors.glow_toc
    &&& new.glow_sidebar == c.colors.glow_sidebar
    &&& new.glow_logo_color == c.colors.glow_logo_color
    &&& new.glow_title_color == c.colors.glow_title_color
    &&& new.glow_toc_color == c.colors.glow_toc_color
    &&& new.glow_sidebar_color == c.colors.glow_sidebar_color
    &&& new.glow_text == c.colors.glow_text
    &&& new.glow_containers == c.colors.glow_containers
    &&& new.glow_icons == c.colors.glow_icons
    &&& new.glow_text_color == c.colors.glow_text_color
    &&& new.glow_containers_color == c.colors.glow_containers_color
    &&& new.glow_icons_color == c.colors.glow_icons_color
    &&& new.cursor_style == c.cursor_style
    &&& new.scrollbar_width == c.scrollbar_width
    &&& new.scrollbar_track_color == c.scrollbar_track_color
    &&& new.scrollbar_thumb_color == c.scrollbar_thumb_color
    &&& new.scrollbar_thumb_hover_color == c.scrollbar_thumb_hover_color
}

impl<F: Clone, B: Clone, I: Clone, SP: Clone, A: Clone, P: Clone> ThemeSignals<F, B, I, SP, A, P> {
    /// Loads a preset in the current mode: the mode's palette (through
    /// `swap_palette`), then its frame and glow settings, and the preset's
    /// icons, CSS, buttons, typography and scrollbars.
    #[verifier::rlimit(40)]
    pub fn apply_preset(&mut self, preset: &Preset<F, B, I, SP, A, P>)
        ensures
            preset_applied(*old(self), *final(self), *preset),
    {
        let pal = if self.is_dark_mode { &preset.dark } else { &preset.light };
        self.swap_palette(pal);
        self.panel_border_width = pal.colors.panel_border_width.clone();
        self.glow_spread = pal.colors.glow_spread.clone();
        self.hover_scale = pal.colors.hover_scale.clone();
        self.panel_border_image_url = pal.colors.panel_border_image_url.clone();
        self.panel_border_image_slice = pal.colors.panel_border_image_slice.clone();
        self.panel_border_image_repeat = pal.colors.panel_border_image_repeat.clone();
        self.glow_color = pal.colors.glow_color.clone();
        self.glow_logo_color = pal.colors.glow_logo_color.clone();
        self.glow_title_color = pal.colors.glow_title_color.clone();
        self.glow_toc_color = pal.colors.glow_toc_color.clone();
        self.glow_sidebar_color = pal.colors.glow_sidebar_color.clone();
        self.glow_logo = pal.colors.glow_logo;
        self.glow_title = pal.colors.glow_title;
        self.glow_toc = pal.colors.glow_toc;
        self.glow_sidebar = pal.colors.glow_sidebar;
        self.glow_text = pal.colors.glow_text;
        self.glow_containers = pal.colors.glow_containers;
        self.glow_icons = pal.colors.glow_icons;
        self.glow_text_color = pal.colors.glow_text_color.clone();
        self.glow_containers_color = pal.colors.glow_containers_color.clone();
        self.glow_icons_color = pal.colors.glow_icons_color.clone();
        self.icons = preset.base_config.icons.clone();
        self.apply_preset_css(preset);
        self.btn_radius = preset.base_config.buttons.radius.clone();
        self.btn_border_width = preset.base_config.buttons.border_width.clone();
        self.btn_text_transform = preset.base_config.buttons.text_transform.clone();
        self.body_font_stack = preset.base_config.typography.body_font_stack.clone();
        self.heading_font_stack = preset.base_config.typography.heading_font_stack.clone();
        self.mono_font_stack = preset.base_config.typography.mono_font_stack.clone();
        self.base_size = preset.base_config.typography.base_size.clone();
        self.scale_ratio = preset.base_config.typography.scale_ratio.clone();
        self.line_height = preset.base_config.typography.line_height.clone();
        self.heading_weight = preset.base_config.typography.heading_weight.clone();
        self.scrollbar_width = preset.base_config.scrollbar_width.clone();
        self.scrollbar_track_color = preset.base_config.scrollbar_track_color.clone();
        self.scrollbar_thumb_color = preset.base_config.scrollbar_thumb_color.clone();
        self.scrollbar_thumb_hover_color = preset.base_config.scrollbar_thumb_hover_color.clone();
    }

    /// Loads a whole theme: its colours and frames, then everything else
    /// (through `apply_config_except_palette`), then its CSS.
    #[verifier::rlimit(40)]
    pub fn apply_config(&mut self, config: &ThemeConfig<F, B, I, SP, A, P>)
        ensures
            config_applied(*old(self), *final(self), *config),
    {
        self.bg_base = config.colors.bg_base.clone();
        self.bg_panel = config.colors.bg_panel.clone();
        self.bg_elevated = config.colors.bg_elevated.clone();
        self.fg_base = config.colors.fg_base.clone();
        self.fg_muted = config.colors.fg_muted.clone();
        self.accent = config.colors.accent.clone();
        self.border = config.colors.border.clone();
        self.panel_border_width = config.colors.panel_border_width.clone();
        self.glow_spread = config.colors.glow_spread.clone();
        self.hover_scale = config.colors.hover_scale.clone();
        self.panel_border_image_url = config.colors.panel_border_image_url.clone();
        self.panel_border_image_slice = config.colors.panel_border_image_slice.clone();
        self.panel_border_image_repeat = config.colors.panel_border_image_repeat.clone();
        self.background = config.background.clone();
        self.icons = config.icons.clone();
        self.template_pack = config.template_pack.clone();
        self.enable_image_borders = config.enable_image_borders;
        self.custom_border_url = copy_opt_string(&config.custom_border_url);
        self.svg_border_slice = config.svg_border_slice.clone();
        self.image_border_width = config.image_border_width.clone();
        self.target_sidebars = config.target_sidebars;
        self.target_canvas = config.target_canvas;
        self.glow_color = config.colors.glow_color.clone();
        self.glow_logo_color = config.colors.glow_logo_color.clone();
        self.glow_title_color = config.colors.glow_title_color.clone();
        self.glow_toc_color = config.colors.glow_toc_color.clone();
        self.glow_sidebar_color = config.colors.glow_sidebar_color.clone();
        self.glow_logo = config.colors.glow_logo;
        self.glow_title = config.colors.glow_title;
        self.glow_toc = config.colors.glow_toc;
        self.glow_sidebar = config.colors.glow_sidebar;
        self.glow_text = config.colors.glow_text;
        self.glow_containers = config.colors.glow_containers;
        self.glow_icons = config.colors.glow_icons;
        self.glow_text_color = config.colors.glow_text_color.clone();
        self.glow_containers_color = config.colors.glow_containers_color.clone();
        self.glow_icons_color = config.colors.glow_icons_color.clone();
        self.scrollbar_width = config.scrollbar_width.clone();
        self.scrollbar_track_color = config.scrollbar_track_color.clone();
        self.scrollbar_thumb_color = config.scrollbar_thumb_color.clone();
        self.scrollbar_thumb_hover_color = config.scrollbar_thumb_hover_color.clone();
        self.apply_config_except_palette(config);
        self.preset_css = config.preset_css.clone();
    }

    /// Loads a preset's CSS.
    pub fn apply_preset_css(&mut self, preset: &Preset<F, B, I, SP, A, P>)
        ensures
            *final(self) == (ThemeSignals { preset_css: preset.preset_css, ..*old(self) }),
    {
        self.preset_css = preset.preset_css.clone();
    }

    /// Loads everything of a theme but its colours, background, icons,
    /// template pack and CSS; the menus take the theme's first four links.
    #[verifier::rlimit(40)]
    fn apply_config_except_palette(&mut self, config: &ThemeConfig<F, B, I, SP, A, P>)
        ensures
            config_applied_except_palette(*old(self), *final(self), *config),
    {
        self.site_title = config.site.site_title.clone();
        self.site_subtitle = config.site.site_subtitle.clone();
        self.header_logo_url = config.site.header_logo_url.clone();
        self.home_url = config.site.home_url.clone();
        self.btn_radius = config.buttons.radius.clone();
        self.btn_border_width = config.buttons.border_width.clone();
        self.btn_text_transform = config.buttons.text_transform.clone();
        self.body_font_stack = config.typography.body_font_stack.clone();
        self.heading_font_stack = config.typography.heading_font_stack.clone();
        self.mono_font_stack = config.typography.mono_font_stack.clone();
        self.base_size = config.typography.base_size.clone();
        self.scale_ratio = config.typography.scale_ratio.clone();
        self.line_height = config.typography.line_height.clone();
        self.heading_weight = config.typography.heading_weight.clone();
        self.favicon_url = config.assets.favicon_url.clone();
        self.social_card_image_url = config.assets.social_card_image_url.clone();
        self.meta_description = config.seo.meta_description.clone();
        self.meta_keywords = config.seo.meta_keywords.clone();
        self.custom_robots = config.seo.custom_robots.clone();
        self.license_url = config.seo.license_url.clone();
        self.author_name = config.seo.author_name.clone();
        let (l1, u1) = menu_slot(&config.menu_links, 0);
        self.menu_1_label = l1;
        self.menu_1_url = u1;
        let (l2, u2) = menu_slot(&config.menu_links, 1);
        self.menu_2_label = l2;
        self.menu_2_url = u2;
        let (l3, u3) = menu_slot(&config.menu_links, 2);
        self.menu_3_label = l3;
        self.menu_3_url = u3;
        let (l4, u4) = menu_slot(&config.menu_links, 3);
        self.menu_4_label = l4;
        self.menu_4_url = u4;
        self.footer_text = config.footer.footer_text.clone();
        self.footer_license_label = config.footer.footer_license_label.clone();
        self.footer_license_url = config.footer.footer_license_url.clone();
        self.custom_js = config.plugins.custom_js.clone();
        self.static_pages = config.static_pages.clone();
        self.ads = config.ads.clone();
        self.enable_image_borders = config.enable_image_borders;
        self.custom_border_url = copy_opt_string(&config.custom_border_url);
        self.svg_border_slice = config.svg_border_slice.clone();
        self.image_border_width = config.image_border_width.clone();
        self.target_sidebars = config.target_sidebars;
        self.target_canvas = config.target_canvas;
        self.cursor_style = config.cursor_style.clone();
        self.scrollbar_width = config.scrollbar_width.clone();
        self.scrollbar_track_color = config.scrollbar_track_color.clone();
        self.scrollbar_thumb_color = config.scrollbar_thumb_color.clone();
        self.scrollbar_thumb_hover_color = config.scrollbar_thumb_hover_color.clone();
    }

    /// Loads a palette's base colours, glow colours, glow switches and
    /// background.
    pub fn swap_palette(&mut self, palette: &PresetPalette<F, B>)
        ensures
            palette_swapped(*old(self), *final(self), *palette),
    {
        self.bg_base = palette.colors.bg_base.clone();
        self.bg_panel = palette.colors.bg_panel.clone();
        self.bg_elevated = palette.colors.bg_elevated.clone();
        self.fg_base = palette.colors.fg_base.clone();
        self.fg_muted = palette.colors.fg_muted.clone();
        self.accent = palette.colors.accent.clone();
        self.border = palette.colors.border.clone();
        self.glow_color = palette.colors.glow_color.clone();
        self.glow_logo_color = palette.colors.glow_logo_color.clone();
        self.glow_title_color = palette.colors.glow_title_color.clone();
        self.glow_toc_color = palette.colors.glow_toc_color.clone();
        self.glow_sidebar_color = palette.colors.glow_sidebar_color.clone();
        self.glow_text = palette.colors.glow_text;
        self.glow_containers = palette.colors.glow_containers;
        self.glow_icons = palette.colors.glow_icons;
        self.glow_text_color = palette.colors.glow_text_color.clone();
        self.glow_containers_color = palette.colors.glow_containers_color.clone();
        self.glow_icons_color = palette.colors.glow_icons_color.clone();
        self.background = palette.background.clone();
    }
}

/// A preset restyles a theme but keeps its content: after a theme and then a
/// preset are loaded, the site identity, assets, SEO, menus, footer, script,
/// static pages, ads, template pack, frames and cursor are still the theme's.
pub proof fn lemma_preset_keeps_theme_content<F: Clone, B: Clone, I: Clone, SP: Clone, A: Clone, P: Clone>(
    a: ThemeSignals<F, B, I, SP, A, P>,
    b: ThemeSignals<F, B, I, SP, A, P>,
    d: ThemeSignals<F, B, I, SP, A, P>,
    c: ThemeConfig<F, B, I, SP, A, P>,
    p: Preset<F, B, I, SP, A, P>,
)
    requires
        config_applied(a, b, c),
        preset_applied(b, d, p),
    ensures
        d.site_title == c.site.site_title,
        d.site_subtitle == c.site.site_subtitle,
        d.header_logo_url == c.site.header_logo_url,
        d.home_url == c.site.home_url,
        d.favicon_url == c.assets.favicon_url,
        d.social_card_image_url == c.assets.social_card_image_url,
        d.meta_description == c.seo.meta_description,
        d.meta_keywords == c.seo.meta_keywords,
        d.custom_robots == c.seo.custom_robots,
        d.license_url == c.seo.license_url,
        d.author_name == c.seo.author_name,
        d.footer_text == c.footer.footer_text,
        d.footer_license_label == c.footer.footer_license_label,
        d.footer_license_url == c.footer.footer_license_url,
        d.custom_js == c.plugins.custom_js,
        cloned(c.static_pages, d.static_pages),
        cloned(c.ads, d.ads),
        cloned(c.template_pack, d.template_pack),
        d.enable_image_borders == c.enable_image_borders,
        d.custom_border_url == c.custom_border_url,
        d.svg_border_slice == c.svg_border_slice,
        d.image_border_width == c.image_border_width,
        d.target_sidebars == c.target_sidebars,
        d.target_canvas == c.target_canvas,
        d.cursor_style == c.cursor_style,
        d.menu_1_label@ == menu_slot_spec(c.menu_links@, 0).0,
        d.menu_1_url@ == menu_slot_spec(c.menu_links@, 0).1,
        d.menu_2_label@ == menu_slot_spec(c.menu_links@, 1).0,
        d.menu_2_url@ == menu_slot_spec(c.menu_links@, 1).1,
        d.menu_3_label@ == menu_slot_spec(c.menu_links@, 2).0,
        d.menu_3_url@ == menu_slot_spec(c.menu_links@, 2).1,
        d.menu_4_label@ == menu_slot_spec(c.menu_links@, 3).0,
        d.menu_4_url@ == menu_slot_spec(c.menu_links@, 3).1,
{
}

} // verus!
