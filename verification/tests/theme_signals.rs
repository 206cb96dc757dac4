use mor_blogger_ui_logic::theme_signals::AssetsConfig;
use mor_blogger_ui_logic::theme_signals::ButtonStyle;
use mor_blogger_ui_logic::theme_signals::ColorSet;
use mor_blogger_ui_logic::theme_signals::FooterConfig;
use mor_blogger_ui_logic::theme_signals::MenuLink;
use mor_blogger_ui_logic::theme_signals::PluginsConfig;
use mor_blogger_ui_logic::theme_signals::Preset;
use mor_blogger_ui_logic::theme_signals::PresetPalette;
use mor_blogger_ui_logic::theme_signals::SeoConfig;
use mor_blogger_ui_logic::theme_signals::SiteInfo;
use mor_blogger_ui_logic::theme_signals::ThemeConfig;
use mor_blogger_ui_logic::theme_signals::ThemeSignals;
use mor_blogger_ui_logic::theme_signals::TypographyConfig;

type Values = ThemeSignals<String, String, String, String, String, String>;
type Config = ThemeConfig<String, String, String, String, String, String>;

fn s(x: &str) -> String {
    x.to_string()
}

fn blank_values() -> Values {
    ThemeSignals {
        is_dark_mode: false,
        site_title: s("old-site_title"),
        site_subtitle: s("old-site_subtitle"),
        header_logo_url: s("old-header_logo_url"),
        home_url: s("old-home_url"),
        bg_base: s("old-bg_base"),
        bg_panel: s("old-bg_panel"),
        bg_elevated: s("old-bg_elevated"),
        fg_base: s("old-fg_base"),
        fg_muted: s("old-fg_muted"),
        accent: s("old-accent"),
        border: s("old-border"),
        panel_border_width: s("old-panel_border_width"),
        glow_spread: s("old-glow_spread"),
        hover_scale: s("old-hover_scale"),
        panel_border_image_url: s("old-panel_border_image_url"),
        panel_border_image_slice: s("old-panel_border_image_slice"),
        panel_border_image_repeat: s("old-panel_border_image_repeat"),
        btn_radius: s("old-btn_radius"),
        btn_border_width: s("old-btn_border_width"),
        btn_text_transform: s("old-btn_text_transform"),
        body_font_stack: s("old-body_font_stack"),
        heading_font_stack: s("old-heading_font_stack"),
        mono_font_stack: s("old-mono_font_stack"),
        base_size: s("old-base_size"),
        scale_ratio: s("old-scale_ratio"),
        line_height: s("old-line_height"),
        heading_weight: s("old-heading_weight"),
        background: s("old-background"),
        favicon_url: s("old-favicon_url"),
        social_card_image_url: s("old-social_card_image_url"),
        meta_description: s("old-meta_description"),
        meta_keywords: s("old-meta_keywords"),
        custom_robots: s("old-custom_robots"),
        license_url: s("old-license_url"),
        author_name: s("old-author_name"),
        menu_1_label: s("old-menu_1_label"),
        menu_1_url: s("old-menu_1_url"),
        menu_2_label: s("old-menu_2_label"),
        menu_2_url: s("old-menu_2_url"),
        menu_3_label: s("old-menu_3_label"),
        menu_3_url: s("old-menu_3_url"),
        menu_4_label: s("old-menu_4_label"),
        menu_4_url: s("old-menu_4_url"),
        footer_text: s("old-footer_text"),
        footer_license_label: s("old-footer_license_label"),
        footer_license_url: s("old-footer_license_url"),
        custom_js: s("old-custom_js"),
        preset_css: s("old-preset_css"),
        static_pages: s("old-static_pages"),
        ads: s("old-ads"),
        icons: s("old-icons"),
        template_pack: s("old-template_pack"),
        enable_image_borders: false,
        custom_border_url: None,
        svg_border_slice: s("old-svg_border_slice"),
        image_border_width: s("old-image_border_width"),
        target_sidebars: false,
        target_canvas: false,
        glow_color: s("old-glow_color"),
        glow_logo: false,
        glow_title: false,
        glow_toc: false,
        glow_sidebar: false,
        glow_logo_color: s("old-glow_logo_color"),
        glow_title_color: s("old-glow_title_color"),
        glow_toc_color: s("old-glow_toc_color"),
        glow_sidebar_color: s("old-glow_sidebar_color"),
        glow_text: false,
        glow_containers: false,
        glow_icons: false,
        glow_text_color: s("old-glow_text_color"),
        glow_containers_color: s("old-glow_containers_color"),
        glow_icons_color: s("old-glow_icons_color"),
        cursor_style: s("old-cursor_style"),
        scrollbar_width: s("old-scrollbar_width"),
        scrollbar_track_color: s("old-scrollbar_track_color"),
        scrollbar_thumb_color: s("old-scrollbar_thumb_color"),
        scrollbar_thumb_hover_color: s("old-scrollbar_thumb_hover_color"),
    }
}

fn colors(tag: &str) -> ColorSet<String> {
    ColorSet {
        bg_base: format!("{tag}-bg_base"),
        bg_panel: format!("{tag}-bg_panel"),
        bg_elevated: format!("{tag}-bg_elevated"),
        fg_base: format!("{tag}-fg_base"),
        fg_muted: format!("{tag}-fg_muted"),
        accent: format!("{tag}-accent"),
        border: format!("{tag}-border"),
        panel_border_width: format!("{tag}-panel_border_width"),
        glow_spread: format!("{tag}-glow_spread"),
        hover_scale: format!("{tag}-hover_scale"),
        panel_border_image_url: format!("{tag}-panel_border_image_url"),
        panel_border_image_slice: format!("{tag}-panel_border_image_slice"),
        panel_border_image_repeat: format!("{tag}-panel_border_image_repeat"),
        glow_color: format!("{tag}-glow_color"),
        glow_logo_color: format!("{tag}-glow_logo_color"),
        glow_title_color: format!("{tag}-glow_title_color"),
        glow_toc_color: format!("{tag}-glow_toc_color"),
        glow_sidebar_color: format!("{tag}-glow_sidebar_color"),
        glow_logo: true,
        glow_title: true,
        glow_toc: true,
        glow_sidebar: true,
        glow_text: true,
        glow_containers: true,
        glow_icons: true,
        glow_text_color: format!("{tag}-glow_text_color"),
        glow_containers_color: format!("{tag}-glow_containers_color"),
        glow_icons_color: format!("{tag}-glow_icons_color"),
    }
}

fn config(tag: &str, links: usize) -> Config {
    ThemeConfig {
        site: SiteInfo {
            site_title: format!("{tag}-site_title"),
            site_subtitle: format!("{tag}-site_subtitle"),
            header_logo_url: format!("{tag}-header_logo_url"),
            home_url: format!("{tag}-home_url"),
        },
        colors: colors(tag),
        buttons: ButtonStyle { radius: format!("{tag}-radius"), border_width: format!("{tag}-bw"), text_transform: format!("{tag}-tt") },
        typography: TypographyConfig {
            body_font_stack: format!("{tag}-body_font_stack"),
            heading_font_stack: format!("{tag}-heading_font_stack"),
            mono_font_stack: format!("{tag}-mono_font_stack"),
            base_size: format!("{tag}-base_size"),
            scale_ratio: format!("{tag}-scale_ratio"),
            line_height: format!("{tag}-line_height"),
            heading_weight: format!("{tag}-heading_weight"),
        },
        background: format!("{tag}-background"),
        assets: AssetsConfig {
            favicon_url: format!("{tag}-favicon_url"),
            social_card_image_url: format!("{tag}-social_card_image_url"),
        },
        seo: SeoConfig {
            meta_description: format!("{tag}-meta_description"),
            meta_keywords: format!("{tag}-meta_keywords"),
            custom_robots: format!("{tag}-custom_robots"),
            license_url: format!("{tag}-license_url"),
            author_name: format!("{tag}-author_name"),
        },
        menu_links: (0..links).map(|i| MenuLink { label: format!("L{i}"), url: format!("U{i}") }).collect(),
        footer: FooterConfig {
            footer_text: format!("{tag}-footer_text"),
            footer_license_label: format!("{tag}-footer_license_label"),
            footer_license_url: format!("{tag}-footer_license_url"),
        },
        plugins: PluginsConfig { custom_js: format!("{tag}-js") },
        static_pages: format!("{tag}-pages"),
        ads: format!("{tag}-ads"),
        icons: format!("{tag}-icons"),
        template_pack: format!("{tag}-pack"),
        enable_image_borders: true,
        custom_border_url: Some(format!("{tag}-frame.png")),
        svg_border_slice: format!("{tag}-slice"),
        image_border_width: format!("{tag}-width"),
        target_sidebars: true,
        target_canvas: true,
        cursor_style: format!("{tag}-cursor"),
        scrollbar_width: format!("{tag}-scrollbar_width"),
        scrollbar_track_color: format!("{tag}-scrollbar_track_color"),
        scrollbar_thumb_color: format!("{tag}-scrollbar_thumb_color"),
        scrollbar_thumb_hover_color: format!("{tag}-scrollbar_thumb_hover_color"),
        preset_css: format!("{tag}-css"),
    }
}

fn preset() -> Preset<String, String, String, String, String, String> {
    Preset {
        light: PresetPalette { colors: colors("light"), background: s("light-bg") },
        dark: PresetPalette { colors: colors("dark"), background: s("dark-bg") },
        base_config: config("base", 1),
        preset_css: s("preset-css"),
    }
}

#[test]
fn loading_a_theme_sets_every_value() {
    let mut v = blank_values();
    v.is_dark_mode = true;
    v.apply_config(&config("cfg", 3));
    assert!(v.is_dark_mode);
    assert_eq!(v.site_title, "cfg-site_title");
    assert_eq!(v.bg_panel, "cfg-bg_panel");
    assert_eq!(v.background, "cfg-background");
    assert_eq!(v.btn_radius, "cfg-radius");
    assert_eq!(v.custom_js, "cfg-js");
    assert_eq!(v.template_pack, "cfg-pack");
    assert_eq!(v.custom_border_url, Some(s("cfg-frame.png")));
    assert!(v.glow_logo && v.target_canvas);
    assert_eq!(v.preset_css, "cfg-css");
    assert_eq!((v.menu_1_label.as_str(), v.menu_3_url.as_str()), ("L0", "U2"));
    assert_eq!((v.menu_4_label.as_str(), v.menu_4_url.as_str()), ("", ""));
}

#[test]
fn a_preset_restyles_in_the_current_mode() {
    let mut v = blank_values();
    v.apply_config(&config("cfg", 4));
    v.is_dark_mode = true;
    v.apply_preset(&preset());
    assert_eq!(v.bg_base, "dark-bg_base");
    assert_eq!(v.glow_spread, "dark-glow_spread");
    assert_eq!(v.background, "dark-bg");
    assert_eq!(v.icons, "base-icons");
    assert_eq!(v.preset_css, "preset-css");
    assert_eq!(v.heading_weight, "base-heading_weight");
    assert_eq!(v.site_title, "cfg-site_title");
    assert_eq!(v.menu_4_url, "U3");
    assert_eq!(v.template_pack, "cfg-pack");
    v.is_dark_mode = false;
    v.apply_preset(&preset());
    assert_eq!(v.bg_base, "light-bg_base");
}

#[test]
fn swapping_a_palette_keeps_frames() {
    let mut v = blank_values();
    let p = preset();
    v.swap_palette(&p.light);
    assert_eq!(v.accent, "light-accent");
    assert_eq!(v.glow_icons_color, "light-glow_icons_color");
    assert!(v.glow_text);
    assert_eq!(v.background, "light-bg");
    assert_eq!(v.panel_border_width, "old-panel_border_width");
    assert!(!v.glow_logo);
    v.apply_preset_css(&p);
    assert_eq!(v.preset_css, "preset-css");
    assert_eq!(v.site_title, "old-site_title");
}
