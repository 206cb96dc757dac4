//! The CSS variables that recolour the editor's preview to a preset's palette
//! before the preset is applied.
use vstd::prelude::*;

verus! {

/// How a palette paints the page background.
pub enum BackgroundMode {
    Gradient { from: String, to: String },
    Solid { color: String },
    Tile,
}

/// The colours of one mode (light or dark) of a preset, with the panel
/// surfaces already written as CSS values.
pub struct PaletteColors {
    pub bg_base: String,
    pub bg_panel_css: String,
    pub bg_elevated_css: String,
    pub fg_base: String,
    pub fg_muted: String,
    pub accent: String,
    pub glow_color: String,
    pub border: String,
    pub panel_border_width: String,
    pub glow_spread: String,
    pub background: BackgroundMode,
}

/// The two ends of the background gradient: a gradient's own, a solid
/// colour's twice, nothing visible for a tiled background.
pub open spec fn gradient_spec(mode: BackgroundMode) -> (Seq<char>, Seq<char>) {
    match mode {
        BackgroundMode::Gradient { from, to } => (from@, to@),
        BackgroundMode::Solid { color } => (color@, color@),
        BackgroundMode::Tile => ("transparent"@, "transparent"@),
    }
}

/// The glow colour: the palette's glow, or its accent when it has none.
pub open spec fn glow_spec(p: PaletteColors) -> Seq<char> {
    if p.glow_color@.len() == 0 {
        p.accent@
    } else {
        p.glow_color@
    }
}

/// The preview's CSS variables for a palette and cursor.
pub open spec fn css_vars_spec(p: PaletteColors, cursor: Seq<char>) -> Seq<char> {
    let bg = p.bg_base@;
    let panel = p.bg_panel_css@;
    let elevated = p.bg_elevated_css@;
    let acc = glow_spec(p);
    let border = p.border@;
    let glow = p.glow_spread@;
    let g = gradient_spec(p.background);
    "--bg-base: "@ + bg + "; --bg-panel: "@ + panel + "; --bg-highlight: "@ + elevated
        + "; --bg-soft: "@ + panel + "; --bg-elevated: "@ + elevated + "; --bg-workspace: "@ + bg
        + "; --fg-base: "@ + p.fg_base@ + "; --fg-dim: "@ + p.fg_muted@ + "; --fg-muted: "@
        + p.fg_muted@ + "; --accent: "@ + acc + "; --border-color: "@ + border + "; --border-soft: "@
        + border + "; --theme-border-color: "@ + border + "; --panel-border-width: "@
        + p.panel_border_width@ + "; --bg-gradient-from: "@ + g.0 + "; --bg-gradient-to: "@ + g.1
        + "; --glow: 0 0 "@ + glow + " "@ + acc + "; --glow-strong: 0 0 calc("@ + glow + " * 2) "@
        + acc + "; --theme-cursor: "@ + cursor + ";"@
}

/// The preview's CSS variables for the light or dark palette of a preset;
/// the cursor is the theme's cursor style, `default` when there is none.
pub fn build_css_vars(light: &PaletteColors, dark: &PaletteColors, is_light: bool, cursor: &Option<String>) -> (r: String)
    ensures
        r@ == css_vars_spec(
            if is_light { *light } else { *dark },
            match cursor {
                Some(c) => c@,
                None => "default"@,
            },
        ),
{
    let p = if is_light { light } else { dark };
    let (g_from, g_to) = match &p.background {
        BackgroundMode::Gradient { from, to } => (from.as_str(), to.as_str()),
        BackgroundMode::Solid { color } => (color.as_str(), color.as_str()),
        BackgroundMode::Tile => ("transparent", "transparent"),
    };
    let acc = if p.glow_color.unicode_len() == 0 {
        p.accent.as_str()
    } else {
        p.glow_color.as_str()
    };
    let cur = match cursor {
        Some(c) => c.as_str(),
        None => "default",
    };
    let bg = p.bg_base.as_str();
    let panel = p.bg_panel_css.as_str();
    let elevated = p.bg_elevated_css.as_str();
    let border = p.border.as_str();
    let glow = p.glow_spread.as_str();
    let mut s = String::from_str("--bg-base: ");
    s.append(bg);
    s.append("; --bg-panel: ");
    s.append(panel);
    s.append("; --bg-highlight: ");
    s.append(elevated);
    s.append("; --bg-soft: ");
    s.append(panel);
    s.append("; --bg-elevated: ");
    s.append(elevated);
    s.append("; --bg-workspace: ");
    s.append(bg);
    s.append("; --fg-base: ");
    s.append(p.fg_base.as_str());
    s.append("; --fg-dim: ");
    s.append(p.fg_muted.as_str());
    s.append("; --fg-muted: ");
    s.append(p.fg_muted.as_str());
    s.append("; --accent: ");
    s.append(acc);
    s.append("; --border-color: ");
    s.append(border);
    s.append("; --border-soft: ");
    s.append(border);
    s.append("; --theme-border-color: ");
    s.append(border);
    s.append("; --panel-border-width: ");
    s.append(p.panel_border_width.as_str());
    s.append("; --bg-gradient-from: ");
    s.append(g_from);
    s.append("; --bg-gradient-to: ");
    s.append(g_to);
    s.append("; --glow: 0 0 ");
    s.append(glow);
    s.append(" ");
    s.append(acc);
    s.append("; --glow-strong: 0 0 calc(");
    s.append(glow);
    s.append(" * 2) ");
    s.append(acc);
    s.append("; --theme-cursor: ");
    s.append(cur);
    s.append(";");
    proof {
        let pv = if is_light { *light } else { *dark };
        let cv = match cursor {
            Some(c) => c@,
            None => "default"@,
        };
        assert(s@ =~= css_vars_spec(pv, cv));
    }
    s
}

} // verus!
