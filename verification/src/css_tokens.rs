//! The CSS token builder: light, dark and shared design tokens and the CSS
//! block each tab previews.
use vstd::prelude::*;

verus! {

/// A tab of the token builder.
#[derive(Clone, Copy, PartialEq, Eq, Debug, Structural)]
pub enum Tab {
    Light,
    Dark,
    Shared,
}

/// The tokens the builder edits.
pub struct CssTokens {
    pub light_primary: String,
    pub light_bg: String,
    pub dark_primary: String,
    pub dark_bg: String,
    pub border_radius: String,
}

impl CssTokens {
    /// The tokens a new builder starts with.
    pub fn initial() -> (r: CssTokens)
        ensures
            r.light_primary@ == "#3b82f6"@,
            r.light_bg@ == "#ffffff"@,
            r.dark_primary@ == "#60a5fa"@,
            r.dark_bg@ == "#1e293b"@,
            r.border_radius@ == "6px"@,
    {
        CssTokens {
            light_primary: String::from_str("#3b82f6"),
            light_bg: String::from_str("#ffffff"),
            dark_primary: String::from_str("#60a5fa"),
            dark_bg: String::from_str("#1e293b"),
            border_radius: String::from_str("6px"),
        }
    }
}

/// The CSS block of a tab: the mode's colours and the shared radius under
/// `:root.light` or `:root.dark`, the radius alone under `:root`.
pub open spec fn token_css_spec(tab: Tab, t: CssTokens) -> Seq<char> {
    match tab {
        Tab::Light => ":root.light {\n  --primary: "@ + t.light_primary@ + ";\n  --bg: "@ + t.light_bg@
            + ";\n  --radius: "@ + t.border_radius@ + ";\n}"@,
        Tab::Dark => ":root.dark {\n  --primary: "@ + t.dark_primary@ + ";\n  --bg: "@ + t.dark_bg@
            + ";\n  --radius: "@ + t.border_radius@ + ";\n}"@,
        Tab::Shared => ":root {\n  --radius: "@ + t.border_radius@ + ";\n}"@,
    }
}

/// The CSS block a tab previews.
pub fn token_css(tab: Tab, t: &CssTokens) -> (r: String)
    ensures
        r@ == token_css_spec(tab, *t),
{
    match tab {
        Tab::Light => {
            let mut r = String::from_str(":root.light {\n  --primary: ");
            r.append(t.light_primary.as_str());
            r.append(";\n  --bg: ");
            r.append(t.light_bg.as_str());
            r.append(";\n  --radius: ");
            r.append(t.border_radius.as_str());
            r.append(";\n}");
            r
        },
        Tab::Dark => {
            let mut r = String::from_str(":root.dark {\n  --primary: ");
            r.append(t.dark_primary.as_str());
            r.append(";\n  --bg: ");
            r.append(t.dark_bg.as_str());
            r.append(";\n  --radius: ");
            r.append(t.border_radius.as_str());
            r.append(";\n}");
            r
        },
        Tab::Shared => {
            let mut r = String::from_str(":root {\n  --radius: ");
            r.append(t.border_radius.as_str());
            r.append(";\n}");
            r
        },
    }
}

/// The label of a tab in the token builder dialog.
pub fn tab_label(tab: Tab) -> (r: &'static str)
    ensures
        r@ == (match tab {
            Tab::Light => "Light Theme"@,
            Tab::Dark => "Dark Theme"@,
            Tab::Shared => "Shared Tokens"@,
        }),
{
    match tab {
        Tab::Light => "Light Theme",
        Tab::Dark => "Dark Theme",
        Tab::Shared => "Shared Tokens",
    }
}

/// A token a tab edits.
#[derive(Clone, Copy, PartialEq, Eq, Debug, Structural)]
pub enum Token {
    LightPrimary,
    LightBg,
    DarkPrimary,
    DarkBg,
    BorderRadius,
}

/// The tokens a tab edits, with their labels: a mode's primary and
/// background colours, or the shared radius.
pub fn tab_inputs(tab: Tab) -> (r: Vec<(&'static str, Token)>)
    ensures
        r@.len() == (if tab == Tab::Shared { 1int } else { 2int }),
        tab == Tab::Light ==> r@[0].0@ == "Primary Color"@ && r@[0].1 == Token::LightPrimary && r@[1].0@
            == "Background Color"@ && r@[1].1 == Token::LightBg,
        tab == Tab::Dark ==> r@[0].0@ == "Primary Color"@ && r@[0].1 == Token::DarkPrimary && r@[1].0@
            == "Background Color"@ && r@[1].1 == Token::DarkBg,
        tab == Tab::Shared ==> r@[0].0@ == "Border Radius"@ && r@[0].1 == Token::BorderRadius,
{
    match tab {
        Tab::Light => vec![("Primary Color", Token::LightPrimary), ("Background Color", Token::LightBg)],
        Tab::Dark => vec![("Primary Color", Token::DarkPrimary), ("Background Color", Token::DarkBg)],
        Tab::Shared => vec![("Border Radius", Token::BorderRadius)],
    }
}

impl CssTokens {
    /// The value of a token.
    pub open spec fn get_spec(&self, k: Token) -> Seq<char> {
        match k {
            Token::LightPrimary => self.light_primary@,
            Token::LightBg => self.light_bg@,
            Token::DarkPrimary => self.dark_primary@,
            Token::DarkBg => self.dark_bg@,
            Token::BorderRadius => self.border_radius@,
        }
    }

    /// Sets a token from its input; the other tokens keep their values.
    pub fn set(&mut self, k: Token, v: String)
        ensures
            final(self).get_spec(k) == v@,
            forall|o: Token| o != k ==> #[trigger] final(self).get_spec(o) == old(self).get_spec(o),
    {
        match k {
            Token::LightPrimary => self.light_primary = v,
            Token::LightBg => self.light_bg = v,
            Token::DarkPrimary => self.dark_primary = v,
            Token::DarkBg => self.dark_bg = v,
            Token::BorderRadius => self.border_radius = v,
        }
    }
}

} // verus!
