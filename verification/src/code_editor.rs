//! The code editor: its text buffer (which keeps the text area's native undo
//! history by never rewriting it with the user's own typing), the syntax
//! highlighting of the text through `syntect`, and the line-number gutter.
use vstd::prelude::*;
use crate::cursor::str_eq;
use crate::number::dec_spec;
use crate::number::push_dec;
use crate::shortcuts::opt_view;
use crate::text::chars_of;
use crate::text::ends_with_spec;
use crate::text::ends_with_str;
use crate::text::starts_with_spec;
use syntect::highlighting::Theme;
use syntect::highlighting::ThemeSet;
use syntect::parsing::SyntaxReference;
use syntect::parsing::SyntaxSet;

verus! {

#[verifier::external_type_specification]
#[verifier::external_body]
pub struct ExSyntaxSet(syntect::parsing::SyntaxSet);

#[verifier::external_type_specification]
#[verifier::external_body]
pub struct ExSyntaxReference(syntect::parsing::SyntaxReference);

#[verifier::external_type_specification]
#[verifier::external_body]
pub struct ExThemeSet(syntect::highlighting::ThemeSet);

#[verifier::external_type_specification]
#[verifier::external_body]
pub struct ExTheme(syntect::highlighting::Theme);

/// `SyntaxSet::load_defaults_newlines`: syntect's bundled syntax definitions,
/// compiled for lines that keep their newline. Nothing is claimed of them.
#[verifier::external_body]
fn load_syntaxes() -> (r: SyntaxSet) {
    SyntaxSet::load_defaults_newlines()
}

/// `ThemeSet::load_defaults`: syntect's bundled colour themes. Nothing is
/// claimed of them.
#[verifier::external_body]
fn load_themes() -> (r: ThemeSet) {
    ThemeSet::load_defaults()
}

/// The theme of that name in a theme set's `themes` table, if it has one.
pub uninterp spec fn theme_in_set(themes: ThemeSet, name: Seq<char>) -> Option<Theme>;

/// The syntax `SyntaxSet::find_syntax_by_extension` finds for an extension.
pub uninterp spec fn syntax_for_extension(syntaxes: SyntaxSet, ext: Seq<char>) -> Option<SyntaxReference>;

/// The syntax `SyntaxSet::find_syntax_by_name` finds for a name.
pub uninterp spec fn syntax_for_name(syntaxes: SyntaxSet, name: Seq<char>) -> Option<SyntaxReference>;

/// What `syntect::html::highlighted_html_for_string` gives for a text, a
/// syntax set, a syntax and a theme (`None` for its error).
pub uninterp spec fn highlighted_spec(text: Seq<char>, syntaxes: SyntaxSet, syntax: SyntaxReference, theme: Theme) -> Option<Seq<char>>;

/// `BTreeMap::get` on the `themes` table of a theme set: the theme of that
/// name, if the set has one. The lookup is a function of the set and the
/// name, so its result is named; which themes a set has is not stated.
#[verifier::external_body]
fn theme_named<'a>(themes: &'a ThemeSet, name: &str) -> (r: Option<&'a Theme>)
    ensures
        match r {
            Some(t) => theme_in_set(*themes, name@) == Some(*t),
            None => theme_in_set(*themes, name@) is None,
        },
{
    themes.themes.get(name)
}

/// `SyntaxSet::find_syntax_by_extension`: the last syntax whose file
/// extensions include `ext` (ignoring ASCII case), if any. The search is a
/// function of the set and the extension, so its result is named; the set's
/// contents are not stated.
#[verifier::external_body]
fn syntax_by_extension<'a>(syntaxes: &'a SyntaxSet, ext: &str) -> (r: Option<&'a SyntaxReference>)
    ensures
        match r {
            Some(x) => syntax_for_extension(*syntaxes, ext@) == Some(*x),
            None => syntax_for_extension(*syntaxes, ext@) is None,
        },
{
    syntaxes.find_syntax_by_extension(ext)
}

/// `SyntaxSet::find_syntax_by_name`: the last syntax with that exact name, if
/// any. The search is a function of the set and the name, so its result is
/// named; the set's contents are not stated.
#[verifier::external_body]
fn syntax_by_name<'a>(syntaxes: &'a SyntaxSet, name: &str) -> (r: Option<&'a SyntaxReference>)
    ensures
        match r {
            Some(x) => syntax_for_name(*syntaxes, name@) == Some(*x),
            None => syntax_for_name(*syntaxes, name@) is None,
        },
{
    syntaxes.find_syntax_by_name(name)
}

/// `syntect::html::highlighted_html_for_string`, with its error mapped to
/// `None`. The result is a function of the text, the syntax set, the syntax
/// and the theme, so it is named. Its source also shows the frame: the result
/// opens with the theme's background in a `<pre style="background-color:#...;">`
/// tag and closes with `</pre>` and a newline. The spans in between depend on
/// the syntax definitions and the theme and are not stated beyond the name.
#[verifier::external_body]
fn highlight_html(text: &str, syntaxes: &SyntaxSet, syntax: &SyntaxReference, theme: &Theme) -> (r:
    Option<String>)
    ensures
        opt_view(r) == highlighted_spec(text@, *syntaxes, *syntax, *theme),
        r matches Some(h) ==> starts_with_spec(h@, "<pre style=\"background-color:#"@)
            && ends_with_spec(h@, "</pre>\n"@),
{
    match syntect::html::highlighted_html_for_string(text, syntaxes, syntax, theme) {
        Ok(h) => Some(h),
        Err(_) => None,
    }
}

/// The syntect file extension for an editor mode: TOML is highlighted as
/// INI, JavaScript as `js`, XML and HTML as `html`; any other mode is its own
/// extension.
pub open spec fn effective_mode_spec(mode: Seq<char>) -> Seq<char> {
    if mode == "toml"@ {
        "ini"@
    } else if mode == "javascript"@ || mode == "js"@ {
        "js"@
    } else if mode == "xml"@ || mode == "html"@ {
        "html"@
    } else if mode == "css"@ {
        "css"@
    } else {
        mode
    }
}

/// The syntect file extension for an editor mode.
pub fn effective_mode(mode: &str) -> (r: String)
    ensures
        r@ == effective_mode_spec(mode@),
{
    if str_eq(mode, "toml") {
        String::from_str("ini")
    } else if str_eq(mode, "javascript") || str_eq(mode, "js") {
        String::from_str("js")
    } else if str_eq(mode, "xml") || str_eq(mode, "html") {
        String::from_str("html")
    } else if str_eq(mode, "css") {
        String::from_str("css")
    } else {
        String::from_str(mode)
    }
}

/// The text the highlighter paints: an empty text or one that ends with a
/// newline gets one more newline, so the last line keeps its height.
pub open spec fn paint_text_spec(text: Seq<char>) -> Seq<char> {
    if text.len() == 0 || ends_with_spec(text, "\n"@) {
        text.push('\n')
    } else {
        text
    }
}

/// The text the highlighter paints.
pub fn paint_text(text: &str) -> (r: String)
    ensures
        r@ == paint_text_spec(text@),
{
    let mut t = String::from_str(text);
    if text.unicode_len() == 0 || ends_with_str(text, "\n") {
        crate::text::push_char(&mut t, '\n');
    }
    t
}

/// What the editor paints when highlighting fails: the text in a plain
/// `<pre><code>` block.
pub open spec fn plain_html_spec(text: Seq<char>) -> Seq<char> {
    "<pre><code>"@ + text + "</code></pre>"@
}

/// The painted HTML from the highlighter's result: the highlighted HTML when
/// there is one, the plain block otherwise.
pub fn painted_html(highlighted: Option<String>, text: &str) -> (r: String)
    ensures
        r@ == (match highlighted {
            Some(h) => h@,
            None => plain_html_spec(text@),
        }),
{
    match highlighted {
        Some(h) => h,
        None => {
            let mut r = String::from_str("<pre><code>");
            r.append(text);
            r.append("</code></pre>");
            r
        },
    }
}

/// The number of newlines in a text.
pub open spec fn newline_count(s: Seq<char>) -> nat
    decreases s.len(),
{
    if s.len() == 0 {
        0
    } else {
        newline_count(s.drop_last()) + if s.last() == '\n' { 1nat } else { 0nat }
    }
}

/// The numbers `1` to `n`, one per line.
pub open spec fn gutter_spec(n: nat) -> Seq<char>
    decreases n,
{
    if n <= 1 {
        dec_spec(1)
    } else {
        gutter_spec((n - 1) as nat) + "\n"@ + dec_spec(n)
    }
}

/// The gutter of a text: one number per line, the lines being the text's
/// newlines plus one. (Any text in memory is far below the length bound.)
pub fn line_numbers(text: &str) -> (r: String)
    requires
        text@.len() < u64::MAX,
    ensures
        r@ == gutter_spec(newline_count(text@) + 1),
{
    let v = chars_of(text);
    let mut count: u64 = 0;
    let mut i: usize = 0;
    while i < v.len()
        invariant
            v@ == text@,
            v@.len() < u64::MAX,
            i <= v@.len(),
            count == newline_count(v@.take(i as int)),
            count <= i,
        decreases v@.len() - i,
    {
        proof {
            assert(v@.take(i + 1).drop_last() =~= v@.take(i as int));
        }
        if v[i] == '\n' {
            count = count + 1;
        }
        i = i + 1;
    }
    proof {
        assert(v@.take(v@.len() as int) =~= v@);
    }
    let mut out = String::new();
    push_dec(&mut out, 1);
    let mut k: u64 = 1;
    while k <= count
        invariant
            1 <= k <= count + 1,
            count < u64::MAX,
            out@ == gutter_spec(k as nat),
        decreases count + 1 - k,
    {
        out.append("\n");
        push_dec(&mut out, k + 1);
        k = k + 1;
    }
    out
}

/// The loaded syntax definitions and colour themes.
pub struct Highlighter {
    syntaxes: SyntaxSet,
    themes: ThemeSet,
}

impl Highlighter {
    /// Loads syntect's bundled syntaxes and themes.
    pub fn new() -> (r: Highlighter) {
        Highlighter { syntaxes: load_syntaxes(), themes: load_themes() }
    }

    /// The loaded syntax definitions.
    pub closed spec fn syntax_set(&self) -> SyntaxSet {
        self.syntaxes
    }

    /// The loaded colour themes.
    pub closed spec fn theme_set(&self) -> ThemeSet {
        self.themes
    }

    /// The painted HTML of a text in an editor mode: the text as
    /// `paint_text` makes it, highlighted with the mode's syntax (plain text
    /// when the mode has none) in the `base16-ocean.dark` theme; the plain
    /// block when no syntax or theme is found or highlighting fails.
    pub fn render(&self, text: &str, mode: &str) -> (r: String)
        ensures
            r@ == render_spec(self.syntax_set(), self.theme_set(), text@, mode@),
            r@ == plain_html_spec(paint_text_spec(text@)) || (starts_with_spec(
                r@,
                "<pre style=\"background-color:#"@,
            ) && ends_with_spec(r@, "</pre>\n"@)),
    {
        proof {
            reveal_strlit("Plain Text");
            reveal_strlit("base16-ocean.dark");
        }
        let ext = effective_mode(mode);
        let t = paint_text(text);
        let syntax = match syntax_by_extension(&self.syntaxes, ext.as_str()) {
            Some(s) => Some(s),
            None => syntax_by_name(&self.syntaxes, "Plain Text"),
        };
        let highlighted = match (syntax, theme_named(&self.themes, "base16-ocean.dark")) {
            (Some(s), Some(th)) => highlight_html(t.as_str(), &self.syntaxes, s, th),
            _ => None,
        };
        painted_html(highlighted, t.as_str())
    }
}

/// The syntax a mode is highlighted with: the one found for the mode's
/// extension, else the set's `Plain Text` syntax.
pub open spec fn mode_syntax_spec(syntaxes: SyntaxSet, mode: Seq<char>) -> Option<SyntaxReference> {
    match syntax_for_extension(syntaxes, effective_mode_spec(mode)) {
        Some(s) => Some(s),
        None => syntax_for_name(syntaxes, "Plain Text"@),
    }
}

/// The painted HTML of a text in a mode, for loaded syntaxes and themes: the
/// painted text highlighted with the mode's syntax in the `base16-ocean.dark`
/// theme, or the plain block when there is no such syntax or theme or
/// highlighting fails.
pub open spec fn render_spec(syntaxes: SyntaxSet, themes: ThemeSet, text: Seq<char>, mode: Seq<char>) -> Seq<char> {
    let t = paint_text_spec(text);
    match (mode_syntax_spec(syntaxes, mode), theme_in_set(themes, "base16-ocean.dark"@)) {
        (Some(s), Some(th)) => match highlighted_spec(t, syntaxes, s, th) {
            Some(h) => h,
            None => plain_html_spec(t),
        },
        _ => plain_html_spec(t),
    }
}

/// The editor's buffer: the live text, the text the text area was last seeded
/// with, and the last text the user typed.
pub struct EditorBuffer {
    pub local: String,
    pub seed: String,
    pub last_emitted: String,
}

/// The three texts of an editor buffer.
pub struct BufferView {
    pub local: Seq<char>,
    pub seed: Seq<char>,
    pub last_emitted: Seq<char>,
}

impl View for EditorBuffer {
    type V = BufferView;

    open spec fn view(&self) -> BufferView {
        BufferView { local: self.local@, seed: self.seed@, last_emitted: self.last_emitted@ }
    }
}

/// A new value from outside: the live text follows it, and the text area is
/// re-seeded only when the value is not what the user typed last.
pub open spec fn reconcile_spec(b: BufferView, value: Seq<char>) -> BufferView {
    BufferView {
        local: value,
        seed: if b.last_emitted != value { value } else { b.seed },
        last_emitted: b.last_emitted,
    }
}

/// The user typed `value`: unless the editor is read-only, it becomes the
/// live text and the last typed text; the text area is left alone.
pub open spec fn input_spec(b: BufferView, read_only: bool, value: Seq<char>) -> BufferView {
    if read_only {
        b
    } else {
        BufferView { local: value, seed: b.seed, last_emitted: value }
    }
}

impl EditorBuffer {
    /// A buffer showing `value`.
    pub fn new(value: &String) -> (r: EditorBuffer)
        ensures
            r@ == (BufferView { local: value@, seed: value@, last_emitted: value@ }),
    {
        EditorBuffer { local: value.clone(), seed: value.clone(), last_emitted: value.clone() }
    }

    /// Takes a new value from outside.
    pub fn reconcile_external(&mut self, value: &String)
        ensures
            final(self)@ == reconcile_spec(old(self)@, value@),
    {
        self.local = value.clone();
        if self.last_emitted != *value {
            self.seed = value.clone();
        }
    }

    /// Takes what the user typed; returns the text to report as changed, none
    /// when the editor is read-only.
    pub fn on_input(&mut self, read_only: bool, new_val: &String) -> (r: Option<String>)
        ensures
            final(self)@ == input_spec(old(self)@, read_only, new_val@),
            read_only ==> r is None,
            !read_only ==> (r matches Some(v) && v@ == new_val@),
    {
        if read_only {
            None
        } else {
            self.local = new_val.clone();
            self.last_emitted = new_val.clone();
            Some(new_val.clone())
        }
    }
}

/// Typing never rewrites the text area: when the typed text comes back as the
/// new outside value, the live text is the typed text and the seed stays, so
/// the native undo history survives; a value that was not typed re-seeds it.
pub proof fn lemma_echo_keeps_seed(b: BufferView, typed: Seq<char>, value: Seq<char>)
    ensures
        reconcile_spec(input_spec(b, false, typed), typed).seed == b.seed,
        reconcile_spec(input_spec(b, false, typed), typed).local == typed,
        value != typed ==> reconcile_spec(input_spec(b, false, typed), value).seed == value,
{
}

} // verus!
