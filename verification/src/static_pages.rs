//! Static pages: wrapping a page's HTML into the live theme preview, and the
//! community hub of published pages.
use vstd::prelude::*;
use crate::cursor::str_eq;
use crate::number::dec_spec;
use crate::number::push_dec;
use crate::text::contains_spec;
use crate::text::lemma_contains_from_match;
use crate::text::lemma_contains_match;
use crate::text::lemma_replace_inserts;
use crate::text::lemma_replace_keeps;
use crate::text::matches_at;
use crate::text::replace_all;
use crate::text::replace_spec;

verus! {

/// The static-page tabs: (tab id, button label), in display order.
pub const TABS: [(&'static str, &'static str); 7] = [
    ("Archive", "Archive"),
    ("Directory", "Directory"),
    ("About", "About Me"),
    ("Portfolio", "Portfolio"),
    ("LMS", "Courses"),
    ("MyCourses", "My Courses"),
    ("Community", "Pasteboard"),
];

/// The community hub that lists published static pages.
pub const COMMUNITY_HUB_URL: &'static str = "https://morpages.blogspot.com/";

/// The hub's Blogger JSON feed: each published post is one static page.
pub const COMMUNITY_FEED_URL: &'static str = "https://morpages.blogspot.com/feeds/posts/default?alt=json&max-results=150";

/// The script placed right after `<head>`: it answers the preview's Blogger
/// feed requests offline.
pub const MOCK_FETCH_SCRIPT: &'static str = r##"<script>
    const _origFetch = window.fetch;
    window.fetch = async function(url, opts) {
        if (typeof url === 'string' && url.includes('/feeds/')) {
            return {
                ok: true,
                json: async () => ({
                    feed: {
                        openSearch$totalResults: { $t: "3" },
                        entry: [
                            {
                                title: { $t: "Archive Feed Intercepted" },
                                link: [{ rel: "alternate", href: "#" }],
                                summary: { $t: "Offline preview routing successful. Theme layout nominal." },
                                published: { $t: new Date().toISOString() },
                                category: [{ term: "System" }]
                            },
                            {
                                title: { $t: "Patch Notes v1.2" },
                                link: [{ rel: "alternate", href: "#" }],
                                summary: { $t: "Guild UI updated. Potions nerfed." },
                                published: { $t: "2025-06-03T10:00:00Z" },
                                category: [{ term: "Updates" }]
                            }
                        ]
                    }
                })
            };
        }

        return _origFetch(url, opts);
    };
    </script>"##;

/// What comes before the static page's HTML in the injected block.
pub const STATIC_TEMPLATE_PREFIX: &'static str = r##"
    <!-- Static-page mode: a Blogger Page renders as focused content, not the
         blog's sidebar layout. Collapse the workspace to a single full-width
         column so the page reads like a real static page. -->
    <style id="mor-static-page-mode">
        #panel-left, #panel-right { display: none !important; }
        .mor-workspace { display: block !important; }
        .canvas-core { width: 100% !important; max-width: 100% !important; }
    </style>
    <template id="mor-static-injector">
        "##;

/// What comes after the static page's HTML in the injected block.
pub const STATIC_TEMPLATE_SUFFIX: &'static str = r##"
    </template>
    <script>
    (function injectStaticPage() {
        // The iframe reloads fresh HTML each time, but if DOMContentLoaded has
        // already fired by the time this runs, the listener never triggers.
        // Run now if the DOM is ready, otherwise wait for it.
        const run = () => {
            const target = document.querySelector('.canvas-content');
            const template = document.getElementById('mor-static-injector');
            if (!target || !template) return;

            target.innerHTML = '';
            target.appendChild(template.content.cloneNode(true));

            // cloneNode does not execute script tags. Recreate them manually.
            target.querySelectorAll('script').forEach(oldScript => {
                const newScript = document.createElement('script');
                Array.from(oldScript.attributes).forEach(attr => newScript.setAttribute(attr.name, attr.value));
                newScript.appendChild(document.createTextNode(oldScript.innerHTML));
                oldScript.parentNode.replaceChild(newScript, oldScript);
            });
        };
        if (document.readyState === 'loading') {
            document.addEventListener('DOMContentLoaded', run);
        } else {
            run();
        }
    })();
    </script>
    "##;

/// What replaces each `<head>` tag of the base page.
pub open spec fn head_replacement() -> Seq<char> {
    "<head>\n"@ + MOCK_FETCH_SCRIPT@
}

/// The block that carries the static page's HTML into the preview.
pub open spec fn static_block(html: Seq<char>) -> Seq<char> {
    STATIC_TEMPLATE_PREFIX@ + html + STATIC_TEMPLATE_SUFFIX@
}

/// The preview page for a static page: the offline feed mock after every
/// `<head>`, and the static block before every `</body>`.
pub open spec fn inject_spec(base: Seq<char>, html: Seq<char>) -> Seq<char> {
    replace_spec(
        replace_spec(base, "<head>"@, head_replacement()),
        "</body>"@,
        static_block(html) + "\n</body>"@,
    )
}

/// Wraps static HTML in the master theme page and mocks the offline Blogger
/// feed calls.
pub fn inject_static_page(base_html: &str, static_html: &str) -> (r: String)
    ensures
        r@ == inject_spec(base_html@, static_html@),
{
    proof {
        reveal_strlit("<head>");
        reveal_strlit("</body>");
    }
    let mut head_rep = String::from_str("<head>\n");
    head_rep.append(MOCK_FETCH_SCRIPT);
    let head_injected = replace_all(base_html, "<head>", head_rep.as_str());
    let mut body_rep = String::from_str(STATIC_TEMPLATE_PREFIX);
    body_rep.append(static_html);
    body_rep.append(STATIC_TEMPLATE_SUFFIX);
    body_rep.append("\n</body>");
    proof {
        assert(body_rep@ =~= static_block(static_html@) + "\n</body>"@);
    }
    replace_all(head_injected.as_str(), "</body>", body_rep.as_str())
}

/// A `<head>` tag and a `</body>` tag never overlap in a text.
proof fn lemma_head_and_body_tags_apart(s: Seq<char>, k: int)
    requires
        matches_at(s, "</body>"@, k),
    ensures
        forall|j: int| #[trigger] matches_at(s, "<head>"@, j) ==> j + 6 <= k || k + 7 <= j,
{
    reveal_strlit("<head>");
    reveal_strlit("</body>");
    assert forall|j: int| #[trigger] matches_at(s, "<head>"@, j) implies j + 6 <= k || k + 7
        <= j by {
        assert(s.subrange(j, j + 6)[0] == s[j]);
        assert(s.subrange(k, k + 7)[0] == s[k]);
        if j == k {
            assert(s.subrange(j, j + 6)[1] == s[j + 1]);
            assert(s.subrange(k, k + 7)[1] == s[k + 1]);
        } else if j < k && k < j + 6 {
            assert(s.subrange(j, j + 6)[k - j] == s[k]);
        } else if k < j && j < k + 7 {
            assert(s.subrange(k, k + 7)[j - k] == s[j]);
        }
    }
}

/// A base page that closes its body gets the static page's HTML: the preview
/// always carries the page it was asked to show.
pub proof fn lemma_injected_page_holds_static_html(base: Seq<char>, html: Seq<char>)
    requires
        contains_spec(base, "</body>"@),
    ensures
        contains_spec(inject_spec(base, html), html),
{
    reveal_strlit("<head>");
    reveal_strlit("</body>");
    lemma_contains_match(base, "</body>"@);
    let k = choose|k: int| matches_at(base, "</body>"@, k);
    lemma_head_and_body_tags_apart(base, k);
    lemma_replace_keeps(base, "<head>"@, head_replacement(), "</body>"@, k);
    let r1 = replace_spec(base, "<head>"@, head_replacement());
    let block = static_block(html) + "\n</body>"@;
    lemma_replace_inserts(r1, "</body>"@, block);
    let out = replace_spec(r1, "</body>"@, block);
    lemma_contains_match(out, block);
    let p = choose|p: int| matches_at(out, block, p);
    let off = STATIC_TEMPLATE_PREFIX@.len() as int;
    assert(block.subrange(off, off + html.len()) =~= html);
    assert(out.subrange(p, p + block.len()) == block);
    assert(out.subrange(p + off, p + off + html.len()) =~= block.subrange(off, off + html.len()));
    lemma_contains_from_match(out, html, p + off);
}

/// One community-contributed static page pulled from the hub.
#[derive(Clone, PartialEq, Eq, Debug)]
pub struct CommunityPage {
    pub title: String,
    pub html: String,
}

impl View for CommunityPage {
    type V = (Seq<char>, Seq<char>);

    open spec fn view(&self) -> (Seq<char>, Seq<char>) {
        (self.title@, self.html@)
    }
}

/// One post of the hub's feed: its title and, when it has one, its body.
#[derive(Clone, PartialEq, Eq, Debug)]
pub struct FeedEntry {
    pub title: String,
    pub content: Option<String>,
}

impl View for FeedEntry {
    type V = (Seq<char>, Option<Seq<char>>);

    open spec fn view(&self) -> (Seq<char>, Option<Seq<char>>) {
        (
            self.title@,
            match self.content {
                Some(c) => Some(c@),
                None => None,
            },
        )
    }
}

/// The pages of a feed: one per entry that has a body, titled by the entry,
/// in feed order; entries without a body are dropped.
pub open spec fn community_pages_spec(entries: Seq<(Seq<char>, Option<Seq<char>>)>) -> Seq<
    (Seq<char>, Seq<char>),
>
    decreases entries.len(),
{
    if entries.len() == 0 {
        Seq::empty()
    } else {
        let rest = community_pages_spec(entries.drop_last());
        match entries.last().1 {
            Some(c) => rest.push((entries.last().0, c)),
            None => rest,
        }
    }
}

/// The community pages listed by the entries of the hub's feed.
pub fn community_pages_from_feed(entries: &Vec<FeedEntry>) -> (pages: Vec<CommunityPage>)
    ensures
        pages@.map_values(|p: CommunityPage| p@) == community_pages_spec(
            entries@.map_values(|e: FeedEntry| e@),
        ),
{
    let mut pages: Vec<CommunityPage> = Vec::new();
    let mut i: usize = 0;
    while i < entries.len()
        invariant
            i <= entries@.len(),
            pages@.map_values(|p: CommunityPage| p@) == community_pages_spec(
                entries@.map_values(|e: FeedEntry| e@).take(i as int),
            ),
        decreases entries@.len() - i,
    {
        let ghost ev = entries@.map_values(|e: FeedEntry| e@);
        proof {
            assert(ev.take(i + 1).drop_last() =~= ev.take(i as int));
            assert(ev.take(i + 1).last() == entries@[i as int]@);
        }
        let e = &entries[i];
        match &e.content {
            Some(c) => {
                let page = CommunityPage { title: e.title.clone(), html: c.clone() };
                let ghost before = pages@;
                pages.push(page);
                proof {
                    assert(pages@.map_values(|p: CommunityPage| p@) =~= before.map_values(
                        |p: CommunityPage| p@,
                    ).push(page@));
                }
            },
            None => {},
        }
        i = i + 1;
    }
    proof {
        let ev = entries@.map_values(|e: FeedEntry| e@);
        assert(ev.take(entries@.len() as int) =~= ev);
    }
    pages
}

/// The page generator behind each previewable static-page tab.
#[derive(Clone, Copy, PartialEq, Eq, Debug)]
pub enum StaticPageKind {
    Archive,
    Categories,
    Portfolio,
    About,
    CourseCatalog,
    MyCourses,
}

/// Which generated page a tab previews; the community tab and unknown ids
/// preview nothing.
pub open spec fn page_kind_spec(id: Seq<char>) -> Option<StaticPageKind> {
    if id == "Archive"@ {
        Some(StaticPageKind::Archive)
    } else if id == "Directory"@ {
        Some(StaticPageKind::Categories)
    } else if id == "Portfolio"@ {
        Some(StaticPageKind::Portfolio)
    } else if id == "About"@ {
        Some(StaticPageKind::About)
    } else if id == "LMS"@ {
        Some(StaticPageKind::CourseCatalog)
    } else if id == "MyCourses"@ {
        Some(StaticPageKind::MyCourses)
    } else {
        None
    }
}

/// Which generated page the tab `id` previews.
pub fn page_kind_for_tab(id: &str) -> (r: Option<StaticPageKind>)
    ensures
        r == page_kind_spec(id@),
{
    if str_eq(id, "Archive") {
        Some(StaticPageKind::Archive)
    } else if str_eq(id, "Directory") {
        Some(StaticPageKind::Categories)
    } else if str_eq(id, "Portfolio") {
        Some(StaticPageKind::Portfolio)
    } else if str_eq(id, "About") {
        Some(StaticPageKind::About)
    } else if str_eq(id, "LMS") {
        Some(StaticPageKind::CourseCatalog)
    } else if str_eq(id, "MyCourses") {
        Some(StaticPageKind::MyCourses)
    } else {
        None
    }
}

/// Whether the preview follows the selected tab: not while the pasteboard
/// tab is open (the user is typing there) and not while the centre view is
/// the static-page editor.
pub fn should_refresh_preview(active_tab: &str, in_static_page_editor: bool) -> (r: bool)
    ensures
        r == (active_tab@ != "Community"@ && !in_static_page_editor),
{
    !str_eq(active_tab, "Community") && !in_static_page_editor
}

/// The status line after loading the hub: a notice when nothing is
/// published, else the number of pages.
pub fn community_fetch_status(count: usize) -> (r: String)
    ensures
        r@ == community_status_spec(count as nat),
{
    if count == 0 {
        String::from_str("No community pages published yet.")
    } else {
        let mut r = String::new();
        push_dec(&mut r, count as u64);
        r.append(" community page(s).");
        proof {
            assert(r@ =~= dec_spec(count as nat) + " community page(s)."@);
        }
        r
    }
}

/// Where fetching from the community hub failed, with the reason.
pub enum FetchFailure {
    /// The request could not be made.
    Request(String),
    /// The server answered with a status other than success; the status.
    Status(String),
    /// The body could not be read.
    Read(String),
    /// The body is not a Blogger feed.
    BadFeed(String),
}

/// The error message for a failed fetch.
pub open spec fn fetch_failure_spec(f: FetchFailure) -> Seq<char> {
    match f {
        FetchFailure::Request(e) => "request failed: "@ + e@,
        FetchFailure::Status(s) => "HTTP "@ + s@,
        FetchFailure::Read(e) => "read failed: "@ + e@,
        FetchFailure::BadFeed(e) => "bad feed: "@ + e@,
    }
}

/// The error message for a failed fetch.
pub fn fetch_failure_message(f: &FetchFailure) -> (r: String)
    ensures
        r@ == fetch_failure_spec(*f),
{
    let (prefix, detail) = match f {
        FetchFailure::Request(e) => ("request failed: ", e),
        FetchFailure::Status(s) => ("HTTP ", s),
        FetchFailure::Read(e) => ("read failed: ", e),
        FetchFailure::BadFeed(e) => ("bad feed: ", e),
    };
    let mut r = String::from_str(prefix);
    r.append(detail.as_str());
    r
}

/// The theme palette puts the plain theme back in the preview unless its
/// Pages section is open or the pages window is undocked (both show a static
/// page there).
pub fn palette_resets_preview(active_section: &str, pages_undocked: bool) -> (r: bool)
    ensures
        r == (active_section@ != "Pages"@ && !pages_undocked),
{
    !str_eq(active_section, "Pages") && !pages_undocked
}

/// The status line after loading the hub, by the number of pages.
pub open spec fn community_status_spec(count: nat) -> Seq<char> {
    if count == 0 {
        "No community pages published yet."@
    } else {
        dec_spec(count) + " community page(s)."@
    }
}

/// Loading the community hub: fetched pages become the index (an empty list
/// empties it) with the status counting them; a failed fetch leaves the
/// index as it was and reports why.
pub fn community_fetch_step(index: &mut Vec<CommunityPage>, outcome: Result<Vec<CommunityPage>, String>) -> (status: String)
    ensures
        match outcome {
            Ok(v) => final(index)@ == v@ && status@ == community_status_spec(v@.len()),
            Err(e) => final(index)@ == old(index)@ && status@ == "Fetch failed: "@ + e@,
        },
{
    match outcome {
        Ok(pages) => {
            let status = community_fetch_status(pages.len());
            *index = pages;
            status
        },
        Err(e) => {
            let mut status = String::from_str("Fetch failed: ");
            status.append(e.as_str());
            status
        },
    }
}

/// Importing a page from a URL: the fetched HTML becomes the page being
/// edited, with a notice; a failed fetch leaves the page and reports why.
pub fn raw_import_step(page_html: &mut String, outcome: Result<String, String>) -> (status: String)
    ensures
        match outcome {
            Ok(h) => final(page_html)@ == h@ && status@ == "Imported page from URL."@,
            Err(e) => final(page_html)@ == old(page_html)@ && status@ == "Import failed: "@ + e@,
        },
{
    match outcome {
        Ok(h) => {
            *page_html = h;
            String::from_str("Imported page from URL.")
        },
        Err(e) => {
            let mut status = String::from_str("Import failed: ");
            status.append(e.as_str());
            status
        },
    }
}

} // verus!
