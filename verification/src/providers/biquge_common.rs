//! Four page layouts shared by many "biquge"-style sites.
//!
//! 1. `og:*` meta tags, a `book_list2`-style link list, paginated pages.
//! 2. `#info`, `#content`, `dl/dd` chapter links.
//! 3. `og:*` meta tags and a `#list`/`dl` chapter list, with search.
//! 4. Mobile pages with malformed HTML, content found by a regular expression.

use vstd::prelude::*;

use crate::html::{
    meta, meta_content, or_else, sel_attr, sel_text, select_all, select_attr, select_text,
    strs_view,
};
use crate::markup::{html_to_text, spec_html_to_text};
use crate::providers::common::{
    chapters_view, first_inner, first_inner_exec, first_nonempty_body, first_nonempty_body_exec,
    link_chapters, links_to_chapters, regex_capture, regex_group1, single_volume,
    single_volume_if_any, unnamed_volume, IdRule,
};
use crate::text::{
    concat, contains, contains_exec, decimal, owned, replace_all, replace_exec, starts_with,
    starts_with_exec, trim, trim_exec, usize_to_string,
};
use crate::types::{BookInfo, BookInfoView, Chapter, ChapterView, VolumeView};

pub use crate::providers::common::{extract_book_id, spec_extract_book_id};

verus! {

/// The parsed book with only the fields these layouts fill.
pub open spec fn book_view(
    book_name: Seq<char>,
    author: Seq<char>,
    summary: Seq<char>,
    cover_url: Seq<char>,
    volumes: Seq<VolumeView>,
) -> BookInfoView {
    BookInfoView {
        book_name,
        author,
        summary,
        cover_url,
        serial_status: Seq::empty(),
        update_time: Seq::empty(),
        word_count: Seq::empty(),
        volumes,
    }
}

/// The link in a chapter id, or a path under the site.
pub open spec fn chapter_page_url(base: Seq<char>, chapter_id: Seq<char>) -> Seq<char> {
    if starts_with(chapter_id, "http"@) {
        chapter_id
    } else {
        base + "/"@ + chapter_id
    }
}

/// A chapter id that is a full link stays; otherwise it is a path under `base`.
pub fn chapter_page_url_exec(base: &str, chapter_id: &str) -> (r: String)
    ensures
        r@ == chapter_page_url(base@, chapter_id@),
{
    if starts_with_exec(chapter_id, "http") {
        owned(chapter_id)
    } else {
        concat(concat(base, "/").as_str(), chapter_id)
    }
}

/// The page of a book: `{base}/{book_id}/`.
pub open spec fn book_page_url(base: Seq<char>, book_id: Seq<char>) -> Seq<char> {
    base + "/"@ + book_id + "/"@
}

/// `{base}/{book_id}/`.
pub fn book_page_url_exec(base: &str, book_id: &str) -> (r: String)
    ensures
        r@ == book_page_url(base@, book_id@),
{
    concat(concat(concat(base, "/").as_str(), book_id).as_str(), "/")
}

// ═══ layout 1 ═══════════════════════════════════════════════════════════════

/// A site of layout 1.
#[derive(Clone, Copy)]
pub struct Biquge1Provider {
    pub name: &'static str,
    pub base_url: &'static str,
    /// Where searches are posted; empty when the site has no search.
    pub search_url: &'static str,
    /// Whether the table of contents spans several pages.
    pub use_paginated_info: bool,
    /// Whether chapters span several pages.
    pub use_paginated_chapter: bool,
}

/// Elements that may hold a layout-1 chapter body, in order of preference.
pub open spec fn b1_body_selectors() -> Seq<Seq<char>> {
    seq![
        "article"@,
        "#content"@,
        "#booktext"@,
        ".content"@,
        "#chaptercontent"@,
        ".chapter-content"@,
        "#TextContent"@,
        ".read-content"@,
        "#booktxt"@,
    ]
}

/// A layout-1 book page: name from `og:novel:book_name`, else `og:title`,
/// else `h1`; author from `og:novel:author`, else the info block; summary and
/// cover from `og:description`/`og:image`; one unnamed volume of the linked
/// chapters, if there are any.
pub open spec fn b1_info(base: Seq<char>, html: Seq<char>) -> BookInfoView {
    book_view(
        or_else(or_else(meta(html, "og:novel:book_name"@), meta(html, "og:title"@)), sel_text(html, "h1"@)),
        or_else(meta(html, "og:novel:author"@), sel_text(html, ".info span, .book_info a, #info h1+p a"@)),
        meta(html, "og:description"@),
        meta(html, "og:image"@),
        single_volume_if_any(
            link_chapters(
                crate::html::html_select(
                    html,
                    "div.book_list2 a[href], div.listmain a[href], #list a[href], .zjlist a[href]"@,
                ),
                base,
                IdRule::LastSegment,
            ),
        ),
    )
}

/// The `page`-th page of a table of contents: `{base}/{id}/index_{page}.html`
/// after the first, `{base}/{id}/` for the first.
pub open spec fn b1_info_url(base: Seq<char>, book_id: Seq<char>, page: nat) -> Seq<char> {
    if page > 1 {
        base + "/"@ + book_id + "/index_"@ + decimal(page) + ".html"@
    } else {
        base + "/"@ + book_id + "/"@
    }
}

/// The `page`-th page of a chapter: `{base}/{book}/{chapter}_{page}.html`
/// after the first, `{base}/{book}/{chapter}.html` for the first.
pub open spec fn b1_chapter_url(base: Seq<char>, book_id: Seq<char>, chapter_id: Seq<char>, page: nat) -> Seq<char> {
    if page > 1 {
        base + "/"@ + book_id + "/"@ + chapter_id + "_"@ + decimal(page) + ".html"@
    } else {
        base + "/"@ + book_id + "/"@ + chapter_id + ".html"@
    }
}

/// Last table-of-contents page that is fetched.
pub const B1_MAX_INFO_PAGE: usize = 50;

/// Last chapter page that is fetched.
pub const B1_MAX_CHAPTER_PAGE: usize = 20;

impl Biquge1Provider {
    /// The site's identifier.
    pub fn name(&self) -> (r: &'static str)
        ensures
            r@ == self.name@,
    {
        self.name
    }

    /// The site's address.
    pub fn base_url(&self) -> (r: &'static str)
        ensures
            r@ == self.base_url@,
    {
        self.base_url
    }

    /// A site has search exactly when it has a search address.
    pub fn supports_search(&self) -> (r: bool)
        ensures
            r == (self.search_url@.len() > 0),
    {
        !self.search_url.is_empty()
    }

    /// The address of the `page`-th table-of-contents page.
    pub fn info_url(&self, book_id: &str, page: usize) -> (r: String)
        ensures
            r@ == b1_info_url(self.base_url@, book_id@, page as nat),
    {
        let head = concat(concat(self.base_url, "/").as_str(), book_id);
        if page > 1 {
            let a = concat(head.as_str(), "/index_");
            let b = concat(a.as_str(), usize_to_string(page).as_str());
            concat(b.as_str(), ".html")
        } else {
            concat(head.as_str(), "/")
        }
    }

    /// The address of the `page`-th page of a chapter.
    pub fn chapter_url(&self, book_id: &str, chapter_id: &str, page: usize) -> (r: String)
        ensures
            r@ == b1_chapter_url(self.base_url@, book_id@, chapter_id@, page as nat),
    {
        let head = concat(concat(concat(concat(self.base_url, "/").as_str(), book_id).as_str(), "/").as_str(), chapter_id);
        if page > 1 {
            let a = concat(head.as_str(), "_");
            let b = concat(a.as_str(), usize_to_string(page).as_str());
            concat(b.as_str(), ".html")
        } else {
            concat(head.as_str(), ".html")
        }
    }

    /// Parses one table-of-contents page.
    pub fn parse_book_info_html(&self, html: &str) -> (info: BookInfo)
        ensures
            info@ == b1_info(self.base_url@, html@),
    {
        let mut book_name = meta_content(html, "og:novel:book_name");
        if book_name.as_str().is_empty() {
            book_name = meta_content(html, "og:title");
        }
        if book_name.as_str().is_empty() {
            book_name = select_text(html, "h1");
        }
        let mut author = meta_content(html, "og:novel:author");
        if author.as_str().is_empty() {
            author = select_text(html, ".info span, .book_info a, #info h1+p a");
        }
        let summary = meta_content(html, "og:description");
        let cover_url = meta_content(html, "og:image");
        let links = select_all(
            html,
            "div.book_list2 a[href], div.listmain a[href], #list a[href], .zjlist a[href]",
        );
        let chapters = links_to_chapters(&links, self.base_url, IdRule::LastSegment);
        let mut info = BookInfo::empty();
        info.book_name = book_name;
        info.author = author;
        info.summary = summary;
        info.cover_url = cover_url;
        if chapters.len() > 0 {
            info.volumes.push(unnamed_volume(chapters));
        }
        let ghost spec = b1_info(self.base_url@, html@);
        assert(info@.volumes =~= spec.volumes);
        assert(info@.book_name == spec.book_name);
        assert(info@.author == spec.author);
        assert(info@.summary == spec.summary);
        assert(info@.cover_url == spec.cover_url);
        assert(info@.serial_status =~= spec.serial_status);
        assert(info@.update_time =~= spec.update_time);
        assert(info@.word_count =~= spec.word_count);
        info
    }

    /// Parses one chapter page: title from `h1`, text of the first body
    /// element found.
    pub fn parse_chapter_html(&self, html: &str) -> (ch: Chapter)
        ensures
            ch@ == (ChapterView {
                id: Seq::empty(),
                title: sel_text(html@, "h1"@),
                content: spec_html_to_text(first_inner(html@, b1_body_selectors())),
            }),
    {
        let title = select_text(html, "h1");
        let sels: Vec<&str> = vec![
            "article",
            "#content",
            "#booktext",
            ".content",
            "#chaptercontent",
            ".chapter-content",
            "#TextContent",
            ".read-content",
            "#booktxt",
        ];
        assert(strs_view(sels@) =~= b1_body_selectors());
        let inner = first_inner_exec(html, &sels);
        let content = html_to_text(inner.as_str());
        Chapter { id: String::new(), title, content }
    }

    /// The next table-of-contents page to fetch after `page - 1`: only for
    /// paginated sites, only while the first page links to `index_{page}.html`,
    /// and at most up to page 50.
    pub fn next_info_page(&self, book_id: &str, first_html: &str, page: usize) -> (r: Option<String>)
        ensures
            r is Some <==> (self.use_paginated_info && 2 <= page <= B1_MAX_INFO_PAGE && contains(
                first_html@,
                "index_"@ + decimal(page as nat) + ".html"@,
            )),
            r matches Some(u) ==> u@ == b1_info_url(self.base_url@, book_id@, page as nat),
    {
        if !self.use_paginated_info || page < 2 || page > B1_MAX_INFO_PAGE {
            return None;
        }
        let relative = concat(concat("index_", usize_to_string(page).as_str()).as_str(), ".html");
        if !contains_exec(first_html, relative.as_str()) {
            return None;
        }
        Some(self.info_url(book_id, page))
    }

    /// The next page of a chapter to fetch after `page - 1`: only for
    /// paginated sites, only while the first page links to
    /// `{chapter}_{page}.html`, and at most up to page 20.
    pub fn next_chapter_page(&self, book_id: &str, chapter_id: &str, first_html: &str, page: usize) -> (r: Option<String>)
        ensures
            r is Some <==> (self.use_paginated_chapter && 2 <= page <= B1_MAX_CHAPTER_PAGE
                && contains(first_html@, chapter_id@ + "_"@ + decimal(page as nat) + ".html"@)),
            r matches Some(u) ==> u@ == b1_chapter_url(self.base_url@, book_id@, chapter_id@, page as nat),
    {
        if !self.use_paginated_chapter || page < 2 || page > B1_MAX_CHAPTER_PAGE {
            return None;
        }
        let relative = concat(concat(concat(chapter_id, "_").as_str(), usize_to_string(page).as_str()).as_str(), ".html");
        if !contains_exec(first_html, relative.as_str()) {
            return None;
        }
        Some(self.chapter_url(book_id, chapter_id, page))
    }
}

/// Adds the chapters of a further table-of-contents page: the first volume
/// of the page is appended to the first volume of the book, when both exist.
pub fn merge_info_page(info: &mut BookInfo, page: BookInfo)
    ensures
        final(info)@.book_name == old(info)@.book_name,
        final(info)@.author == old(info)@.author,
        final(info)@.summary == old(info)@.summary,
        final(info)@.cover_url == old(info)@.cover_url,
        final(info)@.volumes.len() == old(info)@.volumes.len(),
        (old(info)@.volumes.len() > 0 && page@.volumes.len() > 0) ==> final(info)@.volumes =~= old(
            info,
        )@.volumes.update(
            0,
            VolumeView {
                volume_name: old(info)@.volumes[0].volume_name,
                chapters: old(info)@.volumes[0].chapters + page@.volumes[0].chapters,
            },
        ),
        !(old(info)@.volumes.len() > 0 && page@.volumes.len() > 0) ==> final(info)@ == old(info)@,
{
    let mut page = page;
    if info.volumes.len() > 0 && page.volumes.len() > 0 {
        let ghost old_vols = info.volumes@;
        let ghost page_vol = page.volumes@[0];
        let mut extra = page.volumes.remove(0);
        assert(extra == page_vol);
        let mut first = info.volumes.remove(0);
        assert(first == old_vols[0]);
        let ghost before = first.chapters@;
        let ghost added = extra.chapters@;
        first.chapters.append(&mut extra.chapters);
        assert(first.chapters@ =~= before + added);
        assert(chapters_view(first.chapters@) =~= chapters_view(before) + chapters_view(added));
        let ghost newv = first@;
        info.volumes.insert(0, first);
        assert(info.volumes@ =~= old_vols.update(0, info.volumes@[0]));
        assert(info@.volumes =~= old_vols.map_values(|v: crate::types::Volume| v@).update(0, newv));
    }
}

/// Adds the text of a further chapter page after a line break.
pub fn append_chapter_page(chapter: &mut Chapter, page: Chapter)
    ensures
        final(chapter)@.id == old(chapter)@.id,
        final(chapter)@.title == old(chapter)@.title,
        final(chapter)@.content == old(chapter)@.content + "\n"@ + page@.content,
{
    chapter.content.append("\n");
    chapter.content.append(page.content.as_str());
}

// ═══ layout 2 ═══════════════════════════════════════════════════════════════

/// A site of layout 2.
#[derive(Clone, Copy)]
pub struct Biquge2Provider {
    pub name: &'static str,
    pub base_url: &'static str,
}

/// The author line of layout 2 without its label, trimmed.
pub open spec fn b2_author(raw: Seq<char>) -> Seq<char> {
    trim(replace_all(replace_all(raw, "作    者："@, Seq::empty()), "作者："@, Seq::empty()))
}

/// A layout-2 book page: name from `#info h1` (else `h1`), author from the
/// first paragraph of `#info` without its label, summary from `#intro`,
/// cover from `#fmimg img`, one unnamed volume of the `dd` chapter links.
pub open spec fn b2_info(base: Seq<char>, html: Seq<char>) -> BookInfoView {
    book_view(
        or_else(sel_text(html, "#info h1"@), sel_text(html, "h1"@)),
        b2_author(sel_text(html, "#info p:first-of-type"@)),
        sel_text(html, "#intro"@),
        sel_attr(html, "#fmimg img"@, "src"@),
        single_volume(link_chapters(crate::html::html_select(html, "dd a[href]"@), base, IdRule::LastSegment)),
    )
}

/// A layout-2 chapter page: title from `h1`, text of the first `#content`.
pub open spec fn b2_chapter(html: Seq<char>, chapter_id: Seq<char>) -> ChapterView {
    let ns = crate::html::html_select(html, "#content"@);
    ChapterView {
        id: chapter_id,
        title: sel_text(html, "h1"@),
        content: if ns.len() > 0 {
            spec_html_to_text(ns[0].inner_html)
        } else {
            Seq::empty()
        },
    }
}

/// Removing a pattern that does not occur leaves the text.
proof fn lemma_remove_absent(s: Seq<char>, pat: Seq<char>)
    requires
        pat.len() > 0,
        !contains(s, pat),
    ensures
        replace_all(s, pat, Seq::empty()) == s,
    decreases s.len(),
{
    if s.len() > 0 {
        assert(!crate::text::occurs_at(s, pat, 0));
        assert forall|i: int| !crate::text::occurs_at(s.skip(1), pat, i) by {
            if crate::text::occurs_at(s.skip(1), pat, i) {
                assert(s.skip(1).subrange(i, i + pat.len()) =~= s.subrange(i + 1, i + 1 + pat.len()));
                assert(crate::text::occurs_at(s, pat, i + 1));
            }
        }
        lemma_remove_absent(s.skip(1), pat);
        assert(seq![s[0]] + s.skip(1) =~= s);
    }
}

/// Removing a pattern from a text that starts with it, and holds it nowhere
/// else, leaves the rest.
proof fn lemma_remove_leading(pat: Seq<char>, n: Seq<char>)
    requires
        pat.len() > 0,
        !contains(n, pat),
    ensures
        replace_all(pat + n, pat, Seq::empty()) == n,
{
    let s = pat + n;
    assert(s.subrange(0, pat.len() as int) =~= pat);
    assert(s.skip(pat.len() as int) =~= n);
    lemma_remove_absent(n, pat);
    assert(Seq::<char>::empty() + n =~= n);
}

/// The author of a layout-2 book page is the first `#info` paragraph with
/// its label `作者：` (or `作    者：`) removed, trimmed: for a paragraph that
/// is the label followed by a name holding no label, the author is the name,
/// trimmed.
pub proof fn lemma_b2_author(base: Seq<char>, html: Seq<char>, name: Seq<char>)
    requires
        !contains(name, "作者："@),
        !contains(name, "作    者："@),
    ensures
        sel_text(html, "#info p:first-of-type"@) == "作者："@ + name ==> b2_info(base, html).author == trim(name),
        sel_text(html, "#info p:first-of-type"@) == "作    者："@ + name ==> b2_info(base, html).author == trim(name),
{
    reveal_strlit("作者：");
    reveal_strlit("作    者：");
    let short = "作者："@;
    let long = "作    者："@;
    let s = short + name;
    // `作者：name` holds no `作    者：`: not at its first three places, and not in `name`.
    assert forall|i: int| !crate::text::occurs_at(s, long, i) by {
        if crate::text::occurs_at(s, long, i) {
            let w = s.subrange(i, i + long.len());
            if i == 0 {
                assert(w[1] == s[1]);
            } else if i == 1 {
                assert(w[0] == s[1]);
            } else if i == 2 {
                assert(w[0] == s[2]);
            } else {
                assert(name.subrange(i - 3, i - 3 + long.len()) =~= w);
                assert(crate::text::occurs_at(name, long, i - 3));
            }
        }
    }
    lemma_remove_absent(s, long);
    lemma_remove_leading(short, name);
    lemma_remove_leading(long, name);
    lemma_remove_absent(name, short);
}

/// The text of a layout-2 chapter is the rendering of the markup inside the
/// page's first `#content` element (none without one), so that a `<br>`
/// between two runs of plain text puts them on two lines; its title is the
/// page's `h1`.
pub proof fn lemma_b2_chapter(html: Seq<char>, chapter_id: Seq<char>, a: Seq<char>, b: Seq<char>)
    requires
        a.len() > 0,
        b.len() > 0,
        crate::markup::plain_run(a),
        crate::markup::plain_run(b),
        trim(a) == a,
        trim(b) == b,
    ensures
        b2_chapter(html, chapter_id).title == sel_text(html, "h1"@),
        crate::html::html_select(html, "#content"@).len() == 0 ==> b2_chapter(html, chapter_id).content.len() == 0,
        crate::html::html_select(html, "#content"@).len() > 0 ==> b2_chapter(html, chapter_id).content
            == spec_html_to_text(crate::html::html_select(html, "#content"@)[0].inner_html),
        crate::html::html_select(html, "#content"@).len() > 0 && crate::html::html_select(html, "#content"@)[0].inner_html
            == a + "<br>"@ + b ==> b2_chapter(html, chapter_id).content == a + "\n"@ + b,
{
    crate::markup::lemma_br_breaks_line(a, b);
}

impl Biquge2Provider {
    /// The site's identifier.
    pub fn name(&self) -> (r: &'static str)
        ensures
            r@ == self.name@,
    {
        self.name
    }

    /// The site's address.
    pub fn base_url(&self) -> (r: &'static str)
        ensures
            r@ == self.base_url@,
    {
        self.base_url
    }

    /// The book page: `{base}/{book_id}/`.
    pub fn book_url(&self, book_id: &str) -> (r: String)
        ensures
            r@ == book_page_url(self.base_url@, book_id@),
    {
        book_page_url_exec(self.base_url, book_id)
    }

    /// The chapter page: the id itself when it is a link, else a path under the site.
    pub fn chapter_url(&self, chapter_id: &str) -> (r: String)
        ensures
            r@ == chapter_page_url(self.base_url@, chapter_id@),
    {
        chapter_page_url_exec(self.base_url, chapter_id)
    }

    /// Parses a book page.
    pub fn parse_book_info(&self, html: &str) -> (info: BookInfo)
        ensures
            info@ == b2_info(self.base_url@, html@),
    {
        let mut book_name = select_text(html, "#info h1");
        if book_name.as_str().is_empty() {
            book_name = select_text(html, "h1");
        }
        let raw = select_text(html, "#info p:first-of-type");
        proof {
            reveal_strlit("作    者：");
            reveal_strlit("作者：");
            reveal_strlit("");
            assert(""@ =~= Seq::<char>::empty());
        }
        let a1 = replace_exec(raw.as_str(), "作    者：", "");
        let a2 = replace_exec(a1.as_str(), "作者：", "");
        let author = trim_exec(a2.as_str());
        let summary = select_text(html, "#intro");
        let cover_url = select_attr(html, "#fmimg img", "src");
        let links = select_all(html, "dd a[href]");
        let chapters = links_to_chapters(&links, self.base_url, IdRule::LastSegment);
        let mut info = BookInfo::empty();
        info.book_name = book_name;
        info.author = author;
        info.summary = summary;
        info.cover_url = cover_url;
        info.volumes.push(unnamed_volume(chapters));
        let ghost spec = b2_info(self.base_url@, html@);
        assert(info@.volumes =~= spec.volumes);
        assert(info@.serial_status =~= spec.serial_status);
        assert(info@.update_time =~= spec.update_time);
        assert(info@.word_count =~= spec.word_count);
        info
    }

    /// Parses a chapter page.
    pub fn parse_chapter(&self, html: &str, chapter_id: &str) -> (ch: Chapter)
        ensures
            ch@ == b2_chapter(html@, chapter_id@),
    {
        let title = select_text(html, "h1");
        let ns = select_all(html, "#content");
        let content = if ns.len() > 0 {
            html_to_text(ns[0].inner_html.as_str())
        } else {
            String::new()
        };
        Chapter { id: owned(chapter_id), title, content }
    }
}

// ═══ layout 3 ═══════════════════════════════════════════════════════════════

/// A site of layout 3.
#[derive(Clone, Copy)]
pub struct Biquge3Provider {
    pub name: &'static str,
    pub base_url: &'static str,
    /// Search address, to which the encoded keyword is appended; empty when
    /// the site has no search.
    pub search_url: &'static str,
}

/// What is read in each layout-3 search result: title, author, link.
pub open spec fn b3_fields() -> Seq<Seq<char>> {
    seq!["a, .s2 a, h3 a"@, ".author, .s4, span.s4"@, "a[href], .s2 a[href], h3 a[href]"@]
}

/// One layout-3 search result, when it has a title.
pub open spec fn b3_item(site: Seq<char>, item: Seq<Seq<crate::html::NodeView>>) -> Option<crate::types::SearchResultView> {
    let title = crate::html::group_text(item, 0);
    if title.len() == 0 {
        None
    } else {
        Some(
            crate::types::SearchResultView {
                site,
                book_id: spec_extract_book_id(crate::html::group_attr(item, 2, "href"@)),
                title,
                author: crate::html::group_text(item, 1),
                latest_chapter: Seq::empty(),
                update_date: Seq::empty(),
                word_count: Seq::empty(),
            },
        )
    }
}

/// [`b3_item`] for a site.
pub open spec fn b3_item_fn(site: Seq<char>) -> spec_fn(Seq<Seq<crate::html::NodeView>>) -> Option<crate::types::SearchResultView> {
    |it: Seq<Seq<crate::html::NodeView>>| b3_item(site, it)
}

/// Selectors that may hold a layout-3 chapter body, in order of preference.
pub open spec fn b3_body_selectors() -> Seq<Seq<char>> {
    seq!["#booktxt"@, "#content"@, "#chaptercontent"@, "article"@]
}

/// A layout-3 book page: name from `og:novel:book_name`, else `og:title`,
/// else `h1`; author, summary and cover from `og:*`; one unnamed volume of
/// the chapter links.
pub open spec fn b3_info(base: Seq<char>, html: Seq<char>) -> BookInfoView {
    book_view(
        or_else(or_else(meta(html, "og:novel:book_name"@), meta(html, "og:title"@)), sel_text(html, "h1"@)),
        meta(html, "og:novel:author"@),
        meta(html, "og:description"@),
        meta(html, "og:image"@),
        single_volume(
            link_chapters(
                crate::html::html_select(html, "#list a[href], .zjlist a[href], dl dd a[href]"@),
                base,
                IdRule::LastSegment,
            ),
        ),
    )
}

fn b3_item_exec(site: &str, item: &Vec<Vec<crate::html::Node>>) -> (r: Option<crate::types::SearchResult>)
    ensures
        crate::providers::common::opt_result_view(r) == b3_item(site@, crate::html::groups_view(item@)),
{
    let title = crate::html::group_text_exec(item, 0);
    if title.as_str().is_empty() {
        return None;
    }
    let author = crate::html::group_text_exec(item, 1);
    let href = crate::html::group_attr_exec(item, 2, "href");
    Some(crate::types::SearchResult {
        site: owned(site),
        book_id: extract_book_id(href.as_str()),
        title,
        author,
        latest_chapter: String::new(),
        update_date: String::new(),
        word_count: String::new(),
    })
}

impl Biquge3Provider {
    /// The site's identifier.
    pub fn name(&self) -> (r: &'static str)
        ensures
            r@ == self.name@,
    {
        self.name
    }

    /// The site's address.
    pub fn base_url(&self) -> (r: &'static str)
        ensures
            r@ == self.base_url@,
    {
        self.base_url
    }

    /// A site has search exactly when it has a search address.
    pub fn supports_search(&self) -> (r: bool)
        ensures
            r == (self.search_url@.len() > 0),
    {
        !self.search_url.is_empty()
    }

    /// The search address for a keyword: the search address, then the
    /// percent-encoded keyword.
    pub fn search_url_for(&self, keyword: &str) -> (r: String)
        ensures
            r@ == self.search_url@ + crate::providers::common::url_encoded(keyword@),
    {
        concat(self.search_url, crate::providers::common::url_encode(keyword).as_str())
    }

    /// Parses a search result page: at most `limit` entries, each with a title.
    pub fn parse_search(&self, html: &str, limit: usize) -> (r: Vec<crate::types::SearchResult>)
        ensures
            crate::providers::common::results_view(r@) == crate::providers::common::collect(
                crate::providers::common::take_at_most(
                    crate::html::html_select_fields(
                        html@,
                        ".result-list .result-item, .search-list li, .novelslist2 li"@,
                        b3_fields(),
                    ),
                    limit as nat,
                ),
                b3_item_fn(self.name@),
            ),
    {
        let fields: Vec<&str> = vec!["a, .s2 a, h3 a", ".author, .s4, span.s4", "a[href], .s2 a[href], h3 a[href]"];
        assert(strs_view(fields@) =~= b3_fields());
        let items = crate::html::select_fields(html, ".result-list .result-item, .search-list li, .novelslist2 li", &fields);
        assert(crate::providers::common::items_view(items@) =~= items@.map_values(
            |item: Vec<Vec<crate::html::Node>>| crate::html::groups_view(item@),
        ));
        let site = self.name;
        crate::providers::common::collect_results(
            &items,
            limit,
            (|it: &Vec<Vec<crate::html::Node>>| -> (r: Option<crate::types::SearchResult>)
                ensures
                    crate::providers::common::opt_result_view(r) == b3_item(site@, crate::html::groups_view(it@)),
                { b3_item_exec(site, it) }),
            Ghost(b3_item_fn(self.name@)),
        )
    }

    /// The book page: `{base}/{book_id}/`.
    pub fn book_url(&self, book_id: &str) -> (r: String)
        ensures
            r@ == book_page_url(self.base_url@, book_id@),
    {
        book_page_url_exec(self.base_url, book_id)
    }

    /// The chapter page: the id itself when it is a link, else a path under the site.
    pub fn chapter_url(&self, chapter_id: &str) -> (r: String)
        ensures
            r@ == chapter_page_url(self.base_url@, chapter_id@),
    {
        chapter_page_url_exec(self.base_url, chapter_id)
    }

    /// Parses a book page.
    pub fn parse_book_info(&self, html: &str) -> (info: BookInfo)
        ensures
            info@ == b3_info(self.base_url@, html@),
    {
        let mut book_name = meta_content(html, "og:novel:book_name");
        if book_name.as_str().is_empty() {
            book_name = meta_content(html, "og:title");
        }
        if book_name.as_str().is_empty() {
            book_name = select_text(html, "h1");
        }
        let author = meta_content(html, "og:novel:author");
        let summary = meta_content(html, "og:description");
        let cover_url = meta_content(html, "og:image");
        let links = select_all(html, "#list a[href], .zjlist a[href], dl dd a[href]");
        let chapters = links_to_chapters(&links, self.base_url, IdRule::LastSegment);
        let mut info = BookInfo::empty();
        info.book_name = book_name;
        info.author = author;
        info.summary = summary;
        info.cover_url = cover_url;
        info.volumes.push(unnamed_volume(chapters));
        let ghost spec = b3_info(self.base_url@, html@);
        assert(info@.volumes =~= spec.volumes);
        assert(info@.serial_status =~= spec.serial_status);
        assert(info@.update_time =~= spec.update_time);
        assert(info@.word_count =~= spec.word_count);
        info
    }

    /// Parses a chapter page: title from `h1`, the first non-empty body.
    pub fn parse_chapter(&self, html: &str, chapter_id: &str) -> (ch: Chapter)
        ensures
            ch@ == (ChapterView {
                id: chapter_id@,
                title: sel_text(html@, "h1"@),
                content: first_nonempty_body(html@, b3_body_selectors()),
            }),
    {
        let title = select_text(html, "h1");
        let sels: Vec<&str> = vec!["#booktxt", "#content", "#chaptercontent", "article"];
        assert(strs_view(sels@) =~= b3_body_selectors());
        let content = first_nonempty_body_exec(html, &sels);
        Chapter { id: owned(chapter_id), title, content }
    }
}

// ═══ layout 4 ═══════════════════════════════════════════════════════════════

/// A site of layout 4.
#[derive(Clone, Copy)]
pub struct Biquge4Provider {
    pub name: &'static str,
    pub base_url: &'static str,
}

/// The pattern that finds a layout-4 chapter body in malformed markup.
pub open spec fn b4_pattern() -> Seq<char> {
    "id=\"novelcontent\"[^>]*>([\\s\\S]*?)</div>"@
}

/// Selectors that may hold a layout-4 chapter body, in order of preference.
pub open spec fn b4_body_selectors() -> Seq<Seq<char>> {
    seq!["#novelcontent"@, "#content"@, "#chaptercontent"@, "article"@, ".content"@]
}

/// A layout-4 book page: name and author from the first matching elements,
/// one unnamed volume of the list links.
pub open spec fn b4_info(base: Seq<char>, html: Seq<char>) -> BookInfoView {
    book_view(
        sel_text(html, "h1, .title, .bookname"@),
        sel_text(html, ".bq_intro span, .author, .info span"@),
        Seq::empty(),
        Seq::empty(),
        single_volume(
            link_chapters(
                crate::html::html_select(html, "ul li a[href], .chapterlist a[href], #chapterlist a[href]"@),
                base,
                IdRule::LastSegment,
            ),
        ),
    )
}

/// A layout-4 chapter body: the text the pattern captures, else the first
/// non-empty body element.
pub open spec fn b4_content(html: Seq<char>) -> Seq<char> {
    match regex_group1(b4_pattern(), html) {
        Some(c) => spec_html_to_text(c),
        None => first_nonempty_body(html, b4_body_selectors()),
    }
}

impl Biquge4Provider {
    /// The site's identifier.
    pub fn name(&self) -> (r: &'static str)
        ensures
            r@ == self.name@,
    {
        self.name
    }

    /// The site's address.
    pub fn base_url(&self) -> (r: &'static str)
        ensures
            r@ == self.base_url@,
    {
        self.base_url
    }

    /// The book page: `{base}/{book_id}/`.
    pub fn book_url(&self, book_id: &str) -> (r: String)
        ensures
            r@ == book_page_url(self.base_url@, book_id@),
    {
        book_page_url_exec(self.base_url, book_id)
    }

    /// The chapter page: the id itself when it is a link, else a path under the site.
    pub fn chapter_url(&self, chapter_id: &str) -> (r: String)
        ensures
            r@ == chapter_page_url(self.base_url@, chapter_id@),
    {
        chapter_page_url_exec(self.base_url, chapter_id)
    }

    /// Parses a book page.
    pub fn parse_book_info(&self, html: &str) -> (info: BookInfo)
        ensures
            info@ == b4_info(self.base_url@, html@),
    {
        let book_name = select_text(html, "h1, .title, .bookname");
        let author = select_text(html, ".bq_intro span, .author, .info span");
        let links = select_all(html, "ul li a[href], .chapterlist a[href], #chapterlist a[href]");
        let chapters = links_to_chapters(&links, self.base_url, IdRule::LastSegment);
        let mut info = BookInfo::empty();
        info.book_name = book_name;
        info.author = author;
        info.volumes.push(unnamed_volume(chapters));
        let ghost spec = b4_info(self.base_url@, html@);
        assert(info@.volumes =~= spec.volumes);
        assert(info@.summary =~= spec.summary);
        assert(info@.cover_url =~= spec.cover_url);
        assert(info@.serial_status =~= spec.serial_status);
        assert(info@.update_time =~= spec.update_time);
        assert(info@.word_count =~= spec.word_count);
        info
    }

    /// Parses a chapter page: title from `h1` or `.title`, body by pattern or element.
    pub fn parse_chapter(&self, html: &str, chapter_id: &str) -> (ch: Chapter)
        ensures
            ch@ == (ChapterView {
                id: chapter_id@,
                title: sel_text(html@, "h1, .title"@),
                content: b4_content(html@),
            }),
    {
        let title = select_text(html, "h1, .title");
        let content = match regex_capture("id=\"novelcontent\"[^>]*>([\\s\\S]*?)</div>", html) {
            Some(c) => html_to_text(c.as_str()),
            None => {
                let sels: Vec<&str> = vec!["#novelcontent", "#content", "#chaptercontent", "article", ".content"];
                assert(strs_view(sels@) =~= b4_body_selectors());
                first_nonempty_body_exec(html, &sels)
            },
        };
        Chapter { id: owned(chapter_id), title, content }
    }
}

} // verus!
