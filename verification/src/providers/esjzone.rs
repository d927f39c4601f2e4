//! ESJ Zone: a tag search, a book page whose chapter list keeps only the
//! site's own links, and forum-style chapter pages.

use vstd::prelude::*;

use crate::html::{
    attr_or_empty, attr_or_empty_exec, attr_value, element_text, group_attr, group_attr_exec, group_text,
    group_text_exec, html_select, html_select_fields, node_attr, node_text, sel_attr, sel_text, select_all,
    select_attr, select_fields, select_text, strs_view, Node, NodeView,
};
use crate::providers::common::{
    collect, collect_chapters, collect_results, id_by_rule, inner_text_exec, opt_chapter_view, opt_result_view,
    results_view, sel_inner_text, single_volume_if_any, take_at_most, unnamed_volume, url_encode, url_encoded, IdRule,
};
use crate::text::{concat, contains, contains_exec, owned, trim, trim_exec};
use crate::types::{
    BookInfo, BookInfoView, Chapter, ChapterInfo, ChapterInfoView, ChapterView, SearchResult, SearchResultView, Volume,
};

verus! {

/// The esjzone site.
pub struct EsjzoneProvider;

/// Site address.
pub open spec fn ej_base() -> Seq<char> {
    "https://www.esjzone.cc"@
}

/// Selections made in each search card: the title link, the latest chapter
/// and the author.
pub open spec fn ej_fields() -> Seq<Seq<char>> {
    seq!["h5.card-title a:first-child"@, "div.card-ep a:first-child"@, "div.card-author a:first-child"@]
}

/// A search card; cards without a book link are skipped.
pub open spec fn ej_result(it: Seq<Seq<NodeView>>) -> Option<SearchResultView> {
    let href = group_attr(it, 0, "href"@);
    if href.len() == 0 {
        None
    } else {
        Some(
            SearchResultView {
                site: "esjzone"@,
                book_id: id_by_rule(IdRule::SegmentStem, href),
                title: group_text(it, 0),
                author: group_text(it, 2),
                latest_chapter: group_text(it, 1),
                update_date: Seq::empty(),
                word_count: Seq::empty(),
            },
        )
    }
}

/// [`ej_result`] as a function value.
pub open spec fn ej_result_fn() -> spec_fn(Seq<Seq<NodeView>>) -> Option<SearchResultView> {
    |it: Seq<Seq<NodeView>>| ej_result(it)
}

/// The results among the first `limit` cards of a search page.
pub open spec fn ej_results(html: Seq<char>, limit: nat) -> Seq<SearchResultView> {
    collect(take_at_most(html_select_fields(html, "div.card-body"@, ej_fields()), limit), ej_result_fn())
}

/// A chapter link: only links on the site itself; titled by its trimmed
/// `data-title` when that is not empty, else by its text; untitled links
/// are skipped; the link is kept as it is.
pub open spec fn ej_link(n: NodeView) -> Option<ChapterInfoView> {
    match attr_value(n.attrs, "href"@) {
        Some(h) => if !contains(h, "www.esjzone.cc"@) {
            None
        } else {
            let ta = attr_or_empty(n, "data-title"@);
            let t = if ta.len() > 0 {
                trim(ta)
            } else {
                node_text(n)
            };
            if t.len() == 0 {
                None
            } else {
                Some(ChapterInfoView { title: t, chapter_id: id_by_rule(IdRule::SegmentStem, h), url: h })
            }
        },
        None => None,
    }
}

/// [`ej_link`] as a function value.
pub open spec fn ej_link_fn() -> spec_fn(NodeView) -> Option<ChapterInfoView> {
    |n: NodeView| ej_link(n)
}

/// An esjzone book page.
pub open spec fn ej_info(html: Seq<char>) -> BookInfoView {
    BookInfoView {
        book_name: sel_text(html, "h2.text-normal"@),
        author: sel_text(html, "li:has(strong) a"@),
        summary: sel_text(html, "div.description"@),
        cover_url: sel_attr(html, "div.product-gallery img"@, "src"@),
        serial_status: Seq::empty(),
        update_time: Seq::empty(),
        word_count: Seq::empty(),
        volumes: single_volume_if_any(collect(html_select(html, "#chapterList a[href]"@), ej_link_fn())),
    }
}

fn ej_result_exec(it: &Vec<Vec<Node>>) -> (r: Option<SearchResult>)
    ensures
        opt_result_view(r) == ej_result(crate::html::groups_view(it@)),
{
    let href = group_attr_exec(it, 0, "href");
    if href.as_str().is_empty() {
        return None;
    }
    let r = SearchResult {
        site: owned("esjzone"),
        book_id: crate::providers::common::chapter_id_by_rule(IdRule::SegmentStem, href.as_str()),
        title: group_text_exec(it, 0),
        author: group_text_exec(it, 2),
        latest_chapter: group_text_exec(it, 1),
        update_date: String::new(),
        word_count: String::new(),
    };
    assert(r@.update_date =~= Seq::<char>::empty());
    assert(r@.word_count =~= Seq::<char>::empty());
    Some(r)
}

fn ej_link_exec(n: &Node) -> (r: Option<ChapterInfo>)
    ensures
        opt_chapter_view(r) == ej_link(n@),
{
    match node_attr(n, "href") {
        Some(h) => {
            if !contains_exec(h.as_str(), "www.esjzone.cc") {
                return None;
            }
            let ta = attr_or_empty_exec(n, "data-title");
            let title = if !ta.as_str().is_empty() {
                trim_exec(ta.as_str())
            } else {
                element_text(n)
            };
            if title.as_str().is_empty() {
                return None;
            }
            let chapter_id = crate::providers::common::chapter_id_by_rule(IdRule::SegmentStem, h.as_str());
            Some(ChapterInfo { title, chapter_id, url: h })
        },
        None => None,
    }
}

impl EsjzoneProvider {
    /// The site's identifier.
    pub fn name(&self) -> (r: &'static str)
        ensures
            r@ == "esjzone"@,
    {
        "esjzone"
    }

    /// The site's display name.
    pub fn display_name(&self) -> (r: &'static str)
        ensures
            r@ == "ESJ Zone"@,
    {
        "ESJ Zone"
    }

    /// The site's address.
    pub fn base_url(&self) -> (r: &'static str)
        ensures
            r@ == ej_base(),
    {
        "https://www.esjzone.cc"
    }

    /// The site has a search.
    pub fn supports_search(&self) -> (r: bool)
        ensures
            r,
    {
        true
    }

    /// The search page: `https://www.esjzone.cc/tags/{keyword}/`.
    pub fn search_url(&self, keyword: &str) -> (r: String)
        ensures
            r@ == "https://www.esjzone.cc/tags/"@ + url_encoded(keyword@) + "/"@,
    {
        let k = url_encode(keyword);
        concat(concat("https://www.esjzone.cc/tags/", k.as_str()).as_str(), "/")
    }

    /// The book page: `https://www.esjzone.cc/detail/{id}.html`.
    pub fn book_url(&self, book_id: &str) -> (r: String)
        ensures
            r@ == "https://www.esjzone.cc/detail/"@ + book_id@ + ".html"@,
    {
        concat(concat("https://www.esjzone.cc/detail/", book_id).as_str(), ".html")
    }

    /// A chapter page: `https://www.esjzone.cc/forum/{book}/{chapter}.html`.
    pub fn chapter_url(&self, book_id: &str, chapter_id: &str) -> (r: String)
        ensures
            r@ == "https://www.esjzone.cc/forum/"@ + book_id@ + "/"@ + chapter_id@ + ".html"@,
    {
        let a = concat(concat("https://www.esjzone.cc/forum/", book_id).as_str(), "/");
        concat(concat(a.as_str(), chapter_id).as_str(), ".html")
    }

    /// The results among the first `limit` cards of a search page.
    pub fn parse_search(&self, html: &str, limit: usize) -> (r: Vec<SearchResult>)
        ensures
            results_view(r@) == ej_results(html@, limit as nat),
    {
        let fields: Vec<&str> = vec!["h5.card-title a:first-child", "div.card-ep a:first-child", "div.card-author a:first-child"];
        assert(strs_view(fields@) =~= ej_fields());
        let items = select_fields(html, "div.card-body", &fields);
        collect_results(
            &items,
            limit,
            (|it: &Vec<Vec<Node>>| -> (r: Option<SearchResult>)
                ensures
                    opt_result_view(r) == ej_result(crate::html::groups_view(it@)),
                { ej_result_exec(it) }),
            Ghost(ej_result_fn()),
        )
    }

    /// Parses a book page.
    pub fn parse_book_info(&self, html: &str) -> (info: BookInfo)
        ensures
            info@ == ej_info(html@),
    {
        let links = select_all(html, "#chapterList a[href]");
        let chapters = collect_chapters(
            &links,
            (|n: &Node| -> (r: Option<ChapterInfo>)
                ensures
                    opt_chapter_view(r) == ej_link(n@),
                { ej_link_exec(n) }),
            Ghost(ej_link_fn()),
        );
        let mut volumes: Vec<Volume> = Vec::new();
        if chapters.len() > 0 {
            volumes.push(unnamed_volume(chapters));
        }
        assert(volumes@.map_values(|v: Volume| v@) =~= ej_info(html@).volumes);
        let info = BookInfo {
            book_name: select_text(html, "h2.text-normal"),
            author: select_text(html, "li:has(strong) a"),
            summary: select_text(html, "div.description"),
            cover_url: select_attr(html, "div.product-gallery img", "src"),
            serial_status: String::new(),
            update_time: String::new(),
            word_count: String::new(),
            volumes,
        };
        assert(info@.serial_status =~= Seq::<char>::empty());
        assert(info@.update_time =~= Seq::<char>::empty());
        assert(info@.word_count =~= Seq::<char>::empty());
        info
    }

    /// Parses a chapter page.
    pub fn parse_chapter(&self, html: &str, chapter_id: &str) -> (ch: Chapter)
        ensures
            ch@ == (ChapterView { id: chapter_id@, title: sel_text(html@, "h2"@), content: sel_inner_text(html@, "div.forum-content"@) }),
    {
        Chapter { id: owned(chapter_id), title: select_text(html, "h2"), content: inner_text_exec(html, "div.forum-content") }
    }
}

} // verus!
