//! 大熊猫文学网 (dxmwx): search, a book page with a separate catalog, and
//! chapter pages addressed by book and chapter id together.

use vstd::prelude::*;

use crate::html::{
    group_attr, group_attr_exec, group_text, group_text_exec, html_select, html_select_fields, normalize_url,
    normalized_url, sel_attr, sel_text, select_all, select_attr, select_fields, select_text, strs_view, Node, NodeView,
};
use crate::markup::{clean_content, cleaned};
use crate::providers::common::{
    collect, collect_chapters, collect_results, id_by_rule, opt_chapter_view, opt_result_view, paras_or_text,
    paras_or_text_exec, results_view, take_at_most, titled_link, titled_link_exec, url_encode, url_encoded, IdRule,
};
use crate::text::{after_last, after_last_exec, before_first, before_first_exec, concat, owned, starts_with, starts_with_exec};
use crate::types::{
    BookInfo, BookInfoView, Chapter, ChapterInfo, ChapterInfoView, ChapterView, SearchResult, SearchResultView, Volume,
    VolumeView,
};

verus! {

/// The dxmwx site.
pub struct DxmwxProvider;

/// Site address.
pub open spec fn dx_base() -> Seq<char> {
    "https://www.dxmwx.org"@
}

/// Selections made in each search row: the title link and the author link.
pub open spec fn dx_fields() -> Seq<Seq<char>> {
    seq!["div.margin0h5 a:first-child"@, "div.margin0h5 a:nth-child(2)"@]
}

/// A search row; rows without a book link are skipped.
pub open spec fn dx_result(it: Seq<Seq<NodeView>>) -> Option<SearchResultView> {
    let href = group_attr(it, 0, "href"@);
    if href.len() == 0 {
        None
    } else {
        Some(
            SearchResultView {
                site: "dxmwx"@,
                book_id: id_by_rule(IdRule::SegmentStem, href),
                title: group_text(it, 0),
                author: group_text(it, 1),
                latest_chapter: Seq::empty(),
                update_date: Seq::empty(),
                word_count: Seq::empty(),
            },
        )
    }
}

/// [`dx_result`] as a function value.
pub open spec fn dx_result_fn() -> spec_fn(Seq<Seq<NodeView>>) -> Option<SearchResultView> {
    |it: Seq<Seq<NodeView>>| dx_result(it)
}

/// The results among the first `limit` rows of a search page.
pub open spec fn dx_results(html: Seq<char>, limit: nat) -> Seq<SearchResultView> {
    collect(take_at_most(html_select_fields(html, "#ListContents div[style*='position']"@, dx_fields()), limit), dx_result_fn())
}

/// The chapter id of a reading link `/read/{book}_{chapter}.html`: after
/// the last `read/`, before `.html`, after the last `_`.
pub open spec fn dx_chapter_id(h: Seq<char>) -> Seq<char> {
    after_last(before_first(after_last(h, "read/"@), ".html"@), "_"@)
}

/// A catalog link, skipped when it has no title.
pub open spec fn dx_link(n: crate::html::NodeView) -> Option<ChapterInfoView> {
    match titled_link(n) {
        Some((h, t)) => if h.len() > 0 {
            Some(ChapterInfoView { title: t, chapter_id: dx_chapter_id(h), url: normalized_url(dx_base(), h) })
        } else {
            None
        },
        None => None,
    }
}

/// [`dx_link`] as a function value.
pub open spec fn dx_link_fn() -> spec_fn(crate::html::NodeView) -> Option<ChapterInfoView> {
    |n: crate::html::NodeView| dx_link(n)
}

/// The cover: site-rooted paths get the site address.
pub open spec fn dx_cover(c: Seq<char>) -> Seq<char> {
    if starts_with(c, "/"@) {
        "https://www.dxmwx.org"@ + c
    } else {
        c
    }
}

/// A dxmwx book: the book page gives the metadata, the catalog page one
/// volume `正文` of chapters, when there are any.
pub open spec fn dx_info(info: Seq<char>, catalog: Seq<char>) -> BookInfoView {
    let cs = collect(html_select(catalog, "div[style*='height:40px'][style*='border-bottom'] a[href]"@), dx_link_fn());
    BookInfoView {
        book_name: sel_text(info, "span[style*='font-size: 24px']"@),
        author: sel_text(info, "div[style*='height: 28px'] a"@),
        summary: sel_text(info, "div[style*='border-bottom'] div"@),
        cover_url: dx_cover(sel_attr(info, "img.imgwidth"@, "src"@)),
        serial_status: Seq::empty(),
        update_time: Seq::empty(),
        word_count: Seq::empty(),
        volumes: if cs.len() > 0 {
            seq![VolumeView { volume_name: "正文"@, chapters: cs }]
        } else {
            Seq::empty()
        },
    }
}

fn dx_result_exec(it: &Vec<Vec<Node>>) -> (r: Option<SearchResult>)
    ensures
        opt_result_view(r) == dx_result(crate::html::groups_view(it@)),
{
    let href = group_attr_exec(it, 0, "href");
    if href.as_str().is_empty() {
        return None;
    }
    let r = SearchResult {
        site: owned("dxmwx"),
        book_id: crate::providers::common::chapter_id_by_rule(IdRule::SegmentStem, href.as_str()),
        title: group_text_exec(it, 0),
        author: group_text_exec(it, 1),
        latest_chapter: String::new(),
        update_date: String::new(),
        word_count: String::new(),
    };
    assert(r@.latest_chapter =~= Seq::<char>::empty());
    assert(r@.update_date =~= Seq::<char>::empty());
    assert(r@.word_count =~= Seq::<char>::empty());
    Some(r)
}

fn dx_link_exec(n: &Node) -> (r: Option<ChapterInfo>)
    ensures
        opt_chapter_view(r) == dx_link(n@),
{
    match titled_link_exec(n) {
        Some((h, title)) => {
            if h.as_str().is_empty() {
                return None;
            }
            let a = after_last_exec(h.as_str(), "read/");
            let b = before_first_exec(a.as_str(), ".html");
            Some(ChapterInfo { title, chapter_id: after_last_exec(b.as_str(), "_"), url: normalize_url("https://www.dxmwx.org", h.as_str()) })
        },
        None => None,
    }
}

impl DxmwxProvider {
    /// The site's identifier.
    pub fn name(&self) -> (r: &'static str)
        ensures
            r@ == "dxmwx"@,
    {
        "dxmwx"
    }

    /// The site's display name.
    pub fn display_name(&self) -> (r: &'static str)
        ensures
            r@ == "大熊猫文学网"@,
    {
        "大熊猫文学网"
    }

    /// The site's address.
    pub fn base_url(&self) -> (r: &'static str)
        ensures
            r@ == dx_base(),
    {
        "https://www.dxmwx.org"
    }

    /// The site has a search.
    pub fn supports_search(&self) -> (r: bool)
        ensures
            r,
    {
        true
    }

    /// The search page: `https://www.dxmwx.org/list/{keyword}.html`.
    pub fn search_url(&self, keyword: &str) -> (r: String)
        ensures
            r@ == "https://www.dxmwx.org/list/"@ + url_encoded(keyword@) + ".html"@,
    {
        let k = url_encode(keyword);
        concat(concat("https://www.dxmwx.org/list/", k.as_str()).as_str(), ".html")
    }

    /// The book page: `https://www.dxmwx.org/book/{id}.html`.
    pub fn info_url(&self, book_id: &str) -> (r: String)
        ensures
            r@ == "https://www.dxmwx.org/book/"@ + book_id@ + ".html"@,
    {
        concat(concat("https://www.dxmwx.org/book/", book_id).as_str(), ".html")
    }

    /// The catalog page: `https://www.dxmwx.org/chapter/{id}.html`.
    pub fn catalog_url(&self, book_id: &str) -> (r: String)
        ensures
            r@ == "https://www.dxmwx.org/chapter/"@ + book_id@ + ".html"@,
    {
        concat(concat("https://www.dxmwx.org/chapter/", book_id).as_str(), ".html")
    }

    /// A chapter page: `https://www.dxmwx.org/read/{book}_{chapter}.html`.
    pub fn chapter_url(&self, book_id: &str, chapter_id: &str) -> (r: String)
        ensures
            r@ == "https://www.dxmwx.org/read/"@ + book_id@ + "_"@ + chapter_id@ + ".html"@,
    {
        let a = concat(concat("https://www.dxmwx.org/read/", book_id).as_str(), "_");
        concat(concat(a.as_str(), chapter_id).as_str(), ".html")
    }

    /// The results among the first `limit` rows of a search page.
    pub fn parse_search(&self, html: &str, limit: usize) -> (r: Vec<SearchResult>)
        ensures
            results_view(r@) == dx_results(html@, limit as nat),
    {
        let fields: Vec<&str> = vec!["div.margin0h5 a:first-child", "div.margin0h5 a:nth-child(2)"];
        assert(strs_view(fields@) =~= dx_fields());
        let items = select_fields(html, "#ListContents div[style*='position']", &fields);
        collect_results(
            &items,
            limit,
            (|it: &Vec<Vec<Node>>| -> (r: Option<SearchResult>)
                ensures
                    opt_result_view(r) == dx_result(crate::html::groups_view(it@)),
                { dx_result_exec(it) }),
            Ghost(dx_result_fn()),
        )
    }

    /// A book from its book page and its catalog page.
    pub fn parse_book_info(&self, info_html: &str, catalog: &str) -> (info: BookInfo)
        ensures
            info@ == dx_info(info_html@, catalog@),
    {
        let c = select_attr(info_html, "img.imgwidth", "src");
        let cover_url = if starts_with_exec(c.as_str(), "/") {
            concat("https://www.dxmwx.org", c.as_str())
        } else {
            c
        };
        let links = select_all(catalog, "div[style*='height:40px'][style*='border-bottom'] a[href]");
        let chapters = collect_chapters(
            &links,
            (|n: &Node| -> (r: Option<ChapterInfo>)
                ensures
                    opt_chapter_view(r) == dx_link(n@),
                { dx_link_exec(n) }),
            Ghost(dx_link_fn()),
        );
        let mut volumes: Vec<Volume> = Vec::new();
        if chapters.len() > 0 {
            volumes.push(Volume { volume_name: owned("正文"), chapters });
        }
        assert(volumes@.map_values(|v: Volume| v@) =~= dx_info(info_html@, catalog@).volumes);
        let info = BookInfo {
            book_name: select_text(info_html, "span[style*='font-size: 24px']"),
            author: select_text(info_html, "div[style*='height: 28px'] a"),
            summary: select_text(info_html, "div[style*='border-bottom'] div"),
            cover_url,
            serial_status: String::new(),
            update_time: String::new(),
            word_count: String::new(),
            volumes,
        };
        assert(info@.serial_status =~= Seq::<char>::empty());
        assert(info@.update_time =~= Seq::<char>::empty());
        assert(info@.word_count =~= Seq::<char>::empty());
        info
    }

    /// Parses a chapter page: its paragraphs, else its text block, cleaned.
    pub fn parse_chapter(&self, html: &str, chapter_id: &str) -> (ch: Chapter)
        ensures
            ch@ == (ChapterView {
                id: chapter_id@,
                title: sel_text(html@, "#ChapterTitle"@),
                content: cleaned(paras_or_text(html@, "#Lab_Contents p"@, "#Lab_Contents"@)),
            }),
    {
        let c = paras_or_text_exec(html, "#Lab_Contents p", "#Lab_Contents");
        Chapter { id: owned(chapter_id), title: select_text(html, "#ChapterTitle"), content: clean_content(c.as_str()) }
    }
}

} // verus!
