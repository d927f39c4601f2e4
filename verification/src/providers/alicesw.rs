//! 爱丽丝书屋 (alicesw): search, book and chapter ids that use `-` for `/`, a
//! book page with a separate catalog.

use vstd::prelude::*;

use crate::html::{
    group_attr, group_attr_exec, group_text, group_text_exec, html_select, html_select_fields, normalize_url,
    normalized_url, sel_attr, sel_text, select_all, select_attr, select_fields, select_text, strs_view, Node, NodeView,
};
use crate::providers::common::{
    collect, collect_chapters, collect_results, id_by_rule, opt_chapter_view, opt_result_view, paragraphs,
    paragraphs_exec, results_view, take_at_most, titled_link, titled_link_exec, url_encode, url_encoded, IdRule,
};
use crate::text::{after_last, after_last_exec, before_first, before_first_exec, concat, owned, replace_all, replace_exec, trim, trim_exec};
use crate::types::{
    BookInfo, BookInfoView, Chapter, ChapterInfo, ChapterInfoView, ChapterView, SearchResult, SearchResultView, Volume,
    VolumeView,
};

verus! {

/// The alicesw site.
pub struct AliceswProvider;

/// Site address.
pub open spec fn al_base() -> Seq<char> {
    "https://www.alicesw.com"@
}

/// An id with `-` standing for `/`.
pub open spec fn al_path(id: Seq<char>) -> Seq<char> {
    replace_all(id, "-"@, "/"@)
}

/// Selections made in each search item: the title link, the author link and
/// the time line.
pub open spec fn al_fields() -> Seq<Seq<char>> {
    seq!["h5 a"@, "p.text-muted a"@, "p.timedesc"@]
}

/// A search item; items without a book link are skipped.
pub open spec fn al_result(it: Seq<Seq<NodeView>>) -> Option<SearchResultView> {
    let href = group_attr(it, 0, "href"@);
    if href.len() == 0 {
        None
    } else {
        Some(
            SearchResultView {
                site: "alicesw"@,
                book_id: id_by_rule(IdRule::SegmentStem, href),
                title: group_text(it, 0),
                author: group_text(it, 1),
                latest_chapter: Seq::empty(),
                update_date: trim(after_last(group_text(it, 2), "更新时间："@)),
                word_count: Seq::empty(),
            },
        )
    }
}

/// [`al_result`] as a function value.
pub open spec fn al_result_fn() -> spec_fn(Seq<Seq<NodeView>>) -> Option<SearchResultView> {
    |it: Seq<Seq<NodeView>>| al_result(it)
}

/// The results among the first `limit` items of a search page.
pub open spec fn al_results(html: Seq<char>, limit: nat) -> Seq<SearchResultView> {
    collect(take_at_most(html_select_fields(html, "div.list-group-item"@, al_fields()), limit), al_result_fn())
}

/// The chapter id of a chapter link: the path after the last `book/` and
/// before `.html`, with `/` made `-`.
pub open spec fn al_chapter_id(h: Seq<char>) -> Seq<char> {
    replace_all(after_last(before_first(h, ".html"@), "book/"@), "/"@, "-"@)
}

/// A catalog link, skipped when it has no title.
pub open spec fn al_link(n: NodeView) -> Option<ChapterInfoView> {
    match titled_link(n) {
        Some((h, t)) => Some(ChapterInfoView { title: t, chapter_id: al_chapter_id(h), url: normalized_url(al_base(), h) }),
        None => None,
    }
}

/// [`al_link`] as a function value.
pub open spec fn al_link_fn() -> spec_fn(NodeView) -> Option<ChapterInfoView> {
    |n: NodeView| al_link(n)
}

/// An alicesw book: the book page gives the metadata, the catalog page one
/// volume `正文` of chapters, when there are any.
pub open spec fn al_info(info: Seq<char>, catalog: Seq<char>) -> BookInfoView {
    let cs = collect(html_select(catalog, "ul.mulu_list li a[href]"@), al_link_fn());
    BookInfoView {
        book_name: sel_text(info, "#detail-box h1"@),
        author: sel_text(info, "#detail-box p a[href*='author']"@),
        summary: sel_text(info, "div.intro"@),
        cover_url: sel_attr(info, "div.pic img.fengmian2"@, "src"@),
        serial_status: Seq::empty(),
        update_time: Seq::empty(),
        word_count: Seq::empty(),
        volumes: if cs.len() > 0 {
            seq![VolumeView { volume_name: "正文"@, chapters: cs }]
        } else {
            Seq::empty()
        },
    }
}

fn al_result_exec(it: &Vec<Vec<Node>>) -> (r: Option<SearchResult>)
    ensures
        opt_result_view(r) == al_result(crate::html::groups_view(it@)),
{
    let href = group_attr_exec(it, 0, "href");
    if href.as_str().is_empty() {
        return None;
    }
    let t = group_text_exec(it, 2);
    let u = after_last_exec(t.as_str(), "更新时间：");
    let r = SearchResult {
        site: owned("alicesw"),
        book_id: crate::providers::common::chapter_id_by_rule(IdRule::SegmentStem, href.as_str()),
        title: group_text_exec(it, 0),
        author: group_text_exec(it, 1),
        latest_chapter: String::new(),
        update_date: trim_exec(u.as_str()),
        word_count: String::new(),
    };
    assert(r@.latest_chapter =~= Seq::<char>::empty());
    assert(r@.word_count =~= Seq::<char>::empty());
    Some(r)
}

fn al_link_exec(n: &Node) -> (r: Option<ChapterInfo>)
    ensures
        opt_chapter_view(r) == al_link(n@),
{
    match titled_link_exec(n) {
        Some((h, title)) => {
            let a = before_first_exec(h.as_str(), ".html");
            let b = after_last_exec(a.as_str(), "book/");
            proof {
                reveal_strlit("/");
            }
            Some(ChapterInfo {
                title,
                chapter_id: replace_exec(b.as_str(), "/", "-"),
                url: normalize_url("https://www.alicesw.com", h.as_str()),
            })
        },
        None => None,
    }
}

fn al_path_exec(id: &str) -> (r: String)
    ensures
        r@ == al_path(id@),
{
    proof {
        reveal_strlit("-");
    }
    replace_exec(id, "-", "/")
}

impl AliceswProvider {
    /// The site's identifier.
    pub fn name(&self) -> (r: &'static str)
        ensures
            r@ == "alicesw"@,
    {
        "alicesw"
    }

    /// The site's display name.
    pub fn display_name(&self) -> (r: &'static str)
        ensures
            r@ == "爱丽丝书屋"@,
    {
        "爱丽丝书屋"
    }

    /// The site's address.
    pub fn base_url(&self) -> (r: &'static str)
        ensures
            r@ == al_base(),
    {
        "https://www.alicesw.com"
    }

    /// The site has a search.
    pub fn supports_search(&self) -> (r: bool)
        ensures
            r,
    {
        true
    }

    /// The search page: `https://www.alicesw.com/search.html?q={keyword}&f=_all`.
    pub fn search_url(&self, keyword: &str) -> (r: String)
        ensures
            r@ == "https://www.alicesw.com/search.html?q="@ + url_encoded(keyword@) + "&f=_all"@,
    {
        let k = url_encode(keyword);
        concat(concat("https://www.alicesw.com/search.html?q=", k.as_str()).as_str(), "&f=_all")
    }

    /// The book page: `https://www.alicesw.com/novel/{path}.html`.
    pub fn info_url(&self, book_id: &str) -> (r: String)
        ensures
            r@ == "https://www.alicesw.com/novel/"@ + al_path(book_id@) + ".html"@,
    {
        let p = al_path_exec(book_id);
        concat(concat("https://www.alicesw.com/novel/", p.as_str()).as_str(), ".html")
    }

    /// The catalog page: `https://www.alicesw.com/other/chapters/id/{path}.html`.
    pub fn catalog_url(&self, book_id: &str) -> (r: String)
        ensures
            r@ == "https://www.alicesw.com/other/chapters/id/"@ + al_path(book_id@) + ".html"@,
    {
        let p = al_path_exec(book_id);
        concat(concat("https://www.alicesw.com/other/chapters/id/", p.as_str()).as_str(), ".html")
    }

    /// A chapter page: `https://www.alicesw.com/book/{chapter path}.html`;
    /// the book id plays no part.
    pub fn chapter_url(&self, book_id: &str, chapter_id: &str) -> (r: String)
        ensures
            r@ == "https://www.alicesw.com/book/"@ + al_path(chapter_id@) + ".html"@,
    {
        let p = al_path_exec(chapter_id);
        concat(concat("https://www.alicesw.com/book/", p.as_str()).as_str(), ".html")
    }

    /// The results among the first `limit` items of a search page.
    pub fn parse_search(&self, html: &str, limit: usize) -> (r: Vec<SearchResult>)
        ensures
            results_view(r@) == al_results(html@, limit as nat),
    {
        let fields: Vec<&str> = vec!["h5 a", "p.text-muted a", "p.timedesc"];
        assert(strs_view(fields@) =~= al_fields());
        let items = select_fields(html, "div.list-group-item", &fields);
        collect_results(
            &items,
            limit,
            (|it: &Vec<Vec<Node>>| -> (r: Option<SearchResult>)
                ensures
                    opt_result_view(r) == al_result(crate::html::groups_view(it@)),
                { al_result_exec(it) }),
            Ghost(al_result_fn()),
        )
    }

    /// A book from its book page and its catalog page.
    pub fn parse_book_info(&self, info_html: &str, catalog: &str) -> (info: BookInfo)
        ensures
            info@ == al_info(info_html@, catalog@),
    {
        let links = select_all(catalog, "ul.mulu_list li a[href]");
        let chapters = collect_chapters(
            &links,
            (|n: &Node| -> (r: Option<ChapterInfo>)
                ensures
                    opt_chapter_view(r) == al_link(n@),
                { al_link_exec(n) }),
            Ghost(al_link_fn()),
        );
        let mut volumes: Vec<Volume> = Vec::new();
        if chapters.len() > 0 {
            volumes.push(Volume { volume_name: owned("正文"), chapters });
        }
        assert(volumes@.map_values(|v: Volume| v@) =~= al_info(info_html@, catalog@).volumes);
        let info = BookInfo {
            book_name: select_text(info_html, "#detail-box h1"),
            author: select_text(info_html, "#detail-box p a[href*='author']"),
            summary: select_text(info_html, "div.intro"),
            cover_url: select_attr(info_html, "div.pic img.fengmian2", "src"),
            serial_status: String::new(),
            update_time: String::new(),
            word_count: String::new(),
            volumes,
        };
        assert(info@.serial_status =~= Seq::<char>::empty());
        assert(info@.update_time =~= Seq::<char>::empty());
        assert(info@.word_count =~= Seq::<char>::empty());
        info
    }

    /// Parses a chapter page.
    pub fn parse_chapter(&self, html: &str, chapter_id: &str) -> (ch: Chapter)
        ensures
            ch@ == (ChapterView {
                id: chapter_id@,
                title: sel_text(html@, "h3.j_chapterName"@),
                content: paragraphs(html_select(html@, "div.read-content p"@)),
            }),
    {
        Chapter {
            id: owned(chapter_id),
            title: select_text(html, "h3.j_chapterName"),
            content: paragraphs_exec(html, "div.read-content p"),
        }
    }
}

} // verus!
