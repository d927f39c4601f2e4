//! 25中文网 (i25zw): a form search, a book page with a separate catalog, and
//! chapter pages.

use vstd::prelude::*;

use crate::html::{
    group_attr, group_attr_exec, group_text, group_text_exec, html_select, html_select_fields, sel_attr, sel_text,
    select_all, select_attr, select_fields, select_text, strs_view, Node, NodeView,
};
use crate::providers::common::{
    collect, collect_results, id_by_rule, link_chapters, links_to_chapters, opt_result_view, paras_or_text,
    paras_or_text_exec, results_view, take_at_most, IdRule,
};
use crate::text::{concat, owned, replace_all, replace_exec, trim, trim_exec};
use crate::types::{BookInfo, BookInfoView, Chapter, ChapterView, SearchResult, SearchResultView, Volume, VolumeView};

verus! {

/// The i25zw site.
pub struct I25zwProvider;

/// Site address.
pub open spec fn i25_base() -> Seq<char> {
    "https://www.i25zw.com"@
}

/// Selections made in each search box: the cover link, the title link, the
/// author line and the latest chapter.
pub open spec fn i25_fields() -> Seq<Seq<char>> {
    seq!["div.pic a"@, "div.title h2 a"@, "div.title span"@, "div.sys li:first-child a"@]
}

/// A search box; boxes without a book link are skipped.
pub open spec fn i25_result(it: Seq<Seq<NodeView>>) -> Option<SearchResultView> {
    let href = group_attr(it, 0, "href"@);
    if href.len() == 0 {
        None
    } else {
        Some(
            SearchResultView {
                site: "i25zw"@,
                book_id: id_by_rule(IdRule::SegmentStem, href),
                title: group_text(it, 1),
                author: trim(replace_all(group_text(it, 2), "作者："@, Seq::empty())),
                latest_chapter: group_text(it, 3),
                update_date: Seq::empty(),
                word_count: Seq::empty(),
            },
        )
    }
}

/// [`i25_result`] as a function value.
pub open spec fn i25_result_fn() -> spec_fn(Seq<Seq<NodeView>>) -> Option<SearchResultView> {
    |it: Seq<Seq<NodeView>>| i25_result(it)
}

/// The results among the first `limit` boxes of a search answer.
pub open spec fn i25_results(html: Seq<char>, limit: nat) -> Seq<SearchResultView> {
    collect(take_at_most(html_select_fields(html, "#alistbox"@, i25_fields()), limit), i25_result_fn())
}

/// An i25zw book: the book page gives the metadata, the catalog page one
/// volume `正文` of chapters, when there are any.
pub open spec fn i25_info(info: Seq<char>, catalog: Seq<char>) -> BookInfoView {
    let cs = link_chapters(html_select(catalog, "#list dl dd a[href]"@), i25_base(), IdRule::SegmentStem);
    BookInfoView {
        book_name: sel_text(info, "h1.f21h"@),
        author: sel_text(info, "h1.f21h em a"@),
        summary: sel_text(info, "div.intro[style]"@),
        cover_url: sel_attr(info, "div.pic img"@, "src"@),
        serial_status: Seq::empty(),
        update_time: Seq::empty(),
        word_count: Seq::empty(),
        volumes: if cs.len() > 0 {
            seq![VolumeView { volume_name: "正文"@, chapters: cs }]
        } else {
            Seq::empty()
        },
    }
}

fn i25_result_exec(it: &Vec<Vec<Node>>) -> (r: Option<SearchResult>)
    ensures
        opt_result_view(r) == i25_result(crate::html::groups_view(it@)),
{
    let href = group_attr_exec(it, 0, "href");
    if href.as_str().is_empty() {
        return None;
    }
    proof {
        reveal_strlit("作者：");
        reveal_strlit("");
    }
    assert(""@ =~= Seq::<char>::empty());
    let a = group_text_exec(it, 2);
    let a1 = replace_exec(a.as_str(), "作者：", "");
    let r = SearchResult {
        site: owned("i25zw"),
        book_id: crate::providers::common::chapter_id_by_rule(IdRule::SegmentStem, href.as_str()),
        title: group_text_exec(it, 1),
        author: trim_exec(a1.as_str()),
        latest_chapter: group_text_exec(it, 3),
        update_date: String::new(),
        word_count: String::new(),
    };
    assert(r@.update_date =~= Seq::<char>::empty());
    assert(r@.word_count =~= Seq::<char>::empty());
    Some(r)
}

impl I25zwProvider {
    /// The site's identifier.
    pub fn name(&self) -> (r: &'static str)
        ensures
            r@ == "i25zw"@,
    {
        "i25zw"
    }

    /// The site's display name.
    pub fn display_name(&self) -> (r: &'static str)
        ensures
            r@ == "25中文网"@,
    {
        "25中文网"
    }

    /// The site's address.
    pub fn base_url(&self) -> (r: &'static str)
        ensures
            r@ == i25_base(),
    {
        "https://www.i25zw.com"
    }

    /// The site has a search.
    pub fn supports_search(&self) -> (r: bool)
        ensures
            r,
    {
        true
    }

    /// Where the search form is posted.
    pub fn search_url(&self) -> (r: &'static str)
        ensures
            r@ == "https://www.i25zw.com/search.html"@,
    {
        "https://www.i25zw.com/search.html"
    }

    /// The fields of the search form: the keyword, searched everywhere.
    pub fn search_form(&self, keyword: &str) -> (r: Vec<(String, String)>)
        ensures
            r@.map_values(|p: (String, String)| (p.0@, p.1@)) == seq![
                ("searchkey"@, keyword@),
                ("searchtype"@, "all"@),
                ("Submit"@, Seq::<char>::empty()),
            ],
    {
        let r = vec![(owned("searchkey"), owned(keyword)), (owned("searchtype"), owned("all")), (owned("Submit"), String::new())];
        assert(r@.map_values(|p: (String, String)| (p.0@, p.1@)) =~= seq![
            ("searchkey"@, keyword@),
            ("searchtype"@, "all"@),
            ("Submit"@, Seq::<char>::empty()),
        ]);
        r
    }

    /// The book page: `https://www.i25zw.com/book/{id}.html`.
    pub fn info_url(&self, book_id: &str) -> (r: String)
        ensures
            r@ == "https://www.i25zw.com/book/"@ + book_id@ + ".html"@,
    {
        concat(concat("https://www.i25zw.com/book/", book_id).as_str(), ".html")
    }

    /// The catalog page: `https://www.i25zw.com/{id}/`.
    pub fn catalog_url(&self, book_id: &str) -> (r: String)
        ensures
            r@ == "https://www.i25zw.com/"@ + book_id@ + "/"@,
    {
        concat(concat("https://www.i25zw.com/", book_id).as_str(), "/")
    }

    /// A chapter page: `https://www.i25zw.com/{book}/{chapter}.html`.
    pub fn chapter_url(&self, book_id: &str, chapter_id: &str) -> (r: String)
        ensures
            r@ == "https://www.i25zw.com/"@ + book_id@ + "/"@ + chapter_id@ + ".html"@,
    {
        let a = concat(concat("https://www.i25zw.com/", book_id).as_str(), "/");
        concat(concat(a.as_str(), chapter_id).as_str(), ".html")
    }

    /// The results among the first `limit` boxes of a search answer.
    pub fn parse_search(&self, html: &str, limit: usize) -> (r: Vec<SearchResult>)
        ensures
            results_view(r@) == i25_results(html@, limit as nat),
    {
        let fields: Vec<&str> = vec!["div.pic a", "div.title h2 a", "div.title span", "div.sys li:first-child a"];
        assert(strs_view(fields@) =~= i25_fields());
        let items = select_fields(html, "#alistbox", &fields);
        collect_results(
            &items,
            limit,
            (|it: &Vec<Vec<Node>>| -> (r: Option<SearchResult>)
                ensures
                    opt_result_view(r) == i25_result(crate::html::groups_view(it@)),
                { i25_result_exec(it) }),
            Ghost(i25_result_fn()),
        )
    }

    /// A book from its book page and its catalog page.
    pub fn parse_book_info(&self, info_html: &str, catalog: &str) -> (info: BookInfo)
        ensures
            info@ == i25_info(info_html@, catalog@),
    {
        let links = select_all(catalog, "#list dl dd a[href]");
        let chapters = links_to_chapters(&links, self.base_url(), IdRule::SegmentStem);
        let mut volumes: Vec<Volume> = Vec::new();
        if chapters.len() > 0 {
            volumes.push(Volume { volume_name: owned("正文"), chapters });
        }
        assert(volumes@.map_values(|v: Volume| v@) =~= i25_info(info_html@, catalog@).volumes);
        let info = BookInfo {
            book_name: select_text(info_html, "h1.f21h"),
            author: select_text(info_html, "h1.f21h em a"),
            summary: select_text(info_html, "div.intro[style]"),
            cover_url: select_attr(info_html, "div.pic img", "src"),
            serial_status: String::new(),
            update_time: String::new(),
            word_count: String::new(),
            volumes,
        };
        assert(info@.serial_status =~= Seq::<char>::empty());
        assert(info@.update_time =~= Seq::<char>::empty());
        assert(info@.word_count =~= Seq::<char>::empty());
        info
    }

    /// Parses a chapter page: its paragraphs, else its text block.
    pub fn parse_chapter(&self, html: &str, chapter_id: &str) -> (ch: Chapter)
        ensures
            ch@ == (ChapterView {
                id: chapter_id@,
                title: sel_text(html@, "div.zhangjieming h1"@),
                content: paras_or_text(html@, "#content p"@, "#content"@),
            }),
    {
        Chapter {
            id: owned(chapter_id),
            title: select_text(html, "div.zhangjieming h1"),
            content: paras_or_text_exec(html, "#content p", "#content"),
        }
    }
}

} // verus!
