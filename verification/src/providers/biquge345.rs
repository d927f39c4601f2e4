//! 笔趣阁 345: a form search, one chapter list per book, and chapter pages
//! whose text block is cleaned.

use vstd::prelude::*;

use crate::html::{
    group_attr, group_attr_exec, group_text, group_text_exec, html_select, html_select_fields, sel_attr, sel_text,
    select_all, select_attr, select_fields, select_text, strs_view, Node, NodeView,
};
use crate::markup::{clean_content, cleaned};
use crate::providers::common::{
    collect, collect_results, id_by_rule, inner_text_exec, link_chapters, links_to_chapters, opt_result_view,
    results_view, sel_inner_text, take_at_most, IdRule,
};
use crate::text::{concat, owned, replace_all, replace_exec, starts_with, starts_with_exec, trim, trim_exec};
use crate::types::{BookInfo, BookInfoView, Chapter, ChapterView, SearchResult, SearchResultView, Volume, VolumeView};

verus! {

/// The biquge345 site.
pub struct Biquge345Provider;

/// Site address.
pub open spec fn b3_base() -> Seq<char> {
    "https://www.biquge345.com"@
}

/// Selections made in each search row: the name link, the latest chapter,
/// the author and the time.
pub open spec fn b3_fields() -> Seq<Seq<char>> {
    seq!["span.name a"@, "span.jie a"@, "span.zuo a"@, "span.time"@]
}

/// A search row; rows without a book link are skipped.
pub open spec fn b3_result(it: Seq<Seq<NodeView>>) -> Option<SearchResultView> {
    let href = group_attr(it, 0, "href"@);
    if href.len() == 0 {
        None
    } else {
        Some(
            SearchResultView {
                site: "biquge345"@,
                book_id: id_by_rule(IdRule::TrimmedSegment, href),
                title: group_text(it, 0),
                author: group_text(it, 2),
                latest_chapter: group_text(it, 1),
                update_date: group_text(it, 3),
                word_count: Seq::empty(),
            },
        )
    }
}

/// [`b3_result`] as a function value.
pub open spec fn b3_result_fn() -> spec_fn(Seq<Seq<NodeView>>) -> Option<SearchResultView> {
    |it: Seq<Seq<NodeView>>| b3_result(it)
}

/// The results among the first `limit` rows of a search answer.
pub open spec fn b3_results(html: Seq<char>, limit: nat) -> Seq<SearchResultView> {
    collect(take_at_most(html_select_fields(html, "ul.search li:not([class])"@, b3_fields()), limit), b3_result_fn())
}

/// The cover: `//` links get `https:`, site-rooted paths the site address.
pub open spec fn b3_cover(c: Seq<char>) -> Seq<char> {
    if starts_with(c, "//"@) {
        "https:"@ + c
    } else if starts_with(c, "/"@) {
        b3_base() + c
    } else {
        c
    }
}

/// A biquge345 book page.
pub open spec fn b3_info(html: Seq<char>) -> BookInfoView {
    let cs = link_chapters(html_select(html, "div.border ul.info a[href]"@), b3_base(), IdRule::SegmentStem);
    BookInfoView {
        book_name: sel_text(html, "div.right_border h1"@),
        author: sel_text(html, "div.xinxi span.x1:first-of-type a"@),
        summary: sel_text(html, "div.xinxi div.x3"@),
        cover_url: b3_cover(sel_attr(html, "div.zhutu img"@, "src"@)),
        serial_status: Seq::empty(),
        update_time: trim(replace_all(sel_text(html, "div.xinxi span.x2:first-of-type"@), "更新时间："@, Seq::empty())),
        word_count: Seq::empty(),
        volumes: if cs.len() > 0 {
            seq![VolumeView { volume_name: "正文"@, chapters: cs }]
        } else {
            Seq::empty()
        },
    }
}

fn b3_result_exec(it: &Vec<Vec<Node>>) -> (r: Option<SearchResult>)
    ensures
        opt_result_view(r) == b3_result(crate::html::groups_view(it@)),
{
    let href = group_attr_exec(it, 0, "href");
    if href.as_str().is_empty() {
        return None;
    }
    let r = SearchResult {
        site: owned("biquge345"),
        book_id: crate::providers::common::chapter_id_by_rule(IdRule::TrimmedSegment, href.as_str()),
        title: group_text_exec(it, 0),
        author: group_text_exec(it, 2),
        latest_chapter: group_text_exec(it, 1),
        update_date: group_text_exec(it, 3),
        word_count: String::new(),
    };
    assert(r@.word_count =~= Seq::<char>::empty());
    Some(r)
}

impl Biquge345Provider {
    /// The site's identifier.
    pub fn name(&self) -> (r: &'static str)
        ensures
            r@ == "biquge345"@,
    {
        "biquge345"
    }

    /// The site's display name.
    pub fn display_name(&self) -> (r: &'static str)
        ensures
            r@ == "笔趣阁(345)"@,
    {
        "笔趣阁(345)"
    }

    /// The site's address.
    pub fn base_url(&self) -> (r: &'static str)
        ensures
            r@ == b3_base(),
    {
        "https://www.biquge345.com"
    }

    /// The site has a search.
    pub fn supports_search(&self) -> (r: bool)
        ensures
            r,
    {
        true
    }

    /// Where the search form is posted.
    pub fn search_url(&self) -> (r: &'static str)
        ensures
            r@ == "https://www.biquge345.com/s.php"@,
    {
        "https://www.biquge345.com/s.php"
    }

    /// The fields of the search form: the keyword, searched among book names.
    pub fn search_form(&self, keyword: &str) -> (r: Vec<(String, String)>)
        ensures
            r@.map_values(|p: (String, String)| (p.0@, p.1@)) == seq![
                ("type"@, "articlename"@),
                ("s"@, keyword@),
                ("submit"@, Seq::<char>::empty()),
            ],
    {
        let r = vec![(owned("type"), owned("articlename")), (owned("s"), owned(keyword)), (owned("submit"), String::new())];
        assert(r@.map_values(|p: (String, String)| (p.0@, p.1@)) =~= seq![
            ("type"@, "articlename"@),
            ("s"@, keyword@),
            ("submit"@, Seq::<char>::empty()),
        ]);
        r
    }

    /// The book page: `https://www.biquge345.com/book/{id}/`.
    pub fn book_url(&self, book_id: &str) -> (r: String)
        ensures
            r@ == "https://www.biquge345.com/book/"@ + book_id@ + "/"@,
    {
        concat(concat("https://www.biquge345.com/book/", book_id).as_str(), "/")
    }

    /// A chapter page: `https://www.biquge345.com/chapter/{book}/{chapter}.html`.
    pub fn chapter_url(&self, book_id: &str, chapter_id: &str) -> (r: String)
        ensures
            r@ == "https://www.biquge345.com/chapter/"@ + book_id@ + "/"@ + chapter_id@ + ".html"@,
    {
        let a = concat(concat("https://www.biquge345.com/chapter/", book_id).as_str(), "/");
        concat(concat(a.as_str(), chapter_id).as_str(), ".html")
    }

    /// The results among the first `limit` rows of a search answer.
    pub fn parse_search(&self, html: &str, limit: usize) -> (r: Vec<SearchResult>)
        ensures
            results_view(r@) == b3_results(html@, limit as nat),
    {
        let fields: Vec<&str> = vec!["span.name a", "span.jie a", "span.zuo a", "span.time"];
        assert(strs_view(fields@) =~= b3_fields());
        let items = select_fields(html, "ul.search li:not([class])", &fields);
        collect_results(
            &items,
            limit,
            (|it: &Vec<Vec<Node>>| -> (r: Option<SearchResult>)
                ensures
                    opt_result_view(r) == b3_result(crate::html::groups_view(it@)),
                { b3_result_exec(it) }),
            Ghost(b3_result_fn()),
        )
    }

    /// Parses a book page.
    pub fn parse_book_info(&self, html: &str) -> (info: BookInfo)
        ensures
            info@ == b3_info(html@),
    {
        let c = select_attr(html, "div.zhutu img", "src");
        let cover_url = if starts_with_exec(c.as_str(), "//") {
            concat("https:", c.as_str())
        } else if starts_with_exec(c.as_str(), "/") {
            concat(self.base_url(), c.as_str())
        } else {
            c
        };
        proof {
            reveal_strlit("更新时间：");
            reveal_strlit("");
        }
        assert(""@ =~= Seq::<char>::empty());
        let u = select_text(html, "div.xinxi span.x2:first-of-type");
        let u1 = replace_exec(u.as_str(), "更新时间：", "");
        let links = select_all(html, "div.border ul.info a[href]");
        let chapters = links_to_chapters(&links, self.base_url(), IdRule::SegmentStem);
        let mut volumes: Vec<Volume> = Vec::new();
        if chapters.len() > 0 {
            volumes.push(Volume { volume_name: owned("正文"), chapters });
        }
        assert(volumes@.map_values(|v: Volume| v@) =~= b3_info(html@).volumes);
        let info = BookInfo {
            book_name: select_text(html, "div.right_border h1"),
            author: select_text(html, "div.xinxi span.x1:first-of-type a"),
            summary: select_text(html, "div.xinxi div.x3"),
            cover_url,
            serial_status: String::new(),
            update_time: trim_exec(u1.as_str()),
            word_count: String::new(),
            volumes,
        };
        assert(info@.serial_status =~= Seq::<char>::empty());
        assert(info@.word_count =~= Seq::<char>::empty());
        info
    }

    /// Parses a chapter page.
    pub fn parse_chapter(&self, html: &str, chapter_id: &str) -> (ch: Chapter)
        ensures
            ch@ == (ChapterView {
                id: chapter_id@,
                title: sel_text(html@, "#neirong h1"@),
                content: cleaned(sel_inner_text(html@, "#txt"@)),
            }),
    {
        let t = inner_text_exec(html, "#txt");
        Chapter { id: owned(chapter_id), title: select_text(html, "#neirong h1"), content: clean_content(t.as_str()) }
    }
}

} // verus!
