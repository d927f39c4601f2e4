//! 精品小说 (jpxs123): a form search of book blocks, book ids that use `-`
//! for `/`, and chapter pages titled after the book.

use vstd::prelude::*;

use crate::html::{html_select, html_select_fields, sel_attr, sel_text, select_all, select_attr, select_fields, select_text, strs_view, Node, NodeView};
use crate::markup::{clean_content, cleaned};
use crate::providers::common::{
    block_fields, block_result, block_result_exec, collect, collect_results, heading_without, heading_without_exec,
    link_chapters, links_to_chapters, opt_result_view, paragraphs, paragraphs_exec, results_view, take_at_most,
    IdRule,
};
use crate::text::{concat, owned, replace_all, replace_exec, starts_with, starts_with_exec, trim, trim_exec};
use crate::types::{BookInfo, BookInfoView, Chapter, ChapterView, SearchResult, SearchResultView, Volume, VolumeView};

verus! {

/// The jpxs123 site.
pub struct Jpxs123Provider;

/// Site address.
pub open spec fn jp_base() -> Seq<char> {
    "https://www.jpxs123.com"@
}

/// A book id with `-` standing for `/`.
pub open spec fn jp_real_id(book_id: Seq<char>) -> Seq<char> {
    replace_all(book_id, "-"@, "/"@)
}

/// A search block of jpxs123.
pub open spec fn jp_result_fn() -> spec_fn(Seq<Seq<NodeView>>) -> Option<SearchResultView> {
    |it: Seq<Seq<NodeView>>| block_result("jpxs123"@, it)
}

/// The results among the first `limit` blocks of a search answer.
pub open spec fn jp_results(html: Seq<char>, limit: nat) -> Seq<SearchResultView> {
    collect(take_at_most(html_select_fields(html, "div.books.m-cols div.bk"@, block_fields()), limit), jp_result_fn())
}

/// The cover: prefixed with the site address when it is not absolute.
pub open spec fn jp_cover(c: Seq<char>) -> Seq<char> {
    if c.len() > 0 && !starts_with(c, "http"@) {
        jp_base() + c
    } else {
        c
    }
}

/// A jpxs123 book page.
pub open spec fn jp_info(html: Seq<char>) -> BookInfoView {
    let cs = link_chapters(html_select(html, "div.book_list li a"@), jp_base(), IdRule::SegmentStem);
    BookInfoView {
        book_name: sel_text(html, "div.infos h1"@),
        author: sel_text(html, "div.date span:first-child a"@),
        summary: sel_text(html, "div.infos p"@),
        cover_url: jp_cover(sel_attr(html, "div.pic img"@, "src"@)),
        serial_status: Seq::empty(),
        update_time: trim(replace_all(sel_text(html, "div.date span:nth-child(2)"@), "时间："@, Seq::empty())),
        word_count: Seq::empty(),
        volumes: if cs.len() > 0 {
            seq![VolumeView { volume_name: "正文"@, chapters: cs }]
        } else {
            Seq::empty()
        },
    }
}

impl Jpxs123Provider {
    /// The site's identifier.
    pub fn name(&self) -> (r: &'static str)
        ensures
            r@ == "jpxs123"@,
    {
        "jpxs123"
    }

    /// The site's display name, which is its identifier.
    pub fn display_name(&self) -> (r: &'static str)
        ensures
            r@ == "jpxs123"@,
    {
        self.name()
    }

    /// The site's address.
    pub fn base_url(&self) -> (r: &'static str)
        ensures
            r@ == jp_base(),
    {
        "https://www.jpxs123.com"
    }

    /// The site has a search.
    pub fn supports_search(&self) -> (r: bool)
        ensures
            r,
    {
        true
    }

    /// Where the search form is posted.
    pub fn search_url(&self) -> (r: &'static str)
        ensures
            r@ == "https://www.jpxs123.com/e/search/indexsearch.php"@,
    {
        "https://www.jpxs123.com/e/search/indexsearch.php"
    }

    /// The fields of the search form: the keyword, searched among titles of
    /// every class.
    pub fn search_form(&self, keyword: &str) -> (r: Vec<(String, String)>)
        ensures
            r@.map_values(|p: (String, String)| (p.0@, p.1@)) == seq![
                ("keyboard"@, keyword@),
                ("show"@, "title"@),
                ("classid"@, "0"@),
            ],
    {
        let r = vec![(owned("keyboard"), owned(keyword)), (owned("show"), owned("title")), (owned("classid"), owned("0"))];
        assert(r@.map_values(|p: (String, String)| (p.0@, p.1@)) =~= seq![
            ("keyboard"@, keyword@),
            ("show"@, "title"@),
            ("classid"@, "0"@),
        ]);
        r
    }

    /// The book page: `{base}/{real id}.html`.
    pub fn book_url(&self, book_id: &str) -> (r: String)
        ensures
            r@ == jp_base() + "/"@ + jp_real_id(book_id@) + ".html"@,
    {
        proof {
            reveal_strlit("-");
        }
        let rid = replace_exec(book_id, "-", "/");
        concat(concat(concat(self.base_url(), "/").as_str(), rid.as_str()).as_str(), ".html")
    }

    /// A chapter page: `{base}/{real id}/{chapter}.html`.
    pub fn chapter_url(&self, book_id: &str, chapter_id: &str) -> (r: String)
        ensures
            r@ == jp_base() + "/"@ + jp_real_id(book_id@) + "/"@ + chapter_id@ + ".html"@,
    {
        proof {
            reveal_strlit("-");
        }
        let rid = replace_exec(book_id, "-", "/");
        let a = concat(concat(concat(self.base_url(), "/").as_str(), rid.as_str()).as_str(), "/");
        concat(concat(a.as_str(), chapter_id).as_str(), ".html")
    }

    /// The results among the first `limit` blocks of a search answer.
    pub fn parse_search(&self, html: &str, limit: usize) -> (r: Vec<SearchResult>)
        ensures
            results_view(r@) == jp_results(html@, limit as nat),
    {
        let fields: Vec<&str> = vec!["h3 a", "div.booknews", "div.booknews label.date"];
        assert(strs_view(fields@) =~= block_fields());
        let items = select_fields(html, "div.books.m-cols div.bk", &fields);
        collect_results(
            &items,
            limit,
            (|it: &Vec<Vec<Node>>| -> (r: Option<SearchResult>)
                ensures
                    opt_result_view(r) == block_result("jpxs123"@, crate::html::groups_view(it@)),
                { block_result_exec("jpxs123", it) }),
            Ghost(jp_result_fn()),
        )
    }

    /// Parses a book page.
    pub fn parse_book_info(&self, html: &str) -> (info: BookInfo)
        ensures
            info@ == jp_info(html@),
    {
        let c = select_attr(html, "div.pic img", "src");
        let cover_url = if !c.as_str().is_empty() && !starts_with_exec(c.as_str(), "http") {
            concat(self.base_url(), c.as_str())
        } else {
            c
        };
        proof {
            reveal_strlit("时间：");
            reveal_strlit("");
        }
        assert(""@ =~= Seq::<char>::empty());
        let u = select_text(html, "div.date span:nth-child(2)");
        let u1 = replace_exec(u.as_str(), "时间：", "");
        let links = select_all(html, "div.book_list li a");
        let chapters = links_to_chapters(&links, self.base_url(), IdRule::SegmentStem);
        let mut volumes: Vec<Volume> = Vec::new();
        if chapters.len() > 0 {
            volumes.push(Volume { volume_name: owned("正文"), chapters });
        }
        assert(volumes@.map_values(|v: Volume| v@) =~= jp_info(html@).volumes);
        let info = BookInfo {
            book_name: select_text(html, "div.infos h1"),
            author: select_text(html, "div.date span:first-child a"),
            summary: select_text(html, "div.infos p"),
            cover_url,
            serial_status: String::new(),
            update_time: trim_exec(u1.as_str()),
            word_count: String::new(),
            volumes,
        };
        assert(info@.serial_status =~= Seq::<char>::empty());
        assert(info@.word_count =~= Seq::<char>::empty());
        info
    }

    /// Parses a chapter page.
    pub fn parse_chapter(&self, html: &str, chapter_id: &str) -> (ch: Chapter)
        ensures
            ch@ == (ChapterView {
                id: chapter_id@,
                title: heading_without(html@, "div.read_chapterName h1"@, "div.readTop a"@),
                content: cleaned(paragraphs(html_select(html@, "div.read_chapterDetail p"@))),
            }),
    {
        let title = heading_without_exec(html, "div.read_chapterName h1", "div.readTop a");
        let p = paragraphs_exec(html, "div.read_chapterDetail p");
        Chapter { id: owned(chapter_id), title, content: clean_content(p.as_str()) }
    }
}

} // verus!
