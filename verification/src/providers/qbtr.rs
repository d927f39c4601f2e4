//! 全本同人 (qbtr): a form search, book ids that use `-` for `/`, a dated
//! info line read with patterns, and chapter pages titled after the book.

use vstd::prelude::*;

use crate::html::{
    attr_value, element_text, group_attr, group_attr_exec, group_text, group_text_exec, html_select, node_attr,
    node_text, normalize_url, normalized_url, sel_text, select_all, select_fields, select_text, strs_view, Node,
    NodeView,
};
use crate::markup::{clean_content, cleaned};
use crate::providers::common::{
    block_fields, block_result, block_result_exec, heading_without, heading_without_exec, collect, collect_chapters, collect_results, opt_chapter_view, opt_result_view, paragraphs, paragraphs_exec,
    regex_capture, regex_group1, results_view, take_at_most,
};
use crate::text::{
    before_first, before_first_exec, concat, owned, replace_all, replace_exec, trim, trim_end_matches,
    trim_end_matches_exec, trim_exec, trim_start_matches, trim_start_matches_exec,
};
use crate::types::{
    BookInfo, BookInfoView, Chapter, ChapterInfo, ChapterInfoView, ChapterView, SearchResult, SearchResultView, Volume,
    VolumeView,
};

verus! {

/// The qbtr site.
pub struct QbtrProvider;

/// Site address.
pub open spec fn qt_base() -> Seq<char> {
    "https://www.qbtr.cc"@
}

/// A book id with `-` standing for `/`.
pub open spec fn qt_real_id(book_id: Seq<char>) -> Seq<char> {
    replace_all(book_id, "-"@, "/"@)
}

/// A search block of qbtr.
pub open spec fn qt_result_fn() -> spec_fn(Seq<Seq<NodeView>>) -> Option<SearchResultView> {
    |it: Seq<Seq<NodeView>>| block_result("qbtr"@, it)
}

/// The results among the first `limit` blocks of a search answer.
pub open spec fn qt_results(html: Seq<char>, limit: nat) -> Seq<SearchResultView> {
    collect(take_at_most(crate::html::html_select_fields(html, "div.books.m-cols div.bk"@, block_fields()), limit), qt_result_fn())
}

/// Pattern of the author in the info line.
pub open spec fn qt_author_re() -> Seq<char> {
    "作者[：:]\\s*([^日]+)"@
}

/// Pattern of the date in the info line.
pub open spec fn qt_date_re() -> Seq<char> {
    "日期[：:]\\s*([\\d-]+)"@
}

/// Pattern of a chapter link, whose group is the chapter id.
pub open spec fn qt_chapter_re() -> Seq<char> {
    "^/[^/]+/\\d+/(\\d+)\\.html$"@
}

/// A chapter link: titled by its text (skipped when untitled); the id is
/// what the chapter pattern captures, or empty.
pub open spec fn qt_link(n: NodeView) -> Option<ChapterInfoView> {
    match attr_value(n.attrs, "href"@) {
        Some(h) => if node_text(n).len() > 0 {
            Some(
                ChapterInfoView {
                    title: node_text(n),
                    chapter_id: match regex_group1(qt_chapter_re(), h) {
                        Some(c) => c,
                        None => Seq::empty(),
                    },
                    url: normalized_url(qt_base(), h),
                },
            )
        } else {
            None
        },
        None => None,
    }
}

/// [`qt_link`] as a function value.
pub open spec fn qt_link_fn() -> spec_fn(NodeView) -> Option<ChapterInfoView> {
    |n: NodeView| qt_link(n)
}

/// A qbtr book page.
pub open spec fn qt_info(html: Seq<char>) -> BookInfoView {
    let d = sel_text(html, "div.date"@);
    let cs = collect(html_select(html, "div.book_list li a"@), qt_link_fn());
    BookInfoView {
        book_name: sel_text(html, "div.infos h1"@),
        author: match regex_group1(qt_author_re(), d) {
            Some(a) => trim(a),
            None => Seq::empty(),
        },
        summary: paragraphs(html_select(html, "div.infos p"@)),
        cover_url: Seq::empty(),
        serial_status: Seq::empty(),
        update_time: match regex_group1(qt_date_re(), d) {
            Some(u) => u,
            None => Seq::empty(),
        },
        word_count: Seq::empty(),
        volumes: if cs.len() > 0 {
            seq![VolumeView { volume_name: "正文"@, chapters: cs }]
        } else {
            Seq::empty()
        },
    }
}

fn qt_link_exec(n: &Node) -> (r: Option<ChapterInfo>)
    ensures
        opt_chapter_view(r) == qt_link(n@),
{
    match node_attr(n, "href") {
        Some(h) => {
            let title = element_text(n);
            if title.as_str().is_empty() {
                return None;
            }
            let chapter_id = match regex_capture("^/[^/]+/\\d+/(\\d+)\\.html$", h.as_str()) {
                Some(c) => c,
                None => String::new(),
            };
            Some(ChapterInfo { title, chapter_id, url: normalize_url("https://www.qbtr.cc", h.as_str()) })
        },
        None => None,
    }
}

impl QbtrProvider {
    /// The site's identifier.
    pub fn name(&self) -> (r: &'static str)
        ensures
            r@ == "qbtr"@,
    {
        "qbtr"
    }

    /// The site's display name, which is its identifier.
    pub fn display_name(&self) -> (r: &'static str)
        ensures
            r@ == "qbtr"@,
    {
        self.name()
    }

    /// The site's address.
    pub fn base_url(&self) -> (r: &'static str)
        ensures
            r@ == qt_base(),
    {
        "https://www.qbtr.cc"
    }

    /// The site has a search.
    pub fn supports_search(&self) -> (r: bool)
        ensures
            r,
    {
        true
    }

    /// Where the search form is posted.
    pub fn search_url(&self) -> (r: &'static str)
        ensures
            r@ == "https://www.qbtr.cc/e/search/index.php"@,
    {
        "https://www.qbtr.cc/e/search/index.php"
    }

    /// The fields of the search form: the keyword, searched among titles of
    /// every class.
    pub fn search_form(&self, keyword: &str) -> (r: Vec<(String, String)>)
        ensures
            r@.map_values(|p: (String, String)| (p.0@, p.1@)) == seq![
                ("keyboard"@, keyword@),
                ("show"@, "title"@),
                ("classid"@, "0"@),
            ],
    {
        let r = vec![(owned("keyboard"), owned(keyword)), (owned("show"), owned("title")), (owned("classid"), owned("0"))];
        assert(r@.map_values(|p: (String, String)| (p.0@, p.1@)) =~= seq![
            ("keyboard"@, keyword@),
            ("show"@, "title"@),
            ("classid"@, "0"@),
        ]);
        r
    }

    /// The book page: `{base}/{real id}.html`.
    pub fn book_url(&self, book_id: &str) -> (r: String)
        ensures
            r@ == qt_base() + "/"@ + qt_real_id(book_id@) + ".html"@,
    {
        proof {
            reveal_strlit("-");
        }
        let rid = replace_exec(book_id, "-", "/");
        concat(concat(concat(self.base_url(), "/").as_str(), rid.as_str()).as_str(), ".html")
    }

    /// A chapter page: `{base}/{real id}/{chapter}.html`.
    pub fn chapter_url(&self, book_id: &str, chapter_id: &str) -> (r: String)
        ensures
            r@ == qt_base() + "/"@ + qt_real_id(book_id@) + "/"@ + chapter_id@ + ".html"@,
    {
        proof {
            reveal_strlit("-");
        }
        let rid = replace_exec(book_id, "-", "/");
        let a = concat(concat(concat(self.base_url(), "/").as_str(), rid.as_str()).as_str(), "/");
        concat(concat(a.as_str(), chapter_id).as_str(), ".html")
    }

    /// The results among the first `limit` blocks of a search answer.
    pub fn parse_search(&self, html: &str, limit: usize) -> (r: Vec<SearchResult>)
        ensures
            results_view(r@) == qt_results(html@, limit as nat),
    {
        let fields: Vec<&str> = vec!["h3 a", "div.booknews", "div.booknews label.date"];
        assert(strs_view(fields@) =~= block_fields());
        let items = select_fields(html, "div.books.m-cols div.bk", &fields);
        collect_results(
            &items,
            limit,
            (|it: &Vec<Vec<Node>>| -> (r: Option<SearchResult>)
                ensures
                    opt_result_view(r) == block_result("qbtr"@, crate::html::groups_view(it@)),
                { block_result_exec("qbtr", it) }),
            Ghost(qt_result_fn()),
        )
    }

    /// Parses a book page.
    pub fn parse_book_info(&self, html: &str) -> (info: BookInfo)
        ensures
            info@ == qt_info(html@),
    {
        let d = select_text(html, "div.date");
        let author = match regex_capture("作者[：:]\\s*([^日]+)", d.as_str()) {
            Some(a) => trim_exec(a.as_str()),
            None => String::new(),
        };
        let update_time = match regex_capture("日期[：:]\\s*([\\d-]+)", d.as_str()) {
            Some(u) => u,
            None => String::new(),
        };
        let links = select_all(html, "div.book_list li a");
        let chapters = collect_chapters(
            &links,
            (|n: &Node| -> (r: Option<ChapterInfo>)
                ensures
                    opt_chapter_view(r) == qt_link(n@),
                { qt_link_exec(n) }),
            Ghost(qt_link_fn()),
        );
        let mut volumes: Vec<Volume> = Vec::new();
        if chapters.len() > 0 {
            volumes.push(Volume { volume_name: owned("正文"), chapters });
        }
        assert(volumes@.map_values(|v: Volume| v@) =~= qt_info(html@).volumes);
        let info = BookInfo {
            book_name: select_text(html, "div.infos h1"),
            author,
            summary: paragraphs_exec(html, "div.infos p"),
            cover_url: String::new(),
            serial_status: String::new(),
            update_time,
            word_count: String::new(),
            volumes,
        };
        assert(info@.cover_url =~= Seq::<char>::empty());
        assert(info@.serial_status =~= Seq::<char>::empty());
        assert(info@.word_count =~= Seq::<char>::empty());
        info
    }

    /// Parses a chapter page.
    pub fn parse_chapter(&self, html: &str, chapter_id: &str) -> (ch: Chapter)
        ensures
            ch@ == (ChapterView {
                id: chapter_id@,
                title: heading_without(html@, "div.read_chapterName h1"@, "div.readTop a"@),
                content: cleaned(paragraphs(html_select(html@, "div.read_chapterDetail p"@))),
            }),
    {
        let title = heading_without_exec(html, "div.read_chapterName h1", "div.readTop a");
        let p = paragraphs_exec(html, "div.read_chapterDetail p");
        Chapter { id: owned(chapter_id), title, content: clean_content(p.as_str()) }
    }
}

} // verus!
