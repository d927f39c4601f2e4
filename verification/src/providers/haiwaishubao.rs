//! 海外书包 (haiwaishubao): search by form, a table of contents spread over
//! numbered pages, and chapters spread over numbered pages.

use vstd::prelude::*;

use crate::html::{
    group_attr, group_attr_exec, group_text, group_text_exec, html_select, html_select_fields, meta, meta_content,
    nodes_view, or_else, sel_text, select_all, select_fields, select_text, strs_view, Node, NodeView,
};
use crate::providers::common::{
    chapters_view, collect, collect_results, id_by_rule, items_view, link_chapters, links_to_chapters,
    nonempty_texts, nonempty_texts_exec, opt_result_view, results_view, take_at_most, IdRule,
};
use crate::text::{concat, contains, contains_exec, decimal, join, join_exec, owned, replace_all, replace_exec, u64_to_string};
use crate::types::{BookInfo, BookInfoView, Chapter, ChapterInfo, ChapterInfoView, ChapterView, SearchResult, SearchResultView, Volume, VolumeView};

verus! {

/// The haiwaishubao site.
pub struct HaiwaishubaoProvider;

/// Site address.
pub open spec fn hw_base() -> Seq<char> {
    "https://www.haiwaishubao.com"@
}

/// What is read of each search row: the book link and the author link.
pub open spec fn hw_fields() -> Seq<Seq<char>> {
    seq!["a[href*='/book/']"@, "a[href*='/author/']"@]
}

/// One search row: its book link gives the id.
pub open spec fn hw_result(item: Seq<Seq<NodeView>>) -> Option<SearchResultView> {
    let href = group_attr(item, 0, "href"@);
    if href.len() == 0 {
        None
    } else {
        Some(
            SearchResultView {
                site: "haiwaishubao"@,
                book_id: id_by_rule(IdRule::TrimmedSegment, href),
                title: group_text(item, 0),
                author: group_text(item, 1),
                latest_chapter: Seq::empty(),
                update_date: Seq::empty(),
                word_count: Seq::empty(),
            },
        )
    }
}

/// [`hw_result`] as a function value.
pub open spec fn hw_result_fn() -> spec_fn(Seq<Seq<NodeView>>) -> Option<SearchResultView> {
    |item: Seq<Seq<NodeView>>| hw_result(item)
}

/// The book data of the book page (the chapters come from other pages).
pub open spec fn hw_info(html: Seq<char>) -> BookInfoView {
    BookInfoView {
        book_name: or_else(meta(html, "og:title"@), sel_text(html, "p.title"@)),
        author: or_else(meta(html, "og:novel:author"@), sel_text(html, "p.author a"@)),
        summary: replace_all(meta(html, "og:description"@), "&emsp;"@, Seq::empty()),
        cover_url: meta(html, "og:image"@),
        serial_status: meta(html, "og:novel:status"@),
        update_time: meta(html, "og:novel:update_time"@),
        word_count: Seq::empty(),
        volumes: Seq::empty(),
    }
}

/// The chapters on one page of the table of contents.
pub open spec fn hw_page_chapters(html: Seq<char>) -> Seq<ChapterInfoView> {
    link_chapters(html_select(html, "ol.BCsectionTwo-top a[href]"@), hw_base(), IdRule::SegmentStem)
}

/// The path of page `page` of the table of contents.
pub open spec fn hw_index_path(book_id: Seq<char>, page: nat) -> Seq<char> {
    "/index/"@ + book_id + "/"@ + decimal(page) + "/"@
}

/// The address of page `page` of the table of contents (page 1 has no number).
pub open spec fn hw_index_url(book_id: Seq<char>, page: nat) -> Seq<char> {
    if page == 1 {
        hw_base() + "/index/"@ + book_id + "/"@
    } else {
        hw_base() + hw_index_path(book_id, page)
    }
}

/// The path of page `page` of a chapter.
pub open spec fn hw_chapter_path(book_id: Seq<char>, chapter_id: Seq<char>, page: nat) -> Seq<char> {
    "/book/"@ + book_id + "/"@ + chapter_id + "_"@ + decimal(page) + ".html"@
}

/// The address of page `page` of a chapter (page 1 has no number).
pub open spec fn hw_chapter_url(book_id: Seq<char>, chapter_id: Seq<char>, page: nat) -> Seq<char> {
    if page == 1 {
        hw_base() + "/book/"@ + book_id + "/"@ + chapter_id + ".html"@
    } else {
        hw_base() + hw_chapter_path(book_id, chapter_id, page)
    }
}

/// The table of contents being read page by page.
pub struct IndexPages {
    /// The page read next.
    pub page: u64,
    pub chapters: Vec<ChapterInfo>,
}

/// A chapter being read page by page.
pub struct TextPages {
    /// The page read next.
    pub page: u64,
    pub title: String,
    pub paragraphs: Vec<String>,
}

fn hw_result_exec(item: &Vec<Vec<Node>>) -> (r: Option<SearchResult>)
    ensures
        opt_result_view(r) == hw_result(crate::html::groups_view(item@)),
{
    let href = group_attr_exec(item, 0, "href");
    if href.as_str().is_empty() {
        return None;
    }
    Some(SearchResult {
        site: owned("haiwaishubao"),
        book_id: crate::providers::common::chapter_id_by_rule(IdRule::TrimmedSegment, href.as_str()),
        title: group_text_exec(item, 0),
        author: group_text_exec(item, 1),
        latest_chapter: String::new(),
        update_date: String::new(),
        word_count: String::new(),
    })
}

impl IndexPages {
    /// Nothing read yet; page 1 comes first.
    pub fn new() -> (r: IndexPages)
        ensures
            r.page == 1,
            r.chapters@.len() == 0,
    {
        IndexPages { page: 1, chapters: Vec::new() }
    }

    /// The address of the page to read next.
    pub fn page_url(&self, book_id: &str) -> (r: String)
        ensures
            r@ == hw_index_url(book_id@, self.page as nat),
    {
        proof {
            reveal_strlit("https://www.haiwaishubao.com/index/");
            reveal_strlit("https://www.haiwaishubao.com");
            reveal_strlit("/index/");
        }
        assert("https://www.haiwaishubao.com/index/"@ =~= hw_base() + "/index/"@);
        let a = concat(concat("https://www.haiwaishubao.com/index/", book_id).as_str(), "/");
        if self.page == 1 {
            a
        } else {
            let p = u64_to_string(self.page);
            concat(concat(a.as_str(), p.as_str()).as_str(), "/")
        }
    }

    /// Takes in the page just read. A page without chapters ends the
    /// reading and adds nothing; otherwise its chapters are added, and the
    /// reading goes on (the result is `true`) when the page links to the
    /// next one and that is at most page 50.
    pub fn absorb(&mut self, html: &str, book_id: &str) -> (more: bool)
        requires
            1 <= old(self).page <= 50,
        ensures
            hw_page_chapters(html@).len() == 0 ==> chapters_view(final(self).chapters@) == chapters_view(
                old(self).chapters@,
            ) && !more,
            hw_page_chapters(html@).len() > 0 ==> chapters_view(final(self).chapters@) == chapters_view(
                old(self).chapters@,
            ) + hw_page_chapters(html@),
            more == (hw_page_chapters(html@).len() > 0 && contains(
                html@,
                hw_index_path(book_id@, (old(self).page + 1) as nat),
            ) && old(self).page + 1 <= 50),
            more ==> final(self).page == old(self).page + 1,
            1 <= final(self).page <= 50,
    {
        let links = select_all(html, "ol.BCsectionTwo-top a[href]");
        let mut found = links_to_chapters(&links, "https://www.haiwaishubao.com", IdRule::SegmentStem);
        if found.len() == 0 {
            return false;
        }
        let ghost c0 = self.chapters@;
        let ghost f0 = found@;
        self.chapters.append(&mut found);
        assert(self.chapters@ =~= c0 + f0);
        assert(chapters_view(self.chapters@) =~= chapters_view(c0) + chapters_view(f0));
        let p = u64_to_string(self.page + 1);
        let path = concat(concat(concat(concat("/index/", book_id).as_str(), "/").as_str(), p.as_str()).as_str(), "/");
        if !contains_exec(html, path.as_str()) {
            return false;
        }
        if self.page + 1 > 50 {
            return false;
        }
        self.page = self.page + 1;
        true
    }
}

impl TextPages {
    /// Nothing read yet; page 1 comes first.
    pub fn new() -> (r: TextPages)
        ensures
            r.page == 1,
            r.title@.len() == 0,
            r.paragraphs@.len() == 0,
    {
        TextPages { page: 1, title: String::new(), paragraphs: Vec::new() }
    }

    /// The address of the page to read next.
    pub fn page_url(&self, book_id: &str, chapter_id: &str) -> (r: String)
        ensures
            r@ == hw_chapter_url(book_id@, chapter_id@, self.page as nat),
    {
        let a = concat(concat("https://www.haiwaishubao.com/book/", book_id).as_str(), "/");
        proof {
            reveal_strlit("https://www.haiwaishubao.com/book/");
            reveal_strlit("https://www.haiwaishubao.com");
            reveal_strlit("/book/");
        }
        assert("https://www.haiwaishubao.com/book/"@ =~= hw_base() + "/book/"@);
        let b = concat(a.as_str(), chapter_id);
        if self.page == 1 {
            concat(b.as_str(), ".html")
        } else {
            let p = u64_to_string(self.page);
            concat(concat(concat(b.as_str(), "_").as_str(), p.as_str()).as_str(), ".html")
        }
    }

    /// Takes in the page just read: the title from the first page that has
    /// one; a later page without paragraphs ends the reading and adds
    /// nothing; otherwise its paragraphs are added, and the reading goes on
    /// when the page links to the next one and that is at most page 20.
    pub fn absorb(&mut self, html: &str, book_id: &str, chapter_id: &str) -> (more: bool)
        requires
            1 <= old(self).page <= 20,
        ensures
            final(self).title@ == if old(self).title@.len() == 0 {
                sel_text(html@, "#chapterTitle"@)
            } else {
                old(self).title@
            },
            ({
                let ps = nonempty_texts(html_select(html@, "#content p"@));
                let before = old(self).paragraphs@.map_values(|s: String| s@);
                let after = final(self).paragraphs@.map_values(|s: String| s@);
                &&& (ps.len() == 0 && old(self).page > 1) ==> after == before && !more
                &&& !(ps.len() == 0 && old(self).page > 1) ==> after == before + ps
                &&& more == (!(ps.len() == 0 && old(self).page > 1) && contains(
                    html@,
                    hw_chapter_path(book_id@, chapter_id@, (old(self).page + 1) as nat),
                ) && old(self).page + 1 <= 20)
            }),
            more ==> final(self).page == old(self).page + 1,
            1 <= final(self).page <= 20,
    {
        if self.title.as_str().is_empty() {
            self.title = select_text(html, "#chapterTitle");
        }
        let nodes = select_all(html, "#content p");
        let mut ps = nonempty_texts_exec(&nodes);
        if ps.len() == 0 && self.page > 1 {
            return false;
        }
        let ghost p0 = self.paragraphs@;
        let ghost f0 = ps@;
        self.paragraphs.append(&mut ps);
        assert(self.paragraphs@ =~= p0 + f0);
        assert(self.paragraphs@.map_values(|s: String| s@) =~= p0.map_values(|s: String| s@) + f0.map_values(
            |s: String| s@,
        ));
        let p = u64_to_string(self.page + 1);
        let a = concat(concat(concat(concat("/book/", book_id).as_str(), "/").as_str(), chapter_id).as_str(), "_");
        let path = concat(concat(a.as_str(), p.as_str()).as_str(), ".html");
        if !contains_exec(html, path.as_str()) {
            return false;
        }
        if self.page + 1 > 20 {
            return false;
        }
        self.page = self.page + 1;
        true
    }

    /// The chapter read so far.
    pub fn finish(self, chapter_id: &str) -> (ch: Chapter)
        ensures
            ch@ == (ChapterView {
                id: chapter_id@,
                title: self.title@,
                content: join(self.paragraphs@.map_values(|s: String| s@), "\n"@),
            }),
    {
        let content = join_exec(&self.paragraphs, "\n");
        Chapter { id: owned(chapter_id), title: self.title, content }
    }
}

impl HaiwaishubaoProvider {
    /// The site's identifier.
    pub fn name(&self) -> (r: &'static str)
        ensures
            r@ == "haiwaishubao"@,
    {
        "haiwaishubao"
    }

    /// The site's display name.
    pub fn display_name(&self) -> (r: &'static str)
        ensures
            r@ == "海外书包"@,
    {
        "海外书包"
    }

    /// The site's address.
    pub fn base_url(&self) -> (r: &'static str)
        ensures
            r@ == hw_base(),
    {
        "https://www.haiwaishubao.com"
    }

    /// The site has a search.
    pub fn supports_search(&self) -> (r: bool)
        ensures
            r,
    {
        true
    }

    /// The search endpoint.
    pub fn search_url(&self) -> (r: &'static str)
        ensures
            r@ == hw_base() + "/search/"@,
    {
        proof {
            reveal_strlit("https://www.haiwaishubao.com/search/");
            reveal_strlit("https://www.haiwaishubao.com");
            reveal_strlit("/search/");
        }
        assert("https://www.haiwaishubao.com/search/"@ =~= hw_base() + "/search/"@);
        "https://www.haiwaishubao.com/search/"
    }

    /// The search form for a keyword.
    pub fn search_form(keyword: &str) -> (r: Vec<(String, String)>)
        ensures
            r@.map_values(|p: (String, String)| (p.0@, p.1@)) == seq![
                ("searchkey"@, keyword@),
                ("searchtype"@, "all"@),
                ("submit"@, ""@),
            ],
    {
        let mut r: Vec<(String, String)> = Vec::new();
        r.push((owned("searchkey"), owned(keyword)));
        r.push((owned("searchtype"), owned("all")));
        r.push((owned("submit"), owned("")));
        assert(r@.map_values(|p: (String, String)| (p.0@, p.1@)) =~= seq![
            ("searchkey"@, keyword@),
            ("searchtype"@, "all"@),
            ("submit"@, ""@),
        ]);
        r
    }

    /// The book page: `{base}/book/{id}/`.
    pub fn book_url(&self, book_id: &str) -> (r: String)
        ensures
            r@ == hw_base() + "/book/"@ + book_id@ + "/"@,
    {
        concat(concat(concat(self.base_url(), "/book/").as_str(), book_id).as_str(), "/")
    }

    /// The results among the first `limit` rows of a search page.
    pub fn parse_search(&self, html: &str, limit: usize) -> (r: Vec<SearchResult>)
        ensures
            results_view(r@) == collect(
                take_at_most(html_select_fields(html@, "div.SHsectionThree-middle p"@, hw_fields()), limit as nat),
                hw_result_fn(),
            ),
    {
        let fields: Vec<&str> = vec!["a[href*='/book/']", "a[href*='/author/']"];
        assert(strs_view(fields@) =~= hw_fields());
        let items = select_fields(html, "div.SHsectionThree-middle p", &fields);
        collect_results(
            &items,
            limit,
            (|it: &Vec<Vec<Node>>| -> (r: Option<SearchResult>)
                ensures
                    opt_result_view(r) == hw_result(crate::html::groups_view(it@)),
                { hw_result_exec(it) }),
            Ghost(hw_result_fn()),
        )
    }

    /// Parses the book page.
    pub fn parse_book_info(&self, html: &str) -> (info: BookInfo)
        ensures
            info@ == hw_info(html@),
    {
        let mut book_name = meta_content(html, "og:title");
        if book_name.as_str().is_empty() {
            book_name = select_text(html, "p.title");
        }
        let mut author = meta_content(html, "og:novel:author");
        if author.as_str().is_empty() {
            author = select_text(html, "p.author a");
        }
        proof {
            reveal_strlit("&emsp;");
            reveal_strlit("");
        }
        assert(""@ =~= Seq::<char>::empty());
        let d = meta_content(html, "og:description");
        let info = BookInfo {
            book_name,
            author,
            summary: replace_exec(d.as_str(), "&emsp;", ""),
            cover_url: meta_content(html, "og:image"),
            serial_status: meta_content(html, "og:novel:status"),
            update_time: meta_content(html, "og:novel:update_time"),
            word_count: String::new(),
            volumes: Vec::new(),
        };
        assert(info@.volumes =~= hw_info(html@).volumes);
        assert(info@.word_count =~= Seq::<char>::empty());
        info
    }

    /// The book data with the chapters read as one volume named `正文`
    /// (none when there are no chapters).
    pub fn with_chapters(info: BookInfo, pages: IndexPages) -> (r: BookInfo)
        ensures
            r@ == (BookInfoView {
                volumes: info@.volumes + if pages.chapters@.len() > 0 {
                    seq![VolumeView { volume_name: "正文"@, chapters: chapters_view(pages.chapters@) }]
                } else {
                    Seq::empty()
                },
                ..info@
            }),
    {
        let mut info = info;
        let ghost before = info@.volumes;
        let chapters = pages.chapters;
        if chapters.len() > 0 {
            info.volumes.push(Volume { volume_name: owned("正文"), chapters });
        }
        assert(info@.volumes =~= before + if chapters@.len() > 0 {
            seq![VolumeView { volume_name: "正文"@, chapters: chapters_view(chapters@) }]
        } else {
            Seq::empty()
        });
        info
    }
}

} // verus!
