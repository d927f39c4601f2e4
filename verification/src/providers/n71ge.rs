//! 71ge: search by form, one-page book pages, chapters spread over
//! numbered pages.

use vstd::prelude::*;

use crate::html::{
    attr_value, group_attr, group_attr_exec, group_text, group_text_exec, html_select, html_select_fields,
    html_text_nodes, meta, meta_content, node_attr, nodes_view, normalize_url, normalized_url, or_else, sel_attr,
    sel_text, select_all, select_attr, select_fields, select_text, select_text_nodes, strs_view, Node, NodeView,
};
use crate::markup::{clean_content, cleaned};
use crate::providers::common::{
    chapters_view, collect, collect_results, id_by_rule, items_view, nonempty_texts, nonempty_texts_exec,
    opt_result_view, results_view, take_at_most, IdRule,
};
use crate::text::{
    concat, contains, contains_exec, decimal, join, join_exec, owned, starts_with, starts_with_exec, trim,
    trim_end_matches, trim_end_matches_exec, trim_exec, trim_start_matches, trim_start_matches_exec, u64_to_string,
};
use crate::types::{BookInfo, BookInfoView, Chapter, ChapterInfo, ChapterInfoView, ChapterView, SearchResult, SearchResultView, Volume, VolumeView};

verus! {

/// The 71ge site.
pub struct N71geProvider;

/// Site address.
pub open spec fn qy_base() -> Seq<char> {
    "https://www.71ge.com"@
}

/// What is read of each search row.
pub open spec fn qy_fields() -> Seq<Seq<char>> {
    seq!["td:first-child a"@, "td:nth-child(2) a"@, "td:nth-child(3)"@, "td:nth-child(4)"@, "td:nth-child(5)"@]
}

/// One search row: its book link, `/` trimmed off both ends, is the id.
pub open spec fn qy_result(item: Seq<Seq<NodeView>>) -> Option<SearchResultView> {
    let href = group_attr(item, 0, "href"@);
    if href.len() == 0 {
        None
    } else {
        Some(
            SearchResultView {
                site: "n71ge"@,
                book_id: trim_end_matches(trim_start_matches(href, "/"@), "/"@),
                title: group_text(item, 0),
                author: group_text(item, 2),
                latest_chapter: group_text(item, 1),
                update_date: group_text(item, 4),
                word_count: group_text(item, 3),
            },
        )
    }
}

/// [`qy_result`] as a function value.
pub open spec fn qy_result_fn() -> spec_fn(Seq<Seq<NodeView>>) -> Option<SearchResultView> {
    |item: Seq<Seq<NodeView>>| qy_result(item)
}

/// The search results: rows with a book link, at most `limit` but at least
/// the first (the count is checked after each result).
pub open spec fn qy_results(html: Seq<char>, limit: nat) -> Seq<SearchResultView> {
    take_at_most(
        collect(html_select_fields(html, "tr"@, qy_fields()), qy_result_fn()),
        if limit == 0 {
            1
        } else {
            limit
        },
    )
}

/// The catalog entries: each link titled by its first text piece, trimmed.
pub open spec fn qy_chapters(links: Seq<NodeView>, pieces: Seq<Seq<Seq<char>>>, n: int) -> Seq<ChapterInfoView>
    decreases n,
{
    if n <= 0 {
        Seq::empty()
    } else {
        let rest = qy_chapters(links, pieces, n - 1);
        let k = n - 1;
        let title = if k < pieces.len() && pieces[k].len() > 0 {
            trim(pieces[k][0])
        } else {
            Seq::empty()
        };
        match attr_value(links[k].attrs, "href"@) {
            Some(h) => if title.len() > 0 {
                rest.push(
                    ChapterInfoView { title, chapter_id: id_by_rule(IdRule::SegmentStem, h), url: normalized_url(qy_base(), h) },
                )
            } else {
                rest
            },
            None => rest,
        }
    }
}

/// A 71ge book page.
pub open spec fn qy_info(html: Seq<char>) -> BookInfoView {
    let links = html_select(html, "div.ml_list ul li a"@);
    let chapters = qy_chapters(links, html_text_nodes(html, "div.ml_list ul li a"@), links.len() as int);
    BookInfoView {
        book_name: or_else(
            or_else(sel_attr(html, "meta[name=\"og:novel:book_name\"]"@, "content"@), meta(html, "og:title"@)),
            sel_text(html, "div.introduce h1"@),
        ),
        author: or_else(
            sel_attr(html, "meta[name=\"og:novel:author\"]"@, "content"@),
            sel_attr(html, "meta[name=\"author\"]"@, "content"@),
        ),
        summary: or_else(meta(html, "og:description"@), sel_text(html, "div.introduce p.jj"@)),
        cover_url: or_else(meta(html, "og:image"@), sel_attr(html, "div.pic img"@, "src"@)),
        serial_status: meta(html, "og:novel:status"@),
        update_time: sel_attr(html, "meta[name=\"og:novel:update_time\"]"@, "content"@),
        word_count: Seq::empty(),
        volumes: if chapters.len() > 0 {
            seq![VolumeView { volume_name: "正文"@, chapters }]
        } else {
            Seq::empty()
        },
    }
}

/// The address of page `page` of a chapter (page 1 has no number).
pub open spec fn qy_chapter_url(book_id: Seq<char>, chapter_id: Seq<char>, page: nat) -> Seq<char> {
    if page == 1 {
        qy_base() + "/"@ + book_id + "/"@ + chapter_id + ".html"@
    } else {
        qy_base() + "/"@ + book_id + "/"@ + chapter_id + "_"@ + decimal(page) + ".html"@
    }
}

/// The paragraphs with a trailing page marker dropped.
pub open spec fn qy_unmarked(ps: Seq<Seq<char>>) -> Seq<Seq<char>> {
    if ps.len() > 0 && (starts_with(ps.last(), "本章未完"@) || starts_with(ps.last(), "本章已完"@)) {
        ps.drop_last()
    } else {
        ps
    }
}

/// A chapter being read page by page.
pub struct QyPages {
    /// The page read next.
    pub page: u64,
    pub title: String,
    pub paragraphs: Vec<String>,
}

fn qy_result_exec(item: &Vec<Vec<Node>>) -> (r: Option<SearchResult>)
    ensures
        opt_result_view(r) == qy_result(crate::html::groups_view(item@)),
{
    let href = group_attr_exec(item, 0, "href");
    if href.as_str().is_empty() {
        return None;
    }
    let a = trim_start_matches_exec(href.as_str(), "/");
    Some(SearchResult {
        site: owned("n71ge"),
        book_id: trim_end_matches_exec(a.as_str(), "/"),
        title: group_text_exec(item, 0),
        author: group_text_exec(item, 2),
        latest_chapter: group_text_exec(item, 1),
        update_date: group_text_exec(item, 4),
        word_count: group_text_exec(item, 3),
    })
}

impl QyPages {
    /// Nothing read yet; page 1 comes first.
    pub fn new() -> (r: QyPages)
        ensures
            r.page == 1,
            r.title@.len() == 0,
            r.paragraphs@.len() == 0,
    {
        QyPages { page: 1, title: String::new(), paragraphs: Vec::new() }
    }

    /// The address of the page to read next.
    pub fn page_url(&self, book_id: &str, chapter_id: &str) -> (r: String)
        ensures
            r@ == qy_chapter_url(book_id@, chapter_id@, self.page as nat),
    {
        let a = concat(concat(concat("https://www.71ge.com", "/").as_str(), book_id).as_str(), "/");
        let b = concat(a.as_str(), chapter_id);
        if self.page == 1 {
            concat(b.as_str(), ".html")
        } else {
            let p = u64_to_string(self.page);
            concat(concat(concat(b.as_str(), "_").as_str(), p.as_str()).as_str(), ".html")
        }
    }

    /// Takes in the page just read: the title from the first page that has
    /// one; its non-empty paragraphs added, then a trailing page marker
    /// dropped; the reading goes on while the page links to the next one, up
    /// to page 20.
    pub fn absorb(&mut self, html: &str, chapter_id: &str) -> (more: bool)
        requires
            1 <= old(self).page <= 20,
        ensures
            final(self).title@ == if old(self).title@.len() == 0 {
                sel_text(html@, "div#nr_content div.nr_title h3"@)
            } else {
                old(self).title@
            },
            final(self).paragraphs@.map_values(|s: String| s@) == qy_unmarked(
                old(self).paragraphs@.map_values(|s: String| s@) + nonempty_texts(
                    html_select(html@, "div#nr_content div.novelcontent p"@),
                ),
            ),
            more == (contains(html@, chapter_id@ + "_"@ + decimal((old(self).page + 1) as nat) + ".html"@) && old(
                self,
            ).page + 1 <= 20),
            more ==> final(self).page == old(self).page + 1,
            1 <= final(self).page <= 20,
    {
        if self.title.as_str().is_empty() {
            self.title = select_text(html, "div#nr_content div.nr_title h3");
        }
        let nodes = select_all(html, "div#nr_content div.novelcontent p");
        let mut ps = nonempty_texts_exec(&nodes);
        let ghost p0 = self.paragraphs@;
        let ghost f0 = ps@;
        self.paragraphs.append(&mut ps);
        assert(self.paragraphs@ =~= p0 + f0);
        let ghost all = self.paragraphs@.map_values(|s: String| s@);
        assert(all =~= p0.map_values(|s: String| s@) + f0.map_values(|s: String| s@));
        if self.paragraphs.len() > 0 {
            let n = self.paragraphs.len();
            assert(all.last() == self.paragraphs@[n - 1]@);
            if starts_with_exec(self.paragraphs[n - 1].as_str(), "本章未完") || starts_with_exec(
                self.paragraphs[n - 1].as_str(),
                "本章已完",
            ) {
                self.paragraphs.pop();
                assert(self.paragraphs@.map_values(|s: String| s@) =~= all.drop_last());
            }
        }
        let p = u64_to_string(self.page + 1);
        let suffix = concat(concat(concat(chapter_id, "_").as_str(), p.as_str()).as_str(), ".html");
        if !contains_exec(html, suffix.as_str()) {
            return false;
        }
        if self.page + 1 > 20 {
            return false;
        }
        self.page = self.page + 1;
        true
    }

    /// The chapter read so far, its text cleaned.
    pub fn finish(self, chapter_id: &str) -> (ch: Chapter)
        ensures
            ch@ == (ChapterView {
                id: chapter_id@,
                title: self.title@,
                content: cleaned(join(self.paragraphs@.map_values(|s: String| s@), "\n"@)),
            }),
    {
        let joined = join_exec(&self.paragraphs, "\n");
        Chapter { id: owned(chapter_id), title: self.title, content: clean_content(joined.as_str()) }
    }
}

impl N71geProvider {
    /// The site's identifier.
    pub fn name(&self) -> (r: &'static str)
        ensures
            r@ == "n71ge"@,
    {
        "n71ge"
    }

    /// The site's display name (its identifier).
    pub fn display_name(&self) -> (r: &'static str)
        ensures
            r@ == "n71ge"@,
    {
        "n71ge"
    }

    /// The site's address.
    pub fn base_url(&self) -> (r: &'static str)
        ensures
            r@ == qy_base(),
    {
        "https://www.71ge.com"
    }

    /// The site has a search.
    pub fn supports_search(&self) -> (r: bool)
        ensures
            r,
    {
        true
    }

    /// The search endpoint.
    pub fn search_url(&self) -> (r: &'static str)
        ensures
            r@ == "https://www.71ge.com/search.php"@,
    {
        "https://www.71ge.com/search.php"
    }

    /// The search form for a keyword.
    pub fn search_form(keyword: &str) -> (r: Vec<(String, String)>)
        ensures
            r@.map_values(|p: (String, String)| (p.0@, p.1@)) == seq![
                ("s"@, keyword@),
                ("action"@, "login"@),
                ("submit"@, " 搜 索 "@),
            ],
    {
        let mut r: Vec<(String, String)> = Vec::new();
        r.push((owned("s"), owned(keyword)));
        r.push((owned("action"), owned("login")));
        r.push((owned("submit"), owned(" 搜 索 ")));
        assert(r@.map_values(|p: (String, String)| (p.0@, p.1@)) =~= seq![
            ("s"@, keyword@),
            ("action"@, "login"@),
            ("submit"@, " 搜 索 "@),
        ]);
        r
    }

    /// The book page: `{base}/{id}/`.
    pub fn book_url(&self, book_id: &str) -> (r: String)
        ensures
            r@ == qy_base() + "/"@ + book_id@ + "/"@,
    {
        concat(concat(concat(self.base_url(), "/").as_str(), book_id).as_str(), "/")
    }

    /// The results of a search page.
    pub fn parse_search(&self, html: &str, limit: usize) -> (r: Vec<SearchResult>)
        ensures
            results_view(r@) == qy_results(html@, limit as nat),
    {
        let fields: Vec<&str> = vec!["td:first-child a", "td:nth-child(2) a", "td:nth-child(3)", "td:nth-child(4)", "td:nth-child(5)"];
        assert(strs_view(fields@) =~= qy_fields());
        let items = select_fields(html, "tr", &fields);
        let mut all = collect_results(
            &items,
            items.len(),
            (|it: &Vec<Vec<Node>>| -> (r: Option<SearchResult>)
                ensures
                    opt_result_view(r) == qy_result(crate::html::groups_view(it@)),
                { qy_result_exec(it) }),
            Ghost(qy_result_fn()),
        );
        assert(take_at_most(items_view(items@), items.len() as nat) =~= items_view(items@));
        let m: usize = if limit == 0 {
            1
        } else {
            limit
        };
        let ghost before = all@;
        all.truncate(m);
        assert(results_view(all@) =~= take_at_most(results_view(before), m as nat));
        all
    }

    /// Parses a book page.
    pub fn parse_book_info(&self, html: &str) -> (info: BookInfo)
        ensures
            info@ == qy_info(html@),
    {
        let mut book_name = select_attr(html, "meta[name=\"og:novel:book_name\"]", "content");
        if book_name.as_str().is_empty() {
            book_name = meta_content(html, "og:title");
        }
        if book_name.as_str().is_empty() {
            book_name = select_text(html, "div.introduce h1");
        }
        let mut author = select_attr(html, "meta[name=\"og:novel:author\"]", "content");
        if author.as_str().is_empty() {
            author = select_attr(html, "meta[name=\"author\"]", "content");
        }
        let mut cover_url = meta_content(html, "og:image");
        if cover_url.as_str().is_empty() {
            cover_url = select_attr(html, "div.pic img", "src");
        }
        let mut summary = meta_content(html, "og:description");
        if summary.as_str().is_empty() {
            summary = select_text(html, "div.introduce p.jj");
        }
        let links = select_all(html, "div.ml_list ul li a");
        let pieces = select_text_nodes(html, "div.ml_list ul li a");
        let ghost lv = nodes_view(links@);
        let ghost pv = pieces@.map_values(|v: Vec<String>| v@.map_values(|t: String| t@));
        let mut chapters: Vec<ChapterInfo> = Vec::new();
        let mut k: usize = 0;
        while k < links.len()
            invariant
                k <= links.len(),
                lv == nodes_view(links@),
                pv == pieces@.map_values(|v: Vec<String>| v@.map_values(|t: String| t@)),
                chapters_view(chapters@) == qy_chapters(lv, pv, k as int),
            decreases links.len() - k,
        {
            let title = if k < pieces.len() && pieces[k].len() > 0 {
                assert(pv[k as int][0] == pieces@[k as int]@[0]@);
                trim_exec(pieces[k][0].as_str())
            } else {
                String::new()
            };
            assert(lv[k as int] == links@[k as int]@);
            match node_attr(&links[k], "href") {
                Some(h) => {
                    if !title.as_str().is_empty() {
                        let c = ChapterInfo {
                            title,
                            chapter_id: crate::providers::common::chapter_id_by_rule(IdRule::SegmentStem, h.as_str()),
                            url: normalize_url("https://www.71ge.com", h.as_str()),
                        };
                        let ghost o0 = chapters@;
                        chapters.push(c);
                        assert(chapters_view(chapters@) =~= chapters_view(o0).push(chapters@.last()@));
                    }
                },
                None => {},
            }
            k += 1;
        }
        let mut volumes: Vec<Volume> = Vec::new();
        if chapters.len() > 0 {
            volumes.push(Volume { volume_name: owned("正文"), chapters });
        }
        let info = BookInfo {
            book_name,
            author,
            summary,
            cover_url,
            serial_status: meta_content(html, "og:novel:status"),
            update_time: select_attr(html, "meta[name=\"og:novel:update_time\"]", "content"),
            word_count: String::new(),
            volumes,
        };
        assert(info@.volumes =~= qy_info(html@).volumes);
        assert(info@.word_count =~= Seq::<char>::empty());
        info
    }
}

} // verus!
