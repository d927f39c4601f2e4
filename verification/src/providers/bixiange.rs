//! 笔仙阁 (bixiange): book ids write `/` as `-`; books of a few categories
//! are addressed differently.

use vstd::prelude::*;

use crate::html::{
    group_attr, group_attr_exec, group_text, group_text_exec, html_select, html_select_fields, normalize_url,
    normalized_url, sel_attr, sel_text, select_all, select_attr, select_fields, select_text, strs_view, Node,
    NodeView,
};
use crate::providers::common::{
    after_first, collect, collect_results, inner_text_exec, link_chapters, links_to_chapters, opt_result_view,
    results_view, rooted_cover, rooted_cover_exec, sel_inner_text, take_at_most, IdRule,
};
use crate::text::{
    after_last, after_last_exec, before_first, before_first_exec, concat, contains, contains_exec, owned,
    replace_all, replace_exec, str_eq, trim, trim_end_matches, trim_end_matches_exec, trim_exec, trim_start_matches,
    trim_start_matches_exec,
};
use crate::types::{BookInfo, BookInfoView, Chapter, ChapterView, SearchResult, SearchResultView, Volume, VolumeView};

verus! {

/// The bixiange site.
pub struct BixiangeProvider;

/// Site address.
pub open spec fn bx_base() -> Seq<char> {
    "https://m.bixiange.me"@
}

/// The categories whose books are addressed as single pages.
pub open spec fn is_special(prefix: Seq<char>) -> bool {
    prefix == "cyjk"@ || prefix == "khjj"@ || prefix == "guanchang"@
}

/// The site's path of a book id (`-` for `/`).
pub open spec fn bx_path(book_id: Seq<char>) -> Seq<char> {
    replace_all(book_id, "-"@, "/"@)
}

/// The book page: `{base}/{path}.html` for the special categories, else
/// `{base}/{path}/`.
pub open spec fn bx_book_url(book_id: Seq<char>) -> Seq<char> {
    let p = bx_path(book_id);
    if is_special(before_first(p, "/"@)) {
        bx_base() + "/"@ + p + ".html"@
    } else {
        bx_base() + "/"@ + p + "/"@
    }
}

/// A chapter page: `{base}/{path}/{chapter}.html` for the special
/// categories, else `{base}/{path}/index/{chapter}.html`.
pub open spec fn bx_chapter_url(book_id: Seq<char>, chapter_id: Seq<char>) -> Seq<char> {
    let p = bx_path(book_id);
    if is_special(before_first(p, "/"@)) {
        bx_base() + "/"@ + p + "/"@ + chapter_id + ".html"@
    } else {
        bx_base() + "/"@ + p + "/index/"@ + chapter_id + ".html"@
    }
}

/// What is read of each search row.
pub open spec fn bx_fields() -> Seq<Seq<char>> {
    seq!["div.cover a"@, "div.title a"@, "div.tips span"@]
}

/// One search row: its cover link, `/` trimmed and up to the first `.`,
/// with `/` as `-`, is the id.
pub open spec fn bx_result(item: Seq<Seq<NodeView>>) -> Option<SearchResultView> {
    let href = group_attr(item, 0, "href"@);
    if href.len() == 0 {
        None
    } else {
        Some(
            SearchResultView {
                site: "bixiange"@,
                book_id: replace_all(before_first(trim_end_matches(trim_start_matches(href, "/"@), "/"@), "."@), "/"@, "-"@),
                title: group_text(item, 1),
                author: Seq::empty(),
                latest_chapter: Seq::empty(),
                update_date: trim(after_last(group_text(item, 2), "时间："@)),
                word_count: Seq::empty(),
            },
        )
    }
}

/// [`bx_result`] as a function value.
pub open spec fn bx_result_fn() -> spec_fn(Seq<Seq<NodeView>>) -> Option<SearchResultView> {
    |item: Seq<Seq<NodeView>>| bx_result(item)
}

/// A bixiange book page.
pub open spec fn bx_info(html: Seq<char>) -> BookInfoView {
    let a = sel_text(html, "div.descTip span"@);
    let chapters = link_chapters(html_select(html, "div.catalog a[href]"@), bx_base(), IdRule::SegmentStem);
    BookInfoView {
        book_name: sel_text(html, "div.desc h1"@),
        author: if contains(a, "作者"@) {
            trim(replace_all(a, "作者："@, Seq::empty()))
        } else {
            Seq::empty()
        },
        summary: sel_text(html, "div.descInfo"@),
        cover_url: rooted_cover(bx_base(), sel_attr(html, "div.cover img"@, "src"@)),
        serial_status: Seq::empty(),
        update_time: Seq::empty(),
        word_count: Seq::empty(),
        volumes: if chapters.len() > 0 {
            seq![VolumeView { volume_name: "正文"@, chapters }]
        } else {
            Seq::empty()
        },
    }
}

fn bx_result_exec(item: &Vec<Vec<Node>>) -> (r: Option<SearchResult>)
    ensures
        opt_result_view(r) == bx_result(crate::html::groups_view(item@)),
{
    let href = group_attr_exec(item, 0, "href");
    if href.as_str().is_empty() {
        return None;
    }
    let a = trim_start_matches_exec(href.as_str(), "/");
    let b = trim_end_matches_exec(a.as_str(), "/");
    let c = before_first_exec(b.as_str(), ".");
    proof {
        reveal_strlit("/");
    }
    let tips = group_text_exec(item, 2);
    let u = after_last_exec(tips.as_str(), "时间：");
    Some(SearchResult {
        site: owned("bixiange"),
        book_id: replace_exec(c.as_str(), "/", "-"),
        title: group_text_exec(item, 1),
        author: String::new(),
        latest_chapter: String::new(),
        update_date: trim_exec(u.as_str()),
        word_count: String::new(),
    })
}

impl BixiangeProvider {
    /// The site's identifier.
    pub fn name(&self) -> (r: &'static str)
        ensures
            r@ == "bixiange"@,
    {
        "bixiange"
    }

    /// The site's display name.
    pub fn display_name(&self) -> (r: &'static str)
        ensures
            r@ == "笔仙阁"@,
    {
        "笔仙阁"
    }

    /// The site's address.
    pub fn base_url(&self) -> (r: &'static str)
        ensures
            r@ == bx_base(),
    {
        "https://m.bixiange.me"
    }

    /// The site has a search.
    pub fn supports_search(&self) -> (r: bool)
        ensures
            r,
    {
        true
    }

    /// Whether a category is addressed as single pages.
    pub fn is_special_prefix(prefix: &str) -> (r: bool)
        ensures
            r == is_special(prefix@),
    {
        str_eq(prefix, "cyjk") || str_eq(prefix, "khjj") || str_eq(prefix, "guanchang")
    }

    /// The search endpoint.
    pub fn search_url(&self) -> (r: &'static str)
        ensures
            r@ == "https://m.bixiange.me/e/search/indexpage.php"@,
    {
        "https://m.bixiange.me/e/search/indexpage.php"
    }

    /// The search form for a keyword.
    pub fn search_form(keyword: &str) -> (r: Vec<(String, String)>)
        ensures
            r@.map_values(|p: (String, String)| (p.0@, p.1@)) == seq![
                ("keyboard"@, keyword@),
                ("show"@, "title"@),
                ("classid"@, "0"@),
            ],
    {
        let mut r: Vec<(String, String)> = Vec::new();
        r.push((owned("keyboard"), owned(keyword)));
        r.push((owned("show"), owned("title")));
        r.push((owned("classid"), owned("0")));
        assert(r@.map_values(|p: (String, String)| (p.0@, p.1@)) =~= seq![
            ("keyboard"@, keyword@),
            ("show"@, "title"@),
            ("classid"@, "0"@),
        ]);
        r
    }

    /// The book page.
    pub fn book_url(&self, book_id: &str) -> (r: String)
        ensures
            r@ == bx_book_url(book_id@),
    {
        proof {
            reveal_strlit("-");
        }
        let p = replace_exec(book_id, "-", "/");
        let prefix = before_first_exec(p.as_str(), "/");
        let a = concat(concat("https://m.bixiange.me", "/").as_str(), p.as_str());
        if Self::is_special_prefix(prefix.as_str()) {
            concat(a.as_str(), ".html")
        } else {
            concat(a.as_str(), "/")
        }
    }

    /// A chapter page.
    pub fn chapter_url(&self, book_id: &str, chapter_id: &str) -> (r: String)
        ensures
            r@ == bx_chapter_url(book_id@, chapter_id@),
    {
        proof {
            reveal_strlit("-");
        }
        let p = replace_exec(book_id, "-", "/");
        let prefix = before_first_exec(p.as_str(), "/");
        let a = concat(concat("https://m.bixiange.me", "/").as_str(), p.as_str());
        let b = if Self::is_special_prefix(prefix.as_str()) {
            concat(a.as_str(), "/")
        } else {
            concat(a.as_str(), "/index/")
        };
        concat(concat(b.as_str(), chapter_id).as_str(), ".html")
    }

    /// The results among the first `limit` rows of a search page.
    pub fn parse_search(&self, html: &str, limit: usize) -> (r: Vec<SearchResult>)
        ensures
            results_view(r@) == collect(take_at_most(html_select_fields(html@, "div.list li"@, bx_fields()), limit as nat), bx_result_fn()),
    {
        let fields: Vec<&str> = vec!["div.cover a", "div.title a", "div.tips span"];
        assert(strs_view(fields@) =~= bx_fields());
        let items = select_fields(html, "div.list li", &fields);
        collect_results(
            &items,
            limit,
            (|it: &Vec<Vec<Node>>| -> (r: Option<SearchResult>)
                ensures
                    opt_result_view(r) == bx_result(crate::html::groups_view(it@)),
                { bx_result_exec(it) }),
            Ghost(bx_result_fn()),
        )
    }

    /// Parses a book page.
    pub fn parse_book_info(&self, html: &str) -> (info: BookInfo)
        ensures
            info@ == bx_info(html@),
    {
        let a = select_text(html, "div.descTip span");
        let author = if contains_exec(a.as_str(), "作者") {
            proof {
                reveal_strlit("作者：");
                reveal_strlit("");
            }
            assert(""@ =~= Seq::<char>::empty());
            let b = replace_exec(a.as_str(), "作者：", "");
            trim_exec(b.as_str())
        } else {
            String::new()
        };
        let links = select_all(html, "div.catalog a[href]");
        let chapters = links_to_chapters(&links, self.base_url(), IdRule::SegmentStem);
        let mut volumes: Vec<Volume> = Vec::new();
        if chapters.len() > 0 {
            volumes.push(Volume { volume_name: owned("正文"), chapters });
        }
        let info = BookInfo {
            book_name: select_text(html, "div.desc h1"),
            author,
            summary: select_text(html, "div.descInfo"),
            cover_url: rooted_cover_exec(self.base_url(), select_attr(html, "div.cover img", "src")),
            serial_status: String::new(),
            update_time: String::new(),
            word_count: String::new(),
            volumes,
        };
        assert(info@.volumes =~= bx_info(html@).volumes);
        assert(info@.serial_status =~= Seq::<char>::empty());
        assert(info@.update_time =~= Seq::<char>::empty());
        assert(info@.word_count =~= Seq::<char>::empty());
        info
    }

    /// Parses a chapter page.
    pub fn parse_chapter(&self, html: &str, chapter_id: &str) -> (ch: Chapter)
        ensures
            ch@ == (ChapterView {
                id: chapter_id@,
                title: sel_text(html@, "div.article h1"@),
                content: sel_inner_text(html@, "#mycontent"@),
            }),
    {
        Chapter { id: owned(chapter_id), title: select_text(html, "div.article h1"), content: inner_text_exec(html, "#mycontent") }
    }
}

} // verus!
