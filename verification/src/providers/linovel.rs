//! 轻之文库 (linovel): search, book pages with volume sections, chapter
//! pages whose image paragraphs are skipped.

use vstd::prelude::*;

use crate::html::{
    attr_or_empty, attr_or_empty_exec, element_text, group_text, group_text_exec, html_select, html_select_fields,
    meta, meta_content, node_text, nodes_view, normalize_url, normalized_url, or_else, sel_attr, sel_text,
    select_all, select_attr, select_fields, select_text, strs_view, Node, NodeView,
};
use crate::providers::common::{
    after_first, after_first_exec, collect, collect_chapters, id_by_rule, item_nodes, items_view, opt_chapter_view,
    take_at_most, url_encode, url_encoded, IdRule,
};
use crate::text::{
    before_first, before_first_exec, concat, contains, contains_exec, join, join_exec, owned, replace_all,
    replace_exec, starts_with, starts_with_exec, trim, trim_exec,
};
use crate::types::{BookInfo, BookInfoView, Chapter, ChapterInfo, ChapterInfoView, ChapterView, SearchResult, SearchResultView, Volume, VolumeView};

verus! {

/// The linovel site.
pub struct LinovelProvider;

/// Site address.
pub open spec fn lv2_base() -> Seq<char> {
    "https://www.linovel.net"@
}

/// The author and the date of a result's extra line, split at `丨`.
pub open spec fn lv2_extra(x: Seq<char>) -> (Seq<char>, Seq<char>) {
    if contains(x, "丨"@) {
        (
            trim(before_first(x, "丨"@)),
            match after_first(x, "丨"@) {
                Some(r) => trim(r),
                None => Seq::empty(),
            },
        )
    } else {
        (trim(x), Seq::empty())
    }
}

/// The search results among the first `n` book links; links that do not
/// point at a book are skipped.
pub open spec fn lv2_results_upto(links: Seq<NodeView>, items: Seq<Seq<Seq<NodeView>>>, n: int) -> Seq<SearchResultView>
    decreases n,
{
    if n <= 0 {
        Seq::empty()
    } else {
        let rest = lv2_results_upto(links, items, n - 1);
        let k = n - 1;
        let it = if k < items.len() {
            items[k]
        } else {
            Seq::empty()
        };
        let href = attr_or_empty(links[k], "href"@);
        if href.len() == 0 || !contains(href, "book/"@) {
            rest
        } else {
            let ex = lv2_extra(group_text(it, 1));
            rest.push(
                SearchResultView {
                    site: "linovel"@,
                    book_id: id_by_rule(IdRule::SegmentStem, href),
                    title: group_text(it, 0),
                    author: ex.0,
                    latest_chapter: Seq::empty(),
                    update_date: ex.1,
                    word_count: Seq::empty(),
                },
            )
        }
    }
}

/// The search results among the first `limit` book links of a search page.
pub open spec fn lv2_results(html: Seq<char>, limit: nat) -> Seq<SearchResultView> {
    let links = html_select(html, "a.search-book[href]"@);
    lv2_results_upto(
        links,
        html_select_fields(html, "a.search-book[href]"@, seq!["div.book-name"@, "div.book-extra"@]),
        if limit < links.len() {
            limit as int
        } else {
            links.len() as int
        },
    )
}

/// A chapter link of a section: its trimmed `href`, unless empty or a
/// script.
pub open spec fn lv2_link(n: NodeView) -> Option<ChapterInfoView> {
    let u = trim(attr_or_empty(n, "href"@));
    if u.len() == 0 || starts_with(u, "javascript:"@) {
        None
    } else {
        Some(ChapterInfoView { title: node_text(n), chapter_id: id_by_rule(IdRule::SegmentStem, u), url: normalized_url(lv2_base(), u) })
    }
}

/// [`lv2_link`] as a function value.
pub open spec fn lv2_link_fn() -> spec_fn(NodeView) -> Option<ChapterInfoView> {
    |n: NodeView| lv2_link(n)
}

/// The volume sections, each kept even without chapters.
pub open spec fn lv2_volumes(items: Seq<Seq<Seq<NodeView>>>) -> Seq<VolumeView>
    decreases items.len(),
{
    if items.len() == 0 {
        Seq::empty()
    } else {
        lv2_volumes(items.drop_last()).push(
            VolumeView {
                volume_name: group_text(items.last(), 0),
                chapters: collect(item_nodes(items.last(), 1), lv2_link_fn()),
            },
        )
    }
}

/// Selectors of a section: its title and its chapter links.
pub open spec fn lv2_sec_fields() -> Seq<Seq<char>> {
    seq!["h2.volume-title"@, "div.chapter-list a[href]"@]
}

/// A linovel book page.
pub open spec fn lv2_info(html: Seq<char>) -> BookInfoView {
    BookInfoView {
        book_name: or_else(meta(html, "og:title"@), sel_text(html, "h1.book-title"@)),
        author: sel_text(html, "div.sidebar div.novelist div.name a"@),
        summary: replace_all(sel_text(html, "div.section.introduction div.about-text"@), "\u{a0}"@, " "@),
        cover_url: or_else(
            meta(html, "og:image"@),
            or_else(sel_attr(html, "div.book-cover img"@, "src"@), sel_attr(html, "div.book-cover a"@, "href"@)),
        ),
        serial_status: Seq::empty(),
        update_time: trim(replace_all(replace_all(sel_text(html, "div.book-last-update"@), "更新于"@, Seq::empty()), "\u{a0}"@, " "@)),
        word_count: Seq::empty(),
        volumes: lv2_volumes(html_select_fields(html, "div.section-list div.section[data-index-name]"@, lv2_sec_fields())),
    }
}

/// The text paragraphs of a chapter: image paragraphs skipped, no-break
/// spaces made plain, empty ones dropped.
pub open spec fn lv2_paras(ps: Seq<NodeView>) -> Seq<Seq<char>>
    decreases ps.len(),
{
    if ps.len() == 0 {
        Seq::empty()
    } else {
        let rest = lv2_paras(ps.drop_last());
        let p = ps.last();
        let t = replace_all(node_text(p), "\u{a0}"@, " "@);
        if contains(attr_or_empty(p, "class"@), "l-image"@) || t.len() == 0 {
            rest
        } else {
            rest.push(t)
        }
    }
}

fn lv2_link_exec(n: &Node) -> (r: Option<ChapterInfo>)
    ensures
        opt_chapter_view(r) == lv2_link(n@),
{
    let h = attr_or_empty_exec(n, "href");
    let u = trim_exec(h.as_str());
    if u.as_str().is_empty() || starts_with_exec(u.as_str(), "javascript:") {
        return None;
    }
    Some(ChapterInfo {
        title: element_text(n),
        chapter_id: crate::providers::common::chapter_id_by_rule(IdRule::SegmentStem, u.as_str()),
        url: normalize_url("https://www.linovel.net", u.as_str()),
    })
}

impl LinovelProvider {
    /// The site's identifier.
    pub fn name(&self) -> (r: &'static str)
        ensures
            r@ == "linovel"@,
    {
        "linovel"
    }

    /// The site's display name.
    pub fn display_name(&self) -> (r: &'static str)
        ensures
            r@ == "轻之文库"@,
    {
        "轻之文库"
    }

    /// The site's address.
    pub fn base_url(&self) -> (r: &'static str)
        ensures
            r@ == lv2_base(),
    {
        "https://www.linovel.net"
    }

    /// The site has a search.
    pub fn supports_search(&self) -> (r: bool)
        ensures
            r,
    {
        true
    }

    /// The search page: `{base}/search/?kw={keyword}`.
    pub fn search_url(&self, keyword: &str) -> (r: String)
        ensures
            r@ == lv2_base() + "/search/?kw="@ + url_encoded(keyword@),
    {
        let k = url_encode(keyword);
        concat(concat(self.base_url(), "/search/?kw=").as_str(), k.as_str())
    }

    /// The book page: `{base}/book/{id}.html`.
    pub fn book_url(&self, book_id: &str) -> (r: String)
        ensures
            r@ == lv2_base() + "/book/"@ + book_id@ + ".html"@,
    {
        concat(concat(concat(self.base_url(), "/book/").as_str(), book_id).as_str(), ".html")
    }

    /// A chapter page: `{base}/book/{book}/{chapter}.html`.
    pub fn chapter_url(&self, book_id: &str, chapter_id: &str) -> (r: String)
        ensures
            r@ == lv2_base() + "/book/"@ + book_id@ + "/"@ + chapter_id@ + ".html"@,
    {
        let a = concat(concat(concat(self.base_url(), "/book/").as_str(), book_id).as_str(), "/");
        concat(concat(a.as_str(), chapter_id).as_str(), ".html")
    }

    /// The results among the first `limit` book links of a search page.
    pub fn parse_search(&self, html: &str, limit: usize) -> (r: Vec<SearchResult>)
        ensures
            r@.map_values(|x: SearchResult| x@) == lv2_results(html@, limit as nat),
    {
        let sel = "a.search-book[href]";
        let links = select_all(html, sel);
        let fields: Vec<&str> = vec!["div.book-name", "div.book-extra"];
        assert(strs_view(fields@) =~= seq!["div.book-name"@, "div.book-extra"@]);
        let items = select_fields(html, sel, &fields);
        let ghost lv = nodes_view(links@);
        let ghost iv = items_view(items@);
        assert(iv =~= items@.map_values(|item: Vec<Vec<Node>>| crate::html::groups_view(item@)));
        let n = if limit < links.len() {
            limit
        } else {
            links.len()
        };
        let empty: Vec<Vec<Node>> = Vec::new();
        let mut out: Vec<SearchResult> = Vec::new();
        let mut k: usize = 0;
        while k < n
            invariant
                k <= n <= links.len(),
                lv == nodes_view(links@),
                iv == items_view(items@),
                empty@.len() == 0,
                out@.map_values(|x: SearchResult| x@) == lv2_results_upto(lv, iv, k as int),
            decreases n - k,
        {
            assert(lv[k as int] == links@[k as int]@);
            let href = attr_or_empty_exec(&links[k], "href");
            if !href.as_str().is_empty() && contains_exec(href.as_str(), "book/") {
                let it: &Vec<Vec<Node>> = if k < items.len() {
                    &items[k]
                } else {
                    &empty
                };
                assert(crate::html::groups_view(it@) =~= (if k < iv.len() {
                    iv[k as int]
                } else {
                    Seq::empty()
                }));
                let x = group_text_exec(it, 1);
                let (author, update_date) = if contains_exec(x.as_str(), "丨") {
                    let a = before_first_exec(x.as_str(), "丨");
                    let d = match after_first_exec(x.as_str(), "丨") {
                        Some(r) => trim_exec(r.as_str()),
                        None => String::new(),
                    };
                    (trim_exec(a.as_str()), d)
                } else {
                    (trim_exec(x.as_str()), String::new())
                };
                let r = SearchResult {
                    site: owned("linovel"),
                    book_id: crate::providers::common::chapter_id_by_rule(IdRule::SegmentStem, href.as_str()),
                    title: group_text_exec(it, 0),
                    author,
                    latest_chapter: String::new(),
                    update_date,
                    word_count: String::new(),
                };
                let ghost o0 = out@;
                out.push(r);
                assert(out@.map_values(|x: SearchResult| x@) =~= o0.map_values(|x: SearchResult| x@).push(out@.last()@));
            }
            k += 1;
        }
        out
    }

    /// Parses a book page.
    pub fn parse_book_info(&self, html: &str) -> (info: BookInfo)
        ensures
            info@ == lv2_info(html@),
    {
        let mut book_name = meta_content(html, "og:title");
        if book_name.as_str().is_empty() {
            book_name = select_text(html, "h1.book-title");
        }
        let mut cover_url = meta_content(html, "og:image");
        if cover_url.as_str().is_empty() {
            let v = select_attr(html, "div.book-cover img", "src");
            if v.as_str().is_empty() {
                cover_url = select_attr(html, "div.book-cover a", "href");
            } else {
                cover_url = v;
            }
        }
        proof {
            reveal_strlit("更新于");
            reveal_strlit("\u{a0}");
            reveal_strlit("");
        }
        assert(""@ =~= Seq::<char>::empty());
        let u = select_text(html, "div.book-last-update");
        let u1 = replace_exec(u.as_str(), "更新于", "");
        let u2 = replace_exec(u1.as_str(), "\u{a0}", " ");
        let s = select_text(html, "div.section.introduction div.about-text");
        let fields: Vec<&str> = vec!["h2.volume-title", "div.chapter-list a[href]"];
        assert(strs_view(fields@) =~= lv2_sec_fields());
        let items = select_fields(html, "div.section-list div.section[data-index-name]", &fields);
        let ghost iv = items_view(items@);
        assert(iv =~= items@.map_values(|item: Vec<Vec<Node>>| crate::html::groups_view(item@)));
        let mut volumes: Vec<Volume> = Vec::new();
        let mut i: usize = 0;
        while i < items.len()
            invariant
                i <= items.len(),
                iv == items_view(items@),
                volumes@.map_values(|v: Volume| v@) == lv2_volumes(iv.take(i as int)),
            decreases items.len() - i,
        {
            assert(iv.take(i + 1).drop_last() =~= iv.take(i as int));
            assert(iv.take(i + 1).last() == crate::html::groups_view(items@[i as int]@));
            let item = &items[i];
            let empty: Vec<Node> = Vec::new();
            let links: &Vec<Node> = if 1 < item.len() {
                &item[1]
            } else {
                &empty
            };
            assert(nodes_view(links@) =~= item_nodes(crate::html::groups_view(item@), 1));
            let chapters = collect_chapters(
                links,
                (|n: &Node| -> (r: Option<ChapterInfo>)
                    ensures
                        opt_chapter_view(r) == lv2_link(n@),
                    { lv2_link_exec(n) }),
                Ghost(lv2_link_fn()),
            );
            let ghost o0 = volumes@;
            volumes.push(Volume { volume_name: group_text_exec(item, 0), chapters });
            assert(volumes@.map_values(|v: Volume| v@) =~= o0.map_values(|v: Volume| v@).push(volumes@.last()@));
            i += 1;
        }
        assert(iv.take(i as int) =~= iv);
        let info = BookInfo {
            book_name,
            author: select_text(html, "div.sidebar div.novelist div.name a"),
            summary: replace_exec(s.as_str(), "\u{a0}", " "),
            cover_url,
            serial_status: String::new(),
            update_time: trim_exec(u2.as_str()),
            word_count: String::new(),
            volumes,
        };
        assert(info@.serial_status =~= Seq::<char>::empty());
        assert(info@.word_count =~= Seq::<char>::empty());
        info
    }

    /// Parses a chapter page.
    pub fn parse_chapter(&self, html: &str, chapter_id: &str) -> (ch: Chapter)
        ensures
            ch@ == (ChapterView {
                id: chapter_id@,
                title: sel_text(html@, "div.article-title"@),
                content: join(lv2_paras(html_select(html@, "div.article-text p.l"@)), "\n"@),
            }),
    {
        let ps = select_all(html, "div.article-text p.l");
        let ghost pv = nodes_view(ps@);
        let mut out: Vec<String> = Vec::new();
        let mut i: usize = 0;
        while i < ps.len()
            invariant
                i <= ps.len(),
                pv == nodes_view(ps@),
                out@.map_values(|s: String| s@) == lv2_paras(pv.take(i as int)),
            decreases ps.len() - i,
        {
            assert(pv.take(i + 1).drop_last() =~= pv.take(i as int));
            assert(pv.take(i + 1).last() == ps@[i as int]@);
            let cls = attr_or_empty_exec(&ps[i], "class");
            let t0 = element_text(&ps[i]);
            proof {
                reveal_strlit("\u{a0}");
            }
            let t = replace_exec(t0.as_str(), "\u{a0}", " ");
            if !contains_exec(cls.as_str(), "l-image") && !t.as_str().is_empty() {
                let ghost o0 = out@;
                out.push(t);
                assert(out@.map_values(|s: String| s@) =~= o0.map_values(|s: String| s@).push(out@.last()@));
            }
            i += 1;
        }
        assert(pv.take(i as int) =~= pv);
        Chapter { id: owned(chapter_id), title: select_text(html, "div.article-title"), content: join_exec(&out, "\n") }
    }
}

} // verus!
