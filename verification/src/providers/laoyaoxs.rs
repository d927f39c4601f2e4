//! 老幺小说 (laoyaoxs): search, a book page with a separate catalog, and
//! chapter pages whose fragments carry an order number.

use vstd::prelude::*;

use crate::html::{
    attr_or_empty, attr_or_empty_exec, attr_value, element_text, group_attr, group_attr_exec, group_text,
    group_text_exec, html_select, html_select_fields, html_select_in, meta, meta_content, node_attr, node_text,
    nodes_view, normalize_url, normalized_url, or_else, sel_attr, sel_text, select_all, select_attr, select_fields,
    select_in, select_text, strs_view, Node, NodeView,
};
use crate::markup::{clean_content, cleaned};
use crate::providers::common::{
    collect, collect_chapters, collect_results, first_key, id_by_rule, keyed_view, nonempty_texts_exec,
    opt_chapter_view, opt_result_view, paragraphs, results_view, sort_by_key, sort_keyed, take_at_most, url_encode,
    url_encoded, IdRule,
};
use crate::text::{
    before_first, before_first_exec, concat, join, join_exec, owned, parse_i64, parse_i64_exec, replace_all,
    replace_exec, starts_with, starts_with_exec, trim, trim_exec,
};
use crate::types::{
    BookInfo, BookInfoView, Chapter, ChapterInfo, ChapterInfoView, ChapterView, SearchResult, SearchResultView, Volume,
    VolumeView,
};

verus! {

/// The laoyaoxs site.
pub struct LaoyaoxsProvider;

/// Site address.
pub open spec fn ly_base() -> Seq<char> {
    "https://www.laoyaoxs.org"@
}

/// Selections made in each search row: the cover link, the title link, the
/// author and the latest chapter.
pub open spec fn ly_fields() -> Seq<Seq<char>> {
    seq!["a.book_cov"@, "div.book_inf h3 a"@, "p.tags span a"@, "p a"@]
}

/// A search row: the book link is the cover's, else the title's; rows
/// without one are skipped.
pub open spec fn ly_result(it: Seq<Seq<NodeView>>) -> Option<SearchResultView> {
    let href = or_else(group_attr(it, 0, "href"@), group_attr(it, 1, "href"@));
    if href.len() == 0 {
        None
    } else {
        Some(
            SearchResultView {
                site: "laoyaoxs"@,
                book_id: id_by_rule(IdRule::SegmentStem, href),
                title: group_attr(it, 1, "title"@),
                author: group_text(it, 2),
                latest_chapter: group_text(it, 3),
                update_date: Seq::empty(),
                word_count: Seq::empty(),
            },
        )
    }
}

/// [`ly_result`] as a function value.
pub open spec fn ly_result_fn() -> spec_fn(Seq<Seq<NodeView>>) -> Option<SearchResultView> {
    |it: Seq<Seq<NodeView>>| ly_result(it)
}

/// The results among the first `limit` rows of a search page.
pub open spec fn ly_results(html: Seq<char>, limit: nat) -> Seq<SearchResultView> {
    collect(take_at_most(html_select_fields(html, "div.result li"@, ly_fields()), limit), ly_result_fn())
}

/// A catalog link: titled by its trimmed `title` attribute, else by its
/// text; skipped when untitled; the id is what precedes the first `.`.
pub open spec fn ly_link(n: NodeView) -> Option<ChapterInfoView> {
    match attr_value(n.attrs, "href"@) {
        Some(h) => {
            let t = or_else(trim(attr_or_empty(n, "title"@)), node_text(n));
            if t.len() == 0 {
                None
            } else {
                Some(ChapterInfoView { title: t, chapter_id: before_first(h, "."@), url: normalized_url(ly_base(), h) })
            }
        },
        None => None,
    }
}

/// [`ly_link`] as a function value.
pub open spec fn ly_link_fn() -> spec_fn(NodeView) -> Option<ChapterInfoView> {
    |n: NodeView| ly_link(n)
}

/// The cover: the `og:image`, else the book image; `//` links get `https:`.
pub open spec fn ly_cover(info: Seq<char>) -> Seq<char> {
    let c = or_else(meta(info, "og:image"@), sel_attr(info, "a.bookimg img"@, "src"@));
    if starts_with(c, "//"@) {
        "https:"@ + c
    } else {
        c
    }
}

/// A laoyaoxs book: the book page gives the metadata, the catalog page one
/// volume `正文` of chapters, when there are any.
pub open spec fn ly_info(info: Seq<char>, catalog: Seq<char>) -> BookInfoView {
    let cs = collect(html_select(catalog, "div.read dl#newlist dd a:first-child"@), ly_link_fn());
    BookInfoView {
        book_name: or_else(meta(info, "og:novel:book_name"@), sel_text(info, "div.detail h1"@)),
        author: or_else(meta(info, "og:novel:author"@), sel_text(info, "div.detail p a"@)),
        summary: sel_text(info, "p.intro"@),
        cover_url: ly_cover(info),
        serial_status: Seq::empty(),
        update_time: replace_all(replace_all(meta(info, "og:novel:update_time"@), "\u{a0}"@, " "@), "\u{3000}"@, " "@),
        word_count: Seq::empty(),
        volumes: if cs.len() > 0 {
            seq![VolumeView { volume_name: "正文"@, chapters: cs }]
        } else {
            Seq::empty()
        },
    }
}

/// Selector of the content fragments.
pub open spec fn ly_frag_sel() -> Seq<char> {
    "div.main_content dd[data-id], div#txt dd[data-id]"@
}

/// The order number of a fragment: its trimmed `data-id` as a number, or -1.
pub open spec fn ly_order(dd: NodeView) -> i64 {
    match parse_i64(trim(attr_or_empty(dd, "data-id"@))) {
        Some(v) => v,
        None => -1i64,
    }
}

/// The fragments with a non-negative order number and some text, tagged
/// with that number; a fragment's text is its non-empty paragraphs.
pub open spec fn ly_frags(dds: Seq<NodeView>, ps: Seq<Seq<NodeView>>) -> Seq<(i64, Seq<char>)>
    decreases dds.len(),
{
    if dds.len() == 0 {
        Seq::empty()
    } else {
        let r = ly_frags(dds.drop_last(), ps);
        let k = dds.len() - 1;
        let t = paragraphs(if k < ps.len() { ps[k] } else { Seq::empty() });
        if ly_order(dds.last()) < 0 || t.len() == 0 {
            r
        } else {
            r.push((ly_order(dds.last()), t))
        }
    }
}

/// The text of a chapter page: the fragments stably sorted by order number,
/// joined with `\n`, cleaned.
pub open spec fn ly_content(html: Seq<char>) -> Seq<char> {
    let fs = ly_frags(html_select(html, ly_frag_sel()), html_select_in(html, ly_frag_sel(), "p"@));
    cleaned(join(sort_by_key(fs, first_key()).map_values(|p: (i64, Seq<char>)| p.1), "\n"@))
}

fn ly_result_exec(it: &Vec<Vec<Node>>) -> (r: Option<SearchResult>)
    ensures
        opt_result_view(r) == ly_result(crate::html::groups_view(it@)),
{
    let mut href = group_attr_exec(it, 0, "href");
    if href.as_str().is_empty() {
        href = group_attr_exec(it, 1, "href");
    }
    if href.as_str().is_empty() {
        return None;
    }
    let r = SearchResult {
        site: owned("laoyaoxs"),
        book_id: crate::providers::common::chapter_id_by_rule(IdRule::SegmentStem, href.as_str()),
        title: group_attr_exec(it, 1, "title"),
        author: group_text_exec(it, 2),
        latest_chapter: group_text_exec(it, 3),
        update_date: String::new(),
        word_count: String::new(),
    };
    assert(r@.update_date =~= Seq::<char>::empty());
    assert(r@.word_count =~= Seq::<char>::empty());
    Some(r)
}

fn ly_link_exec(n: &Node) -> (r: Option<ChapterInfo>)
    ensures
        opt_chapter_view(r) == ly_link(n@),
{
    match node_attr(n, "href") {
        Some(h) => {
            let a = attr_or_empty_exec(n, "title");
            let ta = trim_exec(a.as_str());
            let title = if ta.as_str().is_empty() {
                element_text(n)
            } else {
                ta
            };
            if title.as_str().is_empty() {
                return None;
            }
            Some(ChapterInfo {
                title,
                chapter_id: before_first_exec(h.as_str(), "."),
                url: normalize_url("https://www.laoyaoxs.org", h.as_str()),
            })
        },
        None => None,
    }
}

fn ly_order_exec(dd: &Node) -> (r: i64)
    ensures
        r == ly_order(dd@),
{
    let a = attr_or_empty_exec(dd, "data-id");
    let t = trim_exec(a.as_str());
    match parse_i64_exec(t.as_str()) {
        Some(v) => v,
        None => -1,
    }
}

impl LaoyaoxsProvider {
    /// The site's identifier.
    pub fn name(&self) -> (r: &'static str)
        ensures
            r@ == "laoyaoxs"@,
    {
        "laoyaoxs"
    }

    /// The site's display name, which is its identifier.
    pub fn display_name(&self) -> (r: &'static str)
        ensures
            r@ == "laoyaoxs"@,
    {
        self.name()
    }

    /// The site's address.
    pub fn base_url(&self) -> (r: &'static str)
        ensures
            r@ == ly_base(),
    {
        "https://www.laoyaoxs.org"
    }

    /// The site has a search.
    pub fn supports_search(&self) -> (r: bool)
        ensures
            r,
    {
        true
    }

    /// The search page: `{base}/search.php?key={keyword}`.
    pub fn search_url(&self, keyword: &str) -> (r: String)
        ensures
            r@ == "https://www.laoyaoxs.org/search.php?key="@ + url_encoded(keyword@),
    {
        let k = url_encode(keyword);
        concat("https://www.laoyaoxs.org/search.php?key=", k.as_str())
    }

    /// The book page: `{base}/info/{id}.html`.
    pub fn info_url(&self, book_id: &str) -> (r: String)
        ensures
            r@ == ly_base() + "/info/"@ + book_id@ + ".html"@,
    {
        concat(concat(concat(self.base_url(), "/info/").as_str(), book_id).as_str(), ".html")
    }

    /// The catalog page: `{base}/list/{id}/`.
    pub fn catalog_url(&self, book_id: &str) -> (r: String)
        ensures
            r@ == ly_base() + "/list/"@ + book_id@ + "/"@,
    {
        concat(concat(concat(self.base_url(), "/list/").as_str(), book_id).as_str(), "/")
    }

    /// A chapter page: `{base}/list/{book}/{chapter}.html`.
    pub fn chapter_url(&self, book_id: &str, chapter_id: &str) -> (r: String)
        ensures
            r@ == ly_base() + "/list/"@ + book_id@ + "/"@ + chapter_id@ + ".html"@,
    {
        let a = concat(concat(concat(self.base_url(), "/list/").as_str(), book_id).as_str(), "/");
        concat(concat(a.as_str(), chapter_id).as_str(), ".html")
    }

    /// The results among the first `limit` rows of a search page.
    pub fn parse_search(&self, html: &str, limit: usize) -> (r: Vec<SearchResult>)
        ensures
            results_view(r@) == ly_results(html@, limit as nat),
    {
        let fields: Vec<&str> = vec!["a.book_cov", "div.book_inf h3 a", "p.tags span a", "p a"];
        assert(strs_view(fields@) =~= ly_fields());
        let items = select_fields(html, "div.result li", &fields);
        collect_results(
            &items,
            limit,
            (|it: &Vec<Vec<Node>>| -> (r: Option<SearchResult>)
                ensures
                    opt_result_view(r) == ly_result(crate::html::groups_view(it@)),
                { ly_result_exec(it) }),
            Ghost(ly_result_fn()),
        )
    }

    /// A book from its book page and its catalog page.
    pub fn parse_book_info(&self, info_html: &str, catalog: &str) -> (info: BookInfo)
        ensures
            info@ == ly_info(info_html@, catalog@),
    {
        let mut book_name = meta_content(info_html, "og:novel:book_name");
        if book_name.as_str().is_empty() {
            book_name = select_text(info_html, "div.detail h1");
        }
        let mut author = meta_content(info_html, "og:novel:author");
        if author.as_str().is_empty() {
            author = select_text(info_html, "div.detail p a");
        }
        let mut cover = meta_content(info_html, "og:image");
        if cover.as_str().is_empty() {
            cover = select_attr(info_html, "a.bookimg img", "src");
        }
        if starts_with_exec(cover.as_str(), "//") {
            cover = concat("https:", cover.as_str());
        }
        proof {
            reveal_strlit("\u{a0}");
            reveal_strlit("\u{3000}");
        }
        let u = meta_content(info_html, "og:novel:update_time");
        let u1 = replace_exec(u.as_str(), "\u{a0}", " ");
        let links = select_all(catalog, "div.read dl#newlist dd a:first-child");
        let chapters = collect_chapters(
            &links,
            (|n: &Node| -> (r: Option<ChapterInfo>)
                ensures
                    opt_chapter_view(r) == ly_link(n@),
                { ly_link_exec(n) }),
            Ghost(ly_link_fn()),
        );
        let mut volumes: Vec<Volume> = Vec::new();
        if chapters.len() > 0 {
            volumes.push(Volume { volume_name: owned("正文"), chapters });
        }
        assert(volumes@.map_values(|v: Volume| v@) =~= ly_info(info_html@, catalog@).volumes);
        let info = BookInfo {
            book_name,
            author,
            summary: select_text(info_html, "p.intro"),
            cover_url: cover,
            serial_status: String::new(),
            update_time: replace_exec(u1.as_str(), "\u{3000}", " "),
            word_count: String::new(),
            volumes,
        };
        assert(info@.serial_status =~= Seq::<char>::empty());
        assert(info@.word_count =~= Seq::<char>::empty());
        info
    }

    /// The text of a chapter page.
    pub fn parse_content(html: &str) -> (r: String)
        ensures
            r@ == ly_content(html@),
    {
        let sel = "div.main_content dd[data-id], div#txt dd[data-id]";
        let dds = select_all(html, sel);
        let ps = select_in(html, sel, "p");
        let ghost dv = nodes_view(dds@);
        let ghost pv = ps@.map_values(|v: Vec<Node>| nodes_view(v@));
        let mut frags: Vec<(i64, String)> = Vec::new();
        let empty: Vec<Node> = Vec::new();
        let mut i: usize = 0;
        while i < dds.len()
            invariant
                i <= dds.len(),
                dv == nodes_view(dds@),
                pv == ps@.map_values(|v: Vec<Node>| nodes_view(v@)),
                empty@.len() == 0,
                keyed_view(frags@) == ly_frags(dv.take(i as int), pv),
            decreases dds.len() - i,
        {
            assert(dv.take(i + 1).drop_last() =~= dv.take(i as int));
            assert(dv.take(i + 1).last() == dds@[i as int]@);
            let o = ly_order_exec(&dds[i]);
            let inner: &Vec<Node> = if i < ps.len() {
                &ps[i]
            } else {
                &empty
            };
            assert(nodes_view(inner@) =~= (if i < pv.len() {
                pv[i as int]
            } else {
                Seq::empty()
            }));
            let texts = nonempty_texts_exec(inner);
            let t = join_exec(&texts, "\n");
            if o >= 0 && !t.as_str().is_empty() {
                let ghost f0 = frags@;
                frags.push((o, t));
                assert(keyed_view(frags@) =~= keyed_view(f0).push((o, frags@.last().1@)));
            }
            i += 1;
        }
        assert(dv.take(i as int) =~= dv);
        let sorted = sort_keyed(frags);
        let mut texts: Vec<String> = Vec::new();
        let mut j: usize = 0;
        while j < sorted.len()
            invariant
                j <= sorted.len(),
                texts@.map_values(|s: String| s@) == keyed_view(sorted@).take(j as int).map_values(
                    |p: (i64, Seq<char>)| p.1,
                ),
            decreases sorted.len() - j,
        {
            let ghost t0 = texts@;
            texts.push(owned(sorted[j].1.as_str()));
            assert(keyed_view(sorted@).take(j + 1).map_values(|p: (i64, Seq<char>)| p.1) =~= keyed_view(sorted@).take(
                j as int,
            ).map_values(|p: (i64, Seq<char>)| p.1).push(sorted@[j as int].1@));
            assert(texts@.map_values(|s: String| s@) =~= t0.map_values(|s: String| s@).push(texts@.last()@));
            j += 1;
        }
        assert(keyed_view(sorted@).take(j as int) =~= keyed_view(sorted@));
        let joined = join_exec(&texts, "\n");
        clean_content(joined.as_str())
    }

    /// Parses a chapter page.
    pub fn parse_chapter(&self, html: &str, chapter_id: &str) -> (ch: Chapter)
        ensures
            ch@ == (ChapterView {
                id: chapter_id@,
                title: or_else(sel_text(html@, "div#chapter-name h2"@), sel_text(html@, "h2"@)),
                content: ly_content(html@),
            }),
    {
        let mut title = select_text(html, "div#chapter-name h2");
        if title.as_str().is_empty() {
            title = select_text(html, "h2");
        }
        Chapter { id: owned(chapter_id), title, content: Self::parse_content(html) }
    }
}

} // verus!
