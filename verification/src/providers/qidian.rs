//! 起点中文网 (qidian): search, book pages with a full catalog, and free
//! chapters, read from the page's server-rendered JSON when it is there.
//! Encrypted (subscriber) chapters are recognised and not decoded.

use vstd::prelude::*;

use crate::html::{
    attr_or_empty, attr_or_empty_exec, element_text, group_text, group_text_exec, html_select, html_select_fields,
    meta, meta_content, node_text, nodes_view, or_else, sel_text, select_all, select_fields, select_text, strs_view,
    Node, NodeView,
};
use crate::json::{at_path, at_path_exec, get, jget, json_parsed, ostr, parse_json, Json};
use crate::markup::{html_to_text, spec_html_to_text, strip_html, strip_tags};
use crate::providers::ciyuanji::int_or_zero;
use crate::providers::common::{
    chapters_view, collect, collect_chapters, cut_before, cut_before_exec, first_inner, first_inner_exec,
    id_by_rule, item_nodes, items_view, opt_chapter_view, split_by, split_exec, url_encode, url_encoded, IdRule,
};
use crate::text::{
    chars_of, concat, find_from, first_occurrence_from, join, join_exec, owned, replace_all, replace_exec,
    string_of, sub_chars, trim, trim_exec,
};
use crate::types::{
    BookInfo, BookInfoView, Chapter, ChapterInfo, ChapterInfoView, ChapterView, SearchResult, SearchResultView,
    Volume, VolumeView,
};

verus! {

/// The qidian site.
pub struct QidianProvider;

/// Site address.
pub open spec fn qd_base() -> Seq<char> {
    "https://www.qidian.com"@
}

/// Selector of the search results.
pub open spec fn qd_row_sel() -> Seq<char> {
    "div#result-list li.res-book-item"@
}

/// What is read of each search result: title, author, latest chapter, its
/// date, word count.
pub open spec fn qd_fields() -> Seq<Seq<char>> {
    seq!["h3 a"@, "p.author a.name, p.author i"@, "p.update a"@, "p.update span"@, "div.book-right-info div.total p span"@]
}

/// The search results among the first `n` rows; rows without a book id are
/// skipped.
pub open spec fn qd_results_upto(rows: Seq<NodeView>, items: Seq<Seq<Seq<NodeView>>>, n: int) -> Seq<SearchResultView>
    decreases n,
{
    if n <= 0 {
        Seq::empty()
    } else {
        let rest = qd_results_upto(rows, items, n - 1);
        let k = n - 1;
        let bid = attr_or_empty(rows[k], "data-bid"@);
        let it = if k < items.len() {
            items[k]
        } else {
            Seq::empty()
        };
        if bid.len() == 0 {
            rest
        } else {
            rest.push(
                SearchResultView {
                    site: "qidian"@,
                    book_id: bid,
                    title: group_text(it, 0),
                    author: group_text(it, 1),
                    latest_chapter: group_text(it, 2),
                    update_date: group_text(it, 3),
                    word_count: group_text(it, 4),
                },
            )
        }
    }
}

/// The search results of a search page among its first `limit` rows.
pub open spec fn qd_results(html: Seq<char>, limit: nat) -> Seq<SearchResultView> {
    let rows = html_select(html, qd_row_sel());
    qd_results_upto(
        rows,
        html_select_fields(html, qd_row_sel(), qd_fields()),
        if limit < rows.len() {
            limit as int
        } else {
            rows.len() as int
        },
    )
}

/// A chapter page: `{base}/chapter/{book}/{chapter}/`.
pub open spec fn qd_chapter_url(book_id: Seq<char>, chapter_id: Seq<char>) -> Seq<char> {
    qd_base() + "/chapter/"@ + book_id + "/"@ + chapter_id + "/"@
}

/// A catalog link: its text and the last segment of its `href`, both
/// non-empty.
pub open spec fn qd_link(book_id: Seq<char>, n: NodeView) -> Option<ChapterInfoView> {
    let title = node_text(n);
    let id = id_by_rule(IdRule::TrimmedSegment, attr_or_empty(n, "href"@));
    if title.len() == 0 || id.len() == 0 {
        None
    } else {
        Some(ChapterInfoView { title, chapter_id: id, url: qd_chapter_url(book_id, id) })
    }
}

/// [`qd_link`] as a function value.
pub open spec fn qd_link_fn(book_id: Seq<char>) -> spec_fn(NodeView) -> Option<ChapterInfoView> {
    |n: NodeView| qd_link(book_id, n)
}

/// The catalog's volumes: named by their heading up to a middle dot, with
/// their chapter links; empty ones dropped.
pub open spec fn qd_volumes(items: Seq<Seq<Seq<NodeView>>>, book_id: Seq<char>) -> Seq<VolumeView>
    decreases items.len(),
{
    if items.len() == 0 {
        Seq::empty()
    } else {
        let rest = qd_volumes(items.drop_last(), book_id);
        let chapters = collect(item_nodes(items.last(), 1), qd_link_fn(book_id));
        if chapters.len() > 0 {
            rest.push(VolumeView { volume_name: cut_before(group_text(items.last(), 0), "\u{b7}"@), chapters })
        } else {
            rest
        }
    }
}

/// Selector of the catalog volumes.
pub open spec fn qd_vol_sel() -> Seq<char> {
    "div#allCatalog div.catalog-volume"@
}

/// A qidian book page.
pub open spec fn qd_info(html: Seq<char>, book_id: Seq<char>) -> BookInfoView {
    BookInfoView {
        book_name: or_else(or_else(sel_text(html, "h1#bookName"@), meta(html, "og:novel:book_name"@)), meta(html, "og:title"@)),
        author: or_else(sel_text(html, "a.writer-name"@), meta(html, "og:novel:author"@)),
        summary: or_else(
            or_else(sel_text(html, "p#book-intro-detail"@), sel_text(html, "p.intro"@)),
            meta(html, "og:description"@),
        ),
        cover_url: "https://bookcover.yuewen.com/qdbimg/349573/"@ + book_id + "/600.webp"@,
        serial_status: or_else(sel_text(html, "p.book-attribute span"@), meta(html, "og:novel:status"@)),
        update_time: or_else(
            trim(replace_all(sel_text(html, "span.update-time"@), "更新时间:"@, Seq::empty())),
            meta(html, "og:novel:update_time"@),
        ),
        word_count: sel_text(html, "p.count em"@),
        volumes: qd_volumes(
            html_select_fields(html, qd_vol_sel(), seq!["h3.volume-name"@, "ul.volume-chapters li a.chapter-name"@]),
            book_id,
        ),
    }
}

/// Common character entities decoded: `&amp;`, `&lt;`, `&gt;`, `&quot;`,
/// `&#39;`, `&nbsp;`, in that order.
pub open spec fn escape_decoded(s: Seq<char>) -> Seq<char> {
    replace_all(
        replace_all(
            replace_all(
                replace_all(replace_all(replace_all(s, "&amp;"@, "&"@), "&lt;"@, "<"@), "&gt;"@, ">"@),
                "&quot;"@,
                "\""@,
            ),
            "&#39;"@,
            "'"@,
        ),
        "&nbsp;"@,
        " "@,
    )
}

/// The JSON text of the page's server-rendered context: between the `>`
/// after the marker attribute and the next `</script>`, trimmed.
pub open spec fn qd_ssr_text(html: Seq<char>) -> Option<Seq<char>> {
    match first_occurrence_from(html, "id=\"vite-plugin-ssr_pageContext\""@, 0) {
        Some(st) => {
            let rest = html.skip(st);
            match first_occurrence_from(rest, ">"@, 0) {
                Some(gt) => {
                    let after = rest.skip(gt + 1);
                    match first_occurrence_from(after, "</script>"@, 0) {
                        Some(end) => Some(trim(after.take(end))),
                        None => None,
                    }
                },
                None => None,
            }
        },
        None => None,
    }
}

/// The path of the chapter data inside the context.
pub open spec fn qd_ci_path() -> Seq<Seq<char>> {
    seq!["pageContext"@, "pageProps"@, "pageData"@, "chapterInfo"@]
}

/// The chapter data of the page's server-rendered context, if any.
pub open spec fn qd_chapter_info(html: Seq<char>) -> Option<Json> {
    match qd_ssr_text(html) {
        Some(t) => match json_parsed(t) {
            Some(j) => at_path(Some(j), qd_ci_path()),
            None => None,
        },
        None => None,
    }
}

/// The paragraphs of a chapter's HTML, split at `<p>`: each piece without
/// `</p>`, tags and entities, trimmed; empty ones dropped.
pub open spec fn qd_paras(parts: Seq<Seq<char>>) -> Seq<Seq<char>>
    decreases parts.len(),
{
    if parts.len() == 0 {
        Seq::empty()
    } else {
        let rest = qd_paras(parts.drop_last());
        let cleaned = trim(replace_all(parts.last(), "</p>"@, Seq::empty()));
        let u = trim(escape_decoded(strip_tags(cleaned)));
        if cleaned.len() > 0 && u.len() > 0 {
            rest.push(u)
        } else {
            rest
        }
    }
}

/// Selectors tried for the chapter text of a page without context data.
pub open spec fn qd_body_sels() -> Seq<Seq<char>> {
    seq!["#chapter-content"@, "#content"@, "article"@, ".read-content"@]
}

/// A qidian chapter page.
pub open spec fn qd_chapter(html: Seq<char>, chapter_id: Seq<char>) -> ChapterView {
    match qd_chapter_info(html) {
        Some(ci) => {
            let title = match ostr(jget(ci, "chapterName"@)) {
                Some(s) => s,
                None => "Untitled"@,
            };
            let vip = int_or_zero(jget(ci, "vipStatus"@)) == 1 && int_or_zero(jget(ci, "isBuy"@)) == 0;
            ChapterView {
                id: chapter_id,
                title,
                content: if vip {
                    "[VIP章节，需要订阅]"@
                } else {
                    join(
                        qd_paras(
                            split_by(
                                crate::json::str_or_empty(jget(ci, "content"@)),
                                "<p>"@,
                            ),
                        ),
                        "\n"@,
                    )
                },
            }
        },
        None => ChapterView {
            id: chapter_id,
            title: sel_text(html, "h1"@),
            content: spec_html_to_text(first_inner(html, qd_body_sels())),
        },
    }
}

// ─── executable ────────────────────────────────────────────────────────────

/// Common character entities decoded (see [`escape_decoded`]).
pub fn html_escape_decode(s: &str) -> (r: String)
    ensures
        r@ == escape_decoded(s@),
{
    proof {
        reveal_strlit("&amp;");
        reveal_strlit("&lt;");
        reveal_strlit("&gt;");
        reveal_strlit("&quot;");
        reveal_strlit("&#39;");
        reveal_strlit("&nbsp;");
    }
    let a = replace_exec(s, "&amp;", "&");
    let b = replace_exec(a.as_str(), "&lt;", "<");
    let c = replace_exec(b.as_str(), "&gt;", ">");
    let d = replace_exec(c.as_str(), "&quot;", "\"");
    let e = replace_exec(d.as_str(), "&#39;", "'");
    replace_exec(e.as_str(), "&nbsp;", " ")
}

/// The JSON text of the page's server-rendered context.
pub fn ssr_text(html: &str) -> (r: Option<String>)
    ensures
        crate::html::opt_str_view(r) == qd_ssr_text(html@),
{
    let v = chars_of(html);
    let marker = chars_of("id=\"vite-plugin-ssr_pageContext\"");
    let gt_c = chars_of(">");
    let end_c = chars_of("</script>");
    match find_from(&v, &marker, 0) {
        Some(st) => {
            proof {
                crate::text::lemma_first_occurrence_bounds(v@, marker@, 0);
            }
            let rest = sub_chars(&v, st, v.len());
            assert(rest@ =~= v@.skip(st as int));
            match find_from(&rest, &gt_c, 0) {
                Some(gt) => {
                    proof {
                        crate::text::lemma_first_occurrence_bounds(rest@, gt_c@, 0);
                        reveal_strlit(">");
                    }
                    assert(gt < rest.len());
                    let after = sub_chars(&rest, gt + 1, rest.len());
                    assert(after@ =~= rest@.skip(gt + 1));
                    match find_from(&after, &end_c, 0) {
                        Some(end) => {
                            proof {
                                crate::text::lemma_first_occurrence_bounds(after@, end_c@, 0);
                            }
                            let t = sub_chars(&after, 0, end);
                            assert(t@ =~= after@.take(end as int));
                            let ts = string_of(t.as_slice());
                            Some(trim_exec(ts.as_str()))
                        },
                        None => None,
                    }
                },
                None => None,
            }
        },
        None => None,
    }
}

fn qd_link_exec(book_id: &str, n: &Node) -> (r: Option<ChapterInfo>)
    ensures
        opt_chapter_view(r) == qd_link(book_id@, n@),
{
    let title = element_text(n);
    let href = attr_or_empty_exec(n, "href");
    let id = crate::providers::common::chapter_id_by_rule(IdRule::TrimmedSegment, href.as_str());
    if title.as_str().is_empty() || id.as_str().is_empty() {
        None
    } else {
        let url = QidianProvider::chapter_url_of(book_id, id.as_str());
        Some(ChapterInfo { title, chapter_id: id, url })
    }
}

fn qd_paras_exec(parts: &Vec<String>) -> (r: Vec<String>)
    ensures
        r@.map_values(|s: String| s@) == qd_paras(parts@.map_values(|s: String| s@)),
{
    let ghost pv = parts@.map_values(|s: String| s@);
    let mut out: Vec<String> = Vec::new();
    let mut i: usize = 0;
    while i < parts.len()
        invariant
            i <= parts.len(),
            pv == parts@.map_values(|s: String| s@),
            out@.map_values(|s: String| s@) == qd_paras(pv.take(i as int)),
        decreases parts.len() - i,
    {
        assert(pv.take(i + 1).drop_last() =~= pv.take(i as int));
        assert(pv.take(i + 1).last() == parts@[i as int]@);
        proof {
            reveal_strlit("</p>");
            reveal_strlit("");
        }
        assert(""@ =~= Seq::<char>::empty());
        let a = replace_exec(parts[i].as_str(), "</p>", "");
        let cleaned = trim_exec(a.as_str());
        if !cleaned.as_str().is_empty() {
            let t = strip_html(cleaned.as_str());
            let d = html_escape_decode(t.as_str());
            let u = trim_exec(d.as_str());
            if !u.as_str().is_empty() {
                let ghost o0 = out@;
                out.push(u);
                assert(out@.map_values(|s: String| s@) =~= o0.map_values(|s: String| s@).push(out@.last()@));
            }
        }
        i += 1;
    }
    assert(pv.take(i as int) =~= pv);
    out
}

impl QidianProvider {
    /// The site's identifier.
    pub fn name(&self) -> (r: &'static str)
        ensures
            r@ == "qidian"@,
    {
        "qidian"
    }

    /// The site's display name.
    pub fn display_name(&self) -> (r: &'static str)
        ensures
            r@ == "起点中文网"@,
    {
        "起点中文网"
    }

    /// The site's address.
    pub fn base_url(&self) -> (r: &'static str)
        ensures
            r@ == qd_base(),
    {
        "https://www.qidian.com"
    }

    /// The site has a search.
    pub fn supports_search(&self) -> (r: bool)
        ensures
            r,
    {
        true
    }

    /// The search page: `{base}/so/{keyword}.html`.
    pub fn search_url(&self, keyword: &str) -> (r: String)
        ensures
            r@ == qd_base() + "/so/"@ + url_encoded(keyword@) + ".html"@,
    {
        let k = url_encode(keyword);
        concat(concat(concat(self.base_url(), "/so/").as_str(), k.as_str()).as_str(), ".html")
    }

    /// The book page: `{base}/book/{id}/`.
    pub fn book_url(&self, book_id: &str) -> (r: String)
        ensures
            r@ == qd_base() + "/book/"@ + book_id@ + "/"@,
    {
        concat(concat(concat(self.base_url(), "/book/").as_str(), book_id).as_str(), "/")
    }

    fn chapter_url_of(book_id: &str, chapter_id: &str) -> (r: String)
        ensures
            r@ == qd_chapter_url(book_id@, chapter_id@),
    {
        let a = concat(concat("https://www.qidian.com/chapter/", book_id).as_str(), "/");
        proof {
            reveal_strlit("https://www.qidian.com/chapter/");
            reveal_strlit("https://www.qidian.com");
            reveal_strlit("/chapter/");
        }
        assert("https://www.qidian.com/chapter/"@ =~= qd_base() + "/chapter/"@);
        concat(concat(a.as_str(), chapter_id).as_str(), "/")
    }

    /// A chapter page.
    pub fn chapter_url(&self, book_id: &str, chapter_id: &str) -> (r: String)
        ensures
            r@ == qd_chapter_url(book_id@, chapter_id@),
    {
        Self::chapter_url_of(book_id, chapter_id)
    }

    /// The results of a search page among its first `limit` rows.
    pub fn parse_search(&self, html: &str, limit: usize) -> (r: Vec<SearchResult>)
        ensures
            r@.map_values(|x: SearchResult| x@) == qd_results(html@, limit as nat),
    {
        let sel = "div#result-list li.res-book-item";
        let rows = select_all(html, sel);
        let fields: Vec<&str> = vec!["h3 a", "p.author a.name, p.author i", "p.update a", "p.update span", "div.book-right-info div.total p span"];
        assert(strs_view(fields@) =~= qd_fields());
        let items = select_fields(html, sel, &fields);
        let ghost rv = nodes_view(rows@);
        let ghost iv = items_view(items@);
        assert(iv =~= items@.map_values(|item: Vec<Vec<Node>>| crate::html::groups_view(item@)));
        let n = if limit < rows.len() {
            limit
        } else {
            rows.len()
        };
        let empty: Vec<Vec<Node>> = Vec::new();
        let mut out: Vec<SearchResult> = Vec::new();
        let mut k: usize = 0;
        while k < n
            invariant
                k <= n <= rows.len(),
                rv == nodes_view(rows@),
                iv == items_view(items@),
                empty@.len() == 0,
                out@.map_values(|x: SearchResult| x@) == qd_results_upto(rv, iv, k as int),
            decreases n - k,
        {
            let bid = attr_or_empty_exec(&rows[k], "data-bid");
            assert(rv[k as int] == rows@[k as int]@);
            if !bid.as_str().is_empty() {
                let it: &Vec<Vec<Node>> = if k < items.len() {
                    &items[k]
                } else {
                    &empty
                };
                assert(crate::html::groups_view(it@) =~= (if k < iv.len() {
                    iv[k as int]
                } else {
                    Seq::empty()
                }));
                let r = SearchResult {
                    site: owned("qidian"),
                    book_id: bid,
                    title: group_text_exec(it, 0),
                    author: group_text_exec(it, 1),
                    latest_chapter: group_text_exec(it, 2),
                    update_date: group_text_exec(it, 3),
                    word_count: group_text_exec(it, 4),
                };
                let ghost o0 = out@;
                out.push(r);
                assert(out@.map_values(|x: SearchResult| x@) =~= o0.map_values(|x: SearchResult| x@).push(out@.last()@));
            }
            k += 1;
        }
        out
    }

    /// The volumes of a book page's catalog.
    pub fn parse_volumes(html: &str, book_id: &str) -> (r: Vec<Volume>)
        ensures
            r@.map_values(|v: Volume| v@) == qd_volumes(
                html_select_fields(html@, qd_vol_sel(), seq!["h3.volume-name"@, "ul.volume-chapters li a.chapter-name"@]),
                book_id@,
            ),
    {
        let fields: Vec<&str> = vec!["h3.volume-name", "ul.volume-chapters li a.chapter-name"];
        assert(strs_view(fields@) =~= seq!["h3.volume-name"@, "ul.volume-chapters li a.chapter-name"@]);
        let items = select_fields(html, "div#allCatalog div.catalog-volume", &fields);
        let ghost iv = items_view(items@);
        assert(iv =~= items@.map_values(|item: Vec<Vec<Node>>| crate::html::groups_view(item@)));
        let mut out: Vec<Volume> = Vec::new();
        let mut i: usize = 0;
        while i < items.len()
            invariant
                i <= items.len(),
                iv == items_view(items@),
                out@.map_values(|v: Volume| v@) == qd_volumes(iv.take(i as int), book_id@),
            decreases items.len() - i,
        {
            assert(iv.take(i + 1).drop_last() =~= iv.take(i as int));
            assert(iv.take(i + 1).last() == crate::html::groups_view(items@[i as int]@));
            let item = &items[i];
            let empty: Vec<Node> = Vec::new();
            let links: &Vec<Node> = if 1 < item.len() {
                &item[1]
            } else {
                &empty
            };
            assert(nodes_view(links@) =~= item_nodes(crate::html::groups_view(item@), 1));
            let chapters = collect_chapters(
                links,
                (|n: &Node| -> (r: Option<ChapterInfo>)
                    ensures
                        opt_chapter_view(r) == qd_link(book_id@, n@),
                    { qd_link_exec(book_id, n) }),
                Ghost(qd_link_fn(book_id@)),
            );
            if chapters.len() > 0 {
                let name = group_text_exec(item, 0);
                let volume_name = cut_before_exec(name, "\u{b7}");
                let ghost o0 = out@;
                out.push(Volume { volume_name, chapters });
                assert(out@.map_values(|v: Volume| v@) =~= o0.map_values(|v: Volume| v@).push(out@.last()@));
            }
            i += 1;
        }
        assert(iv.take(i as int) =~= iv);
        out
    }

    /// Parses a book page.
    pub fn parse_book_info(&self, html: &str, book_id: &str) -> (info: BookInfo)
        ensures
            info@ == qd_info(html@, book_id@),
    {
        let mut book_name = select_text(html, "h1#bookName");
        if book_name.as_str().is_empty() {
            book_name = meta_content(html, "og:novel:book_name");
        }
        if book_name.as_str().is_empty() {
            book_name = meta_content(html, "og:title");
        }
        let mut author = select_text(html, "a.writer-name");
        if author.as_str().is_empty() {
            author = meta_content(html, "og:novel:author");
        }
        let cover_url = concat(
            concat("https://bookcover.yuewen.com/qdbimg/349573/", book_id).as_str(),
            "/600.webp",
        );
        proof {
            reveal_strlit("更新时间:");
            reveal_strlit("");
        }
        assert(""@ =~= Seq::<char>::empty());
        let u = select_text(html, "span.update-time");
        let u2 = replace_exec(u.as_str(), "更新时间:", "");
        let mut update_time = trim_exec(u2.as_str());
        if update_time.as_str().is_empty() {
            update_time = meta_content(html, "og:novel:update_time");
        }
        let mut serial_status = select_text(html, "p.book-attribute span");
        if serial_status.as_str().is_empty() {
            serial_status = meta_content(html, "og:novel:status");
        }
        let mut summary = select_text(html, "p#book-intro-detail");
        if summary.as_str().is_empty() {
            summary = select_text(html, "p.intro");
        }
        if summary.as_str().is_empty() {
            summary = meta_content(html, "og:description");
        }
        let info = BookInfo {
            book_name,
            author,
            summary,
            cover_url,
            serial_status,
            update_time,
            word_count: select_text(html, "p.count em"),
            volumes: Self::parse_volumes(html, book_id),
        };
        assert(info@.update_time == qd_info(html@, book_id@).update_time);
        info
    }

    /// The page's server-rendered context, parsed.
    pub fn extract_ssr_context(html: &str) -> (r: Option<Json>)
        ensures
            r == match qd_ssr_text(html@) {
                Some(t) => json_parsed(t),
                None => None,
            },
    {
        match ssr_text(html) {
            Some(t) => parse_json(t.as_str()),
            None => None,
        }
    }

    /// A chapter page without context data: title from `h1`, text from the
    /// first reading area found.
    fn plain_chapter(html: &str, chapter_id: &str) -> (ch: Chapter)
        ensures
            ch@ == (ChapterView {
                id: chapter_id@,
                title: sel_text(html@, "h1"@),
                content: spec_html_to_text(first_inner(html@, qd_body_sels())),
            }),
    {
        let sels: Vec<&str> = vec!["#chapter-content", "#content", "article", ".read-content"];
        assert(strs_view(sels@) =~= qd_body_sels());
        let raw = first_inner_exec(html, &sels);
        Chapter { id: owned(chapter_id), title: select_text(html, "h1"), content: html_to_text(raw.as_str()) }
    }

    /// Parses a chapter page.
    pub fn parse_chapter(html: &str, chapter_id: &str) -> (ch: Chapter)
        ensures
            ch@ == qd_chapter(html@, chapter_id@),
    {
        let ctx = Self::extract_ssr_context(html);
        let path: Vec<&str> = vec!["pageContext", "pageProps", "pageData", "chapterInfo"];
        assert(strs_view(path@) =~= qd_ci_path());
        match &ctx {
            Some(j) => match at_path_exec(j, &path) {
                Some(ci) => {
                    let title = match crate::json::as_str(get(ci, "chapterName")) {
                        Some(s) => owned(s),
                        None => owned("Untitled"),
                    };
                    let vip = crate::providers::ciyuanji::int_or_zero_exec(get(ci, "vipStatus")) == 1
                        && crate::providers::ciyuanji::int_or_zero_exec(get(ci, "isBuy")) == 0;
                    if vip {
                        return Chapter { id: owned(chapter_id), title, content: owned("[VIP章节，需要订阅]") };
                    }
                    let raw = crate::json::str_or_empty_exec(get(ci, "content"));
                    proof {
                        reveal_strlit("<p>");
                    }
                    let parts = split_exec(raw.as_str(), "<p>");
                    let paras = qd_paras_exec(&parts);
                    Chapter { id: owned(chapter_id), title, content: join_exec(&paras, "\n") }
                },
                None => Self::plain_chapter(html, chapter_id),
            },
            None => Self::plain_chapter(html, chapter_id),
        }
    }
}

} // verus!
