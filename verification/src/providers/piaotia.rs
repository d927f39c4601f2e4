//! 飘天文学 (piaotia): GBK pages; book ids use `-` for `/`; chapter pages
//! have broken markup that is repaired before reading.

use vstd::prelude::*;

use crate::html::{
    attr_value, child_view, children_view, element_text, group_attr, group_attr_exec, group_text, group_text_exec,
    html_child_nodes, html_select, html_select_fields, html_text_nodes, node_attr, node_text, nodes_view,
    normalize_url, normalized_url, sel_attr, sel_text, select_all, select_attr, select_child_nodes, select_fields,
    select_text, select_text_nodes, strs_view, Child, ChildView, Node, NodeView,
};
use crate::markup::{clean_content, cleaned};
use crate::providers::common::{chapters_view, collect, collect_results, items_view, opt_result_view, results_view, take_at_most};
use crate::text::{
    after_last, after_last_exec, before_first, before_first_exec, concat, contains, contains_exec, join, join_exec,
    owned, replace_all, replace_exec, str_eq, trim, trim_end_matches, trim_end_matches_exec, trim_exec,
};
use crate::types::{BookInfo, BookInfoView, Chapter, ChapterInfo, ChapterInfoView, ChapterView, SearchResult, SearchResultView, Volume, VolumeView};

verus! {

/// The piaotia site.
pub struct PiaotiaProvider;

/// Site address.
pub open spec fn pt_base() -> Seq<char> {
    "https://www.piaotia.com"@
}

/// The site's path for a book id: `-` stands for `/`.
pub open spec fn pt_real(book_id: Seq<char>) -> Seq<char> {
    replace_all(book_id, "-"@, "/"@)
}

/// What is read of each search row: title link, latest chapter, author,
/// word count, date.
pub open spec fn pt_fields() -> Seq<Seq<char>> {
    seq!["td:first-child a"@, "td:nth-child(2) a"@, "td:nth-child(3)"@, "td:nth-child(4)"@, "td:nth-child(5)"@]
}

/// The book id of a book link: the path after `bookinfo/` without `.html`,
/// `/` written `-`.
pub open spec fn pt_link_id(href: Seq<char>) -> Seq<char> {
    replace_all(after_last(trim_end_matches(href, ".html"@), "bookinfo/"@), "/"@, "-"@)
}

/// One search row: a book link with a non-empty id.
pub open spec fn pt_result(item: Seq<Seq<NodeView>>) -> Option<SearchResultView> {
    let href = group_attr(item, 0, "href"@);
    let id = pt_link_id(href);
    if href.len() == 0 || id.len() == 0 {
        None
    } else {
        Some(
            SearchResultView {
                site: "piaotia"@,
                book_id: id,
                title: group_text(item, 0),
                author: group_text(item, 2),
                latest_chapter: group_text(item, 1),
                update_date: group_text(item, 4),
                word_count: group_text(item, 3),
            },
        )
    }
}

/// [`pt_result`] as a function value.
pub open spec fn pt_result_fn() -> spec_fn(Seq<Seq<NodeView>>) -> Option<SearchResultView> {
    |item: Seq<Seq<NodeView>>| pt_result(item)
}

/// The search results: the rows with a book link, at most `limit` of them
/// but at least the first one (the count is checked after each result).
pub open spec fn pt_results(html: Seq<char>, limit: nat) -> Seq<SearchResultView> {
    take_at_most(
        collect(html_select_fields(html, "table.grid tr"@, pt_fields()), pt_result_fn()),
        if limit == 0 {
            1
        } else {
            limit
        },
    )
}

/// All of `kws` occur in `s`.
pub open spec fn contains_all(s: Seq<char>, kws: Seq<Seq<char>>) -> bool
    decreases kws.len(),
{
    kws.len() == 0 || (contains(s, kws[0]) && contains_all(s, kws.skip(1)))
}

/// The text of the first cell containing all of `kws`, or empty.
pub open spec fn pt_td(tds: Seq<NodeView>, kws: Seq<Seq<char>>) -> Seq<char>
    decreases tds.len(),
{
    if tds.len() == 0 {
        Seq::empty()
    } else if contains_all(node_text(tds[0]), kws) {
        node_text(tds[0])
    } else {
        pt_td(tds.skip(1), kws)
    }
}

/// A field of the info table: its label and all spaces removed.
pub open spec fn pt_field(html: Seq<char>, kws: Seq<Seq<char>>, label: Seq<char>) -> Seq<char> {
    trim(
        replace_all(
            replace_all(replace_all(pt_td(html_select(html, "td"@), kws), label, Seq::empty()), "\u{a0}"@, Seq::empty()),
            " "@,
            Seq::empty(),
        ),
    )
}

/// The summary: what follows the last `内容简介：`, when it occurs.
pub open spec fn pt_summary(html: Seq<char>) -> Seq<char> {
    let s = sel_text(html, "td[width=\"80%\"] div"@);
    if contains(s, "内容简介："@) {
        trim(after_last(s, "内容简介："@))
    } else {
        s
    }
}

/// The catalog entries: each link titled by its first text piece, trimmed;
/// the id is its `href` up to the first `.`.
pub open spec fn pt_chapters(links: Seq<NodeView>, pieces: Seq<Seq<Seq<char>>>, dir: Seq<char>, n: int) -> Seq<
    ChapterInfoView,
>
    decreases n,
{
    if n <= 0 {
        Seq::empty()
    } else {
        let rest = pt_chapters(links, pieces, dir, n - 1);
        let k = n - 1;
        let title = if k < pieces.len() && pieces[k].len() > 0 {
            trim(pieces[k][0])
        } else {
            Seq::empty()
        };
        match attr_value(links[k].attrs, "href"@) {
            Some(h) => if title.len() > 0 {
                rest.push(ChapterInfoView { title, chapter_id: before_first(h, "."@), url: normalized_url(dir, h) })
            } else {
                rest
            },
            None => rest,
        }
    }
}

/// A piaotia book: its info page and its catalog page.
pub open spec fn pt_info(info: Seq<char>, catalog: Seq<char>, book_id: Seq<char>) -> BookInfoView {
    let links = html_select(catalog, "div.centent ul li a"@);
    let chapters = pt_chapters(
        links,
        html_text_nodes(catalog, "div.centent ul li a"@),
        pt_base() + "/html/"@ + pt_real(book_id),
        links.len() as int,
    );
    BookInfoView {
        book_name: sel_text(info, "span[style] h1"@),
        author: pt_field(info, seq!["作"@, "者"@], "作者："@),
        summary: pt_summary(info),
        cover_url: sel_attr(info, "td[width=\"80%\"] img"@, "src"@),
        serial_status: pt_field(info, seq!["文章状态"@], "文章状态："@),
        update_time: pt_field(info, seq!["最后更新"@], "最后更新："@),
        word_count: pt_field(info, seq!["全文长度"@], "全文长度："@),
        volumes: if chapters.len() > 0 {
            seq![VolumeView { volume_name: "正文"@, chapters }]
        } else {
            Seq::empty()
        },
    }
}

/// A chapter page with its broken markup repaired.
pub open spec fn pt_repaired(raw: Seq<char>) -> Seq<char> {
    replace_all(
        replace_all(
            replace_all(
                replace_all(
                    replace_all(replace_all(raw, "<head>"@, Seq::empty()), "</head>"@, Seq::empty()),
                    "<body>"@,
                    Seq::empty(),
                ),
                "</body>"@,
                Seq::empty(),
            ),
            "<script language=\"javascript\">GetMode();</script>"@,
            "<div id=\"main\" class=\"colors1 sidebar\">"@,
        ),
        "<script language=\"javascript\">GetFont();</script>"@,
        "<div id=\"content\">"@,
    )
}

/// Title and paragraphs read so far from the children of the text area.
pub struct PtState {
    pub title: Seq<char>,
    pub paras: Seq<Seq<char>>,
}

/// One child of the text area: the first `h1` is the title; `toplink`
/// divs, tables, scripts and styles are skipped; other elements and text
/// nodes give their trimmed text when it is not empty.
pub open spec fn pt_step(st: PtState, c: ChildView) -> PtState {
    match c {
        ChildView::Elem(n) => {
            let cls = attr_value(n.attrs, "class"@);
            if n.tag == "h1"@ && st.title.len() == 0 {
                PtState { title: node_text(n), ..st }
            } else if n.tag == "div"@ && cls is Some && contains(cls.unwrap(), "toplink"@) {
                st
            } else if n.tag == "table"@ || n.tag == "script"@ || n.tag == "style"@ {
                st
            } else if node_text(n).len() > 0 {
                PtState { paras: st.paras.push(node_text(n)), ..st }
            } else {
                st
            }
        },
        ChildView::Text(t) => if trim(t).len() > 0 {
            PtState { paras: st.paras.push(trim(t)), ..st }
        } else {
            st
        },
        ChildView::Other => st,
    }
}

/// The children read in order.
pub open spec fn pt_fold(cs: Seq<ChildView>) -> PtState
    decreases cs.len(),
{
    if cs.len() == 0 {
        PtState { title: Seq::empty(), paras: Seq::empty() }
    } else {
        pt_step(pt_fold(cs.drop_last()), cs.last())
    }
}

/// A piaotia chapter page.
pub open spec fn pt_chapter(raw: Seq<char>, chapter_id: Seq<char>) -> ChapterView {
    let groups = html_child_nodes(pt_repaired(raw), "div#content"@);
    let st = if groups.len() > 0 {
        pt_fold(groups[0])
    } else {
        PtState { title: Seq::empty(), paras: Seq::empty() }
    };
    ChapterView { id: chapter_id, title: st.title, content: cleaned(join(st.paras, "\n"@)) }
}

// ─── executable ────────────────────────────────────────────────────────────

fn pt_result_exec(item: &Vec<Vec<Node>>) -> (r: Option<SearchResult>)
    ensures
        opt_result_view(r) == pt_result(crate::html::groups_view(item@)),
{
    let href = group_attr_exec(item, 0, "href");
    let t = trim_end_matches_exec(href.as_str(), ".html");
    let a = after_last_exec(t.as_str(), "bookinfo/");
    proof {
        reveal_strlit("/");
    }
    let id = replace_exec(a.as_str(), "/", "-");
    if href.as_str().is_empty() || id.as_str().is_empty() {
        return None;
    }
    Some(SearchResult {
        site: owned("piaotia"),
        book_id: id,
        title: group_text_exec(item, 0),
        author: group_text_exec(item, 2),
        latest_chapter: group_text_exec(item, 1),
        update_date: group_text_exec(item, 4),
        word_count: group_text_exec(item, 3),
    })
}

fn contains_all_exec(s: &str, kws: &Vec<&str>) -> (r: bool)
    ensures
        r == contains_all(s@, strs_view(kws@)),
{
    let ghost all = strs_view(kws@);
    let mut i: usize = 0;
    assert(all.skip(0) =~= all);
    while i < kws.len()
        invariant
            i <= kws.len(),
            all == strs_view(kws@),
            contains_all(s@, all) == contains_all(s@, all.skip(i as int)),
        decreases kws.len() - i,
    {
        assert(all.skip(i as int)[0] == kws@[i as int]@);
        assert(all.skip(i as int).skip(1) =~= all.skip(i + 1));
        if !contains_exec(s, kws[i]) {
            return false;
        }
        i += 1;
    }
    true
}

fn pt_td_exec(html: &str, kws: &Vec<&str>) -> (r: String)
    ensures
        r@ == pt_td(html_select(html@, "td"@), strs_view(kws@)),
{
    let tds = select_all(html, "td");
    let ghost tv = nodes_view(tds@);
    let mut i: usize = 0;
    assert(tv.skip(0) =~= tv);
    while i < tds.len()
        invariant
            i <= tds.len(),
            tv == nodes_view(tds@),
            tv == html_select(html@, "td"@),
            pt_td(tv, strs_view(kws@)) == pt_td(tv.skip(i as int), strs_view(kws@)),
        decreases tds.len() - i,
    {
        assert(tv.skip(i as int)[0] == tds@[i as int]@);
        assert(tv.skip(i as int).skip(1) =~= tv.skip(i + 1));
        let t = element_text(&tds[i]);
        if contains_all_exec(t.as_str(), kws) {
            return t;
        }
        i += 1;
    }
    String::new()
}

fn pt_field_exec(html: &str, kws: &Vec<&str>, label: &str) -> (r: String)
    requires
        label@.len() > 0,
    ensures
        r@ == pt_field(html@, strs_view(kws@), label@),
{
    let found = pt_td_exec(html, kws);
    proof {
        reveal_strlit("\u{a0}");
        reveal_strlit(" ");
        reveal_strlit("");
    }
    assert(""@ =~= Seq::<char>::empty());
    let a = replace_exec(found.as_str(), label, "");
    let b = replace_exec(a.as_str(), "\u{a0}", "");
    let c = replace_exec(b.as_str(), " ", "");
    trim_exec(c.as_str())
}

impl PiaotiaProvider {
    /// The site's identifier.
    pub fn name(&self) -> (r: &'static str)
        ensures
            r@ == "piaotia"@,
    {
        "piaotia"
    }

    /// The site's display name (its identifier).
    pub fn display_name(&self) -> (r: &'static str)
        ensures
            r@ == "piaotia"@,
    {
        "piaotia"
    }

    /// The site's address.
    pub fn base_url(&self) -> (r: &'static str)
        ensures
            r@ == pt_base(),
    {
        "https://www.piaotia.com"
    }

    /// The site has a search.
    pub fn supports_search(&self) -> (r: bool)
        ensures
            r,
    {
        true
    }

    /// The search endpoint, posted in GBK.
    pub fn search_url(&self) -> (r: &'static str)
        ensures
            r@ == "https://www.piaotia.com/modules/article/search.php"@,
    {
        "https://www.piaotia.com/modules/article/search.php"
    }

    /// The search form: by title, for `keyword`.
    pub fn search_form(keyword: &str) -> (r: Vec<(String, String)>)
        ensures
            r@.map_values(|p: (String, String)| (p.0@, p.1@)) == seq![
                ("searchtype"@, "articlename"@),
                ("searchkey"@, keyword@),
                ("Submit"@, " 搜 索 "@),
            ],
    {
        let mut r: Vec<(String, String)> = Vec::new();
        r.push((owned("searchtype"), owned("articlename")));
        r.push((owned("searchkey"), owned(keyword)));
        r.push((owned("Submit"), owned(" 搜 索 ")));
        assert(r@.map_values(|p: (String, String)| (p.0@, p.1@)) =~= seq![
            ("searchtype"@, "articlename"@),
            ("searchkey"@, keyword@),
            ("Submit"@, " 搜 索 "@),
        ]);
        r
    }

    /// The site's path for a book id.
    pub fn real_id(book_id: &str) -> (r: String)
        ensures
            r@ == pt_real(book_id@),
    {
        proof {
            reveal_strlit("-");
        }
        replace_exec(book_id, "-", "/")
    }

    /// The info page: `{base}/bookinfo/{path}.html`.
    pub fn info_url(&self, book_id: &str) -> (r: String)
        ensures
            r@ == pt_base() + "/bookinfo/"@ + pt_real(book_id@) + ".html"@,
    {
        let p = Self::real_id(book_id);
        concat(concat(concat(self.base_url(), "/bookinfo/").as_str(), p.as_str()).as_str(), ".html")
    }

    /// The catalog page: `{base}/html/{path}/index.html`.
    pub fn catalog_url(&self, book_id: &str) -> (r: String)
        ensures
            r@ == pt_base() + "/html/"@ + pt_real(book_id@) + "/index.html"@,
    {
        let p = Self::real_id(book_id);
        concat(concat(concat(self.base_url(), "/html/").as_str(), p.as_str()).as_str(), "/index.html")
    }

    /// A chapter page: `{base}/html/{path}/{chapter}.html`.
    pub fn chapter_url(&self, book_id: &str, chapter_id: &str) -> (r: String)
        ensures
            r@ == pt_base() + "/html/"@ + pt_real(book_id@) + "/"@ + chapter_id@ + ".html"@,
    {
        let p = Self::real_id(book_id);
        let a = concat(concat(concat(self.base_url(), "/html/").as_str(), p.as_str()).as_str(), "/");
        concat(concat(a.as_str(), chapter_id).as_str(), ".html")
    }

    /// The results of a search page.
    pub fn parse_search(&self, html: &str, limit: usize) -> (r: Vec<SearchResult>)
        ensures
            results_view(r@) == pt_results(html@, limit as nat),
    {
        let fields: Vec<&str> = vec!["td:first-child a", "td:nth-child(2) a", "td:nth-child(3)", "td:nth-child(4)", "td:nth-child(5)"];
        assert(strs_view(fields@) =~= pt_fields());
        let items = select_fields(html, "table.grid tr", &fields);
        let mut all = collect_results(
            &items,
            items.len(),
            (|it: &Vec<Vec<Node>>| -> (r: Option<SearchResult>)
                ensures
                    opt_result_view(r) == pt_result(crate::html::groups_view(it@)),
                { pt_result_exec(it) }),
            Ghost(pt_result_fn()),
        );
        assert(take_at_most(items_view(items@), items.len() as nat) =~= items_view(items@));
        let m: usize = if limit == 0 {
            1
        } else {
            limit
        };
        let ghost before = all@;
        all.truncate(m);
        assert(results_view(all@) =~= take_at_most(results_view(before), m as nat));
        all
    }

    /// Parses the info page and the catalog page of a book.
    pub fn parse_book_info(&self, info_html: &str, catalog_html: &str, book_id: &str) -> (info: BookInfo)
        ensures
            info@ == pt_info(info_html@, catalog_html@, book_id@),
    {
        let k1: Vec<&str> = vec!["作", "者"];
        assert(strs_view(k1@) =~= seq!["作"@, "者"@]);
        let k2: Vec<&str> = vec!["全文长度"];
        assert(strs_view(k2@) =~= seq!["全文长度"@]);
        let k3: Vec<&str> = vec!["最后更新"];
        assert(strs_view(k3@) =~= seq!["最后更新"@]);
        let k4: Vec<&str> = vec!["文章状态"];
        assert(strs_view(k4@) =~= seq!["文章状态"@]);
        proof {
            reveal_strlit("作者：");
            reveal_strlit("全文长度：");
            reveal_strlit("最后更新：");
            reveal_strlit("文章状态：");
        }
        let author = pt_field_exec(info_html, &k1, "作者：");
        let word_count = pt_field_exec(info_html, &k2, "全文长度：");
        let update_time = pt_field_exec(info_html, &k3, "最后更新：");
        let serial_status = pt_field_exec(info_html, &k4, "文章状态：");
        let s = select_text(info_html, "td[width=\"80%\"] div");
        let summary = if contains_exec(s.as_str(), "内容简介：") {
            let a = after_last_exec(s.as_str(), "内容简介：");
            trim_exec(a.as_str())
        } else {
            s
        };
        let rid = Self::real_id(book_id);
        let dir = concat(concat(self.base_url(), "/html/").as_str(), rid.as_str());
        let links = select_all(catalog_html, "div.centent ul li a");
        let pieces = select_text_nodes(catalog_html, "div.centent ul li a");
        let ghost lv = nodes_view(links@);
        let ghost pv = pieces@.map_values(|v: Vec<String>| v@.map_values(|t: String| t@));
        let mut chapters: Vec<ChapterInfo> = Vec::new();
        let mut k: usize = 0;
        while k < links.len()
            invariant
                k <= links.len(),
                lv == nodes_view(links@),
                pv == pieces@.map_values(|v: Vec<String>| v@.map_values(|t: String| t@)),
                chapters_view(chapters@) == pt_chapters(lv, pv, dir@, k as int),
            decreases links.len() - k,
        {
            let title = if k < pieces.len() && pieces[k].len() > 0 {
                assert(pv[k as int][0] == pieces@[k as int]@[0]@);
                trim_exec(pieces[k][0].as_str())
            } else {
                String::new()
            };
            assert(lv[k as int] == links@[k as int]@);
            match node_attr(&links[k], "href") {
                Some(h) => {
                    if !title.as_str().is_empty() {
                        let c = ChapterInfo {
                            title,
                            chapter_id: before_first_exec(h.as_str(), "."),
                            url: normalize_url(dir.as_str(), h.as_str()),
                        };
                        let ghost o0 = chapters@;
                        chapters.push(c);
                        assert(chapters_view(chapters@) =~= chapters_view(o0).push(chapters@.last()@));
                    }
                },
                None => {},
            }
            k += 1;
        }
        let mut volumes: Vec<Volume> = Vec::new();
        if chapters.len() > 0 {
            volumes.push(Volume { volume_name: owned("正文"), chapters });
        }
        let info = BookInfo {
            book_name: select_text(info_html, "span[style] h1"),
            author,
            summary,
            cover_url: select_attr(info_html, "td[width=\"80%\"] img", "src"),
            serial_status,
            update_time,
            word_count,
            volumes,
        };
        assert(info@.volumes =~= pt_info(info_html@, catalog_html@, book_id@).volumes);
        info
    }

    /// A chapter page with its broken markup repaired.
    pub fn repair(raw: &str) -> (r: String)
        ensures
            r@ == pt_repaired(raw@),
    {
        proof {
            reveal_strlit("<head>");
            reveal_strlit("</head>");
            reveal_strlit("<body>");
            reveal_strlit("</body>");
            reveal_strlit("<script language=\"javascript\">GetMode();</script>");
            reveal_strlit("<script language=\"javascript\">GetFont();</script>");
            reveal_strlit("");
        }
        assert(""@ =~= Seq::<char>::empty());
        let a = replace_exec(raw, "<head>", "");
        let b = replace_exec(a.as_str(), "</head>", "");
        let c = replace_exec(b.as_str(), "<body>", "");
        let d = replace_exec(c.as_str(), "</body>", "");
        let e = replace_exec(
            d.as_str(),
            "<script language=\"javascript\">GetMode();</script>",
            "<div id=\"main\" class=\"colors1 sidebar\">",
        );
        replace_exec(e.as_str(), "<script language=\"javascript\">GetFont();</script>", "<div id=\"content\">")
    }

    /// Parses a chapter page.
    pub fn parse_chapter(raw: &str, chapter_id: &str) -> (ch: Chapter)
        ensures
            ch@ == pt_chapter(raw@, chapter_id@),
    {
        let fixed = Self::repair(raw);
        let groups = select_child_nodes(fixed.as_str(), "div#content");
        let ghost gv = groups@.map_values(|v: Vec<Child>| children_view(v@));
        let mut title = String::new();
        let mut paras: Vec<String> = Vec::new();
        if groups.len() > 0 {
            let cs = &groups[0];
            let ghost cv = children_view(cs@);
            assert(cv == gv[0]);
            let mut i: usize = 0;
            while i < cs.len()
                invariant
                    i <= cs.len(),
                    cv == children_view(cs@),
                    ({
                        let st = pt_fold(cv.take(i as int));
                        title@ == st.title && paras@.map_values(|s: String| s@) == st.paras
                    }),
                decreases cs.len() - i,
            {
                assert(cv.take(i + 1).drop_last() =~= cv.take(i as int));
                assert(cv.take(i + 1).last() == child_view(cs@[i as int]));
                let ghost p0 = paras@;
                match &cs[i] {
                    Child::Elem(n) => {
                        let cls = node_attr(n, "class");
                        let is_toplink = match &cls {
                            Some(c) => contains_exec(c.as_str(), "toplink"),
                            None => false,
                        };
                        if str_eq(n.tag.as_str(), "h1") && title.as_str().is_empty() {
                            title = element_text(n);
                        } else if str_eq(n.tag.as_str(), "div") && is_toplink {
                        } else if str_eq(n.tag.as_str(), "table") || str_eq(n.tag.as_str(), "script") || str_eq(
                            n.tag.as_str(),
                            "style",
                        ) {
                        } else {
                            let t = element_text(n);
                            if !t.as_str().is_empty() {
                                paras.push(t);
                                assert(paras@.map_values(|s: String| s@) =~= p0.map_values(|s: String| s@).push(
                                    paras@.last()@,
                                ));
                            }
                        }
                    },
                    Child::Text(t) => {
                        let tt = trim_exec(t.as_str());
                        if !tt.as_str().is_empty() {
                            paras.push(tt);
                            assert(paras@.map_values(|s: String| s@) =~= p0.map_values(|s: String| s@).push(
                                paras@.last()@,
                            ));
                        }
                    },
                    Child::Other => {},
                }
                i += 1;
            }
            assert(cv.take(i as int) =~= cv);
        } else {
            assert(paras@.map_values(|s: String| s@) =~= Seq::<Seq<char>>::empty());
        }
        let joined = join_exec(&paras, "\n");
        Chapter { id: owned(chapter_id), title, content: clean_content(joined.as_str()) }
    }
}

} // verus!
