//! 37轻小说 (37yq): search by form, book pages, and a catalog of volume
//! headings followed by chapter items.

use vstd::prelude::*;

use crate::html::{
    attr_or_empty, attr_or_empty_exec, element_text, group_attr, group_attr_exec, group_text, group_text_exec,
    html_first_pieces, html_select, html_select_fields, meta, meta_content, node_text, nodes_view, normalize_url,
    normalized_url, or_else, pieces_view, sel_attr, sel_text, select_all, select_attr, select_fields,
    select_first_pieces, select_text, strs_view, Node, NodeView,
};
use crate::markup::{clean_content, cleaned};
use crate::providers::common::{
    chapters_view, collect, collect_results, id_by_rule, opt_result_view, paragraphs, paragraphs_exec, results_view,
    take_at_most, IdRule,
};
use crate::text::{concat, contains, contains_exec, owned, replace_all, replace_exec, str_eq, trim, trim_exec};
use crate::types::{BookInfo, BookInfoView, Chapter, ChapterInfo, ChapterInfoView, ChapterView, SearchResult, SearchResultView, Volume, VolumeView};

verus! {

/// The 37yq site.
pub struct N37yqProvider;

/// Site address.
pub open spec fn yq_base() -> Seq<char> {
    "https://www.37yq.com"@
}

/// What is read of each search row.
pub open spec fn yq_fields() -> Seq<Seq<char>> {
    seq!["h2.tit a"@, "div.imgbox a"@, "div.bookinfo a:first-child"@, "div.bookinfo span script"@]
}

/// One search row: the title link, else the cover link, gives the id.
pub open spec fn yq_result(item: Seq<Seq<NodeView>>) -> Option<SearchResultView> {
    let url = or_else(group_attr(item, 0, "href"@), group_attr(item, 1, "href"@));
    if url.len() == 0 {
        None
    } else {
        Some(
            SearchResultView {
                site: "n37yq"@,
                book_id: id_by_rule(IdRule::SegmentStem, url),
                title: group_text(item, 0),
                author: group_text(item, 2),
                latest_chapter: Seq::empty(),
                update_date: Seq::empty(),
                word_count: replace_all(replace_all(group_text(item, 3), "towan('"@, Seq::empty()), "')"@, Seq::empty()),
            },
        )
    }
}

/// [`yq_result`] as a function value.
pub open spec fn yq_result_fn() -> spec_fn(Seq<Seq<NodeView>>) -> Option<SearchResultView> {
    |item: Seq<Seq<NodeView>>| yq_result(item)
}

/// Volumes closed so far, the open volume's name (none before the first
/// heading) and its chapters.
pub struct YqState {
    pub volumes: Seq<VolumeView>,
    pub name: Option<Seq<char>>,
    pub chapters: Seq<ChapterInfoView>,
}

/// The volumes with the open one closed: a named one always, the chapters
/// before any heading as `正文` when there are some.
pub open spec fn yq_close(st: YqState) -> Seq<VolumeView> {
    match st.name {
        Some(n) => st.volumes.push(VolumeView { volume_name: n, chapters: st.chapters }),
        None => if st.chapters.len() > 0 {
            st.volumes.push(VolumeView { volume_name: "正文"@, chapters: st.chapters })
        } else {
            st.volumes
        },
    }
}

/// One catalog element: a `volume` heading opens a volume; an item adds the
/// chapter of its first link, titled by the link's first text piece.
pub open spec fn yq_step(st: YqState, elem: NodeView, first: Option<(NodeView, Seq<Seq<char>>)>) -> YqState {
    if elem.tag == "div"@ && contains(attr_or_empty(elem, "class"@), "volume"@) {
        YqState { volumes: yq_close(st), name: Some(node_text(elem)), chapters: Seq::empty() }
    } else if elem.tag == "li"@ {
        match first {
            Some((a, pieces)) => {
                let href = attr_or_empty(a, "href"@);
                if href.len() == 0 {
                    st
                } else {
                    YqState {
                        chapters: st.chapters.push(
                            ChapterInfoView {
                                title: if pieces.len() > 0 {
                                    trim(pieces[0])
                                } else {
                                    Seq::empty()
                                },
                                chapter_id: id_by_rule(IdRule::SegmentStem, href),
                                url: normalized_url(yq_base(), href),
                            },
                        ),
                        ..st
                    }
                }
            },
            None => st,
        }
    } else {
        st
    }
}

/// The catalog elements read in order.
pub open spec fn yq_fold(elems: Seq<NodeView>, firsts: Seq<Option<(NodeView, Seq<Seq<char>>)>>) -> YqState
    decreases elems.len(),
{
    if elems.len() == 0 {
        YqState { volumes: Seq::empty(), name: None, chapters: Seq::empty() }
    } else {
        let j = elems.len() - 1;
        yq_step(
            yq_fold(elems.drop_last(), firsts),
            elems.last(),
            if j < firsts.len() {
                firsts[j]
            } else {
                None
            },
        )
    }
}

/// Selector of the catalog elements.
pub open spec fn yq_toc_sel() -> Seq<char> {
    "ul.chapter-list > div.volume, ul.chapter-list > li"@
}

/// The volumes of a catalog page.
pub open spec fn yq_volumes(catalog: Seq<char>) -> Seq<VolumeView> {
    yq_close(yq_fold(html_select(catalog, yq_toc_sel()), html_first_pieces(catalog, yq_toc_sel(), "a"@)))
}

/// The summary: the description with wide and no-break spaces made plain,
/// else the page's summary paragraph.
pub open spec fn yq_summary(info: Seq<char>) -> Seq<char> {
    let s = replace_all(replace_all(meta(info, "og:description"@), "\u{3000}"@, " "@), "\u{a0}"@, " "@);
    if s.len() == 0 {
        sel_text(info, "div.book-dec p"@)
    } else {
        s
    }
}

/// A 37yq book: its info page and its catalog page.
pub open spec fn yq_info(info: Seq<char>, catalog: Seq<char>) -> BookInfoView {
    BookInfoView {
        book_name: or_else(meta(info, "og:novel:book_name"@), sel_text(info, "h1.book-name"@)),
        author: meta(info, "og:novel:author"@),
        summary: yq_summary(info),
        cover_url: or_else(meta(info, "og:image"@), sel_attr(info, "div.book-cover img"@, "src"@)),
        serial_status: meta(info, "og:novel:status"@),
        update_time: meta(info, "og:novel:update_time"@),
        word_count: Seq::empty(),
        volumes: yq_volumes(catalog),
    }
}

fn yq_result_exec(item: &Vec<Vec<Node>>) -> (r: Option<SearchResult>)
    ensures
        opt_result_view(r) == yq_result(crate::html::groups_view(item@)),
{
    let mut url = group_attr_exec(item, 0, "href");
    if url.as_str().is_empty() {
        url = group_attr_exec(item, 1, "href");
    }
    if url.as_str().is_empty() {
        return None;
    }
    proof {
        reveal_strlit("towan('");
        reveal_strlit("')");
        reveal_strlit("");
    }
    assert(""@ =~= Seq::<char>::empty());
    let w = group_text_exec(item, 3);
    let w1 = replace_exec(w.as_str(), "towan('", "");
    Some(SearchResult {
        site: owned("n37yq"),
        book_id: crate::providers::common::chapter_id_by_rule(IdRule::SegmentStem, url.as_str()),
        title: group_text_exec(item, 0),
        author: group_text_exec(item, 2),
        latest_chapter: String::new(),
        update_date: String::new(),
        word_count: replace_exec(w1.as_str(), "')", ""),
    })
}

impl N37yqProvider {
    /// The site's identifier.
    pub fn name(&self) -> (r: &'static str)
        ensures
            r@ == "n37yq"@,
    {
        "n37yq"
    }

    /// The site's display name (its identifier).
    pub fn display_name(&self) -> (r: &'static str)
        ensures
            r@ == "n37yq"@,
    {
        "n37yq"
    }

    /// The site's address.
    pub fn base_url(&self) -> (r: &'static str)
        ensures
            r@ == yq_base(),
    {
        "https://www.37yq.com"
    }

    /// The site has a search.
    pub fn supports_search(&self) -> (r: bool)
        ensures
            r,
    {
        true
    }

    /// The search endpoint.
    pub fn search_url(&self) -> (r: &'static str)
        ensures
            r@ == "https://www.37yq.com/so.html"@,
    {
        "https://www.37yq.com/so.html"
    }

    /// The search form for a keyword.
    pub fn search_form(keyword: &str) -> (r: Vec<(String, String)>)
        ensures
            r@.map_values(|p: (String, String)| (p.0@, p.1@)) == seq![("searchkey"@, keyword@), ("searchtype"@, "all"@)],
    {
        let mut r: Vec<(String, String)> = Vec::new();
        r.push((owned("searchkey"), owned(keyword)));
        r.push((owned("searchtype"), owned("all")));
        assert(r@.map_values(|p: (String, String)| (p.0@, p.1@)) =~= seq![("searchkey"@, keyword@), ("searchtype"@, "all"@)]);
        r
    }

    /// The info page: `{base}/lightnovel/{id}.html`.
    pub fn info_url(&self, book_id: &str) -> (r: String)
        ensures
            r@ == yq_base() + "/lightnovel/"@ + book_id@ + ".html"@,
    {
        concat(concat(concat(self.base_url(), "/lightnovel/").as_str(), book_id).as_str(), ".html")
    }

    /// The catalog page: `{base}/lightnovel/{id}/catalog`.
    pub fn catalog_url(&self, book_id: &str) -> (r: String)
        ensures
            r@ == yq_base() + "/lightnovel/"@ + book_id@ + "/catalog"@,
    {
        concat(concat(concat(self.base_url(), "/lightnovel/").as_str(), book_id).as_str(), "/catalog")
    }

    /// A chapter page: `{base}/lightnovel/{book}/{chapter}.html`.
    pub fn chapter_url(&self, book_id: &str, chapter_id: &str) -> (r: String)
        ensures
            r@ == yq_base() + "/lightnovel/"@ + book_id@ + "/"@ + chapter_id@ + ".html"@,
    {
        let a = concat(concat(concat(self.base_url(), "/lightnovel/").as_str(), book_id).as_str(), "/");
        concat(concat(a.as_str(), chapter_id).as_str(), ".html")
    }

    /// The results among the first `limit` rows of a search page.
    pub fn parse_search(&self, html: &str, limit: usize) -> (r: Vec<SearchResult>)
        ensures
            results_view(r@) == collect(
                take_at_most(html_select_fields(html@, "div.search-tab div.search-result-list"@, yq_fields()), limit as nat),
                yq_result_fn(),
            ),
    {
        let fields: Vec<&str> = vec!["h2.tit a", "div.imgbox a", "div.bookinfo a:first-child", "div.bookinfo span script"];
        assert(strs_view(fields@) =~= yq_fields());
        let items = select_fields(html, "div.search-tab div.search-result-list", &fields);
        collect_results(
            &items,
            limit,
            (|it: &Vec<Vec<Node>>| -> (r: Option<SearchResult>)
                ensures
                    opt_result_view(r) == yq_result(crate::html::groups_view(it@)),
                { yq_result_exec(it) }),
            Ghost(yq_result_fn()),
        )
    }

    /// The volumes of a catalog page.
    pub fn parse_volumes(catalog: &str) -> (r: Vec<Volume>)
        ensures
            r@.map_values(|v: Volume| v@) == yq_volumes(catalog@),
    {
        let sel = "ul.chapter-list > div.volume, ul.chapter-list > li";
        let elems = select_all(catalog, sel);
        let firsts = select_first_pieces(catalog, sel, "a");
        let ghost ev = nodes_view(elems@);
        let ghost fv = firsts@.map_values(|o: Option<(Node, Vec<String>)>| pieces_view(o));
        let mut volumes: Vec<Volume> = Vec::new();
        let mut name: Option<String> = None;
        let mut chapters: Vec<ChapterInfo> = Vec::new();
        let mut j: usize = 0;
        while j < elems.len()
            invariant
                j <= elems.len(),
                ev == nodes_view(elems@),
                fv == firsts@.map_values(|o: Option<(Node, Vec<String>)>| pieces_view(o)),
                ({
                    let st = yq_fold(ev.take(j as int), fv);
                    &&& volumes@.map_values(|v: Volume| v@) == st.volumes
                    &&& crate::html::opt_str_view(name) == st.name
                    &&& chapters_view(chapters@) == st.chapters
                }),
            decreases elems.len() - j,
        {
            assert(ev.take(j + 1).drop_last() =~= ev.take(j as int));
            assert(ev.take(j + 1).last() == elems@[j as int]@);
            let e = &elems[j];
            let class = attr_or_empty_exec(e, "class");
            if str_eq(e.tag.as_str(), "div") && contains_exec(class.as_str(), "volume") {
                let mut taken: Vec<ChapterInfo> = Vec::new();
                std::mem::swap(&mut taken, &mut chapters);
                let ghost prev = volumes@;
                match name {
                    Some(n) => {
                        volumes.push(Volume { volume_name: n, chapters: taken });
                        assert(volumes@.map_values(|v: Volume| v@) =~= prev.map_values(|v: Volume| v@).push(volumes@.last()@));
                    },
                    None => {
                        if taken.len() > 0 {
                            volumes.push(Volume { volume_name: owned("正文"), chapters: taken });
                            assert(volumes@.map_values(|v: Volume| v@) =~= prev.map_values(|v: Volume| v@).push(
                                volumes@.last()@,
                            ));
                        }
                    },
                }
                name = Some(element_text(e));
                assert(chapters_view(chapters@) =~= Seq::<ChapterInfoView>::empty());
            } else if str_eq(e.tag.as_str(), "li") {
                if j < firsts.len() {
                    match &firsts[j] {
                        Some((a, pieces)) => {
                            assert(fv[j as int] == Some((a@, pieces@.map_values(|t: String| t@))));
                            let href = attr_or_empty_exec(a, "href");
                            if !href.as_str().is_empty() {
                                let title = if pieces.len() > 0 {
                                    trim_exec(pieces[0].as_str())
                                } else {
                                    String::new()
                                };
                                let c = ChapterInfo {
                                    title,
                                    chapter_id: crate::providers::common::chapter_id_by_rule(IdRule::SegmentStem, href.as_str()),
                                    url: normalize_url("https://www.37yq.com", href.as_str()),
                                };
                                let ghost c0 = chapters@;
                                chapters.push(c);
                                assert(chapters_view(chapters@) =~= chapters_view(c0).push(chapters@.last()@));
                            }
                        },
                        None => {},
                    }
                }
            }
            j += 1;
        }
        assert(ev.take(j as int) =~= ev);
        let ghost prev = volumes@;
        match name {
            Some(n) => {
                volumes.push(Volume { volume_name: n, chapters });
                assert(volumes@.map_values(|v: Volume| v@) =~= prev.map_values(|v: Volume| v@).push(volumes@.last()@));
            },
            None => {
                if chapters.len() > 0 {
                    volumes.push(Volume { volume_name: owned("正文"), chapters });
                    assert(volumes@.map_values(|v: Volume| v@) =~= prev.map_values(|v: Volume| v@).push(volumes@.last()@));
                }
            },
        }
        volumes
    }

    /// Parses the info page and the catalog page of a book.
    pub fn parse_book_info(&self, info_html: &str, catalog_html: &str) -> (info: BookInfo)
        ensures
            info@ == yq_info(info_html@, catalog_html@),
    {
        let mut book_name = meta_content(info_html, "og:novel:book_name");
        if book_name.as_str().is_empty() {
            book_name = select_text(info_html, "h1.book-name");
        }
        let mut cover_url = meta_content(info_html, "og:image");
        if cover_url.as_str().is_empty() {
            cover_url = select_attr(info_html, "div.book-cover img", "src");
        }
        proof {
            reveal_strlit("\u{3000}");
            reveal_strlit("\u{a0}");
        }
        let d = meta_content(info_html, "og:description");
        let d1 = replace_exec(d.as_str(), "\u{3000}", " ");
        let s = replace_exec(d1.as_str(), "\u{a0}", " ");
        let summary = if s.as_str().is_empty() {
            select_text(info_html, "div.book-dec p")
        } else {
            s
        };
        let info = BookInfo {
            book_name,
            author: meta_content(info_html, "og:novel:author"),
            summary,
            cover_url,
            serial_status: meta_content(info_html, "og:novel:status"),
            update_time: meta_content(info_html, "og:novel:update_time"),
            word_count: String::new(),
            volumes: Self::parse_volumes(catalog_html),
        };
        assert(info@.word_count =~= Seq::<char>::empty());
        info
    }

    /// Parses a chapter page.
    pub fn parse_chapter(html: &str, chapter_id: &str) -> (ch: Chapter)
        ensures
            ch@ == (ChapterView {
                id: chapter_id@,
                title: or_else(sel_text(html@, "div#mlfy_main_text h1"@), sel_text(html@, "h1"@)),
                content: cleaned(paragraphs(html_select(html@, "div#TextContent > p"@))),
            }),
    {
        let mut title = select_text(html, "div#mlfy_main_text h1");
        if title.as_str().is_empty() {
            title = select_text(html, "h1");
        }
        let p = paragraphs_exec(html, "div#TextContent > p");
        Chapter { id: owned(chapter_id), title, content: clean_content(p.as_str()) }
    }
}

} // verus!
