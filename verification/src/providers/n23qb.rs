//! 铅笔小说 (23qb): a search that may land directly on a book page, and a
//! catalog of volume headings followed by chapter rows.

use vstd::prelude::*;

use crate::html::{
    attr_or_empty, attr_or_empty_exec, element_text, first_text, group_attr, group_attr_exec, group_text,
    group_text_exec, html_first_nested, html_select, html_select_fields, meta, meta_content, nested_view, node_text,
    nodes_view, normalize_url, normalized_url, sel_attr, sel_text, select_all, select_attr, select_fields,
    select_first_nested, select_text, strs_view, Node, NodeView,
};
use crate::markup::{clean_content, cleaned};
use crate::providers::common::{
    chapters_view, collect, collect_results, id_by_rule, opt_result_view, paragraphs, paragraphs_exec, results_view,
    take_at_most, url_encode, url_encoded, IdRule,
};
use crate::text::{
    after_last, after_last_exec, concat, contains, contains_exec, owned, replace_all, replace_exec, str_eq,
    trim_end_matches, trim_end_matches_exec, trim_start_matches, trim_start_matches_exec,
};
use crate::types::{BookInfo, BookInfoView, Chapter, ChapterInfo, ChapterInfoView, ChapterView, SearchResult, SearchResultView, Volume, VolumeView};

verus! {

/// The 23qb site.
pub struct N23qbProvider;

/// Site address.
pub open spec fn qb_base() -> Seq<char> {
    "https://www.23qb.com"@
}

/// A search answer that is a book page (the search found one book).
pub open spec fn qb_is_detail(html: Seq<char>) -> bool {
    contains(html, "<meta property=\"og:url\""@)
}

/// The single result of a search that landed on a book page.
pub open spec fn qb_detail_results(html: Seq<char>) -> Seq<SearchResultView> {
    let u = meta(html, "og:url"@);
    if u.len() == 0 {
        Seq::empty()
    } else {
        seq![
            SearchResultView {
                site: "n23qb"@,
                book_id: trim_end_matches(trim_start_matches(after_last(u, "book/"@), "/"@), "/"@),
                title: sel_text(html, "h1.page-title"@),
                author: sel_attr(html, "a[href*=\"/author/\"]"@, "title"@),
                latest_chapter: Seq::empty(),
                update_date: Seq::empty(),
                word_count: Seq::empty(),
            },
        ]
    }
}

/// One row of a result list.
pub open spec fn qb_result(item: Seq<Seq<NodeView>>) -> Option<SearchResultView> {
    let href = group_attr(item, 0, "href"@);
    if href.len() == 0 {
        None
    } else {
        Some(
            SearchResultView {
                site: "n23qb"@,
                book_id: id_by_rule(IdRule::TrimmedSegment, href),
                title: group_text(item, 0),
                author: Seq::empty(),
                latest_chapter: Seq::empty(),
                update_date: Seq::empty(),
                word_count: Seq::empty(),
            },
        )
    }
}

/// [`qb_result`] as a function value.
pub open spec fn qb_result_fn() -> spec_fn(Seq<Seq<NodeView>>) -> Option<SearchResultView> {
    |item: Seq<Seq<NodeView>>| qb_result(item)
}

/// The results of a search answer: the book page's single result, or the
/// results among the first `limit` rows of a list.
pub open spec fn qb_results(html: Seq<char>, limit: nat) -> Seq<SearchResultView> {
    if qb_is_detail(html) {
        qb_detail_results(html)
    } else {
        collect(
            take_at_most(html_select_fields(html, "div.module-search-item"@, seq!["div.novel-info-header h3 a"@]), limit),
            qb_result_fn(),
        )
    }
}

/// Volumes closed so far, and the open volume's name and chapters.
pub struct QbState {
    pub volumes: Seq<VolumeView>,
    pub name: Seq<char>,
    pub chapters: Seq<ChapterInfoView>,
}

/// The volumes with the open one closed, when it has a name or chapters.
pub open spec fn qb_close(st: QbState) -> Seq<VolumeView> {
    if st.chapters.len() > 0 || st.name.len() > 0 {
        st.volumes.push(VolumeView { volume_name: st.name, chapters: st.chapters })
    } else {
        st.volumes
    }
}

/// One catalog element: a `module-title` heading opens a volume; a
/// `module-row-info` row adds the chapter of its first link (titled by the
/// link's first `span`), unless the link is empty or a placeholder.
pub open spec fn qb_step(st: QbState, elem: NodeView, nested: Option<(NodeView, Seq<NodeView>)>) -> QbState {
    let class = attr_or_empty(elem, "class"@);
    if elem.tag == "h2"@ && contains(class, "module-title"@) {
        QbState { volumes: qb_close(st), name: node_text(elem), chapters: Seq::empty() }
    } else if elem.tag == "div"@ && contains(class, "module-row-info"@) {
        match nested {
            Some((a, spans)) => {
                let href = attr_or_empty(a, "href"@);
                if href == "javascript:cid(0)"@ || href.len() == 0 {
                    st
                } else {
                    QbState {
                        chapters: st.chapters.push(
                            ChapterInfoView {
                                title: first_text(spans),
                                chapter_id: replace_all(after_last(href, "/"@), ".html"@, Seq::empty()),
                                url: normalized_url(qb_base(), href),
                            },
                        ),
                        ..st
                    }
                }
            },
            None => st,
        }
    } else {
        st
    }
}

/// The catalog elements read in order.
pub open spec fn qb_fold(elems: Seq<NodeView>, nested: Seq<Option<(NodeView, Seq<NodeView>)>>) -> QbState
    decreases elems.len(),
{
    if elems.len() == 0 {
        QbState { volumes: Seq::empty(), name: Seq::empty(), chapters: Seq::empty() }
    } else {
        let j = elems.len() - 1;
        qb_step(
            qb_fold(elems.drop_last(), nested),
            elems.last(),
            if j < nested.len() {
                nested[j]
            } else {
                None
            },
        )
    }
}

/// Selector of the catalog elements.
pub open spec fn qb_toc_sel() -> Seq<char> {
    "div.box > h2, div.box > div.module-row-info"@
}

/// The volumes of a catalog page.
pub open spec fn qb_volumes(catalog: Seq<char>) -> Seq<VolumeView> {
    qb_close(
        qb_fold(
            html_select(catalog, qb_toc_sel()),
            html_first_nested(catalog, qb_toc_sel(), "a.module-row-text"@, "span"@),
        ),
    )
}

/// A 23qb book: its info page and its catalog page.
pub open spec fn qb_info(info: Seq<char>, catalog: Seq<char>) -> BookInfoView {
    BookInfoView {
        book_name: sel_text(info, "h1.page-title"@),
        author: sel_attr(info, "a[href*=\"/author/\"]"@, "title"@),
        summary: sel_text(info, "div.novel-info-item.novel-info-content span"@),
        cover_url: sel_attr(info, "div.novel-cover img"@, "data-src"@),
        serial_status: sel_text(info, "a.tag-link"@),
        update_time: Seq::empty(),
        word_count: Seq::empty(),
        volumes: qb_volumes(catalog),
    }
}

fn qb_result_exec(item: &Vec<Vec<Node>>) -> (r: Option<SearchResult>)
    ensures
        opt_result_view(r) == qb_result(crate::html::groups_view(item@)),
{
    let href = group_attr_exec(item, 0, "href");
    if href.as_str().is_empty() {
        return None;
    }
    Some(SearchResult {
        site: owned("n23qb"),
        book_id: crate::providers::common::chapter_id_by_rule(IdRule::TrimmedSegment, href.as_str()),
        title: group_text_exec(item, 0),
        author: String::new(),
        latest_chapter: String::new(),
        update_date: String::new(),
        word_count: String::new(),
    })
}

impl N23qbProvider {
    /// The site's identifier.
    pub fn name(&self) -> (r: &'static str)
        ensures
            r@ == "n23qb"@,
    {
        "n23qb"
    }

    /// The site's display name (its identifier).
    pub fn display_name(&self) -> (r: &'static str)
        ensures
            r@ == "n23qb"@,
    {
        "n23qb"
    }

    /// The site's address.
    pub fn base_url(&self) -> (r: &'static str)
        ensures
            r@ == qb_base(),
    {
        "https://www.23qb.com"
    }

    /// The site has a search.
    pub fn supports_search(&self) -> (r: bool)
        ensures
            r,
    {
        true
    }

    /// The search page: `{base}/search.html?searchkey={keyword}`.
    pub fn search_url(&self, keyword: &str) -> (r: String)
        ensures
            r@ == qb_base() + "/search.html?searchkey="@ + url_encoded(keyword@),
    {
        let k = url_encode(keyword);
        concat(concat(self.base_url(), "/search.html?searchkey=").as_str(), k.as_str())
    }

    /// The info page: `{base}/book/{id}/`.
    pub fn info_url(&self, book_id: &str) -> (r: String)
        ensures
            r@ == qb_base() + "/book/"@ + book_id@ + "/"@,
    {
        concat(concat(concat(self.base_url(), "/book/").as_str(), book_id).as_str(), "/")
    }

    /// The catalog page: `{base}/book/{id}/catalog`.
    pub fn catalog_url(&self, book_id: &str) -> (r: String)
        ensures
            r@ == qb_base() + "/book/"@ + book_id@ + "/catalog"@,
    {
        concat(concat(concat(self.base_url(), "/book/").as_str(), book_id).as_str(), "/catalog")
    }

    /// A chapter page: `{base}/book/{book}/{chapter}.html`.
    pub fn chapter_url(&self, book_id: &str, chapter_id: &str) -> (r: String)
        ensures
            r@ == qb_base() + "/book/"@ + book_id@ + "/"@ + chapter_id@ + ".html"@,
    {
        let a = concat(concat(concat(self.base_url(), "/book/").as_str(), book_id).as_str(), "/");
        concat(concat(a.as_str(), chapter_id).as_str(), ".html")
    }

    /// The results of a search answer.
    pub fn parse_search(&self, html: &str, limit: usize) -> (r: Vec<SearchResult>)
        ensures
            results_view(r@) == qb_results(html@, limit as nat),
    {
        if contains_exec(html, "<meta property=\"og:url\"") {
            let u = meta_content(html, "og:url");
            let mut out: Vec<SearchResult> = Vec::new();
            if !u.as_str().is_empty() {
                let a = after_last_exec(u.as_str(), "book/");
                let b = trim_start_matches_exec(a.as_str(), "/");
                out.push(SearchResult {
                    site: owned("n23qb"),
                    book_id: trim_end_matches_exec(b.as_str(), "/"),
                    title: select_text(html, "h1.page-title"),
                    author: select_attr(html, "a[href*=\"/author/\"]", "title"),
                    latest_chapter: String::new(),
                    update_date: String::new(),
                    word_count: String::new(),
                });
            }
            assert(results_view(out@) =~= qb_detail_results(html@));
            return out;
        }
        let fields: Vec<&str> = vec!["div.novel-info-header h3 a"];
        assert(strs_view(fields@) =~= seq!["div.novel-info-header h3 a"@]);
        let items = select_fields(html, "div.module-search-item", &fields);
        collect_results(
            &items,
            limit,
            (|it: &Vec<Vec<Node>>| -> (r: Option<SearchResult>)
                ensures
                    opt_result_view(r) == qb_result(crate::html::groups_view(it@)),
                { qb_result_exec(it) }),
            Ghost(qb_result_fn()),
        )
    }

    /// The volumes of a catalog page.
    pub fn parse_volumes(catalog: &str) -> (r: Vec<Volume>)
        ensures
            r@.map_values(|v: Volume| v@) == qb_volumes(catalog@),
    {
        let sel = "div.box > h2, div.box > div.module-row-info";
        let elems = select_all(catalog, sel);
        let nested = select_first_nested(catalog, sel, "a.module-row-text", "span");
        let ghost ev = nodes_view(elems@);
        let ghost nv = nested@.map_values(|o: Option<(Node, Vec<Node>)>| nested_view(o));
        let mut volumes: Vec<Volume> = Vec::new();
        let mut name = String::new();
        let mut chapters: Vec<ChapterInfo> = Vec::new();
        let mut j: usize = 0;
        while j < elems.len()
            invariant
                j <= elems.len(),
                ev == nodes_view(elems@),
                nv == nested@.map_values(|o: Option<(Node, Vec<Node>)>| nested_view(o)),
                ({
                    let st = qb_fold(ev.take(j as int), nv);
                    &&& volumes@.map_values(|v: Volume| v@) == st.volumes
                    &&& name@ == st.name
                    &&& chapters_view(chapters@) == st.chapters
                }),
            decreases elems.len() - j,
        {
            assert(ev.take(j + 1).drop_last() =~= ev.take(j as int));
            assert(ev.take(j + 1).last() == elems@[j as int]@);
            let e = &elems[j];
            let class = attr_or_empty_exec(e, "class");
            if str_eq(e.tag.as_str(), "h2") && contains_exec(class.as_str(), "module-title") {
                if chapters.len() > 0 || !name.as_str().is_empty() {
                    let mut taken: Vec<ChapterInfo> = Vec::new();
                    std::mem::swap(&mut taken, &mut chapters);
                    let ghost prev = volumes@;
                    let nm = owned(name.as_str());
                    volumes.push(Volume { volume_name: nm, chapters: taken });
                    assert(volumes@.map_values(|v: Volume| v@) =~= prev.map_values(|v: Volume| v@).push(volumes@.last()@));
                }
                name = element_text(e);
                chapters = Vec::new();
                assert(chapters_view(chapters@) =~= Seq::<ChapterInfoView>::empty());
            } else if str_eq(e.tag.as_str(), "div") && contains_exec(class.as_str(), "module-row-info") {
                if j < nested.len() {
                    match &nested[j] {
                        Some((a, spans)) => {
                            assert(nv[j as int] == Some((a@, nodes_view(spans@))));
                            let href = attr_or_empty_exec(a, "href");
                            if !(str_eq(href.as_str(), "javascript:cid(0)") || href.as_str().is_empty()) {
                                let title = if spans.len() > 0 {
                                    element_text(&spans[0])
                                } else {
                                    String::new()
                                };
                                let seg = after_last_exec(href.as_str(), "/");
                                proof {
                                    reveal_strlit(".html");
                                    reveal_strlit("");
                                }
                                assert(""@ =~= Seq::<char>::empty());
                                let c = ChapterInfo {
                                    title,
                                    chapter_id: replace_exec(seg.as_str(), ".html", ""),
                                    url: normalize_url("https://www.23qb.com", href.as_str()),
                                };
                                let ghost c0 = chapters@;
                                chapters.push(c);
                                assert(chapters_view(chapters@) =~= chapters_view(c0).push(chapters@.last()@));
                            }
                        },
                        None => {
                            assert(nv[j as int] is None);
                        },
                    }
                }
            }
            j += 1;
        }
        assert(ev.take(j as int) =~= ev);
        if chapters.len() > 0 || !name.as_str().is_empty() {
            let ghost prev = volumes@;
            volumes.push(Volume { volume_name: name, chapters });
            assert(volumes@.map_values(|v: Volume| v@) =~= prev.map_values(|v: Volume| v@).push(volumes@.last()@));
        }
        volumes
    }

    /// Parses the info page and the catalog page of a book.
    pub fn parse_book_info(&self, info_html: &str, catalog_html: &str) -> (info: BookInfo)
        ensures
            info@ == qb_info(info_html@, catalog_html@),
    {
        let info = BookInfo {
            book_name: select_text(info_html, "h1.page-title"),
            author: select_attr(info_html, "a[href*=\"/author/\"]", "title"),
            summary: select_text(info_html, "div.novel-info-item.novel-info-content span"),
            cover_url: select_attr(info_html, "div.novel-cover img", "data-src"),
            serial_status: select_text(info_html, "a.tag-link"),
            update_time: String::new(),
            word_count: String::new(),
            volumes: Self::parse_volumes(catalog_html),
        };
        assert(info@.update_time =~= Seq::<char>::empty());
        assert(info@.word_count =~= Seq::<char>::empty());
        info
    }

    /// Parses a chapter page.
    pub fn parse_chapter(html: &str, chapter_id: &str) -> (ch: Chapter)
        ensures
            ch@ == (ChapterView {
                id: chapter_id@,
                title: sel_text(html@, "h1.article-title"@),
                content: cleaned(paragraphs(html_select(html@, "div.article-content p"@))),
            }),
    {
        let p = paragraphs_exec(html, "div.article-content p");
        Chapter { id: owned(chapter_id), title: select_text(html, "h1.article-title"), content: clean_content(p.as_str()) }
    }
}

} // verus!
