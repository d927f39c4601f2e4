//! 霹雳书屋 (pilibook): book ids use `-` for `/`; the table of contents is a
//! sequence of volume headers and chapter lists.

use vstd::prelude::*;

use crate::html::{
    attr_or_empty, attr_or_empty_exec, element_text, group_text, group_text_exec, html_select,
    html_select_fields, html_select_in, node_text, nodes_view, normalize_url, normalized_url,
    or_else, sel_attr, sel_text, select_all, select_attr, select_fields, select_in, select_text,
    strs_view, Node, NodeView,
};
use crate::providers::common::{
    absolute_cover, absolute_cover_exec, chapters_view, collect, collect_chapters,
    opt_chapter_view, paragraphs, paragraphs_exec, titled_link, titled_link_exec,
};
use crate::text::{
    after_last, after_last_exec, concat, contains, contains_exec, owned, replace_all,
    replace_exec, str_eq, trim_end_matches, trim_end_matches_exec,
};
use crate::types::{BookInfo, BookInfoView, Chapter, ChapterInfo, ChapterInfoView, ChapterView, Volume, VolumeView};

verus! {

/// The pilibook site.
pub struct PilibookProvider;

/// Site address.
pub open spec fn pili_base() -> Seq<char> {
    "https://www.pilibook.net"@
}

/// A book id with `-` standing for `/`.
pub open spec fn pili_normalized(book_id: Seq<char>) -> Seq<char> {
    replace_all(book_id, "-"@, "/"@)
}

/// A table-of-contents link: titled by its text; the id is what follows the
/// last `/read/` without `.html`, or the last path segment when that is empty.
pub open spec fn pili_link(n: NodeView) -> Option<ChapterInfoView> {
    match titled_link(n) {
        Some((h, t)) => {
            let cid = trim_end_matches(after_last(h, "/read/"@), ".html"@);
            Some(
                ChapterInfoView {
                    title: t,
                    chapter_id: if cid.len() == 0 {
                        after_last(trim_end_matches(h, ".html"@), "/"@)
                    } else {
                        cid
                    },
                    url: normalized_url(pili_base(), h),
                },
            )
        },
        None => None,
    }
}

/// [`pili_link`] as a function value.
pub open spec fn pili_link_fn() -> spec_fn(NodeView) -> Option<ChapterInfoView> {
    |n: NodeView| pili_link(n)
}

/// A fallback link: only `/read/` links, id = last path segment.
pub open spec fn pili_fallback_link(n: NodeView) -> Option<ChapterInfoView> {
    match titled_link(n) {
        Some((h, t)) => if contains(h, "/read/"@) {
            Some(
                ChapterInfoView {
                    title: t,
                    chapter_id: after_last(trim_end_matches(h, ".html"@), "/"@),
                    url: normalized_url(pili_base(), h),
                },
            )
        } else {
            None
        },
        None => None,
    }
}

/// [`pili_fallback_link`] as a function value.
pub open spec fn pili_fallback_fn() -> spec_fn(NodeView) -> Option<ChapterInfoView> {
    |n: NodeView| pili_fallback_link(n)
}

/// Volumes found so far, the current volume name and its chapters.
pub struct PiliState {
    pub volumes: Seq<VolumeView>,
    pub name: Seq<char>,
    pub chapters: Seq<ChapterInfoView>,
}

/// The links inside element `j`, or none.
pub open spec fn links_at(groups: Seq<Seq<NodeView>>, j: int) -> Seq<NodeView> {
    if 0 <= j < groups.len() {
        groups[j]
    } else {
        Seq::empty()
    }
}

/// One element of the table of contents: a volume header closes the current
/// volume (when it has chapters) and names the next; a chapter list adds its
/// links; anything else is skipped.
pub open spec fn pili_step(st: PiliState, elem: NodeView, links: Seq<NodeView>) -> PiliState {
    let class = attr_or_empty(elem, "class"@);
    if contains(class, "vloume"@) || contains(class, "volume"@) {
        PiliState {
            volumes: if st.chapters.len() > 0 {
                st.volumes.push(VolumeView { volume_name: st.name, chapters: st.chapters })
            } else {
                st.volumes
            },
            name: node_text(elem),
            chapters: Seq::empty(),
        }
    } else if contains(class, "chapter-page-new"@) || elem.tag == "ol"@ {
        PiliState { chapters: st.chapters + collect(links, pili_link_fn()), ..st }
    } else {
        st
    }
}

/// The table of contents read element by element.
pub open spec fn pili_fold(elems: Seq<NodeView>, groups: Seq<Seq<NodeView>>) -> PiliState
    decreases elems.len(),
{
    if elems.len() == 0 {
        PiliState { volumes: Seq::empty(), name: Seq::empty(), chapters: Seq::empty() }
    } else {
        pili_step(pili_fold(elems.drop_last(), groups), elems.last(), links_at(groups, elems.len() - 1))
    }
}

/// Selector of the table-of-contents elements.
pub open spec fn pili_toc_sel() -> Seq<char> {
    "div.works-chapter-list-wr > *, div[class*='works-chapter-list-wr'] > *"@
}

/// The volumes of a table-of-contents page: the volumes read element by
/// element with the last one closed; if there are none, one unnamed volume
/// of all `/read/` links, if there are any.
pub open spec fn pili_volumes(catalog: Seq<char>) -> Seq<VolumeView> {
    let st = pili_fold(html_select(catalog, pili_toc_sel()), html_select_in(catalog, pili_toc_sel(), "a[href]"@));
    let vols = if st.chapters.len() > 0 {
        st.volumes.push(VolumeView { volume_name: st.name, chapters: st.chapters })
    } else {
        st.volumes
    };
    if vols.len() > 0 {
        vols
    } else {
        let fb = collect(html_select(catalog, "ol a[href], li a[href]"@), pili_fallback_fn());
        if fb.len() > 0 {
            seq![VolumeView { volume_name: Seq::empty(), chapters: fb }]
        } else {
            Seq::empty()
        }
    }
}

/// Selector of the entries of the update log.
pub open spec fn pili_log_sel() -> Seq<char> {
    "ul.works-chapter-log li, ul[class*='works-chapter-log'] li"@
}

/// Selector of the date inside a log entry.
pub open spec fn pili_log_date_sel() -> Seq<char> {
    "span.ui-text-gray6, span[class*='ui-text-gray6']"@
}

/// The date of the first log entry mentioning the latest chapter, or empty.
pub open spec fn pili_update(entries: Seq<NodeView>, dates: Seq<Seq<Seq<NodeView>>>) -> Seq<char>
    decreases entries.len(),
{
    if entries.len() == 0 {
        Seq::empty()
    } else if contains(node_text(entries[0]), "最新章"@) {
        if dates.len() > 0 {
            group_text(dates[0], 0)
        } else {
            Seq::empty()
        }
    } else {
        pili_update(entries.skip(1), if dates.len() > 0 { dates.skip(1) } else { dates })
    }
}

/// A pilibook book: the info page gives name, author, status, cover, summary
/// and last update; the table-of-contents page gives the volumes.
pub open spec fn pili_info(info: Seq<char>, catalog: Seq<char>) -> BookInfoView {
    BookInfoView {
        book_name: or_else(
            sel_text(info, "h2.works-intro-title strong, h2[class*='works-intro-title'] strong"@),
            sel_text(info, "h2.works-intro-title, h1"@),
        ),
        author: sel_text(info, "a.works-author-name, a[class*='works-author-name']"@),
        summary: sel_text(info, "p.works-intro-short, p[class*='works-intro-short']"@),
        cover_url: absolute_cover(
            pili_base(),
            sel_attr(info, "div.works-cover img, div[class*='works-cover'] img"@, "src"@),
        ),
        serial_status: sel_text(info, "label.works-intro-status, label[class*='works-intro-status']"@),
        update_time: pili_update(
            html_select(info, pili_log_sel()),
            crate::html::html_select_fields(info, pili_log_sel(), seq![pili_log_date_sel()]),
        ),
        word_count: Seq::empty(),
        volumes: pili_volumes(catalog),
    }
}

fn pili_link_exec(n: &Node) -> (r: Option<ChapterInfo>)
    ensures
        opt_chapter_view(r) == pili_link(n@),
{
    match titled_link_exec(n) {
        Some((href, title)) => {
            let a = after_last_exec(href.as_str(), "/read/");
            let cid = trim_end_matches_exec(a.as_str(), ".html");
            let chapter_id = if cid.as_str().is_empty() {
                let t = trim_end_matches_exec(href.as_str(), ".html");
                after_last_exec(t.as_str(), "/")
            } else {
                cid
            };
            Some(ChapterInfo { title, chapter_id, url: normalize_url("https://www.pilibook.net", href.as_str()) })
        },
        None => None,
    }
}

fn pili_fallback_exec(n: &Node) -> (r: Option<ChapterInfo>)
    ensures
        opt_chapter_view(r) == pili_fallback_link(n@),
{
    match titled_link_exec(n) {
        Some((href, title)) => {
            if !contains_exec(href.as_str(), "/read/") {
                return None;
            }
            let t = trim_end_matches_exec(href.as_str(), ".html");
            let chapter_id = after_last_exec(t.as_str(), "/");
            Some(ChapterInfo { title, chapter_id, url: normalize_url("https://www.pilibook.net", href.as_str()) })
        },
        None => None,
    }
}

impl PilibookProvider {
    /// The site's identifier.
    pub fn name(&self) -> (r: &'static str)
        ensures
            r@ == "pilibook"@,
    {
        "pilibook"
    }

    /// The site's display name.
    pub fn display_name(&self) -> (r: &'static str)
        ensures
            r@ == "霹雳书屋"@,
    {
        "霹雳书屋"
    }

    /// The site's address.
    pub fn base_url(&self) -> (r: &'static str)
        ensures
            r@ == pili_base(),
    {
        "https://www.pilibook.net"
    }

    /// A book id with `-` turned into `/`.
    pub fn normalize_book_id(book_id: &str) -> (r: String)
        ensures
            r@ == pili_normalized(book_id@),
    {
        proof {
            reveal_strlit("-");
        }
        replace_exec(book_id, "-", "/")
    }

    /// The info page: `{base}/{normalized id}/info.html`.
    pub fn info_url(&self, book_id: &str) -> (r: String)
        ensures
            r@ == pili_base() + "/"@ + pili_normalized(book_id@) + "/info.html"@,
    {
        let n = Self::normalize_book_id(book_id);
        concat(concat(concat(self.base_url(), "/").as_str(), n.as_str()).as_str(), "/info.html")
    }

    /// The table-of-contents page: `{base}/{normalized id}/menu/1.html`.
    pub fn catalog_url(&self, book_id: &str) -> (r: String)
        ensures
            r@ == pili_base() + "/"@ + pili_normalized(book_id@) + "/menu/1.html"@,
    {
        let n = Self::normalize_book_id(book_id);
        concat(concat(concat(self.base_url(), "/").as_str(), n.as_str()).as_str(), "/menu/1.html")
    }

    /// A chapter page: `{base}/{normalized id}/read/{chapter}.html`.
    pub fn chapter_url(&self, book_id: &str, chapter_id: &str) -> (r: String)
        ensures
            r@ == pili_base() + "/"@ + pili_normalized(book_id@) + "/read/"@ + chapter_id@ + ".html"@,
    {
        let n = Self::normalize_book_id(book_id);
        let a = concat(concat(concat(self.base_url(), "/").as_str(), n.as_str()).as_str(), "/read/");
        concat(concat(a.as_str(), chapter_id).as_str(), ".html")
    }

    /// The volumes of a table-of-contents page.
    pub fn parse_volumes(&self, catalog: &str) -> (r: Vec<Volume>)
        ensures
            r@.map_values(|v: Volume| v@) == pili_volumes(catalog@),
    {
        let toc = "div.works-chapter-list-wr > *, div[class*='works-chapter-list-wr'] > *";
        let elems = select_all(catalog, toc);
        let groups = select_in(catalog, toc, "a[href]");
        let ghost ev = nodes_view(elems@);
        let ghost gv = groups@.map_values(|v: Vec<Node>| nodes_view(v@));
        let mut volumes: Vec<Volume> = Vec::new();
        let mut name = String::new();
        let mut chapters: Vec<ChapterInfo> = Vec::new();
        let mut j: usize = 0;
        while j < elems.len()
            invariant
                j <= elems.len(),
                ev == nodes_view(elems@),
                gv == groups@.map_values(|v: Vec<Node>| nodes_view(v@)),
                ({
                    let st = pili_fold(ev.take(j as int), gv);
                    &&& volumes@.map_values(|v: Volume| v@) == st.volumes
                    &&& name@ == st.name
                    &&& chapters_view(chapters@) == st.chapters
                }),
            decreases elems.len() - j,
        {
            assert(ev.take(j + 1).drop_last() =~= ev.take(j as int));
            assert(ev.take(j + 1).last() == elems@[j as int]@);
            let e = &elems[j];
            let class = attr_or_empty_exec(e, "class");
            if contains_exec(class.as_str(), "vloume") || contains_exec(class.as_str(), "volume") {
                if chapters.len() > 0 {
                    let mut taken: Vec<ChapterInfo> = Vec::new();
                    std::mem::swap(&mut taken, &mut chapters);
                    let ghost prev = volumes@;
                    let nm = name.clone();
                    volumes.push(Volume { volume_name: nm, chapters: taken });
                    assert(volumes@.map_values(|v: Volume| v@) =~= prev.map_values(|v: Volume| v@).push(volumes@.last()@));
                }
                name = element_text(e);
                chapters = Vec::new();
                assert(chapters_view(chapters@) =~= Seq::<ChapterInfoView>::empty());
            } else if contains_exec(class.as_str(), "chapter-page-new") || str_eq(e.tag.as_str(), "ol") {
                let empty: Vec<Node> = Vec::new();
                let links: &Vec<Node> = if j < groups.len() {
                    &groups[j]
                } else {
                    &empty
                };
                assert(nodes_view(links@) =~= links_at(gv, j as int));
                let mut found = collect_chapters(
                    links,
                    (|n: &Node| -> (r: Option<ChapterInfo>)
                        ensures
                            opt_chapter_view(r) == pili_link(n@),
                        { pili_link_exec(n) }),
                    Ghost(pili_link_fn()),
                );
                let ghost before = chapters_view(chapters@);
                let ghost added = chapters_view(found@);
                let ghost c0 = chapters@;
                let ghost f0 = found@;
                chapters.append(&mut found);
                assert(chapters@ =~= c0 + f0);
                assert(chapters_view(chapters@) =~= before + added);
            }
            j += 1;
        }
        assert(ev.take(j as int) =~= ev);
        if chapters.len() > 0 {
            let ghost prev = volumes@;
            volumes.push(Volume { volume_name: name, chapters });
            assert(volumes@.map_values(|v: Volume| v@) =~= prev.map_values(|v: Volume| v@).push(volumes@.last()@));
        }
        if volumes.len() > 0 {
            return volumes;
        }
        let links = select_all(catalog, "ol a[href], li a[href]");
        let fb = collect_chapters(
            &links,
            (|n: &Node| -> (r: Option<ChapterInfo>)
                ensures
                    opt_chapter_view(r) == pili_fallback_link(n@),
                { pili_fallback_exec(n) }),
            Ghost(pili_fallback_fn()),
        );
        let mut out: Vec<Volume> = Vec::new();
        if fb.len() > 0 {
            out.push(Volume { volume_name: String::new(), chapters: fb });
        }
        assert(out@.map_values(|v: Volume| v@) =~= pili_volumes(catalog@));
        out
    }

    /// The date of the first update-log entry that mentions the latest chapter.
    fn parse_update(info: &str) -> (r: String)
        ensures
            r@ == pili_update(
                html_select(info@, pili_log_sel()),
                html_select_fields(info@, pili_log_sel(), seq![pili_log_date_sel()]),
            ),
    {
        let log = "ul.works-chapter-log li, ul[class*='works-chapter-log'] li";
        let entries = select_all(info, log);
        let fields: Vec<&str> = vec!["span.ui-text-gray6, span[class*='ui-text-gray6']"];
        assert(strs_view(fields@) =~= seq![pili_log_date_sel()]);
        let dates = select_fields(info, log, &fields);
        let ghost ev = nodes_view(entries@);
        let ghost dv = crate::providers::common::items_view(dates@);
        assert(dv =~= dates@.map_values(|item: Vec<Vec<Node>>| crate::html::groups_view(item@)));
        let mut j: usize = 0;
        assert(ev.skip(0) =~= ev);
        assert(dv.skip(0) =~= dv);
        while j < entries.len()
            invariant
                j <= entries.len(),
                ev == nodes_view(entries@),
                dv == crate::providers::common::items_view(dates@),
                ev == html_select(info@, pili_log_sel()),
                dv == html_select_fields(info@, pili_log_sel(), seq![pili_log_date_sel()]),
                pili_update(ev, dv) == pili_update(
                    ev.skip(j as int),
                    if j <= dv.len() {
                        dv.skip(j as int)
                    } else {
                        Seq::empty()
                    },
                ),
            decreases entries.len() - j,
        {
            assert(ev.skip(j as int)[0] == entries@[j as int]@);
            assert(ev.skip(j as int).skip(1) =~= ev.skip(j + 1));
            let t = element_text(&entries[j]);
            if contains_exec(t.as_str(), "最新章") {
                if j < dates.len() {
                    assert(dv.skip(j as int)[0] == crate::html::groups_view(dates@[j as int]@));
                    return group_text_exec(&dates[j], 0);
                } else {
                    return String::new();
                }
            }
            proof {
                if j < dv.len() {
                    assert(dv.skip(j as int).skip(1) =~= dv.skip(j + 1));
                } else if j == dv.len() {
                    assert(dv.skip(j as int) =~= Seq::<Seq<Seq<NodeView>>>::empty());
                }
            }
            j += 1;
        }
        String::new()
    }

    /// Parses the info page and the table-of-contents page of a book.
    pub fn parse_book_info(&self, info_html: &str, catalog_html: &str) -> (info: BookInfo)
        ensures
            info@ == pili_info(info_html@, catalog_html@),
    {
        let mut book_name = select_text(info_html, "h2.works-intro-title strong, h2[class*='works-intro-title'] strong");
        if book_name.as_str().is_empty() {
            book_name = select_text(info_html, "h2.works-intro-title, h1");
        }
        let author = select_text(info_html, "a.works-author-name, a[class*='works-author-name']");
        let serial_status = select_text(info_html, "label.works-intro-status, label[class*='works-intro-status']");
        let cover = select_attr(info_html, "div.works-cover img, div[class*='works-cover'] img", "src");
        let cover_url = absolute_cover_exec(self.base_url(), cover);
        let summary = select_text(info_html, "p.works-intro-short, p[class*='works-intro-short']");
        let update_time = Self::parse_update(info_html);
        let volumes = self.parse_volumes(catalog_html);
        let info = BookInfo {
            book_name,
            author,
            summary,
            cover_url,
            serial_status,
            update_time,
            word_count: String::new(),
            volumes,
        };
        assert(info@.word_count =~= pili_info(info_html@, catalog_html@).word_count);
        info
    }

    /// Parses a chapter page: title from the chapter-name heading, text from
    /// the non-empty paragraphs of the reading area.
    pub fn parse_chapter(&self, html: &str, chapter_id: &str) -> (ch: Chapter)
        ensures
            ch@ == (ChapterView {
                id: chapter_id@,
                title: or_else(
                    sel_text(html@, "h3.j_chapterName span, h3[class*='j_chapterName'] span"@),
                    sel_text(html@, "h3.j_chapterName, h1"@),
                ),
                content: paragraphs(html_select(html@, "div.j_readContent p, div[class*='j_readContent'] p"@)),
            }),
    {
        let mut title = select_text(html, "h3.j_chapterName span, h3[class*='j_chapterName'] span");
        if title.as_str().is_empty() {
            title = select_text(html, "h3.j_chapterName, h1");
        }
        let content = paragraphs_exec(html, "div.j_readContent p, div[class*='j_readContent'] p");
        Chapter { id: owned(chapter_id), title, content }
    }
}

} // verus!
