//! アルファポリス (alphapolis): book ids use `-` for `/`; the episode list
//! interleaves volume headers (`h3`) and episode entries (`div`).

use vstd::prelude::*;

use crate::html::{
    attr_value, element_text, first_text, html_select, html_select_fields, meta, meta_content, node_attr,
    node_text, nodes_view, normalize_url, normalized_url, or_else, sel_text, select_all, select_fields,
    select_text, strs_view, Node, NodeView,
};
use crate::markup::html_to_text;
use crate::providers::common::{inner_text_exec, item_nodes, items_view, sel_inner_text};
use crate::text::{after_last, after_last_exec, concat, contains, contains_exec, owned, replace_all, replace_exec, str_eq};
use crate::types::{BookInfo, BookInfoView, Chapter, ChapterInfo, ChapterInfoView, ChapterView, Volume, VolumeView};

verus! {

/// The alphapolis site.
pub struct AlphapolisProvider;

/// Site address.
pub open spec fn ap_base() -> Seq<char> {
    "https://www.alphapolis.co.jp"@
}

/// A book id with `-` standing for `/`.
pub open spec fn ap_normalized(book_id: Seq<char>) -> Seq<char> {
    replace_all(book_id, "-"@, "/"@)
}

/// Selector of the detail-table rows.
pub open spec fn ap_row_sel() -> Seq<char> {
    "table.detail tr, table[class*='detail'] tr"@
}

/// The text of the first cell of the last row that mentions `更新日時` and
/// has a cell; empty when there is none.
pub open spec fn ap_update(rows: Seq<NodeView>, cells: Seq<Seq<Seq<NodeView>>>) -> Seq<char>
    decreases rows.len(),
{
    if rows.len() == 0 {
        Seq::empty()
    } else {
        let k = rows.len() - 1;
        let tds = item_nodes(if k < cells.len() { cells[k] } else { Seq::empty() }, 0);
        if contains(node_text(rows.last()), "更新日時"@) && tds.len() > 0 {
            node_text(tds[0])
        } else {
            ap_update(rows.drop_last(), cells)
        }
    }
}

/// An episode entry (selections: its links, its `span.title`): the first link,
/// titled by the first `span.title` or else by the link's text; entries with
/// no link or an empty title give nothing.
pub open spec fn ap_entry(it: Seq<Seq<NodeView>>) -> Option<ChapterInfoView> {
    let links = item_nodes(it, 0);
    if links.len() == 0 {
        None
    } else {
        match attr_value(links[0].attrs, "href"@) {
            Some(h) => {
                let spans = item_nodes(it, 1);
                let t = if spans.len() > 0 {
                    node_text(spans[0])
                } else {
                    node_text(links[0])
                };
                if t.len() == 0 {
                    None
                } else {
                    Some(ChapterInfoView { title: t, chapter_id: after_last(h, "/"@), url: normalized_url(ap_base(), h) })
                }
            },
            None => None,
        }
    }
}

/// Volumes closed so far, the current volume name and its chapters.
pub struct ApState {
    pub volumes: Seq<VolumeView>,
    pub name: Seq<char>,
    pub chapters: Seq<ChapterInfoView>,
}

/// One child of the episode list: an `h3` closes the current volume (when it
/// has chapters) and names the next; a `div` adds its episode; others are
/// skipped.
pub open spec fn ap_step(st: ApState, elem: NodeView, it: Seq<Seq<NodeView>>) -> ApState {
    if elem.tag == "h3"@ {
        ApState {
            volumes: if st.chapters.len() > 0 {
                st.volumes.push(VolumeView { volume_name: st.name, chapters: st.chapters })
            } else {
                st.volumes
            },
            name: node_text(elem),
            chapters: Seq::empty(),
        }
    } else if elem.tag == "div"@ {
        match ap_entry(it) {
            Some(c) => ApState { chapters: st.chapters.push(c), ..st },
            None => st,
        }
    } else {
        st
    }
}

/// The episode list read child by child.
pub open spec fn ap_fold(elems: Seq<NodeView>, items: Seq<Seq<Seq<NodeView>>>) -> ApState
    decreases elems.len(),
{
    if elems.len() == 0 {
        ApState { volumes: Seq::empty(), name: Seq::empty(), chapters: Seq::empty() }
    } else {
        let k = elems.len() - 1;
        ap_step(ap_fold(elems.drop_last(), items), elems.last(), if k < items.len() { items[k] } else { Seq::empty() })
    }
}

/// Selector of the children of the episode list.
pub open spec fn ap_ep_sel() -> Seq<char> {
    "div.episodes > *"@
}

/// Selections made inside each child: links and titles.
pub open spec fn ap_ep_fields() -> Seq<Seq<char>> {
    seq!["a[href]"@, "span.title"@]
}

/// The volumes of a book page: the fold's volumes, with the last one closed
/// when it has chapters.
pub open spec fn ap_volumes(html: Seq<char>) -> Seq<VolumeView> {
    let st = ap_fold(html_select(html, ap_ep_sel()), html_select_fields(html, ap_ep_sel(), ap_ep_fields()));
    if st.chapters.len() > 0 {
        st.volumes.push(VolumeView { volume_name: st.name, chapters: st.chapters })
    } else {
        st.volumes
    }
}

/// An alphapolis book page.
pub open spec fn ap_info(html: Seq<char>) -> BookInfoView {
    BookInfoView {
        book_name: or_else(sel_text(html, "h1.title, h1[class*='title']"@), sel_text(html, "h1"@)),
        author: sel_text(html, "div.author a, div[class*='author'] a"@),
        summary: or_else(sel_text(html, "div.abstract"@), meta(html, "description"@)),
        cover_url: meta(html, "og:image"@),
        serial_status: Seq::empty(),
        update_time: ap_update(html_select(html, ap_row_sel()), html_select_fields(html, ap_row_sel(), seq!["td"@])),
        word_count: Seq::empty(),
        volumes: ap_volumes(html),
    }
}

fn ap_entry_exec(it: &Vec<Vec<Node>>) -> (r: Option<ChapterInfo>)
    ensures
        crate::providers::common::opt_chapter_view(r) == ap_entry(crate::html::groups_view(it@)),
{
    let ghost g = crate::html::groups_view(it@);
    if it.len() == 0 || it[0].len() == 0 {
        return None;
    }
    let a = &it[0][0];
    assert(g[0][0] == a@);
    match node_attr(a, "href") {
        Some(h) => {
            let title = if it.len() > 1 && it[1].len() > 0 {
                assert(g[1][0] == it@[1]@[0]@);
                element_text(&it[1][0])
            } else {
                element_text(a)
            };
            if title.as_str().is_empty() {
                return None;
            }
            Some(ChapterInfo {
                title,
                chapter_id: after_last_exec(h.as_str(), "/"),
                url: normalize_url("https://www.alphapolis.co.jp", h.as_str()),
            })
        },
        None => None,
    }
}

impl AlphapolisProvider {
    /// The site's identifier.
    pub fn name(&self) -> (r: &'static str)
        ensures
            r@ == "alphapolis"@,
    {
        "alphapolis"
    }

    /// The site's display name.
    pub fn display_name(&self) -> (r: &'static str)
        ensures
            r@ == "アルファポリス"@,
    {
        "アルファポリス"
    }

    /// The site's address.
    pub fn base_url(&self) -> (r: &'static str)
        ensures
            r@ == ap_base(),
    {
        "https://www.alphapolis.co.jp"
    }

    /// The site has no search.
    pub fn supports_search(&self) -> (r: bool)
        ensures
            !r,
    {
        false
    }

    /// A book id with `-` turned into `/`.
    pub fn normalize_book_id(book_id: &str) -> (r: String)
        ensures
            r@ == ap_normalized(book_id@),
    {
        proof {
            reveal_strlit("-");
        }
        replace_exec(book_id, "-", "/")
    }

    /// The book page: `{base}/novel/{normalized id}`.
    pub fn book_url(&self, book_id: &str) -> (r: String)
        ensures
            r@ == ap_base() + "/novel/"@ + ap_normalized(book_id@),
    {
        let n = Self::normalize_book_id(book_id);
        concat(concat(self.base_url(), "/novel/").as_str(), n.as_str())
    }

    /// A chapter page: `{base}/novel/{normalized id}/episode/{chapter}`.
    pub fn chapter_url(&self, book_id: &str, chapter_id: &str) -> (r: String)
        ensures
            r@ == ap_base() + "/novel/"@ + ap_normalized(book_id@) + "/episode/"@ + chapter_id@,
    {
        let n = Self::normalize_book_id(book_id);
        let a = concat(concat(concat(self.base_url(), "/novel/").as_str(), n.as_str()).as_str(), "/episode/");
        concat(a.as_str(), chapter_id)
    }

    /// The volumes of a book page.
    pub fn parse_volumes(&self, html: &str) -> (r: Vec<Volume>)
        ensures
            r@.map_values(|v: Volume| v@) == ap_volumes(html@),
    {
        let sel = "div.episodes > *";
        let elems = select_all(html, sel);
        let fields: Vec<&str> = vec!["a[href]", "span.title"];
        assert(strs_view(fields@) =~= ap_ep_fields());
        let items = select_fields(html, sel, &fields);
        let ghost ev = nodes_view(elems@);
        let ghost iv = items_view(items@);
        assert(iv =~= items@.map_values(|item: Vec<Vec<Node>>| crate::html::groups_view(item@)));
        let mut volumes: Vec<Volume> = Vec::new();
        let mut name = String::new();
        let mut chapters: Vec<ChapterInfo> = Vec::new();
        let empty: Vec<Vec<Node>> = Vec::new();
        let mut j: usize = 0;
        while j < elems.len()
            invariant
                j <= elems.len(),
                ev == nodes_view(elems@),
                iv == items_view(items@),
                empty@.len() == 0,
                ({
                    let st = ap_fold(ev.take(j as int), iv);
                    &&& volumes@.map_values(|v: Volume| v@) == st.volumes
                    &&& name@ == st.name
                    &&& crate::providers::common::chapters_view(chapters@) == st.chapters
                }),
            decreases elems.len() - j,
        {
            assert(ev.take(j + 1).drop_last() =~= ev.take(j as int));
            assert(ev.take(j + 1).last() == elems@[j as int]@);
            let e = &elems[j];
            if str_eq(e.tag.as_str(), "h3") {
                if chapters.len() > 0 {
                    let mut taken: Vec<ChapterInfo> = Vec::new();
                    std::mem::swap(&mut taken, &mut chapters);
                    let ghost prev = volumes@;
                    let nm = name.clone();
                    volumes.push(Volume { volume_name: nm, chapters: taken });
                    assert(volumes@.map_values(|v: Volume| v@) =~= prev.map_values(|v: Volume| v@).push(volumes@.last()@));
                }
                name = element_text(e);
                chapters = Vec::new();
                assert(crate::providers::common::chapters_view(chapters@) =~= Seq::<ChapterInfoView>::empty());
            } else if str_eq(e.tag.as_str(), "div") {
                let it: &Vec<Vec<Node>> = if j < items.len() {
                    &items[j]
                } else {
                    &empty
                };
                assert(crate::html::groups_view(it@) =~= (if j < iv.len() {
                    iv[j as int]
                } else {
                    Seq::empty()
                }));
                match ap_entry_exec(it) {
                    Some(c) => {
                        let ghost c0 = chapters@;
                        chapters.push(c);
                        assert(crate::providers::common::chapters_view(chapters@) =~= crate::providers::common::chapters_view(c0).push(chapters@.last()@));
                    },
                    None => {},
                }
            }
            j += 1;
        }
        assert(ev.take(j as int) =~= ev);
        if chapters.len() > 0 {
            let ghost prev = volumes@;
            volumes.push(Volume { volume_name: name, chapters });
            assert(volumes@.map_values(|v: Volume| v@) =~= prev.map_values(|v: Volume| v@).push(volumes@.last()@));
        }
        volumes
    }

    /// The last update time given by the detail table.
    fn parse_update(html: &str) -> (r: String)
        ensures
            r@ == ap_update(html_select(html@, ap_row_sel()), html_select_fields(html@, ap_row_sel(), seq!["td"@])),
    {
        let sel = "table.detail tr, table[class*='detail'] tr";
        let rows = select_all(html, sel);
        let fields: Vec<&str> = vec!["td"];
        assert(strs_view(fields@) =~= seq!["td"@]);
        let cells = select_fields(html, sel, &fields);
        let ghost rv = nodes_view(rows@);
        let ghost cv = items_view(cells@);
        assert(cv =~= cells@.map_values(|item: Vec<Vec<Node>>| crate::html::groups_view(item@)));
        let mut out = String::new();
        let mut j: usize = 0;
        while j < rows.len()
            invariant
                j <= rows.len(),
                rv == nodes_view(rows@),
                cv == items_view(cells@),
                out@ == ap_update(rv.take(j as int), cv),
            decreases rows.len() - j,
        {
            assert(rv.take(j + 1).drop_last() =~= rv.take(j as int));
            assert(rv.take(j + 1).last() == rows@[j as int]@);
            let t = element_text(&rows[j]);
            if contains_exec(t.as_str(), "更新日時") && j < cells.len() && cells[j].len() > 0 && cells[j][0].len() > 0 {
                assert(cv[j as int][0][0] == cells@[j as int]@[0]@[0]@);
                out = element_text(&cells[j][0][0]);
            } else {
                proof {
                    if contains(rv[j as int].text, "更新日時"@) {
                    }
                }
                assert(j < cells.len() ==> cv[j as int] == crate::html::groups_view(cells@[j as int]@));
            }
            j += 1;
        }
        assert(rv.take(j as int) =~= rv);
        out
    }

    /// Parses a book page.
    pub fn parse_book_info(&self, html: &str) -> (info: BookInfo)
        ensures
            info@ == ap_info(html@),
    {
        let mut book_name = select_text(html, "h1.title, h1[class*='title']");
        if book_name.as_str().is_empty() {
            book_name = select_text(html, "h1");
        }
        let mut summary = select_text(html, "div.abstract");
        if summary.as_str().is_empty() {
            summary = meta_content(html, "description");
        }
        let info = BookInfo {
            book_name,
            author: select_text(html, "div.author a, div[class*='author'] a"),
            summary,
            cover_url: meta_content(html, "og:image"),
            serial_status: String::new(),
            update_time: Self::parse_update(html),
            word_count: String::new(),
            volumes: self.parse_volumes(html),
        };
        assert(info@.serial_status =~= Seq::<char>::empty());
        assert(info@.word_count =~= Seq::<char>::empty());
        info
    }

    /// Parses a chapter page.
    pub fn parse_chapter(&self, html: &str, chapter_id: &str) -> (ch: Chapter)
        ensures
            ch@ == (ChapterView {
                id: chapter_id@,
                title: sel_text(html@, "h2.episode-title, h2[class*='episode-title']"@),
                content: sel_inner_text(html@, "#novelBody"@),
            }),
    {
        Chapter {
            id: owned(chapter_id),
            title: select_text(html, "h2.episode-title, h2[class*='episode-title']"),
            content: inner_text_exec(html, "#novelBody"),
        }
    }
}

} // verus!
