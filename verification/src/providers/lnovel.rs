//! 轻小说百科 (lnovel): metadata in `dl` term/description pairs, volumes in
//! accordion items, chapters at `/chapters-{id}`.

use vstd::prelude::*;

use crate::html::{
    attr_or_empty, element_text, group_text, group_text_exec, groups_view,
    html_select, html_select_fields, meta, meta_content, node_text, nodes_view, normalize_url,
    normalized_url, or_else, sel_text, select_all, select_fields, select_text,
    strs_view, Node, NodeView, html_nested, select_nested, with_inner_view,
};
use crate::markup::{html_to_text, spec_html_to_text};
use crate::providers::common::{
    chapters_view, collect, collect_chapters, items_view, nonempty_texts, nonempty_texts_exec,
    opt_chapter_view, titled_link, titled_link_exec,
};
use crate::text::{
    after_last, after_last_exec, before_first, before_first_exec, concat, contains,
    contains_exec, join, join_exec, owned, starts_with, starts_with_exec, str_eq,
};
use crate::types::{BookInfo, BookInfoView, Chapter, ChapterInfo, ChapterInfoView, ChapterView, Volume, VolumeView};

verus! {

/// The lnovel site.
pub struct LnovelProvider;

/// Site address.
pub open spec fn ln_base() -> Seq<char> {
    "https://lnovel.org"@
}

/// Metadata read from `dt`/`dd` pairs: author, update time, status, and the
/// label of the pending `dt`.
pub struct LnMeta {
    pub author: Seq<char>,
    pub update_time: Seq<char>,
    pub serial_status: Seq<char>,
    pub last_dt: Seq<char>,
}

/// One child element of a `dl`, with the links inside it: a `dt` sets the
/// pending label; a `dd` after a label fills the field that the label names
/// (the author from its first link, else its text) and clears the label.
pub open spec fn ln_meta_step(m: LnMeta, child: (NodeView, Seq<NodeView>)) -> LnMeta {
    let c = child.0;
    let links = child.1;
    if c.tag == "dt"@ {
        LnMeta { last_dt: node_text(c), ..m }
    } else if c.tag == "dd"@ && m.last_dt.len() > 0 {
        if contains(m.last_dt, "作者"@) {
            let a = if links.len() > 0 {
                node_text(links[0])
            } else {
                m.author
            };
            LnMeta { author: if a.len() == 0 { node_text(c) } else { a }, last_dt: Seq::empty(), ..m }
        } else if contains(m.last_dt, "更新"@) {
            LnMeta { update_time: node_text(c), last_dt: Seq::empty(), ..m }
        } else if contains(m.last_dt, "状态"@) {
            LnMeta { serial_status: node_text(c), last_dt: Seq::empty(), ..m }
        } else {
            LnMeta { last_dt: Seq::empty(), ..m }
        }
    } else {
        m
    }
}

/// The children of one `dl` read in order.
pub open spec fn ln_meta_children(m: LnMeta, cs: Seq<(NodeView, Seq<NodeView>)>) -> LnMeta
    decreases cs.len(),
{
    if cs.len() == 0 {
        m
    } else {
        ln_meta_step(ln_meta_children(m, cs.drop_last()), cs.last())
    }
}

/// All `dl` elements read in order; each starts without a pending label.
pub open spec fn ln_meta_all(m: LnMeta, dls: Seq<Seq<(NodeView, Seq<NodeView>)>>) -> LnMeta
    decreases dls.len(),
{
    if dls.len() == 0 {
        m
    } else {
        let prev = ln_meta_all(m, dls.drop_last());
        ln_meta_children(LnMeta { last_dt: Seq::empty(), ..prev }, dls.last())
    }
}

/// The id in a chapter link: after the last `chapters-`, before `?` and `#`.
pub open spec fn ln_volume_link(n: NodeView) -> Option<ChapterInfoView> {
    match titled_link(n) {
        Some((h, t)) => if contains(h, "chapters-"@) {
            Some(
                ChapterInfoView {
                    title: t,
                    chapter_id: before_first(before_first(after_last(h, "chapters-"@), "?"@), "#"@),
                    url: normalized_url(ln_base(), h),
                },
            )
        } else {
            None
        },
        None => None,
    }
}

/// [`ln_volume_link`] as a function value.
pub open spec fn ln_volume_link_fn() -> spec_fn(NodeView) -> Option<ChapterInfoView> {
    |n: NodeView| ln_volume_link(n)
}

/// A fallback chapter link: id after the last `chapters-`, before `?`.
pub open spec fn ln_fallback_link(n: NodeView) -> Option<ChapterInfoView> {
    match titled_link(n) {
        Some((h, t)) => Some(
            ChapterInfoView {
                title: t,
                chapter_id: before_first(after_last(h, "chapters-"@), "?"@),
                url: normalized_url(ln_base(), h),
            },
        ),
        None => None,
    }
}

/// [`ln_fallback_link`] as a function value.
pub open spec fn ln_fallback_fn() -> spec_fn(NodeView) -> Option<ChapterInfoView> {
    |n: NodeView| ln_fallback_link(n)
}

/// Selector of the volume blocks.
pub open spec fn ln_vol_sel() -> Seq<char> {
    "#volumes div.accordion-item, #volumes div[class*='accordion-item']"@
}

/// What is read in a volume block: its title, its links.
pub open spec fn ln_vol_fields() -> Seq<Seq<char>> {
    seq!["button, .accordion-header, h2"@, "a[href]"@]
}

/// The links of selection `k` of a block, or none.
pub open spec fn group_nodes(item: Seq<Seq<NodeView>>, k: int) -> Seq<NodeView> {
    if 0 <= k < item.len() {
        item[k]
    } else {
        Seq::empty()
    }
}

/// The volume of one block, when it has chapters.
pub open spec fn ln_volume(item: Seq<Seq<NodeView>>) -> Option<VolumeView> {
    let chapters = collect(group_nodes(item, 1), ln_volume_link_fn());
    if chapters.len() > 0 {
        Some(VolumeView { volume_name: group_text(item, 0), chapters })
    } else {
        None
    }
}

/// [`ln_volume`] as a function value.
pub open spec fn ln_volume_fn() -> spec_fn(Seq<Seq<NodeView>>) -> Option<VolumeView> {
    |it: Seq<Seq<NodeView>>| ln_volume(it)
}

/// The volumes: one per block with chapters; if none, one unnamed volume of
/// all chapter links, if there are any.
pub open spec fn ln_volumes(html: Seq<char>) -> Seq<VolumeView> {
    let vols = collect(html_select_fields(html, ln_vol_sel(), ln_vol_fields()), ln_volume_fn());
    if vols.len() > 0 {
        vols
    } else {
        let fb = collect(html_select(html, "a[href*='chapters-']"@), ln_fallback_fn());
        if fb.len() > 0 {
            seq![VolumeView { volume_name: Seq::empty(), chapters: fb }]
        } else {
            Seq::empty()
        }
    }
}

/// The cover from `og:image`, made absolute when it is not a full link.
pub open spec fn ln_cover(html: Seq<char>) -> Seq<char> {
    let c = meta(html, "og:image"@);
    if c.len() > 0 && !starts_with(c, "http"@) {
        normalized_url(ln_base(), c)
    } else {
        c
    }
}

/// For each `dl` of a page, its child elements (`:scope > *`), each with
/// the links (`a`) inside it.
pub open spec fn ln_dl_children(html: Seq<char>) -> Seq<Seq<(NodeView, Seq<NodeView>)>> {
    html_nested(html, "dl"@, ":scope > *"@, "a"@)
}

/// An lnovel book page.
pub open spec fn ln_info(html: Seq<char>) -> BookInfoView {
    let m = ln_meta_all(
        LnMeta { author: Seq::empty(), update_time: Seq::empty(), serial_status: Seq::empty(), last_dt: Seq::empty() },
        ln_dl_children(html),
    );
    BookInfoView {
        book_name: or_else(sel_text(html, "main h1"@), sel_text(html, "h1"@)),
        author: m.author,
        summary: or_else(sel_text(html, "p.my-2"@), meta(html, "description"@)),
        cover_url: ln_cover(html),
        serial_status: m.serial_status,
        update_time: m.update_time,
        word_count: Seq::empty(),
        volumes: ln_volumes(html),
    }
}

/// An lnovel chapter body: the non-empty paragraphs; when there are none
/// and the content element exists, the text of that element.
pub open spec fn ln_content(html: Seq<char>) -> Seq<char> {
    let ps = nonempty_texts(html_select(html, "#chaptersShowContent p"@));
    let box_ = html_select(html, "#chaptersShowContent"@);
    if ps.len() == 0 && box_.len() > 0 {
        spec_html_to_text(box_[0].inner_html)
    } else {
        join(ps, "\n"@)
    }
}

fn ln_volume_link_exec(n: &Node) -> (r: Option<ChapterInfo>)
    ensures
        opt_chapter_view(r) == ln_volume_link(n@),
{
    match titled_link_exec(n) {
        Some((href, title)) => {
            if !contains_exec(href.as_str(), "chapters-") {
                return None;
            }
            let a = after_last_exec(href.as_str(), "chapters-");
            let b = before_first_exec(a.as_str(), "?");
            let chapter_id = before_first_exec(b.as_str(), "#");
            Some(ChapterInfo { title, chapter_id, url: normalize_url("https://lnovel.org", href.as_str()) })
        },
        None => None,
    }
}

fn ln_fallback_exec(n: &Node) -> (r: Option<ChapterInfo>)
    ensures
        opt_chapter_view(r) == ln_fallback_link(n@),
{
    match titled_link_exec(n) {
        Some((href, title)) => {
            let a = after_last_exec(href.as_str(), "chapters-");
            let chapter_id = before_first_exec(a.as_str(), "?");
            Some(ChapterInfo { title, chapter_id, url: normalize_url("https://lnovel.org", href.as_str()) })
        },
        None => None,
    }
}

/// View of an optional volume.
pub open spec fn opt_volume_view(o: Option<Volume>) -> Option<VolumeView> {
    match o {
        Some(v) => Some(v@),
        None => None,
    }
}

fn ln_volume_exec(item: &Vec<Vec<Node>>) -> (r: Option<Volume>)
    ensures
        opt_volume_view(r) == ln_volume(groups_view(item@)),
{
    let empty: Vec<Node> = Vec::new();
    let links: &Vec<Node> = if 1 < item.len() {
        &item[1]
    } else {
        &empty
    };
    assert(nodes_view(links@) =~= group_nodes(groups_view(item@), 1));
    let chapters = collect_chapters(
        links,
        (|n: &Node| -> (r: Option<ChapterInfo>)
            ensures
                opt_chapter_view(r) == ln_volume_link(n@),
            { ln_volume_link_exec(n) }),
        Ghost(ln_volume_link_fn()),
    );
    if chapters.len() > 0 {
        Some(Volume { volume_name: group_text_exec(item, 0), chapters })
    } else {
        None
    }
}

impl LnovelProvider {
    /// The site's identifier.
    pub fn name(&self) -> (r: &'static str)
        ensures
            r@ == "lnovel"@,
    {
        "lnovel"
    }

    /// The site's display name.
    pub fn display_name(&self) -> (r: &'static str)
        ensures
            r@ == "轻小说百科"@,
    {
        "轻小说百科"
    }

    /// The site's address.
    pub fn base_url(&self) -> (r: &'static str)
        ensures
            r@ == ln_base(),
    {
        "https://lnovel.org"
    }

    /// The book page: `{base}/books-{id}`.
    pub fn book_url(&self, book_id: &str) -> (r: String)
        ensures
            r@ == ln_base() + "/books-"@ + book_id@,
    {
        concat(concat(self.base_url(), "/books-").as_str(), book_id)
    }

    /// The chapter page: `{base}/chapters-{id}`.
    pub fn chapter_url(&self, chapter_id: &str) -> (r: String)
        ensures
            r@ == ln_base() + "/chapters-"@ + chapter_id@,
    {
        concat(concat(self.base_url(), "/chapters-").as_str(), chapter_id)
    }

    /// Reads the `dt`/`dd` metadata of all `dl` elements.
    fn parse_meta(html: &str) -> (r: (String, String, String))
        ensures
            ({
                let m = ln_meta_all(
                    LnMeta { author: Seq::empty(), update_time: Seq::empty(), serial_status: Seq::empty(), last_dt: Seq::empty() },
                    ln_dl_children(html@),
                );
                r.0@ == m.author && r.1@ == m.update_time && r.2@ == m.serial_status
            }),
    {
        let dls = select_nested(html, "dl", ":scope > *", "a");
        let ghost dv = dls@.map_values(|v: Vec<(Node, Vec<Node>)>| v@.map_values(|p: (Node, Vec<Node>)| with_inner_view(p)));
        let mut author = String::new();
        let mut update_time = String::new();
        let mut serial_status = String::new();
        let mut d: usize = 0;
        while d < dls.len()
            invariant
                d <= dls.len(),
                dv == dls@.map_values(|v: Vec<(Node, Vec<Node>)>| v@.map_values(|p: (Node, Vec<Node>)| with_inner_view(p))),
                ({
                    let m = ln_meta_all(
                        LnMeta { author: Seq::empty(), update_time: Seq::empty(), serial_status: Seq::empty(), last_dt: Seq::empty() },
                        dv.take(d as int),
                    );
                    author@ == m.author && update_time@ == m.update_time && serial_status@ == m.serial_status
                }),
            decreases dls.len() - d,
        {
            assert(dv.take(d + 1).drop_last() =~= dv.take(d as int));
            assert(dv.take(d + 1).last() == dls@[d as int]@.map_values(|p: (Node, Vec<Node>)| with_inner_view(p)));
            let children = &dls[d];
            let ghost cv = children@.map_values(|p: (Node, Vec<Node>)| with_inner_view(p));
            let ghost start = LnMeta { author: author@, update_time: update_time@, serial_status: serial_status@, last_dt: Seq::empty() };
            let mut last_dt = String::new();
            let mut c: usize = 0;
            while c < children.len()
                invariant
                    c <= children.len(),
                    cv == children@.map_values(|p: (Node, Vec<Node>)| with_inner_view(p)),
                    ({
                        let m = ln_meta_children(start, cv.take(c as int));
                        author@ == m.author && update_time@ == m.update_time && serial_status@ == m.serial_status && last_dt@ == m.last_dt
                    }),
                decreases children.len() - c,
            {
                assert(cv.take(c + 1).drop_last() =~= cv.take(c as int));
                assert(cv.take(c + 1).last() == with_inner_view(children@[c as int]));
                let el = &children[c].0;
                let links = &children[c].1;
                if str_eq(el.tag.as_str(), "dt") {
                    last_dt = element_text(el);
                } else if str_eq(el.tag.as_str(), "dd") && !last_dt.as_str().is_empty() {
                    if contains_exec(last_dt.as_str(), "作者") {
                        if links.len() > 0 {
                            assert(nodes_view(links@)[0] == links@[0]@);
                            author = element_text(&links[0]);
                        }
                        if author.as_str().is_empty() {
                            author = element_text(el);
                        }
                    } else if contains_exec(last_dt.as_str(), "更新") {
                        update_time = element_text(el);
                    } else if contains_exec(last_dt.as_str(), "状态") {
                        serial_status = element_text(el);
                    }
                    last_dt = String::new();
                }
                c += 1;
            }
            assert(cv.take(c as int) =~= cv);
            d += 1;
        }
        assert(dv.take(d as int) =~= dv);
        (author, update_time, serial_status)
    }

    /// The volumes of a book page.
    pub fn parse_volumes(html: &str) -> (r: Vec<Volume>)
        ensures
            r@.map_values(|v: Volume| v@) == ln_volumes(html@),
    {
        let fields: Vec<&str> = vec!["button, .accordion-header, h2", "a[href]"];
        assert(strs_view(fields@) =~= ln_vol_fields());
        let items = select_fields(html, "#volumes div.accordion-item, #volumes div[class*='accordion-item']", &fields);
        let ghost iv = items_view(items@);
        assert(iv =~= items@.map_values(|item: Vec<Vec<Node>>| groups_view(item@)));
        let mut vols: Vec<Volume> = Vec::new();
        let mut i: usize = 0;
        while i < items.len()
            invariant
                i <= items.len(),
                iv == items_view(items@),
                vols@.map_values(|v: Volume| v@) == collect(iv.take(i as int), ln_volume_fn()),
            decreases items.len() - i,
        {
            proof {
                crate::providers::common::lemma_collect_step(iv, ln_volume_fn(), i as int);
            }
            assert(iv[i as int] == groups_view(items@[i as int]@));
            match ln_volume_exec(&items[i]) {
                Some(v) => {
                    let ghost prev = vols@;
                    vols.push(v);
                    assert(vols@.map_values(|v: Volume| v@) =~= prev.map_values(|v: Volume| v@).push(vols@.last()@));
                },
                None => {},
            }
            i += 1;
        }
        assert(iv.take(i as int) =~= iv);
        if vols.len() > 0 {
            return vols;
        }
        let links = select_all(html, "a[href*='chapters-']");
        let fb = collect_chapters(
            &links,
            (|n: &Node| -> (r: Option<ChapterInfo>)
                ensures
                    opt_chapter_view(r) == ln_fallback_link(n@),
                { ln_fallback_exec(n) }),
            Ghost(ln_fallback_fn()),
        );
        let mut out: Vec<Volume> = Vec::new();
        if fb.len() > 0 {
            out.push(Volume { volume_name: String::new(), chapters: fb });
        }
        assert(out@.map_values(|v: Volume| v@) =~= ln_volumes(html@));
        out
    }

    /// Parses a book page.
    pub fn parse_book_info(&self, html: &str) -> (info: BookInfo)
        ensures
            info@ == ln_info(html@),
    {
        let mut book_name = select_text(html, "main h1");
        if book_name.as_str().is_empty() {
            book_name = select_text(html, "h1");
        }
        let (author, update_time, serial_status) = Self::parse_meta(html);
        let mut cover_url = meta_content(html, "og:image");
        if !cover_url.as_str().is_empty() && !starts_with_exec(cover_url.as_str(), "http") {
            cover_url = normalize_url(self.base_url(), cover_url.as_str());
        }
        let mut summary = select_text(html, "p.my-2");
        if summary.as_str().is_empty() {
            summary = meta_content(html, "description");
        }
        let volumes = Self::parse_volumes(html);
        let info = BookInfo {
            book_name,
            author,
            summary,
            cover_url,
            serial_status,
            update_time,
            word_count: String::new(),
            volumes,
        };
        assert(info@.word_count =~= ln_info(html@).word_count);
        info
    }

    /// Parses a chapter page.
    pub fn parse_chapter(&self, html: &str, chapter_id: &str) -> (ch: Chapter)
        ensures
            ch@ == (ChapterView {
                id: chapter_id@,
                title: or_else(sel_text(html@, "main h1"@), sel_text(html@, "h1"@)),
                content: ln_content(html@),
            }),
    {
        let mut title = select_text(html, "main h1");
        if title.as_str().is_empty() {
            title = select_text(html, "h1");
        }
        let nodes = select_all(html, "#chaptersShowContent p");
        let ps = nonempty_texts_exec(&nodes);
        let content = if ps.len() == 0 {
            let box_ = select_all(html, "#chaptersShowContent");
            if box_.len() > 0 {
                html_to_text(box_[0].inner_html.as_str())
            } else {
                join_exec(&ps, "\n")
            }
        } else {
            join_exec(&ps, "\n")
        };
        Chapter { id: owned(chapter_id), title, content }
    }
}

} // verus!
