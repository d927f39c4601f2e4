//! 飞卢小说 (faloo): volumes in three fixed boxes, chapter pages at
//! `/{book}_{chapter}.html`.

use vstd::prelude::*;

use crate::html::{
    html_select, html_select_in, meta, meta_content, nodes_view, normalize_url, normalized_url,
    or_else, sel_attr, sel_text, select_all, select_attr, select_in, select_text, Node, NodeView,
};
use crate::markup::{html_to_text, spec_html_to_text};
use crate::providers::common::{
    chapters_view, collect, collect_chapters, opt_chapter_view, titled_link, titled_link_exec,
};
use crate::providers::lnovel::opt_volume_view;
use crate::text::{
    after_last, after_last_exec, before_first, before_first_exec, concat, contains,
    contains_exec, owned, starts_with, starts_with_exec,
};
use crate::types::{BookInfo, BookInfoView, Chapter, ChapterInfo, ChapterInfoView, ChapterView, Volume, VolumeView};

verus! {

/// The faloo site.
pub struct FalooProvider;

/// Site address.
pub open spec fn faloo_base() -> Seq<char> {
    "https://b.faloo.com"@
}

/// The chapter id in a link `…/{book}_{chapter}.html`: the last path
/// segment, before the first `.`, after the last `_`.
pub open spec fn faloo_id(h: Seq<char>) -> Seq<char> {
    after_last(before_first(after_last(h, "/"@), "."@), "_"@)
}

/// A chapter link of a volume box.
pub open spec fn faloo_link(n: NodeView) -> Option<ChapterInfoView> {
    match titled_link(n) {
        Some((h, t)) => Some(ChapterInfoView { title: t, chapter_id: faloo_id(h), url: normalized_url(faloo_base(), h) }),
        None => None,
    }
}

/// [`faloo_link`] as a function value.
pub open spec fn faloo_link_fn() -> spec_fn(NodeView) -> Option<ChapterInfoView> {
    |n: NodeView| faloo_link(n)
}

/// A fallback link: only links containing `{book_id}_`.
pub open spec fn faloo_fallback_link(book_id: Seq<char>, n: NodeView) -> Option<ChapterInfoView> {
    match titled_link(n) {
        Some((h, t)) => if contains(h, book_id + "_"@) {
            Some(ChapterInfoView { title: t, chapter_id: faloo_id(h), url: normalized_url(faloo_base(), h) })
        } else {
            None
        },
        None => None,
    }
}

/// [`faloo_fallback_link`] as a function value.
pub open spec fn faloo_fallback_fn(book_id: Seq<char>) -> spec_fn(NodeView) -> Option<ChapterInfoView> {
    |n: NodeView| faloo_fallback_link(book_id, n)
}

/// A volume named `name` for one box, when it has chapters.
pub open spec fn faloo_box(name: Seq<char>, links: Seq<NodeView>) -> Option<VolumeView> {
    let cs = collect(links, faloo_link_fn());
    if cs.len() > 0 {
        Some(VolumeView { volume_name: name, chapters: cs })
    } else {
        None
    }
}

/// [`faloo_box`] as a function value.
pub open spec fn faloo_box_fn(name: Seq<char>) -> spec_fn(Seq<NodeView>) -> Option<VolumeView> {
    |links: Seq<NodeView>| faloo_box(name, links)
}

/// Links looked for inside a volume box.
pub open spec fn faloo_links_sel() -> Seq<char> {
    "div.DivTable a[href], div[class*='DivTable'] a[href], a[href]"@
}

/// The volumes: one per box with chapters, boxes taken in the order
/// 作品相关, 正文, VIP正文; if none, one 正文 volume of the links that
/// contain `{book_id}_`, if any.
pub open spec fn faloo_volumes(html: Seq<char>, book_id: Seq<char>) -> Seq<VolumeView> {
    let v = collect(html_select_in(html, "div.C-L-T-C-Box1"@, faloo_links_sel()), faloo_box_fn("作品相关"@))
        + collect(html_select_in(html, "div#mulu, div.C-L-T-C-Box2"@, faloo_links_sel()), faloo_box_fn("正文"@))
        + collect(html_select_in(html, "div.C-L-T-C-Box3"@, faloo_links_sel()), faloo_box_fn("VIP正文"@));
    if v.len() > 0 {
        v
    } else {
        let fb = collect(html_select(html, "a[href]"@), faloo_fallback_fn(book_id));
        if fb.len() > 0 {
            seq![VolumeView { volume_name: "正文"@, chapters: fb }]
        } else {
            Seq::empty()
        }
    }
}

/// The cover: `og:image`, else the cover image; `//…` gets `https:`.
pub open spec fn faloo_cover(html: Seq<char>) -> Seq<char> {
    let c = or_else(meta(html, "og:image"@), sel_attr(html, "div.T-L-T-Img img"@, "src"@));
    if starts_with(c, "//"@) {
        "https:"@ + c
    } else {
        c
    }
}

/// A faloo book page.
pub open spec fn faloo_info(html: Seq<char>, book_id: Seq<char>) -> BookInfoView {
    BookInfoView {
        book_name: or_else(or_else(meta(html, "og:novel:book_name"@), sel_text(html, "#novelName"@)), sel_text(html, "h1"@)),
        author: or_else(meta(html, "og:novel:author"@), sel_text(html, "a.colorQianHui, a[class*='colorQianHui']"@)),
        summary: or_else(sel_text(html, "div.T-L-T-C-Box1 p"@), meta(html, "og:description"@)),
        cover_url: faloo_cover(html),
        serial_status: meta(html, "og:novel:status"@),
        update_time: meta(html, "og:novel:update_time"@),
        word_count: Seq::empty(),
        volumes: faloo_volumes(html, book_id),
    }
}

fn faloo_id_exec(h: &str) -> (r: String)
    ensures
        r@ == faloo_id(h@),
{
    let a = after_last_exec(h, "/");
    let b = before_first_exec(a.as_str(), ".");
    after_last_exec(b.as_str(), "_")
}

fn faloo_link_exec(n: &Node) -> (r: Option<ChapterInfo>)
    ensures
        opt_chapter_view(r) == faloo_link(n@),
{
    match titled_link_exec(n) {
        Some((href, title)) => Some(ChapterInfo {
            title,
            chapter_id: faloo_id_exec(href.as_str()),
            url: normalize_url("https://b.faloo.com", href.as_str()),
        }),
        None => None,
    }
}

fn faloo_fallback_exec(book_id: &str, n: &Node) -> (r: Option<ChapterInfo>)
    ensures
        opt_chapter_view(r) == faloo_fallback_link(book_id@, n@),
{
    match titled_link_exec(n) {
        Some((href, title)) => {
            let key = concat(book_id, "_");
            if !contains_exec(href.as_str(), key.as_str()) {
                return None;
            }
            Some(ChapterInfo {
                title,
                chapter_id: faloo_id_exec(href.as_str()),
                url: normalize_url("https://b.faloo.com", href.as_str()),
            })
        },
        None => None,
    }
}

/// The volumes named `name`, one per box that has chapters.
fn faloo_boxes(name: &str, groups: &Vec<Vec<Node>>) -> (r: Vec<Volume>)
    ensures
        r@.map_values(|v: Volume| v@) == collect(groups@.map_values(|g: Vec<Node>| nodes_view(g@)), faloo_box_fn(name@)),
{
    let ghost gv = groups@.map_values(|g: Vec<Node>| nodes_view(g@));
    let mut out: Vec<Volume> = Vec::new();
    let mut i: usize = 0;
    while i < groups.len()
        invariant
            i <= groups.len(),
            gv == groups@.map_values(|g: Vec<Node>| nodes_view(g@)),
            out@.map_values(|v: Volume| v@) == collect(gv.take(i as int), faloo_box_fn(name@)),
        decreases groups.len() - i,
    {
        proof {
            crate::providers::common::lemma_collect_step(gv, faloo_box_fn(name@), i as int);
        }
        assert(gv[i as int] == nodes_view(groups@[i as int]@));
        let chapters = collect_chapters(
            &groups[i],
            (|n: &Node| -> (r: Option<ChapterInfo>)
                ensures
                    opt_chapter_view(r) == faloo_link(n@),
                { faloo_link_exec(n) }),
            Ghost(faloo_link_fn()),
        );
        if chapters.len() > 0 {
            let ghost prev = out@;
            out.push(Volume { volume_name: owned(name), chapters });
            assert(out@.map_values(|v: Volume| v@) =~= prev.map_values(|v: Volume| v@).push(out@.last()@));
        }
        i += 1;
    }
    assert(gv.take(i as int) =~= gv);
    out
}

impl FalooProvider {
    /// The site's identifier.
    pub fn name(&self) -> (r: &'static str)
        ensures
            r@ == "faloo"@,
    {
        "faloo"
    }

    /// The site's display name.
    pub fn display_name(&self) -> (r: &'static str)
        ensures
            r@ == "飞卢小说"@,
    {
        "飞卢小说"
    }

    /// The site's address.
    pub fn base_url(&self) -> (r: &'static str)
        ensures
            r@ == faloo_base(),
    {
        "https://b.faloo.com"
    }

    /// The book page: `{base}/{id}.html`.
    pub fn book_url(&self, book_id: &str) -> (r: String)
        ensures
            r@ == faloo_base() + "/"@ + book_id@ + ".html"@,
    {
        concat(concat(concat(self.base_url(), "/").as_str(), book_id).as_str(), ".html")
    }

    /// The chapter page: `{base}/{book}_{chapter}.html`.
    pub fn chapter_url(&self, book_id: &str, chapter_id: &str) -> (r: String)
        ensures
            r@ == faloo_base() + "/"@ + book_id@ + "_"@ + chapter_id@ + ".html"@,
    {
        let a = concat(concat(concat(self.base_url(), "/").as_str(), book_id).as_str(), "_");
        concat(concat(a.as_str(), chapter_id).as_str(), ".html")
    }

    /// The volumes of a book page.
    pub fn parse_volumes(html: &str, book_id: &str) -> (r: Vec<Volume>)
        ensures
            r@.map_values(|v: Volume| v@) == faloo_volumes(html@, book_id@),
    {
        let links = "div.DivTable a[href], div[class*='DivTable'] a[href], a[href]";
        let g1 = select_in(html, "div.C-L-T-C-Box1", links);
        let g2 = select_in(html, "div#mulu, div.C-L-T-C-Box2", links);
        let g3 = select_in(html, "div.C-L-T-C-Box3", links);
        let mut v = faloo_boxes("作品相关", &g1);
        let mut v2 = faloo_boxes("正文", &g2);
        let mut v3 = faloo_boxes("VIP正文", &g3);
        let ghost a = v@;
        let ghost b = v2@;
        let ghost c = v3@;
        v.append(&mut v2);
        v.append(&mut v3);
        assert(v@ =~= a + b + c);
        assert(v@.map_values(|x: Volume| x@) =~= a.map_values(|x: Volume| x@) + b.map_values(|x: Volume| x@) + c.map_values(|x: Volume| x@));
        if v.len() > 0 {
            return v;
        }
        let all = select_all(html, "a[href]");
        let fb = collect_chapters(
            &all,
            (|n: &Node| -> (r: Option<ChapterInfo>)
                ensures
                    opt_chapter_view(r) == faloo_fallback_link(book_id@, n@),
                { faloo_fallback_exec(book_id, n) }),
            Ghost(faloo_fallback_fn(book_id@)),
        );
        let mut out: Vec<Volume> = Vec::new();
        if fb.len() > 0 {
            out.push(Volume { volume_name: owned("正文"), chapters: fb });
        }
        assert(out@.map_values(|x: Volume| x@) =~= faloo_volumes(html@, book_id@));
        out
    }

    /// Parses a book page.
    pub fn parse_book_info(&self, html: &str, book_id: &str) -> (info: BookInfo)
        ensures
            info@ == faloo_info(html@, book_id@),
    {
        let mut book_name = meta_content(html, "og:novel:book_name");
        if book_name.as_str().is_empty() {
            book_name = select_text(html, "#novelName");
        }
        if book_name.as_str().is_empty() {
            book_name = select_text(html, "h1");
        }
        let mut author = meta_content(html, "og:novel:author");
        if author.as_str().is_empty() {
            author = select_text(html, "a.colorQianHui, a[class*='colorQianHui']");
        }
        let mut cover_url = meta_content(html, "og:image");
        if cover_url.as_str().is_empty() {
            cover_url = select_attr(html, "div.T-L-T-Img img", "src");
        }
        if starts_with_exec(cover_url.as_str(), "//") {
            cover_url = concat("https:", cover_url.as_str());
        }
        let serial_status = meta_content(html, "og:novel:status");
        let update_time = meta_content(html, "og:novel:update_time");
        let mut summary = select_text(html, "div.T-L-T-C-Box1 p");
        if summary.as_str().is_empty() {
            summary = meta_content(html, "og:description");
        }
        let volumes = Self::parse_volumes(html, book_id);
        let info = BookInfo {
            book_name,
            author,
            summary,
            cover_url,
            serial_status,
            update_time,
            word_count: String::new(),
            volumes,
        };
        assert(info@.word_count =~= faloo_info(html@, book_id@).word_count);
        info
    }

    /// Parses a chapter page: title from the chapter heading (an empty
    /// heading stays empty), text of the content box.
    pub fn parse_chapter(&self, html: &str, chapter_id: &str) -> (ch: Chapter)
        ensures
            ch@ == (ChapterView {
                id: chapter_id@,
                title: sel_text(html@, "div.c_l_title h1"@),
                content: {
                    let ns = html_select(html@, "div.noveContent"@);
                    if ns.len() > 0 {
                        spec_html_to_text(ns[0].inner_html)
                    } else {
                        Seq::empty()
                    }
                },
            }),
    {
        let title = select_text(html, "div.c_l_title h1");
        let ns = select_all(html, "div.noveContent");
        let content = if ns.len() > 0 {
            html_to_text(ns[0].inner_html.as_str())
        } else {
            String::new()
        };
        Chapter { id: owned(chapter_id), title, content }
    }
}

} // verus!
