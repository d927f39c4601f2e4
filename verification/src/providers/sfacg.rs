//! SF轻小说 (m.sfacg.com): the mobile site. Chapters drawn as images for
//! subscribers are recognised and not decoded.

use vstd::prelude::*;

use crate::html::{
    element_text, html_select, html_text_nodes, node_text, nodes_view, or_else, sel_attr, sel_text,
    select_all, select_attr, select_text, select_text_nodes, NodeView,
};
use crate::markup::{html_to_text, spec_html_to_text, tidy, tidy_exec};
use crate::providers::common::{after_first, after_first_exec, chapters_view, collect, collect_chapters, id_by_rule, opt_chapter_view, IdRule};
use crate::text::{before_first, before_first_exec, concat, contains, contains_exec, owned, starts_with, starts_with_exec, trim, trim_exec};
use crate::types::{BookInfo, BookInfoView, Chapter, ChapterInfo, ChapterInfoView, ChapterView, Volume, VolumeView};

verus! {

/// The sfacg site.
pub struct SfacgProvider;

/// Site address.
pub open spec fn sf_base() -> Seq<char> {
    "https://m.sfacg.com"@
}

/// A chapter page: `{base}/c/{id}/`.
pub open spec fn sf_chapter_url(chapter_id: Seq<char>) -> Seq<char> {
    sf_base() + "/c/"@ + chapter_id + "/"@
}

/// A catalog link: its trimmed text and the last segment of its `href`; both
/// must be non-empty.
pub open spec fn sf_link(n: NodeView) -> Option<ChapterInfoView> {
    let href = match crate::html::attr_value(n.attrs, "href"@) {
        Some(h) => h,
        None => Seq::empty(),
    };
    let id = id_by_rule(IdRule::TrimmedSegment, href);
    let title = trim(node_text(n));
    if title.len() == 0 || id.len() == 0 {
        None
    } else {
        Some(ChapterInfoView { title, chapter_id: id, url: sf_chapter_url(id) })
    }
}

/// [`sf_link`] as a function value.
pub open spec fn sf_link_fn() -> spec_fn(NodeView) -> Option<ChapterInfoView> {
    |n: NodeView| sf_link(n)
}

/// The catalog: one volume holding every chapter link, named after the first
/// `div.mulu` heading (unnamed when there is none); nothing when there are no
/// chapters.
pub open spec fn sf_volumes(catalog: Seq<char>) -> Seq<VolumeView> {
    let chapters = collect(html_select(catalog, "ul.mulu_list a[href]"@), sf_link_fn());
    let heads = html_select(catalog, "div.mulu"@);
    if chapters.len() == 0 {
        Seq::empty()
    } else if heads.len() > 0 {
        seq![VolumeView { volume_name: trim(node_text(heads[0])), chapters }]
    } else {
        seq![VolumeView { volume_name: Seq::empty(), chapters }]
    }
}

/// The first two `/`-separated fields of `t`, trimmed, when there are two.
pub open spec fn sf_two_fields(t: Seq<char>) -> Option<(Seq<char>, Seq<char>)> {
    match after_first(t, "/"@) {
        Some(rest) => Some((trim(before_first(t, "/"@)), trim(before_first(rest, "/"@)))),
        None => None,
    }
}

/// The last text piece of the last `span.book_info3`, trimmed, when that
/// span has at least two pieces.
pub open spec fn sf_update(pieces: Seq<Seq<Seq<char>>>) -> Seq<char> {
    if pieces.len() > 0 && pieces.last().len() >= 2 {
        trim(pieces.last().last())
    } else {
        Seq::empty()
    }
}

/// A sfacg book: its info page and its catalog page.
pub open spec fn sf_info(info: Seq<char>, catalog: Seq<char>) -> BookInfoView {
    let fields = sf_two_fields(sel_text(info, "span.book_info3"@));
    let status_spans = html_select(info, "div.book_info2 span"@);
    let cover = sel_attr(info, "ul.book_info img"@, "src"@);
    BookInfoView {
        book_name: or_else(sel_text(info, "span.book_newtitle"@), sel_text(info, "h1"@)),
        author: match fields {
            Some((a, _)) => a,
            None => Seq::empty(),
        },
        summary: sel_text(info, "ul.book_profile li.book_bk_qs1"@),
        cover_url: if starts_with(cover, "//"@) {
            "https:"@ + cover
        } else {
            cover
        },
        serial_status: if status_spans.len() >= 2 {
            node_text(status_spans[1])
        } else {
            Seq::empty()
        },
        update_time: sf_update(html_text_nodes(info, "span.book_info3"@)),
        word_count: match fields {
            Some((_, w)) => w,
            None => Seq::empty(),
        },
        volumes: sf_volumes(catalog),
    }
}

/// Selector of the chapter title.
pub open spec fn sf_title_sel() -> Seq<char> {
    "ul.menu_top_list.book_view_top li:nth-child(2)"@
}

/// Whether a chapter page is one for subscribers only.
pub open spec fn sf_is_vip(html: Seq<char>) -> bool {
    contains(html, "/ajax/ashx/common.ashx"@) || contains(html, "本章为VIP章节"@)
}

/// A sfacg chapter page: subscriber-only pages get a notice for text;
/// others give the non-empty lines of the reading area.
pub open spec fn sf_chapter(html: Seq<char>, chapter_id: Seq<char>) -> ChapterView {
    let body = html_select(html, "div.yuedu.Content_Frame div"@);
    ChapterView {
        id: chapter_id,
        title: sel_text(html, sf_title_sel()),
        content: if sf_is_vip(html) {
            "[VIP章节，需要订阅]"@
        } else if body.len() > 0 {
            tidy(spec_html_to_text(body[0].inner_html))
        } else {
            Seq::empty()
        },
    }
}

fn sf_link_exec(n: &crate::html::Node) -> (r: Option<ChapterInfo>)
    ensures
        opt_chapter_view(r) == sf_link(n@),
{
    let href = match crate::html::node_attr(n, "href") {
        Some(h) => h,
        None => String::new(),
    };
    let id = crate::providers::common::chapter_id_by_rule(IdRule::TrimmedSegment, href.as_str());
    let t = element_text(n);
    let title = trim_exec(t.as_str());
    if title.as_str().is_empty() || id.as_str().is_empty() {
        None
    } else {
        let url = concat(concat("https://m.sfacg.com/c/", id.as_str()).as_str(), "/");
        proof {
            reveal_strlit("https://m.sfacg.com/c/");
            reveal_strlit("https://m.sfacg.com");
            reveal_strlit("/c/");
        }
        assert("https://m.sfacg.com/c/"@ =~= sf_base() + "/c/"@);
        Some(ChapterInfo { title, chapter_id: id, url })
    }
}

impl SfacgProvider {
    /// The site's identifier.
    pub fn name(&self) -> (r: &'static str)
        ensures
            r@ == "sfacg"@,
    {
        "sfacg"
    }

    /// The site's display name.
    pub fn display_name(&self) -> (r: &'static str)
        ensures
            r@ == "SF轻小说"@,
    {
        "SF轻小说"
    }

    /// The site's address.
    pub fn base_url(&self) -> (r: &'static str)
        ensures
            r@ == sf_base(),
    {
        "https://m.sfacg.com"
    }

    /// The info page: `{base}/b/{id}/`.
    pub fn info_url(&self, book_id: &str) -> (r: String)
        ensures
            r@ == sf_base() + "/b/"@ + book_id@ + "/"@,
    {
        concat(concat(concat(self.base_url(), "/b/").as_str(), book_id).as_str(), "/")
    }

    /// The catalog page: `{base}/i/{id}/`.
    pub fn catalog_url(&self, book_id: &str) -> (r: String)
        ensures
            r@ == sf_base() + "/i/"@ + book_id@ + "/"@,
    {
        concat(concat(concat(self.base_url(), "/i/").as_str(), book_id).as_str(), "/")
    }

    /// A chapter page: `{base}/c/{id}/`.
    pub fn chapter_url(&self, chapter_id: &str) -> (r: String)
        ensures
            r@ == sf_chapter_url(chapter_id@),
    {
        concat(concat(concat(self.base_url(), "/c/").as_str(), chapter_id).as_str(), "/")
    }

    /// The volumes of a catalog page.
    pub fn parse_volumes(&self, catalog: &str) -> (r: Vec<Volume>)
        ensures
            r@.map_values(|v: Volume| v@) == sf_volumes(catalog@),
    {
        let links = select_all(catalog, "ul.mulu_list a[href]");
        let chapters = collect_chapters(
            &links,
            (|n: &crate::html::Node| -> (r: Option<ChapterInfo>)
                ensures
                    opt_chapter_view(r) == sf_link(n@),
                { sf_link_exec(n) }),
            Ghost(sf_link_fn()),
        );
        let mut out: Vec<Volume> = Vec::new();
        if chapters.len() == 0 {
            assert(out@.map_values(|v: Volume| v@) =~= sf_volumes(catalog@));
            return out;
        }
        let heads = select_all(catalog, "div.mulu");
        let volume_name = if heads.len() > 0 {
            let t = element_text(&heads[0]);
            trim_exec(t.as_str())
        } else {
            String::new()
        };
        out.push(Volume { volume_name, chapters });
        assert(out@.map_values(|v: Volume| v@) =~= sf_volumes(catalog@));
        out
    }

    /// Parses the info page and the catalog page of a book.
    pub fn parse_book_info(&self, info_html: &str, catalog_html: &str) -> (info: BookInfo)
        ensures
            info@ == sf_info(info_html@, catalog_html@),
    {
        let mut book_name = select_text(info_html, "span.book_newtitle");
        if book_name.as_str().is_empty() {
            book_name = select_text(info_html, "h1");
        }
        let line = select_text(info_html, "span.book_info3");
        let mut author = String::new();
        let mut word_count = String::new();
        match after_first_exec(line.as_str(), "/") {
            Some(rest) => {
                let a = before_first_exec(line.as_str(), "/");
                author = trim_exec(a.as_str());
                let w = before_first_exec(rest.as_str(), "/");
                word_count = trim_exec(w.as_str());
            },
            None => {},
        }
        let pieces = select_text_nodes(info_html, "span.book_info3");
        let ghost pv = pieces@.map_values(|v: Vec<String>| v@.map_values(|t: String| t@));
        let mut update_time = String::new();
        if pieces.len() > 0 {
            let last = &pieces[pieces.len() - 1];
            assert(pv.last() == last@.map_values(|t: String| t@));
            if last.len() >= 2 {
                update_time = trim_exec(last[last.len() - 1].as_str());
            }
        }
        let spans = select_all(info_html, "div.book_info2 span");
        let serial_status = if spans.len() >= 2 {
            element_text(&spans[1])
        } else {
            String::new()
        };
        let cover = select_attr(info_html, "ul.book_info img", "src");
        let cover_url = if starts_with_exec(cover.as_str(), "//") {
            concat("https:", cover.as_str())
        } else {
            cover
        };
        let summary = select_text(info_html, "ul.book_profile li.book_bk_qs1");
        let volumes = self.parse_volumes(catalog_html);
        let info = BookInfo {
            book_name,
            author,
            summary,
            cover_url,
            serial_status,
            update_time,
            word_count,
            volumes,
        };
        assert(info@.author == sf_info(info_html@, catalog_html@).author);
        assert(info@.word_count == sf_info(info_html@, catalog_html@).word_count);
        assert(info@.serial_status == sf_info(info_html@, catalog_html@).serial_status);
        info
    }

    /// Parses a chapter page.
    pub fn parse_chapter(&self, html: &str, chapter_id: &str) -> (ch: Chapter)
        ensures
            ch@ == sf_chapter(html@, chapter_id@),
    {
        let title = select_text(html, "ul.menu_top_list.book_view_top li:nth-child(2)");
        if contains_exec(html, "/ajax/ashx/common.ashx") || contains_exec(html, "本章为VIP章节") {
            return Chapter { id: owned(chapter_id), title, content: owned("[VIP章节，需要订阅]") };
        }
        let body = select_all(html, "div.yuedu.Content_Frame div");
        let content = if body.len() > 0 {
            let t = html_to_text(body[0].inner_html.as_str());
            tidy_exec(t.as_str())
        } else {
            String::new()
        };
        Chapter { id: owned(chapter_id), title, content }
    }
}

} // verus!
