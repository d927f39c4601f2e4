//! 暁 (akatsuki-novels): a story index page with a chapter table, and story
//! view pages.

use vstd::prelude::*;

use crate::html::{html_select, html_select_in, normalize_url, normalized_url, sel_text, select_all, select_text, Node, NodeView};
use crate::providers::common::{
    after_first, after_first_exec, collect, collect_chapters, field_of_first_containing,
    field_of_first_containing_exec, inner_text_exec, opt_chapter_view, sel_inner_text, titled_link, titled_link_exec,
};
use crate::text::{before_first, before_first_exec, concat, owned};
use crate::types::{BookInfo, BookInfoView, Chapter, ChapterInfo, ChapterInfoView, ChapterView, Volume, VolumeView};

verus! {

/// The akatsuki-novels site.
pub struct AkatsukiNovelsProvider;

/// Site address.
pub open spec fn ak_base() -> Seq<char> {
    "https://www.akatsuki-novels.com"@
}

/// The chapter id in a story link `/stories/view/{id}/novel_id~{book}`: what
/// follows the first `/stories/view/` up to the next `/`; empty when the
/// marker is absent.
pub open spec fn ak_chapter_id(h: Seq<char>) -> Seq<char> {
    match after_first(h, "/stories/view/"@) {
        Some(r) => before_first(r, "/"@),
        None => Seq::empty(),
    }
}

/// A chapter-table link: titled by its text; skipped when it has no title or
/// no chapter id.
pub open spec fn ak_link(n: NodeView) -> Option<ChapterInfoView> {
    match titled_link(n) {
        Some((h, t)) => if ak_chapter_id(h).len() > 0 {
            Some(ChapterInfoView { title: t, chapter_id: ak_chapter_id(h), url: normalized_url(ak_base(), h) })
        } else {
            None
        },
        None => None,
    }
}

/// [`ak_link`] as a function value.
pub open spec fn ak_link_fn() -> spec_fn(NodeView) -> Option<ChapterInfoView> {
    |n: NodeView| ak_link(n)
}

/// The volumes of a story index: one volume `正文` of the table's chapters,
/// when there are any.
pub open spec fn ak_volumes(html: Seq<char>) -> Seq<VolumeView> {
    let cs = collect(html_select(html, "table.list tbody tr td:first-child a[href]"@), ak_link_fn());
    if cs.len() > 0 {
        seq![VolumeView { volume_name: "正文"@, chapters: cs }]
    } else {
        Seq::empty()
    }
}

/// A story index page.
pub open spec fn ak_info(html: Seq<char>) -> BookInfoView {
    BookInfoView {
        book_name: sel_text(html, "h3.font-bb a"@),
        author: field_of_first_containing(html_select(html, "h3.font-bb"@), html_select_in(html, "h3.font-bb"@, "a"@), "作者"@),
        summary: sel_text(html, "div.body-x1.body-normal.body-w640 div div"@),
        cover_url: Seq::empty(),
        serial_status: Seq::empty(),
        update_time: Seq::empty(),
        word_count: Seq::empty(),
        volumes: ak_volumes(html),
    }
}

fn ak_link_exec(n: &Node) -> (r: Option<ChapterInfo>)
    ensures
        opt_chapter_view(r) == ak_link(n@),
{
    match titled_link_exec(n) {
        Some((href, title)) => {
            let cid = match after_first_exec(href.as_str(), "/stories/view/") {
                Some(r) => before_first_exec(r.as_str(), "/"),
                None => String::new(),
            };
            if cid.as_str().is_empty() {
                return None;
            }
            Some(ChapterInfo { title, chapter_id: cid, url: normalize_url("https://www.akatsuki-novels.com", href.as_str()) })
        },
        None => None,
    }
}

impl AkatsukiNovelsProvider {
    /// The site's identifier.
    pub fn name(&self) -> (r: &'static str)
        ensures
            r@ == "akatsuki_novels"@,
    {
        "akatsuki_novels"
    }

    /// The site's display name.
    pub fn display_name(&self) -> (r: &'static str)
        ensures
            r@ == "暁 - Akatsuki Novels"@,
    {
        "暁 - Akatsuki Novels"
    }

    /// The site's address.
    pub fn base_url(&self) -> (r: &'static str)
        ensures
            r@ == ak_base(),
    {
        "https://www.akatsuki-novels.com"
    }

    /// The site has no search.
    pub fn supports_search(&self) -> (r: bool)
        ensures
            !r,
    {
        false
    }

    /// The story index: `{base}/stories/index/novel_id~{id}`.
    pub fn book_url(&self, book_id: &str) -> (r: String)
        ensures
            r@ == ak_base() + "/stories/index/novel_id~"@ + book_id@,
    {
        concat(concat(self.base_url(), "/stories/index/novel_id~").as_str(), book_id)
    }

    /// A story view: `{base}/stories/view/{chapter}/novel_id~{book}`.
    pub fn chapter_url(&self, book_id: &str, chapter_id: &str) -> (r: String)
        ensures
            r@ == ak_base() + "/stories/view/"@ + chapter_id@ + "/novel_id~"@ + book_id@,
    {
        let a = concat(concat(self.base_url(), "/stories/view/").as_str(), chapter_id);
        concat(concat(a.as_str(), "/novel_id~").as_str(), book_id)
    }

    /// Parses a story index page.
    pub fn parse_book_info(&self, html: &str) -> (info: BookInfo)
        ensures
            info@ == ak_info(html@),
    {
        let links = select_all(html, "table.list tbody tr td:first-child a[href]");
        let chapters = collect_chapters(
            &links,
            (|n: &Node| -> (r: Option<ChapterInfo>)
                ensures
                    opt_chapter_view(r) == ak_link(n@),
                { ak_link_exec(n) }),
            Ghost(ak_link_fn()),
        );
        let mut volumes: Vec<Volume> = Vec::new();
        if chapters.len() > 0 {
            volumes.push(Volume { volume_name: owned("正文"), chapters });
        }
        assert(volumes@.map_values(|v: Volume| v@) =~= ak_volumes(html@));
        let info = BookInfo {
            book_name: select_text(html, "h3.font-bb a"),
            author: field_of_first_containing_exec(html, "h3.font-bb", "a", "作者"),
            summary: select_text(html, "div.body-x1.body-normal.body-w640 div div"),
            cover_url: String::new(),
            serial_status: String::new(),
            update_time: String::new(),
            word_count: String::new(),
            volumes,
        };
        assert(info@.cover_url =~= Seq::<char>::empty());
        assert(info@.serial_status =~= Seq::<char>::empty());
        assert(info@.update_time =~= Seq::<char>::empty());
        assert(info@.word_count =~= Seq::<char>::empty());
        info
    }

    /// Parses a story view page.
    pub fn parse_chapter(&self, html: &str, chapter_id: &str) -> (ch: Chapter)
        ensures
            ch@ == (ChapterView { id: chapter_id@, title: sel_text(html@, "h2"@), content: sel_inner_text(html@, "div.body-novel"@) }),
    {
        Chapter { id: owned(chapter_id), title: select_text(html, "h2"), content: inner_text_exec(html, "div.body-novel") }
    }
}

} // verus!
