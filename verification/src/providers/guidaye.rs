//! 名著阅读 (guidaye): book ids use `-` for `/`; book data comes from the
//! `og:` meta tags and the chapters from one ordered list.

use vstd::prelude::*;

use crate::html::{html_select, meta, meta_content, or_else, sel_text, select_all, select_text};
use crate::providers::common::{chapters_view, inner_text_exec, link_chapters, links_to_chapters, sel_inner_text, IdRule};
use crate::text::{concat, owned, replace_all, replace_exec};
use crate::types::{BookInfo, BookInfoView, Chapter, ChapterView, Volume, VolumeView};

verus! {

/// The guidaye site.
pub struct GuidayeProvider;

/// Site address.
pub open spec fn gd_base() -> Seq<char> {
    "https://b.guidaye.com"@
}

/// A book id with `-` standing for `/`.
pub open spec fn gd_normalized(book_id: Seq<char>) -> Seq<char> {
    replace_all(book_id, "-"@, "/"@)
}

/// The volumes of a book page: one volume `正文` of the list's links, when
/// there are any.
pub open spec fn gd_volumes(html: Seq<char>) -> Seq<VolumeView> {
    let cs = link_chapters(html_select(html, "ol#list-ol a[href]"@), gd_base(), IdRule::LastSegment);
    if cs.len() > 0 {
        seq![VolumeView { volume_name: "正文"@, chapters: cs }]
    } else {
        Seq::empty()
    }
}

/// A guidaye book page.
pub open spec fn gd_info(html: Seq<char>) -> BookInfoView {
    BookInfoView {
        book_name: or_else(meta(html, "og:novel:book_name"@), or_else(meta(html, "og:title"@), sel_text(html, "h1"@))),
        author: meta(html, "og:novel:author"@),
        summary: meta(html, "og:description"@),
        cover_url: meta(html, "og:image"@),
        serial_status: Seq::empty(),
        update_time: meta(html, "og:novel:update_time"@),
        word_count: Seq::empty(),
        volumes: gd_volumes(html),
    }
}

/// The title of a chapter page: `h1.secondfont`, else `h1.entry-title`, else
/// the first `h1`.
pub open spec fn gd_title(html: Seq<char>) -> Seq<char> {
    or_else(sel_text(html, "h1.secondfont"@), or_else(sel_text(html, "h1.entry-title"@), sel_text(html, "h1"@)))
}

impl GuidayeProvider {
    /// The site's identifier.
    pub fn name(&self) -> (r: &'static str)
        ensures
            r@ == "guidaye"@,
    {
        "guidaye"
    }

    /// The site's display name.
    pub fn display_name(&self) -> (r: &'static str)
        ensures
            r@ == "名著阅读"@,
    {
        "名著阅读"
    }

    /// The site's address.
    pub fn base_url(&self) -> (r: &'static str)
        ensures
            r@ == gd_base(),
    {
        "https://b.guidaye.com"
    }

    /// The site has no search.
    pub fn supports_search(&self) -> (r: bool)
        ensures
            !r,
    {
        false
    }

    /// A book id with `-` turned into `/`.
    pub fn normalize_book_id(book_id: &str) -> (r: String)
        ensures
            r@ == gd_normalized(book_id@),
    {
        proof {
            reveal_strlit("-");
        }
        replace_exec(book_id, "-", "/")
    }

    /// The book page: `{base}/{normalized id}/`.
    pub fn book_url(&self, book_id: &str) -> (r: String)
        ensures
            r@ == gd_base() + "/"@ + gd_normalized(book_id@) + "/"@,
    {
        let n = Self::normalize_book_id(book_id);
        concat(concat(concat(self.base_url(), "/").as_str(), n.as_str()).as_str(), "/")
    }

    /// A chapter page: `{base}/{normalized id}/{chapter}.html`.
    pub fn chapter_url(&self, book_id: &str, chapter_id: &str) -> (r: String)
        ensures
            r@ == gd_base() + "/"@ + gd_normalized(book_id@) + "/"@ + chapter_id@ + ".html"@,
    {
        let n = Self::normalize_book_id(book_id);
        let a = concat(concat(concat(self.base_url(), "/").as_str(), n.as_str()).as_str(), "/");
        concat(concat(a.as_str(), chapter_id).as_str(), ".html")
    }

    /// Parses a book page.
    pub fn parse_book_info(&self, html: &str) -> (info: BookInfo)
        ensures
            info@ == gd_info(html@),
    {
        let mut book_name = meta_content(html, "og:novel:book_name");
        if book_name.as_str().is_empty() {
            book_name = meta_content(html, "og:title");
        }
        if book_name.as_str().is_empty() {
            book_name = select_text(html, "h1");
        }
        let links = select_all(html, "ol#list-ol a[href]");
        let chapters = links_to_chapters(&links, self.base_url(), IdRule::LastSegment);
        let mut volumes: Vec<Volume> = Vec::new();
        if chapters.len() > 0 {
            volumes.push(Volume { volume_name: owned("正文"), chapters });
            assert(volumes@.map_values(|v: Volume| v@) =~= gd_volumes(html@));
        } else {
            assert(volumes@.map_values(|v: Volume| v@) =~= gd_volumes(html@));
        }
        let info = BookInfo {
            book_name,
            author: meta_content(html, "og:novel:author"),
            summary: meta_content(html, "og:description"),
            cover_url: meta_content(html, "og:image"),
            serial_status: String::new(),
            update_time: meta_content(html, "og:novel:update_time"),
            word_count: String::new(),
            volumes,
        };
        assert(info@.serial_status =~= Seq::<char>::empty());
        assert(info@.word_count =~= Seq::<char>::empty());
        info
    }

    /// Parses a chapter page.
    pub fn parse_chapter(&self, html: &str, chapter_id: &str) -> (ch: Chapter)
        ensures
            ch@ == (ChapterView { id: chapter_id@, title: gd_title(html@), content: sel_inner_text(html@, "article.article-post"@) }),
    {
        let mut title = select_text(html, "h1.secondfont");
        if title.as_str().is_empty() {
            title = select_text(html, "h1.entry-title");
        }
        if title.as_str().is_empty() {
            title = select_text(html, "h1");
        }
        Chapter { id: owned(chapter_id), title, content: inner_text_exec(html, "article.article-post") }
    }
}

} // verus!
