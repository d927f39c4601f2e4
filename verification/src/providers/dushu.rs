//! 读书 (dushu.com): book pages under `/showbook/`, chapters grouped in
//! `book-chapter` blocks.

use vstd::prelude::*;

use crate::html::{html_select, html_select_fields, html_select_in, normalize_url, normalized_url, or_else, sel_attr, sel_text, select_all, select_attr, select_text};
use crate::providers::common::{
    chapters_view, field_of_first_containing, field_of_first_containing_exec, filtered_link_chapters,
    filtered_link_chapters_exec, inner_text_exec, named_volumes, named_volumes_exec, sel_inner_text,
    single_volume_if_any, IdRule,
};
use crate::text::{concat, owned, replace_all, replace_exec, starts_with, starts_with_exec, trim, trim_exec};
use crate::types::{BookInfo, BookInfoView, Chapter, ChapterView, Volume, VolumeView};

verus! {

/// The dushu site.
pub struct DushuProvider;

/// Site address.
pub open spec fn du_base() -> Seq<char> {
    "https://www.dushu.com"@
}

/// The volumes: the `book-chapter` blocks; when none has chapters, one
/// unnamed volume of the table links that point at book or chapter pages.
pub open spec fn du_volumes(html: Seq<char>) -> Seq<VolumeView> {
    let blocks = named_volumes(
        html_select_fields(html, "div.book-summary div.book-chapter"@, seq!["h3, .title"@, "a[href]"@]),
        du_base(),
        IdRule::SegmentStem,
    );
    if blocks.len() > 0 {
        blocks
    } else {
        single_volume_if_any(
            filtered_link_chapters(
                html_select(html, "table a[href]"@),
                du_base(),
                IdRule::SegmentStem,
                seq!["/showbook/"@, "/chapter/"@],
            ),
        )
    }
}

/// The summary with ideographic and no-break spaces made plain, trimmed.
pub open spec fn du_summary(html: Seq<char>) -> Seq<char> {
    trim(
        replace_all(
            replace_all(sel_text(html, "div.txtsummary, div[class*='txtsummary']"@), "\u{3000}"@, " "@),
            "\u{a0}"@,
            " "@,
        ),
    )
}

/// The cover: a relative address is made absolute.
pub open spec fn du_cover(html: Seq<char>) -> Seq<char> {
    let c = sel_attr(html, "div.book-pic img"@, "src"@);
    if c.len() > 0 && !starts_with(c, "http"@) {
        normalized_url(du_base(), c)
    } else {
        c
    }
}

/// A dushu book page.
pub open spec fn du_info(html: Seq<char>) -> BookInfoView {
    BookInfoView {
        book_name: sel_text(html, "div.book-title h1"@),
        author: field_of_first_containing(
            html_select(html, "div.book-details table tr"@),
            html_select_in(html, "div.book-details table tr"@, "td:nth-child(2)"@),
            "作"@,
        ),
        summary: du_summary(html),
        cover_url: du_cover(html),
        serial_status: Seq::empty(),
        update_time: Seq::empty(),
        word_count: Seq::empty(),
        volumes: du_volumes(html),
    }
}

impl DushuProvider {
    /// The site's identifier.
    pub fn name(&self) -> (r: &'static str)
        ensures
            r@ == "dushu"@,
    {
        "dushu"
    }

    /// The site's display name.
    pub fn display_name(&self) -> (r: &'static str)
        ensures
            r@ == "读书"@,
    {
        "读书"
    }

    /// The site's address.
    pub fn base_url(&self) -> (r: &'static str)
        ensures
            r@ == du_base(),
    {
        "https://www.dushu.com"
    }

    /// The book page: `{base}/showbook/{id}/`.
    pub fn book_url(&self, book_id: &str) -> (r: String)
        ensures
            r@ == du_base() + "/showbook/"@ + book_id@ + "/"@,
    {
        concat(concat(concat(self.base_url(), "/showbook/").as_str(), book_id).as_str(), "/")
    }

    /// A chapter page: `{base}/showbook/{book}/{chapter}.html`.
    pub fn chapter_url(&self, book_id: &str, chapter_id: &str) -> (r: String)
        ensures
            r@ == du_base() + "/showbook/"@ + book_id@ + "/"@ + chapter_id@ + ".html"@,
    {
        let a = concat(concat(concat(self.base_url(), "/showbook/").as_str(), book_id).as_str(), "/");
        concat(concat(a.as_str(), chapter_id).as_str(), ".html")
    }

    /// The volumes of a book page.
    pub fn parse_volumes(&self, html: &str) -> (r: Vec<Volume>)
        ensures
            r@.map_values(|v: Volume| v@) == du_volumes(html@),
    {
        let blocks = named_volumes_exec(
            html,
            "div.book-summary div.book-chapter",
            "h3, .title",
            "a[href]",
            self.base_url(),
            IdRule::SegmentStem,
        );
        if blocks.len() > 0 {
            return blocks;
        }
        let links = select_all(html, "table a[href]");
        let pats: Vec<&str> = vec!["/showbook/", "/chapter/"];
        assert(crate::html::strs_view(pats@) =~= seq!["/showbook/"@, "/chapter/"@]);
        let chapters = filtered_link_chapters_exec(&links, self.base_url(), IdRule::SegmentStem, &pats);
        let mut out: Vec<Volume> = Vec::new();
        if chapters.len() > 0 {
            out.push(Volume { volume_name: String::new(), chapters });
        }
        assert(out@.map_values(|v: Volume| v@) =~= du_volumes(html@));
        out
    }

    /// Parses a book page.
    pub fn parse_book_info(&self, html: &str) -> (info: BookInfo)
        ensures
            info@ == du_info(html@),
    {
        let book_name = select_text(html, "div.book-title h1");
        let author = field_of_first_containing_exec(html, "div.book-details table tr", "td:nth-child(2)", "作");
        let cover = select_attr(html, "div.book-pic img", "src");
        let cover_url = if !cover.as_str().is_empty() && !starts_with_exec(cover.as_str(), "http") {
            normalize_url(self.base_url(), cover.as_str())
        } else {
            cover
        };
        let s0 = select_text(html, "div.txtsummary, div[class*='txtsummary']");
        proof {
            reveal_strlit("\u{3000}");
            reveal_strlit("\u{a0}");
        }
        let s1 = replace_exec(s0.as_str(), "\u{3000}", " ");
        let s2 = replace_exec(s1.as_str(), "\u{a0}", " ");
        let summary = trim_exec(s2.as_str());
        let volumes = self.parse_volumes(html);
        let info = BookInfo {
            book_name,
            author,
            summary,
            cover_url,
            serial_status: String::new(),
            update_time: String::new(),
            word_count: String::new(),
            volumes,
        };
        assert(info@.serial_status =~= Seq::<char>::empty());
        assert(info@.update_time =~= Seq::<char>::empty());
        assert(info@.word_count =~= Seq::<char>::empty());
        info
    }

    /// Parses a chapter page.
    pub fn parse_chapter(&self, html: &str, chapter_id: &str) -> (ch: Chapter)
        ensures
            ch@ == (ChapterView {
                id: chapter_id@,
                title: or_else(sel_text(html@, "p.text-center.text-large"@), sel_text(html@, "h1"@)),
                content: sel_inner_text(html@, "div.content_txt"@),
            }),
    {
        let mut title = select_text(html, "p.text-center.text-large");
        if title.as_str().is_empty() {
            title = select_text(html, "h1");
        }
        Chapter { id: owned(chapter_id), title, content: inner_text_exec(html, "div.content_txt") }
    }
}

} // verus!
