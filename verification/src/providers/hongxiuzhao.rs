//! 红袖招 (hongxiuzhao): one chapter list per book; chapter paragraphs are
//! kept unless they advertise the site.

use vstd::prelude::*;

use crate::html::{html_select, node_text, nodes_view, sel_attr, sel_text, select_all, select_attr, select_text, strs_view, Node};
use crate::providers::common::{
    absolute_cover, absolute_cover_exec, contains_any, contains_any_exec, keep_by, kept_by, link_chapters,
    links_to_chapters, nonempty_texts, nonempty_texts_exec, single_volume_if_any, unnamed_volume, IdRule,
};
use crate::text::{concat, join, join_exec, lowercase, owned, to_lowercase};
use crate::types::{BookInfo, BookInfoView, Chapter, ChapterView, Volume};

verus! {

/// The hongxiuzhao site.
pub struct HongxiuzhaoProvider;

/// Site address.
pub open spec fn hx_base() -> Seq<char> {
    "https://hongxiuzhao.net"@
}

/// Words that mark a line as an advertisement.
pub open spec fn hx_ad_words() -> Seq<Seq<char>> {
    seq!["红袖招"@, "hongxiuzhao"@, "本站域名"@, "请记住"@, "最新章节"@, "请收藏"@, "加入书架"@, "www."@]
}

/// Whether a line, lower-cased, contains one of the advertisement words.
pub open spec fn hx_is_ad(t: Seq<char>) -> bool {
    contains_any(lowercase(t), hx_ad_words())
}

/// Whether a line is kept in a chapter.
pub open spec fn hx_keep() -> spec_fn(Seq<char>) -> bool {
    |t: Seq<char>| !hx_is_ad(t)
}

/// A hongxiuzhao book page.
pub open spec fn hx_info(html: Seq<char>) -> BookInfoView {
    BookInfoView {
        book_name: crate::html::or_else(
            sel_text(html, "div.m-bookdetail h1, div[class*='m-bookdetail'] h1"@),
            sel_text(html, "h1"@),
        ),
        author: sel_text(html, "p.author a, p[class*='author'] a"@),
        summary: sel_text(html, "p.summery, p[class*='summery']"@),
        cover_url: absolute_cover(hx_base(), sel_attr(html, "a.cover img, a[class*='cover'] img"@, "src"@)),
        serial_status: Seq::empty(),
        update_time: Seq::empty(),
        word_count: Seq::empty(),
        volumes: single_volume_if_any(
            link_chapters(
                html_select(html, "section.yd-chapter ul a[href], section[class*='yd-chapter'] ul a[href]"@),
                hx_base(),
                IdRule::LastSegment,
            ),
        ),
    }
}

/// The text of a chapter page: its non-empty paragraphs that are no
/// advertisement, joined with `\n`.
pub open spec fn hx_content(html: Seq<char>) -> Seq<char> {
    join(kept_by(nonempty_texts(html_select(html, "div.article-content p"@)), hx_keep()), "\n"@)
}

/// Whether a line advertises the site: its lower-cased form contains one of
/// the advertisement words.
pub fn is_ad_line(text: &str) -> (r: bool)
    ensures
        r == hx_is_ad(text@),
{
    let kws: Vec<&str> = vec!["红袖招", "hongxiuzhao", "本站域名", "请记住", "最新章节", "请收藏", "加入书架", "www."];
    assert(strs_view(kws@) =~= hx_ad_words());
    let lower = to_lowercase(text);
    contains_any_exec(lower.as_str(), &kws)
}

impl HongxiuzhaoProvider {
    /// The site's identifier.
    pub fn name(&self) -> (r: &'static str)
        ensures
            r@ == "hongxiuzhao"@,
    {
        "hongxiuzhao"
    }

    /// The site's display name.
    pub fn display_name(&self) -> (r: &'static str)
        ensures
            r@ == "红袖招"@,
    {
        "红袖招"
    }

    /// The site's address.
    pub fn base_url(&self) -> (r: &'static str)
        ensures
            r@ == hx_base(),
    {
        "https://hongxiuzhao.net"
    }

    /// The site has no search.
    pub fn supports_search(&self) -> (r: bool)
        ensures
            !r,
    {
        false
    }

    /// The book page: `{base}/{id}.html`.
    pub fn book_url(&self, book_id: &str) -> (r: String)
        ensures
            r@ == hx_base() + "/"@ + book_id@ + ".html"@,
    {
        concat(concat(concat(self.base_url(), "/").as_str(), book_id).as_str(), ".html")
    }

    /// A chapter page: `{base}/{chapter}.html`; the book id plays no part.
    pub fn chapter_url(&self, book_id: &str, chapter_id: &str) -> (r: String)
        ensures
            r@ == hx_base() + "/"@ + chapter_id@ + ".html"@,
    {
        concat(concat(concat(self.base_url(), "/").as_str(), chapter_id).as_str(), ".html")
    }

    /// Parses a book page.
    pub fn parse_book_info(&self, html: &str) -> (info: BookInfo)
        ensures
            info@ == hx_info(html@),
    {
        let mut book_name = select_text(html, "div.m-bookdetail h1, div[class*='m-bookdetail'] h1");
        if book_name.as_str().is_empty() {
            book_name = select_text(html, "h1");
        }
        let cover = select_attr(html, "a.cover img, a[class*='cover'] img", "src");
        let links = select_all(html, "section.yd-chapter ul a[href], section[class*='yd-chapter'] ul a[href]");
        let chapters = links_to_chapters(&links, self.base_url(), IdRule::LastSegment);
        let mut volumes: Vec<Volume> = Vec::new();
        if chapters.len() > 0 {
            volumes.push(unnamed_volume(chapters));
        }
        assert(volumes@.map_values(|v: Volume| v@) =~= hx_info(html@).volumes);
        let info = BookInfo {
            book_name,
            author: select_text(html, "p.author a, p[class*='author'] a"),
            summary: select_text(html, "p.summery, p[class*='summery']"),
            cover_url: absolute_cover_exec(self.base_url(), cover),
            serial_status: String::new(),
            update_time: String::new(),
            word_count: String::new(),
            volumes,
        };
        assert(info@.serial_status =~= Seq::<char>::empty());
        assert(info@.update_time =~= Seq::<char>::empty());
        assert(info@.word_count =~= Seq::<char>::empty());
        info
    }

    /// Parses a chapter page.
    pub fn parse_chapter(&self, html: &str, chapter_id: &str) -> (ch: Chapter)
        ensures
            ch@ == (ChapterView { id: chapter_id@, title: sel_text(html@, "div.article-content h1"@), content: hx_content(html@) }),
    {
        let ps = select_all(html, "div.article-content p");
        let texts = nonempty_texts_exec(&ps);
        let kept = keep_by(
            texts,
            (|t: &str| -> (b: bool)
                ensures
                    b == !hx_is_ad(t@),
                { !is_ad_line(t) }),
            Ghost(hx_keep()),
        );
        Chapter { id: owned(chapter_id), title: select_text(html, "div.article-content h1"), content: join_exec(&kept, "\n") }
    }
}

} // verus!
