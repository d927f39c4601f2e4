//! 追书网 (mangg.com): labelled info paragraphs, one chapter list, chapter
//! text with advertisement lines removed.

use vstd::prelude::*;

use crate::html::{element_text, html_select, node_text, nodes_view, or_else, sel_attr, sel_text, select_all, select_attr, select_text, strs_view, Node};
use crate::providers::common::{
    contains_any, contains_any_exec, inner_text_exec, keep_by, kept_by, link_chapters, links_to_chapters,
    sel_inner_text, single_volume_if_any, split_by, split_exec, strip_exec, stripped, unnamed_volume, IdRule,
};
use crate::text::{concat, join, join_exec, lowercase, owned, starts_with, starts_with_exec, to_lowercase};
use crate::types::{BookInfo, BookInfoView, Chapter, ChapterView, Volume};

verus! {

/// The mangg.com site.
pub struct ManggComProvider;

/// Site address.
pub open spec fn mc_base() -> Seq<char> {
    "https://www.mangg.com"@
}

/// Words that mark a line as an advertisement.
pub open spec fn mc_ad_words() -> Seq<Seq<char>> {
    seq!["mangg.com"@, "追书网"@, "本站域名"@, "请记住"@, "最新章节"@, "请收藏"@, "加入书架"@]
}

/// Whether a line, lower-cased, contains one of the advertisement words.
pub open spec fn mc_is_ad(t: Seq<char>) -> bool {
    contains_any(lowercase(t), mc_ad_words())
}

/// Whether a line is kept in a chapter.
pub open spec fn mc_keep() -> spec_fn(Seq<char>) -> bool {
    |t: Seq<char>| !mc_is_ad(t)
}

/// What is removed from the author paragraph.
pub open spec fn mc_author_pats() -> Seq<Seq<char>> {
    seq!["\u{a0}"@, "作者："@, "作者:"@]
}

/// What is removed from the status paragraph.
pub open spec fn mc_status_pats() -> Seq<Seq<char>> {
    seq!["\u{a0}"@, "状态："@, "状态:"@, ","@]
}

/// What is removed from the update paragraph.
pub open spec fn mc_update_pats() -> Seq<Seq<char>> {
    seq!["最后更新："@, "最后更新:"@]
}

/// The `k`-th info paragraph without the given labels, trimmed; empty when
/// there are not that many paragraphs.
pub open spec fn mc_field(ps: Seq<crate::html::NodeView>, k: int, pats: Seq<Seq<char>>) -> Seq<char> {
    if k < ps.len() {
        stripped(node_text(ps[k]), pats)
    } else {
        Seq::empty()
    }
}

/// The cover: prefixed with the site address when it is not absolute.
pub open spec fn mc_cover(c: Seq<char>) -> Seq<char> {
    if c.len() > 0 && !starts_with(c, "http"@) {
        mc_base() + c
    } else {
        c
    }
}

/// A mangg.com book page.
pub open spec fn mc_info(html: Seq<char>) -> BookInfoView {
    let ps = html_select(html, "#info p"@);
    BookInfoView {
        book_name: or_else(sel_text(html, "#info h1"@), sel_text(html, "h1"@)),
        author: mc_field(ps, 0, mc_author_pats()),
        summary: sel_text(html, "#intro"@),
        cover_url: mc_cover(sel_attr(html, "#sidebar img"@, "src"@)),
        serial_status: mc_field(ps, 1, mc_status_pats()),
        update_time: mc_field(ps, 2, mc_update_pats()),
        word_count: Seq::empty(),
        volumes: single_volume_if_any(link_chapters(html_select(html, "#list dd a[href]"@), mc_base(), IdRule::LastSegment)),
    }
}

/// The text of a chapter page: the lines of `#content`'s text that are no
/// advertisement, joined with `\n`.
pub open spec fn mc_content(html: Seq<char>) -> Seq<char> {
    join(kept_by(split_by(sel_inner_text(html, "#content"@), "\n"@), mc_keep()), "\n"@)
}

/// Whether a line advertises the site: its lower-cased form contains one of
/// the advertisement words.
pub fn is_ad_line(text: &str) -> (r: bool)
    ensures
        r == mc_is_ad(text@),
{
    let kws: Vec<&str> = vec!["mangg.com", "追书网", "本站域名", "请记住", "最新章节", "请收藏", "加入书架"];
    assert(strs_view(kws@) =~= mc_ad_words());
    let lower = to_lowercase(text);
    contains_any_exec(lower.as_str(), &kws)
}

fn mc_field_exec(ps: &Vec<Node>, k: usize, pats: &Vec<&str>) -> (r: String)
    requires
        forall|i: int| 0 <= i < pats@.len() ==> pats@[i]@.len() > 0,
    ensures
        r@ == mc_field(nodes_view(ps@), k as int, strs_view(pats@)),
{
    if k < ps.len() {
        let t = element_text(&ps[k]);
        strip_exec(t.as_str(), pats)
    } else {
        String::new()
    }
}

impl ManggComProvider {
    /// The site's identifier.
    pub fn name(&self) -> (r: &'static str)
        ensures
            r@ == "mangg_com"@,
    {
        "mangg_com"
    }

    /// The site's display name.
    pub fn display_name(&self) -> (r: &'static str)
        ensures
            r@ == "追书网"@,
    {
        "追书网"
    }

    /// The site's address.
    pub fn base_url(&self) -> (r: &'static str)
        ensures
            r@ == mc_base(),
    {
        "https://www.mangg.com"
    }

    /// The site has no search.
    pub fn supports_search(&self) -> (r: bool)
        ensures
            !r,
    {
        false
    }

    /// The book page: `{base}/{id}/`.
    pub fn book_url(&self, book_id: &str) -> (r: String)
        ensures
            r@ == mc_base() + "/"@ + book_id@ + "/"@,
    {
        concat(concat(concat(self.base_url(), "/").as_str(), book_id).as_str(), "/")
    }

    /// A chapter page: `{base}/{book}/{chapter}.html`.
    pub fn chapter_url(&self, book_id: &str, chapter_id: &str) -> (r: String)
        ensures
            r@ == mc_base() + "/"@ + book_id@ + "/"@ + chapter_id@ + ".html"@,
    {
        let a = concat(concat(concat(self.base_url(), "/").as_str(), book_id).as_str(), "/");
        concat(concat(a.as_str(), chapter_id).as_str(), ".html")
    }

    /// Parses a book page.
    pub fn parse_book_info(&self, html: &str) -> (info: BookInfo)
        ensures
            info@ == mc_info(html@),
    {
        let mut book_name = select_text(html, "#info h1");
        if book_name.as_str().is_empty() {
            book_name = select_text(html, "h1");
        }
        proof {
            reveal_strlit("\u{a0}");
            reveal_strlit("作者：");
            reveal_strlit("作者:");
            reveal_strlit("状态：");
            reveal_strlit("状态:");
            reveal_strlit(",");
            reveal_strlit("最后更新：");
            reveal_strlit("最后更新:");
        }
        let ap: Vec<&str> = vec!["\u{a0}", "作者：", "作者:"];
        let sp: Vec<&str> = vec!["\u{a0}", "状态：", "状态:", ","];
        let up: Vec<&str> = vec!["最后更新：", "最后更新:"];
        assert(strs_view(ap@) =~= mc_author_pats());
        assert(strs_view(sp@) =~= mc_status_pats());
        assert(strs_view(up@) =~= mc_update_pats());
        let ps = select_all(html, "#info p");
        let c = select_attr(html, "#sidebar img", "src");
        let cover_url = if !c.as_str().is_empty() && !starts_with_exec(c.as_str(), "http") {
            concat(self.base_url(), c.as_str())
        } else {
            c
        };
        let links = select_all(html, "#list dd a[href]");
        let chapters = links_to_chapters(&links, self.base_url(), IdRule::LastSegment);
        let mut volumes: Vec<Volume> = Vec::new();
        if chapters.len() > 0 {
            volumes.push(unnamed_volume(chapters));
        }
        assert(volumes@.map_values(|v: Volume| v@) =~= mc_info(html@).volumes);
        let info = BookInfo {
            book_name,
            author: mc_field_exec(&ps, 0, &ap),
            summary: select_text(html, "#intro"),
            cover_url,
            serial_status: mc_field_exec(&ps, 1, &sp),
            update_time: mc_field_exec(&ps, 2, &up),
            word_count: String::new(),
            volumes,
        };
        assert(info@.word_count =~= Seq::<char>::empty());
        info
    }

    /// Parses a chapter page.
    pub fn parse_chapter(&self, html: &str, chapter_id: &str) -> (ch: Chapter)
        ensures
            ch@ == (ChapterView { id: chapter_id@, title: or_else(sel_text(html@, "div.bookname h1"@), sel_text(html@, "h1"@)), content: mc_content(html@) }),
    {
        let mut title = select_text(html, "div.bookname h1");
        if title.as_str().is_empty() {
            title = select_text(html, "h1");
        }
        let t = inner_text_exec(html, "#content");
        proof {
            reveal_strlit("\n");
        }
        let lines = split_exec(t.as_str(), "\n");
        let kept = keep_by(
            lines,
            (|l: &str| -> (b: bool)
                ensures
                    b == !mc_is_ad(l@),
                { !is_ad_line(l) }),
            Ghost(mc_keep()),
        );
        Chapter { id: owned(chapter_id), title, content: join_exec(&kept, "\n") }
    }
}

} // verus!
