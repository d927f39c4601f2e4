//! 绿色小说网 (lvsewx): book pages under `/ebook/`, chapter pages grouped by
//! the book id without its last three digits.

use vstd::prelude::*;

use crate::html::{html_select, html_select_in, meta, meta_content, or_else, sel_text, select_text};
use crate::markup::spec_html_to_text;
use crate::providers::common::{
    chapters_view, cut_before, cut_before_exec, first_text_containing, first_text_containing_exec,
    inner_text_exec, link_chapters, links_to_chapters, rooted_cover, rooted_cover_exec, sel_inner_text,
    single_volume_if_any, tagged_first_link_chapters, tagged_first_links, IdRule,
};
use crate::text::{concat, owned, replace_all, replace_exec, trim, trim_exec};
use crate::types::{BookInfo, BookInfoView, Chapter, ChapterView, Volume};

verus! {

/// The lvsewx site.
pub struct LvsewxProvider;

/// Site address.
pub open spec fn lv_base() -> Seq<char> {
    "https://www.lvsewx.cc"@
}

/// The number of UTF-8 bytes of a character.
pub open spec fn utf8_width(c: char) -> int {
    if (c as u32) < 0x80 {
        1
    } else if (c as u32) < 0x800 {
        2
    } else if (c as u32) < 0x10000 {
        3
    } else {
        4
    }
}

/// The number of UTF-8 bytes of a string.
pub open spec fn utf8_len(s: Seq<char>) -> int
    decreases s.len(),
{
    if s.len() == 0 {
        0
    } else {
        utf8_len(s.drop_last()) + utf8_width(s.last())
    }
}

/// How many trailing characters of `s` make up exactly its last `n` bytes;
/// `None` when byte `len - n` falls inside a character (or `s` is shorter).
pub open spec fn tail_chars(s: Seq<char>, n: int) -> Option<int>
    decreases s.len(),
{
    if n == 0 {
        Some(0)
    } else if s.len() == 0 || n < 0 || utf8_width(s.last()) > n {
        None
    } else {
        match tail_chars(s.drop_last(), n - utf8_width(s.last())) {
            Some(k) => Some(k + 1),
            None => None,
        }
    }
}

/// An id that the chapter directory can be taken from: at most three bytes
/// long, or its last three bytes are whole characters (slicing there does
/// not split a character).
pub open spec fn lv_id_ok(bid: Seq<char>) -> bool {
    utf8_len(bid) <= 3 || tail_chars(bid, 3) is Some
}

/// The directory of a book's chapter pages: the id without its last three
/// bytes, or `0` for ids of at most three bytes.
pub open spec fn lv_prefix(bid: Seq<char>) -> Seq<char> {
    if utf8_len(bid) <= 3 {
        "0"@
    } else {
        match tail_chars(bid, 3) {
            Some(k) => bid.take(bid.len() - k),
            None => "0"@,
        }
    }
}

/// A string holds at least as many bytes as characters.
proof fn lemma_utf8_len_min(s: Seq<char>)
    ensures
        utf8_len(s) >= s.len(),
    decreases s.len(),
{
    if s.len() > 0 {
        lemma_utf8_len_min(s.drop_last());
    }
}

/// The number of UTF-8 bytes of a character.
fn utf8_width_exec(c: char) -> (r: u64)
    ensures
        r == utf8_width(c),
{
    let u = c as u32;
    if u < 0x80 {
        1
    } else if u < 0x800 {
        2
    } else if u < 0x10000 {
        3
    } else {
        4
    }
}

/// The author line with its label removed.
pub open spec fn lv_author_line(t: Seq<char>) -> Seq<char> {
    trim(replace_all(replace_all(t, "作者："@, Seq::empty()), "作者:"@, Seq::empty()))
}

/// The book's author: the page's meta tag, else the first `div.small span`
/// that mentions the author, without its label.
pub open spec fn lv_author(html: Seq<char>) -> Seq<char> {
    let m = meta(html, "og:novel:author"@);
    if m.len() > 0 {
        m
    } else {
        match first_text_containing(html_select(html, "div.small span"@), "作者"@) {
            Some(t) => lv_author_line(t),
            None => Seq::empty(),
        }
    }
}

/// The summary without its `简介：` label and without what follows `作者：`.
pub open spec fn lv_summary(html: Seq<char>) -> Seq<char> {
    cut_before(trim(replace_all(sel_text(html, "div.intro"@), "简介："@, Seq::empty())), "作者："@)
}

/// The chapters: the first link of each `dd` of the chapter list, or, when
/// that gives none, every chapter link of the list.
pub open spec fn lv_chapters(html: Seq<char>) -> Seq<crate::types::ChapterInfoView> {
    let main = tagged_first_links(
        html_select(html, "div.listmain dl > *"@),
        html_select_in(html, "div.listmain dl > *"@, "a[href]"@),
        "dd"@,
        lv_base(),
        IdRule::LastSegment,
    );
    if main.len() > 0 {
        main
    } else {
        link_chapters(html_select(html, "div#listmain dd a[href], div.listmain dd a[href]"@), lv_base(), IdRule::LastSegment)
    }
}

/// A lvsewx book page.
pub open spec fn lv_info(html: Seq<char>) -> BookInfoView {
    BookInfoView {
        book_name: or_else(
            or_else(or_else(meta(html, "og:novel:book_name"@), meta(html, "og:title"@)), sel_text(html, "div.info h2"@)),
            sel_text(html, "h1"@),
        ),
        author: lv_author(html),
        summary: lv_summary(html),
        cover_url: rooted_cover(lv_base(), meta(html, "og:image"@)),
        serial_status: meta(html, "og:novel:status"@),
        update_time: meta(html, "og:novel:update_time"@),
        word_count: Seq::empty(),
        volumes: single_volume_if_any(lv_chapters(html)),
    }
}

impl LvsewxProvider {
    /// The site's identifier.
    pub fn name(&self) -> (r: &'static str)
        ensures
            r@ == "lvsewx"@,
    {
        "lvsewx"
    }

    /// The site's display name.
    pub fn display_name(&self) -> (r: &'static str)
        ensures
            r@ == "绿色小说网"@,
    {
        "绿色小说网"
    }

    /// The site's address.
    pub fn base_url(&self) -> (r: &'static str)
        ensures
            r@ == lv_base(),
    {
        "https://www.lvsewx.cc"
    }

    /// The directory of a book's chapter pages: the id without its last
    /// three bytes, or `0` for ids of at most three bytes.
    pub fn chapter_prefix(bid: &str) -> (r: String)
        requires
            lv_id_ok(bid@),
        ensures
            r@ == lv_prefix(bid@),
    {
        proof {
            reveal_strlit("0");
        }
        let v = crate::text::chars_of(bid);
        let ghost s = v@;
        let mut i: usize = v.len();
        let mut rem: u64 = 3;
        assert(s.take(i as int) =~= s);
        while i > 0 && rem > 0
            invariant
                i <= v.len(),
                s == v@,
                rem <= 3,
                s == bid@,
                lv_id_ok(s),
                utf8_len(s) == utf8_len(s.take(i as int)) + (3 - rem),
                tail_chars(s, 3) == match tail_chars(s.take(i as int), rem as int) {
                    Some(k) => Some(k + (s.len() - i)),
                    None => None,
                },
            ensures
                i == 0 || rem == 0,
            decreases i,
        {
            let ghost t = s.take(i as int);
            assert(t.drop_last() =~= s.take(i - 1));
            assert(t.last() == v@[i - 1]);
            let b = utf8_width_exec(v[i - 1]);
            if b > rem {
                // The last three bytes would split a character: ruled out by `lv_id_ok`.
                proof {
                    lemma_utf8_len_min(s.take(i - 1));
                    assert(tail_chars(t, rem as int) is None);
                    assert(false);
                }
                break;
            }
            rem = rem - b;
            i = i - 1;
        }
        if rem > 0 {
            assert(i == 0);
            assert(s.take(0) =~= Seq::<char>::empty());
            assert(utf8_len(s) < 3);
            return owned("0");
        }
        assert(tail_chars(s.take(i as int), 0) == Some(0int));
        if i == 0 {
            assert(s.take(0) =~= Seq::<char>::empty());
            return owned("0");
        }
        proof {
            lemma_utf8_len_min(s.take(i as int));
        }
        let p = crate::text::sub_chars(&v, 0, i);
        assert(p@ =~= s.take(i as int));
        crate::text::string_of(p.as_slice())
    }

    /// The book page: `{base}/ebook/{id}.html`.
    pub fn book_url(&self, book_id: &str) -> (r: String)
        ensures
            r@ == lv_base() + "/ebook/"@ + book_id@ + ".html"@,
    {
        concat(concat(concat(self.base_url(), "/ebook/").as_str(), book_id).as_str(), ".html")
    }

    /// A chapter page: `{base}/books/{prefix}/{book}/{chapter}.html`.
    pub fn chapter_url(&self, book_id: &str, chapter_id: &str) -> (r: String)
        requires
            lv_id_ok(book_id@),
        ensures
            r@ == lv_base() + "/books/"@ + lv_prefix(book_id@) + "/"@ + book_id@ + "/"@ + chapter_id@ + ".html"@,
    {
        let p = Self::chapter_prefix(book_id);
        let a = concat(concat(self.base_url(), "/books/").as_str(), p.as_str());
        let b = concat(concat(concat(a.as_str(), "/").as_str(), book_id).as_str(), "/");
        concat(concat(b.as_str(), chapter_id).as_str(), ".html")
    }

    /// Parses a book page.
    pub fn parse_book_info(&self, html: &str) -> (info: BookInfo)
        ensures
            info@ == lv_info(html@),
    {
        let mut book_name = meta_content(html, "og:novel:book_name");
        if book_name.as_str().is_empty() {
            book_name = meta_content(html, "og:title");
        }
        if book_name.as_str().is_empty() {
            book_name = select_text(html, "div.info h2");
        }
        if book_name.as_str().is_empty() {
            book_name = select_text(html, "h1");
        }
        let mut author = meta_content(html, "og:novel:author");
        if author.as_str().is_empty() {
            match first_text_containing_exec(html, "div.small span", "作者") {
                Some(t) => {
                    proof {
                        reveal_strlit("作者：");
                        reveal_strlit("作者:");
                        reveal_strlit("");
                    }
                    assert(""@ =~= Seq::<char>::empty());
                    let a = replace_exec(t.as_str(), "作者：", "");
                    let b = replace_exec(a.as_str(), "作者:", "");
                    author = trim_exec(b.as_str());
                },
                None => {},
            }
        }
        let cover_url = rooted_cover_exec(self.base_url(), meta_content(html, "og:image"));
        let update_time = meta_content(html, "og:novel:update_time");
        let serial_status = meta_content(html, "og:novel:status");
        proof {
            reveal_strlit("简介：");
            reveal_strlit("");
        }
        assert(""@ =~= Seq::<char>::empty());
        let intro = select_text(html, "div.intro");
        let s1 = replace_exec(intro.as_str(), "简介：", "");
        let summary = cut_before_exec(trim_exec(s1.as_str()), "作者：");
        let mut chapters = tagged_first_link_chapters(
            html,
            "div.listmain dl > *",
            "a[href]",
            "dd",
            self.base_url(),
            IdRule::LastSegment,
        );
        if chapters.len() == 0 {
            let links = crate::html::select_all(html, "div#listmain dd a[href], div.listmain dd a[href]");
            chapters = links_to_chapters(&links, self.base_url(), IdRule::LastSegment);
        }
        let mut volumes: Vec<Volume> = Vec::new();
        if chapters.len() > 0 {
            volumes.push(Volume { volume_name: String::new(), chapters });
        }
        let info = BookInfo {
            book_name,
            author,
            summary,
            cover_url,
            serial_status,
            update_time,
            word_count: String::new(),
            volumes,
        };
        assert(info@.volumes =~= lv_info(html@).volumes);
        assert(info@.author == lv_info(html@).author);
        assert(info@.summary == lv_info(html@).summary);
        assert(info@.word_count =~= Seq::<char>::empty());
        info
    }

    /// Parses a chapter page: title from `div.content h1` (else `h1`), text
    /// from `#content`.
    pub fn parse_chapter(&self, html: &str, chapter_id: &str) -> (ch: Chapter)
        ensures
            ch@ == (ChapterView {
                id: chapter_id@,
                title: or_else(sel_text(html@, "div.content h1"@), sel_text(html@, "h1"@)),
                content: sel_inner_text(html@, "#content"@),
            }),
    {
        let mut title = select_text(html, "div.content h1");
        if title.as_str().is_empty() {
            title = select_text(html, "h1");
        }
        let content = inner_text_exec(html, "#content");
        Chapter { id: owned(chapter_id), title, content }
    }
}

} // verus!
