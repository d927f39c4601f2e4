//! QQ阅读 (book.qq.com): book page, a JSON chapter list, and chapter pages
//! that carry their text in a `window.__NUXT__` object. Encrypted chapters
//! are recognised and not decoded.

use vstd::prelude::*;

use crate::html::{meta, meta_content, normalize_url, normalized_url, or_else, sel_attr, sel_text, select_attr, select_text};
use crate::json::{
    as_array, as_bool, as_str, as_u64, get, jget, json_parsed, oarr, obool, oget, oget_exec, ostr, ou64, parse_json,
    same, str_or_empty, str_or_empty_exec, Json,
};
use crate::markup::{html_to_text, spec_html_to_text};
use crate::providers::common::{chapters_view, id_by_rule, regex_capture, regex_group1, IdRule};
use crate::text::{concat, decimal, owned, replace_all, replace_exec, trim, trim_exec, u64_to_string};
use crate::types::{BookInfo, BookInfoView, Chapter, ChapterInfo, ChapterInfoView, ChapterView, Volume, VolumeView};

verus! {

/// The QQ reading site.
pub struct QqbookProvider;

/// Site address.
pub open spec fn qq_base() -> Seq<char> {
    "https://book.qq.com"@
}

/// The pattern of the `window.__NUXT__` object.
pub open spec fn qq_nuxt_re() -> Seq<char> {
    "window\\.__NUXT__\\s*=\\s*([\\s\\S]*?);\\s*</script>"@
}

/// The page's `window.__NUXT__` object, if it is JSON.
pub open spec fn qq_nuxt(html: Seq<char>) -> Option<Json> {
    match regex_group1(qq_nuxt_re(), html) {
        Some(g) => json_parsed(trim(g)),
        None => None,
    }
}

/// The book id used in chapter addresses: the last segment of the page's
/// read address, else the given id.
pub open spec fn qq_effective_id(html: Seq<char>, book_id: Seq<char>) -> Seq<char> {
    let r = meta(html, "og:novel:read_url"@);
    if r.len() > 0 {
        id_by_rule(IdRule::TrimmedSegment, r)
    } else {
        book_id
    }
}

/// A chapter id member: a non-negative integer in decimal, else a string.
pub open spec fn qq_cid(v: Option<Json>) -> Seq<char> {
    match ou64(v) {
        Some(n) => decimal(n as nat),
        None => str_or_empty(v),
    }
}

/// The chapters of the chapter list; entries without id or title skipped.
pub open spec fn qq_chapters(items: Seq<Json>, eff: Seq<char>) -> Seq<ChapterInfoView>
    decreases items.len(),
{
    if items.len() == 0 {
        Seq::empty()
    } else {
        let rest = qq_chapters(items.drop_last(), eff);
        let it = Some(items.last());
        let cid = qq_cid(oget(it, "cid"@));
        let title = trim(str_or_empty(oget(it, "chapterName"@)));
        if cid.len() == 0 || title.len() == 0 {
            rest
        } else {
            rest.push(
                ChapterInfoView {
                    title,
                    chapter_id: cid,
                    url: normalized_url(qq_base(), "/book-read/"@ + eff + "/"@ + cid),
                },
            )
        }
    }
}

/// A QQ reading book: its page and its chapter-list answer.
pub open spec fn qq_info(html: Seq<char>, catalog: Seq<char>, book_id: Seq<char>) -> BookInfoView {
    let chapters = match json_parsed(catalog) {
        Some(j) => qq_chapters(
            match oarr(jget(j, "data"@)) {
                Some(a) => a,
                None => Seq::empty(),
            },
            qq_effective_id(html, book_id),
        ),
        None => Seq::empty(),
    };
    BookInfoView {
        book_name: or_else(meta(html, "og:novel:book_name"@), sel_text(html, "h1.book-title"@)),
        author: replace_all(
            replace_all(or_else(meta(html, "og:novel:author"@), sel_text(html, "div.book-meta a.author"@)), " 著"@, Seq::empty()),
            "著"@,
            Seq::empty(),
        ),
        summary: or_else(sel_text(html, "div.book-intro"@), meta(html, "og:description"@)),
        cover_url: or_else(meta(html, "og:image"@), sel_attr(html, "div.book-cover img"@, "src"@)),
        serial_status: meta(html, "og:novel:status"@),
        update_time: meta(html, "og:novel:update_time"@),
        word_count: Seq::empty(),
        volumes: if chapters.len() > 0 {
            seq![VolumeView { volume_name: "正文"@, chapters }]
        } else {
            Seq::empty()
        },
    }
}

/// A QQ reading chapter page.
pub open spec fn qq_chapter(html: Seq<char>, chapter_id: Seq<char>) -> ChapterView {
    let blocks = match qq_nuxt(html) {
        Some(n) => match oarr(jget(n, "data"@)) {
            Some(a) => a,
            None => Seq::empty(),
        },
        None => Seq::empty(),
    };
    if blocks.len() > 0 {
        let b = Some(blocks[0]);
        let cc = oget(b, "currentContent"@);
        ChapterView {
            id: match oget(b, "cid"@) {
                Some(v) => match ou64(Some(v)) {
                    Some(n) => decimal(n as nat),
                    None => match ostr(Some(v)) {
                        Some(s) => s,
                        None => chapter_id,
                    },
                },
                None => chapter_id,
            },
            title: match ostr(oget(b, "chapterTitle"@)) {
                Some(s) => s,
                None => "Untitled"@,
            },
            content: if obool(oget(cc, "encrypt"@)) == Some(true) {
                "[内容已加密，需要特殊解密处理]"@
            } else {
                spec_html_to_text(str_or_empty(oget(cc, "content"@)))
            },
        }
    } else {
        ChapterView {
            id: chapter_id,
            title: sel_text(html, "h1"@),
            content: sel_text(html, "div.chapter-content, #content, article"@),
        }
    }
}

impl QqbookProvider {
    /// The site's identifier.
    pub fn name(&self) -> (r: &'static str)
        ensures
            r@ == "qqbook"@,
    {
        "qqbook"
    }

    /// The site's display name.
    pub fn display_name(&self) -> (r: &'static str)
        ensures
            r@ == "QQ阅读"@,
    {
        "QQ阅读"
    }

    /// The site's address.
    pub fn base_url(&self) -> (r: &'static str)
        ensures
            r@ == qq_base(),
    {
        "https://book.qq.com"
    }

    /// The book page: `{base}/book-detail/{id}`.
    pub fn book_url(&self, book_id: &str) -> (r: String)
        ensures
            r@ == qq_base() + "/book-detail/"@ + book_id@,
    {
        concat(concat(self.base_url(), "/book-detail/").as_str(), book_id)
    }

    /// The chapter-list request: `{base}/api/book/detail/chapters?bid={id}`.
    pub fn catalog_url(&self, book_id: &str) -> (r: String)
        ensures
            r@ == qq_base() + "/api/book/detail/chapters?bid="@ + book_id@,
    {
        concat(concat(self.base_url(), "/api/book/detail/chapters?bid=").as_str(), book_id)
    }

    /// A chapter page: `{base}/book-read/{book}/{chapter}/`.
    pub fn chapter_url(&self, book_id: &str, chapter_id: &str) -> (r: String)
        ensures
            r@ == qq_base() + "/book-read/"@ + book_id@ + "/"@ + chapter_id@ + "/"@,
    {
        let a = concat(concat(concat(self.base_url(), "/book-read/").as_str(), book_id).as_str(), "/");
        concat(concat(a.as_str(), chapter_id).as_str(), "/")
    }

    /// The page's `window.__NUXT__` object, if it is JSON.
    pub fn extract_nuxt_data(html: &str) -> (r: Option<Json>)
        ensures
            r == qq_nuxt(html@),
    {
        match regex_capture("window\\.__NUXT__\\s*=\\s*([\\s\\S]*?);\\s*</script>", html) {
            Some(g) => {
                let t = trim_exec(g.as_str());
                parse_json(t.as_str())
            },
            None => None,
        }
    }

    /// Parses the book page and the chapter-list answer.
    pub fn parse_book_info(&self, html: &str, catalog: &str, book_id: &str) -> (info: BookInfo)
        ensures
            info@ == qq_info(html@, catalog@, book_id@),
    {
        let mut book_name = meta_content(html, "og:novel:book_name");
        if book_name.as_str().is_empty() {
            book_name = select_text(html, "h1.book-title");
        }
        let mut author = meta_content(html, "og:novel:author");
        if author.as_str().is_empty() {
            author = select_text(html, "div.book-meta a.author");
        }
        proof {
            reveal_strlit(" 著");
            reveal_strlit("著");
            reveal_strlit("");
        }
        assert(""@ =~= Seq::<char>::empty());
        let a1 = replace_exec(author.as_str(), " 著", "");
        let author = replace_exec(a1.as_str(), "著", "");
        let mut cover_url = meta_content(html, "og:image");
        if cover_url.as_str().is_empty() {
            cover_url = select_attr(html, "div.book-cover img", "src");
        }
        let mut summary = select_text(html, "div.book-intro");
        if summary.as_str().is_empty() {
            summary = meta_content(html, "og:description");
        }
        let read_url = meta_content(html, "og:novel:read_url");
        let eff = if !read_url.as_str().is_empty() {
            crate::providers::common::chapter_id_by_rule(IdRule::TrimmedSegment, read_url.as_str())
        } else {
            owned(book_id)
        };
        let mut chapters: Vec<ChapterInfo> = Vec::new();
        match parse_json(catalog) {
            Some(j) => {
                let ghost items = match oarr(jget(j, "data"@)) {
                    Some(a) => a,
                    None => Seq::<Json>::empty(),
                };
                match as_array(get(&j, "data")) {
                    Some(arr) => {
                        let mut i: usize = 0;
                        while i < arr.len()
                            invariant
                                i <= arr.len(),
                                items == arr@,
                                chapters_view(chapters@) == qq_chapters(items.take(i as int), eff@),
                            decreases arr.len() - i,
                        {
                            assert(items.take(i + 1).drop_last() =~= items.take(i as int));
                            assert(items.take(i + 1).last() == arr@[i as int]);
                            let it = Some(&arr[i]);
                            assert(same(it, Some(arr@[i as int])));
                            let cv = oget_exec(it, "cid");
                            let cid = match as_u64(cv) {
                                Some(n) => u64_to_string(n),
                                None => str_or_empty_exec(cv),
                            };
                            let t = str_or_empty_exec(oget_exec(it, "chapterName"));
                            let title = trim_exec(t.as_str());
                            if !cid.as_str().is_empty() && !title.as_str().is_empty() {
                                let path = concat(
                                    concat(concat("/book-read/", eff.as_str()).as_str(), "/").as_str(),
                                    cid.as_str(),
                                );
                                let c = ChapterInfo { title, chapter_id: cid, url: normalize_url(self.base_url(), path.as_str()) };
                                let ghost o0 = chapters@;
                                chapters.push(c);
                                assert(chapters_view(chapters@) =~= chapters_view(o0).push(chapters@.last()@));
                            }
                            i += 1;
                        }
                        assert(items.take(i as int) =~= items);
                    },
                    None => {
                        assert(chapters_view(chapters@) =~= qq_chapters(items, eff@));
                    },
                }
            },
            None => {},
        }
        let mut volumes: Vec<Volume> = Vec::new();
        if chapters.len() > 0 {
            volumes.push(Volume { volume_name: owned("正文"), chapters });
        }
        let info = BookInfo {
            book_name,
            author,
            summary,
            cover_url,
            serial_status: meta_content(html, "og:novel:status"),
            update_time: meta_content(html, "og:novel:update_time"),
            word_count: String::new(),
            volumes,
        };
        assert(info@.volumes =~= qq_info(html@, catalog@, book_id@).volumes);
        assert(info@.word_count =~= Seq::<char>::empty());
        info
    }

    /// Parses a chapter page.
    pub fn parse_chapter(html: &str, chapter_id: &str) -> (ch: Chapter)
        ensures
            ch@ == qq_chapter(html@, chapter_id@),
    {
        let nuxt = Self::extract_nuxt_data(html);
        match &nuxt {
            Some(n) => match as_array(get(n, "data")) {
                Some(blocks) => if blocks.len() > 0 {
                    let b = Some(&blocks[0]);
                    assert(same(b, Some(blocks@[0])));
                    let cc = oget_exec(b, "currentContent");
                    let title = match as_str(oget_exec(b, "chapterTitle")) {
                        Some(s) => owned(s),
                        None => owned("Untitled"),
                    };
                    let cv = oget_exec(b, "cid");
                    let id = match cv {
                        Some(v) => match as_u64(Some(v)) {
                            Some(k) => u64_to_string(k),
                            None => match as_str(Some(v)) {
                                Some(s) => owned(s),
                                None => owned(chapter_id),
                            },
                        },
                        None => owned(chapter_id),
                    };
                    let enc = as_bool(oget_exec(cc, "encrypt"));
                    let content = if enc == Some(true) {
                        owned("[内容已加密，需要特殊解密处理]")
                    } else {
                        let raw = str_or_empty_exec(oget_exec(cc, "content"));
                        html_to_text(raw.as_str())
                    };
                    return Chapter { id, title, content };
                },
                None => {},
            },
            None => {},
        }
        Chapter {
            id: owned(chapter_id),
            title: select_text(html, "h1"),
            content: select_text(html, "div.chapter-content, #content, article"),
        }
    }
}

} // verus!
