//! 若初文学网 (ruochu): book and catalog pages, chapter text from a JSONP
//! endpoint.

use vstd::prelude::*;

use crate::html::{
    fragment_select, html_fragment_select, html_select, node_text, normalize_url, normalized_url, or_else, sel_attr,
    sel_text, select_all, select_attr, select_text,
};
use crate::json::{get, jget, json_or_null, or_opt, or_ref, parse_or_null, str_or_empty, str_or_empty_exec, Json};
use crate::markup::{html_to_text, spec_html_to_text};
use crate::providers::common::{
    after_first, after_first_exec, link_chapters, links_to_chapters, nonempty_texts, nonempty_texts_exec,
    single_volume_if_any, IdRule,
};
use crate::text::{
    chars_of, concat, contains, contains_exec, decimal, first_occurrence_from, is_whitespace, is_ws, join, join_exec,
    last_occurrence_before, owned, starts_with, starts_with_exec, string_of, sub_chars, trim, trim_exec,
    trim_start_matches, trim_start_matches_exec, u64_to_string,
};
use crate::types::{BookInfo, BookInfoView, Chapter, ChapterView, Volume};

verus! {

/// The ruochu site.
pub struct RuochuProvider;

/// Site address.
pub open spec fn rc_base() -> Seq<char> {
    "https://www.ruochu.com"@
}

/// The leading characters of `s` up to its first whitespace.
pub open spec fn until_ws(s: Seq<char>) -> Seq<char>
    decreases s.len(),
{
    if s.len() == 0 || is_ws(s[0]) {
        Seq::empty()
    } else {
        seq![s[0]] + until_ws(s.skip(1))
    }
}

/// The author: in the first notice that mentions the author, the first
/// word after `作者` and its colon.
pub open spec fn rc_author(html: Seq<char>) -> Seq<char> {
    let ns = html_select(html, "div.notify, div[class*='notify']"@);
    if ns.len() > 0 && contains(node_text(ns[0]), "作者"@) {
        match after_first(node_text(ns[0]), "作者"@) {
            Some(a) => until_ws(trim(trim_start_matches(trim_start_matches(a, "："@), ":"@))),
            None => Seq::empty(),
        }
    } else {
        Seq::empty()
    }
}

/// The cover: a relative address made absolute.
pub open spec fn rc_cover(html: Seq<char>) -> Seq<char> {
    let c = sel_attr(html, "div.pic img.book-cover, img[class*='book-cover']"@, "src"@);
    if c.len() > 0 && !starts_with(c, "http"@) {
        normalized_url(rc_base(), c)
    } else {
        c
    }
}

/// A ruochu book: its page and its catalog page.
pub open spec fn rc_info(html: Seq<char>, catalog: Seq<char>) -> BookInfoView {
    BookInfoView {
        book_name: or_else(
            sel_text(html, "div.pattern-cover-detail h1 span, div[class*='pattern-cover-detail'] h1 span"@),
            sel_text(html, "h1"@),
        ),
        author: rc_author(html),
        summary: or_else(
            sel_text(html, "div.summary pre.note, div[class*='summary'] pre.note"@),
            sel_text(html, "div.summary, div[class*='summary']"@),
        ),
        cover_url: rc_cover(html),
        serial_status: if html_select(html, "i.is-serialize, i[class*='is-serialize']"@).len() > 0 {
            "连载中"@
        } else {
            "完结"@
        },
        update_time: sel_text(html, "span.time, span[class*='time']"@),
        word_count: sel_text(html, "span.words, span[class*='words']"@),
        volumes: single_volume_if_any(
            link_chapters(
                html_select(catalog, "div.chapter-list ul li a[href], div[class*='chapter-list'] ul li a[href]"@),
                rc_base(),
                IdRule::QueryStem,
            ),
        ),
    }
}

/// A JSONP answer whose last `)` does not come before its first `(` (the
/// answers the body can be cut out of).
pub open spec fn jsonp_ok(resp: Seq<char>) -> bool {
    match first_occurrence_from(resp, "("@, 0) {
        Some(st) => match last_occurrence_before(resp, ")"@, resp.len() as int) {
            Some(e) => st + 1 <= e,
            None => true,
        },
        None => true,
    }
}

/// The body of a JSONP answer: between the first `(` and the last `)` (or
/// the end); the whole answer when it has no `(`.
pub open spec fn jsonp_body(resp: Seq<char>) -> Seq<char> {
    match first_occurrence_from(resp, "("@, 0) {
        Some(st) => {
            let end = match last_occurrence_before(resp, ")"@, resp.len() as int) {
                Some(e) => e,
                None => resp.len() as int,
            };
            resp.subrange(st + 1, end)
        },
        None => resp,
    }
}

/// A chapter from the JSONP answer: its `chapter` (else `data`) member;
/// text from the non-empty paragraphs of its HTML, else all its text.
pub open spec fn rc_chapter(resp: Seq<char>, chapter_id: Seq<char>) -> ChapterView {
    let j = json_or_null(jsonp_body(resp));
    match or_opt(jget(j, "chapter"@), jget(j, "data"@)) {
        Some(c) => {
            let h = str_or_empty(or_opt(jget(c, "htmlContent"@), jget(c, "content"@)));
            let ps = nonempty_texts(html_fragment_select(h, "p"@));
            ChapterView {
                id: chapter_id,
                title: str_or_empty(jget(c, "title"@)),
                content: if h.len() == 0 {
                    Seq::empty()
                } else if ps.len() == 0 {
                    spec_html_to_text(h)
                } else {
                    join(ps, "\n"@)
                },
            }
        },
        None => ChapterView { id: chapter_id, title: Seq::empty(), content: Seq::empty() },
    }
}

fn until_ws_exec(s: &str) -> (r: String)
    ensures
        r@ == until_ws(s@),
{
    let v = chars_of(s);
    let mut i: usize = 0;
    assert(v@.skip(0) =~= v@);
    assert(v@.take(0) + until_ws(v@) =~= until_ws(v@));
    while i < v.len() && !is_whitespace(v[i])
        invariant
            i <= v.len(),
            v@ == s@,
            until_ws(s@) == v@.take(i as int) + until_ws(v@.skip(i as int)),
        decreases v.len() - i,
    {
        assert(v@.skip(i as int)[0] == v@[i as int]);
        assert(v@.skip(i as int).skip(1) =~= v@.skip(i + 1));
        assert(v@.take(i + 1) =~= v@.take(i as int) + seq![v@[i as int]]);
        i += 1;
    }
    proof {
        if i < v.len() {
            assert(v@.skip(i as int)[0] == v@[i as int]);
        }
    }
    assert(until_ws(v@.skip(i as int)) =~= Seq::<char>::empty());
    assert(v@.take(i as int) + Seq::<char>::empty() =~= v@.take(i as int));
    string_of(sub_chars(&v, 0, i).as_slice())
}

/// The callback number for a clock reading: the nanoseconds since the epoch
/// (zero for a reading before it, `None`) modulo 10^16, in decimal.
pub fn callback_digits(nanos: Option<u128>) -> (r: String)
    ensures
        r@ == decimal(
            match nanos {
                Some(n) => (n % 10_000_000_000_000_000) as nat,
                None => 0,
            },
        ),
{
    let ns: u128 = match nanos {
        Some(n) => n,
        None => 0,
    };
    let v: u128 = ns % 10_000_000_000_000_000;
    u64_to_string(v as u64)
}

/// A pseudo-random decimal number for JSONP callback names, taken from the
/// clock: nanoseconds since the epoch (zero before it) modulo 10^16.
pub fn fastrand_simple() -> (r: String)
    ensures
        exists|n: nat| n < 10_000_000_000_000_000 && r@ == decimal(n),
{
    let t = crate::clock::clock_now();
    let nanos: Option<u128> = match crate::clock::since_epoch(&t) {
        Ok(d) => Some(crate::clock::whole_nanos(&d)),
        Err(_) => None,
    };
    let r = callback_digits(nanos);
    let ghost n: nat = match nanos {
        Some(x) => (x % 10_000_000_000_000_000) as nat,
        None => 0,
    };
    assert(n < 10_000_000_000_000_000 && r@ == decimal(n));
    r
}

impl RuochuProvider {
    /// The site's identifier.
    pub fn name(&self) -> (r: &'static str)
        ensures
            r@ == "ruochu"@,
    {
        "ruochu"
    }

    /// The site's display name.
    pub fn display_name(&self) -> (r: &'static str)
        ensures
            r@ == "若初文学网"@,
    {
        "若初文学网"
    }

    /// The site's address.
    pub fn base_url(&self) -> (r: &'static str)
        ensures
            r@ == rc_base(),
    {
        "https://www.ruochu.com"
    }

    /// The book page: `{base}/book/{id}`.
    pub fn book_url(&self, book_id: &str) -> (r: String)
        ensures
            r@ == rc_base() + "/book/"@ + book_id@,
    {
        concat(concat(self.base_url(), "/book/").as_str(), book_id)
    }

    /// The catalog page: `{base}/chapter/{id}`.
    pub fn catalog_url(&self, book_id: &str) -> (r: String)
        ensures
            r@ == rc_base() + "/chapter/"@ + book_id@,
    {
        concat(concat(self.base_url(), "/chapter/").as_str(), book_id)
    }

    /// The chapter request: `https://a.ruochu.com/ajax/chapter/content/{id}?callback=jQuery{rand}_{ts}`.
    pub fn chapter_url(&self, chapter_id: &str, rand: &str, ts: u64) -> (r: String)
        ensures
            r@ == "https://a.ruochu.com/ajax/chapter/content/"@ + chapter_id@ + "?callback=jQuery"@ + rand@ + "_"@
                + decimal(ts as nat),
    {
        let a = concat(concat("https://a.ruochu.com/ajax/chapter/content/", chapter_id).as_str(), "?callback=jQuery");
        let b = concat(concat(a.as_str(), rand).as_str(), "_");
        let t = u64_to_string(ts);
        concat(b.as_str(), t.as_str())
    }

    /// Parses the book page and the catalog page.
    pub fn parse_book_info(&self, html: &str, catalog: &str) -> (info: BookInfo)
        ensures
            info@ == rc_info(html@, catalog@),
    {
        let mut book_name = select_text(html, "div.pattern-cover-detail h1 span, div[class*='pattern-cover-detail'] h1 span");
        if book_name.as_str().is_empty() {
            book_name = select_text(html, "h1");
        }
        let ns = select_all(html, "div.notify, div[class*='notify']");
        let mut author = String::new();
        if ns.len() > 0 {
            let t = crate::html::element_text(&ns[0]);
            if contains_exec(t.as_str(), "作者") {
                match after_first_exec(t.as_str(), "作者") {
                    Some(a) => {
                        let a1 = trim_start_matches_exec(a.as_str(), "：");
                        let a2 = trim_start_matches_exec(a1.as_str(), ":");
                        let a3 = trim_exec(a2.as_str());
                        author = until_ws_exec(a3.as_str());
                    },
                    None => {},
                }
            }
        }
        let cover = select_attr(html, "div.pic img.book-cover, img[class*='book-cover']", "src");
        let cover_url = if !cover.as_str().is_empty() && !starts_with_exec(cover.as_str(), "http") {
            normalize_url(self.base_url(), cover.as_str())
        } else {
            cover
        };
        let serial_status = if select_all(html, "i.is-serialize, i[class*='is-serialize']").len() > 0 {
            owned("连载中")
        } else {
            owned("完结")
        };
        let mut summary = select_text(html, "div.summary pre.note, div[class*='summary'] pre.note");
        if summary.as_str().is_empty() {
            summary = select_text(html, "div.summary, div[class*='summary']");
        }
        let links = select_all(catalog, "div.chapter-list ul li a[href], div[class*='chapter-list'] ul li a[href]");
        let chapters = links_to_chapters(&links, self.base_url(), IdRule::QueryStem);
        let mut volumes: Vec<Volume> = Vec::new();
        if chapters.len() > 0 {
            volumes.push(Volume { volume_name: String::new(), chapters });
        }
        let info = BookInfo {
            book_name,
            author,
            summary,
            cover_url,
            serial_status,
            update_time: select_text(html, "span.time, span[class*='time']"),
            word_count: select_text(html, "span.words, span[class*='words']"),
            volumes,
        };
        assert(info@.volumes =~= rc_info(html@, catalog@).volumes);
        info
    }

    /// Whether the body of a JSONP answer can be cut out (see [`jsonp_ok`]).
    pub fn is_jsonp_ok(resp: &str) -> (r: bool)
        ensures
            r == jsonp_ok(resp@),
    {
        let v = crate::text::chars_of(resp);
        let open = crate::text::chars_of("(");
        let close = crate::text::chars_of(")");
        proof {
            reveal_strlit("(");
            reveal_strlit(")");
        }
        match crate::text::find_from(&v, &open, 0) {
            Some(st) => match crate::text::rfind_before(&v, &close, v.len()) {
                Some(e) => st < e,
                None => true,
            },
            None => true,
        }
    }

    /// The body of a JSONP answer.
    pub fn jsonp_body_exec(resp: &str) -> (r: String)
        requires
            jsonp_ok(resp@),
        ensures
            r@ == jsonp_body(resp@),
    {
        let v = chars_of(resp);
        let open = chars_of("(");
        let close = chars_of(")");
        match crate::text::find_from(&v, &open, 0) {
            Some(st) => {
                proof {
                    crate::text::lemma_first_occurrence_bounds(v@, open@, 0);
                    crate::text::lemma_last_occurrence_bounds(v@, close@, v@.len() as int);
                    reveal_strlit("(");
                    reveal_strlit(")");
                }
                let end = match crate::text::rfind_before(&v, &close, v.len()) {
                    Some(e) => e,
                    None => v.len(),
                };
                assert(st + 1 <= end);
                let b = sub_chars(&v, st + 1, end);
                string_of(b.as_slice())
            },
            None => owned(resp),
        }
    }

    /// A chapter from a JSONP answer.
    pub fn parse_chapter(resp: &str, chapter_id: &str) -> (ch: Chapter)
        requires
            jsonp_ok(resp@),
        ensures
            ch@ == rc_chapter(resp@, chapter_id@),
    {
        let body = Self::jsonp_body_exec(resp);
        let j = parse_or_null(body.as_str());
        match or_ref(get(&j, "chapter"), get(&j, "data")) {
            Some(c) => {
                let h = str_or_empty_exec(or_ref(get(c, "htmlContent"), get(c, "content")));
                let content = if h.as_str().is_empty() {
                    String::new()
                } else {
                    let ps = fragment_select(h.as_str(), "p");
                    let paras = nonempty_texts_exec(&ps);
                    if paras.len() == 0 {
                        html_to_text(h.as_str())
                    } else {
                        join_exec(&paras, "\n")
                    }
                };
                Chapter { id: owned(chapter_id), title: str_or_empty_exec(get(c, "title")), content }
            },
            None => Chapter { id: owned(chapter_id), title: String::new(), content: String::new() },
        }
    }
}

} // verus!
