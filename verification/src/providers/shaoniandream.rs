//! 少年之梦 (shaoniandream): book data from the detail page; the chapter
//! directory and chapter text from JSON endpoints unlocked by a signed key.

use vstd::prelude::*;

use crate::html::{normalize_url, normalized_url, or_else, sel_attr, sel_text, select_attr, select_text};
use crate::json::{
    arr_or_empty, as_array, get, jget, json_or_null, oget, or_opt, or_ref, ostr, parse_or_null, same, str_or_empty,
    str_or_empty_exec, Json,
};
use crate::markup::{html_to_text, spec_html_to_text, strip_html, strip_tags};
use crate::text::{concat, decimal, join, join_exec, owned, replace_all, replace_exec, starts_with, starts_with_exec, trim, trim_exec, u64_to_string};
use crate::types::{BookInfo, BookInfoView, Chapter, ChapterInfo, ChapterInfoView, ChapterView, Volume, VolumeView};

verus! {

/// The shaoniandream site.
pub struct ShaoniandreamProvider;

/// Site address.
pub open spec fn sd_base() -> Seq<char> {
    "https://www.shaoniandream.com"@
}

/// The cover: `data-original`, else `src`; a relative address made absolute.
pub open spec fn sd_cover(html: Seq<char>) -> Seq<char> {
    let c = or_else(sel_attr(html, "div.cover img"@, "data-original"@), sel_attr(html, "div.cover img"@, "src"@));
    if c.len() > 0 && !starts_with(c, "http"@) {
        normalized_url(sd_base(), c)
    } else {
        c
    }
}

/// The book data of a detail page (the directory comes separately).
pub open spec fn sd_info(html: Seq<char>) -> BookInfoView {
    BookInfoView {
        book_name: or_else(
            sel_text(html, "div.bookdetail-name span.title, div[class*='bookdetail-name'] span.title"@),
            sel_text(html, "h1"@),
        ),
        author: or_else(
            sel_text(html, "span.penName a, span[class*='penName'] a"@),
            sel_text(html, "span.penName, span[class*='penName']"@),
        ),
        summary: sel_text(html, "div.bookdetial-jianjie, div[class*='bookdetial-jianjie']"@),
        cover_url: sd_cover(html),
        serial_status: sel_text(html, "div.bookdetail-name i, div[class*='bookdetail-name'] i"@),
        update_time: trim(
            replace_all(
                sel_text(html, "div.bookdetial-newchapter span, div[class*='bookdetial-newchapter'] span"@),
                "● "@,
                Seq::empty(),
            ),
        ),
        word_count: sel_text(html, "div.font-list span"@),
        volumes: Seq::empty(),
    }
}

/// The signed key of an answer of the signing endpoint, or empty.
pub open spec fn sd_key(text: Seq<char>) -> Seq<char> {
    str_or_empty(jget(json_or_null(text), "sign"@))
}

/// The id of a directory entry: `chapter_id`, else `id`, as a string or a
/// non-negative integer.
pub open spec fn sd_chapter_id(ch: Json) -> Seq<char> {
    match or_opt(jget(ch, "chapter_id"@), jget(ch, "id"@)) {
        Some(Json::Str(s)) => s@,
        Some(Json::UInt(n)) => decimal(n as nat),
        _ => Seq::empty(),
    }
}

/// The chapters of a directory volume; entries without id or title skipped.
pub open spec fn sd_chapters(items: Seq<Json>) -> Seq<ChapterInfoView>
    decreases items.len(),
{
    if items.len() == 0 {
        Seq::empty()
    } else {
        let rest = sd_chapters(items.drop_last());
        let ch = items.last();
        let id = sd_chapter_id(ch);
        let title = str_or_empty(or_opt(jget(ch, "title"@), jget(ch, "chapter_name"@)));
        if id.len() == 0 || title.len() == 0 {
            rest
        } else {
            rest.push(ChapterInfoView { title, chapter_id: id, url: sd_base() + "/read/"@ + id })
        }
    }
}

/// The volumes of the directory's `readdir` array; empty volumes dropped.
pub open spec fn sd_volumes_of(vols: Seq<Json>) -> Seq<VolumeView>
    decreases vols.len(),
{
    if vols.len() == 0 {
        Seq::empty()
    } else {
        let rest = sd_volumes_of(vols.drop_last());
        let v = vols.last();
        let chapters = sd_chapters(arr_or_empty(or_opt(jget(v, "chapters"@), jget(v, "list"@))));
        if chapters.len() > 0 {
            rest.push(
                VolumeView { volume_name: str_or_empty(or_opt(jget(v, "volume_name"@), jget(v, "name"@))), chapters },
            )
        } else {
            rest
        }
    }
}

/// The volumes of a directory answer.
pub open spec fn sd_volumes(text: Seq<char>) -> Seq<VolumeView> {
    sd_volumes_of(arr_or_empty(jget(json_or_null(text), "readdir"@)))
}

/// A paragraph of `show_content`: `<i>` tags dropped, other tags removed,
/// trimmed.
pub open spec fn sd_piece(c: Seq<char>) -> Seq<char> {
    trim(strip_tags(replace_all(replace_all(c, "<i>"@, Seq::empty()), "</i>"@, Seq::empty())))
}

/// The non-empty paragraphs of the `show_content` items.
pub open spec fn sd_show(items: Seq<Json>) -> Seq<Seq<char>>
    decreases items.len(),
{
    if items.len() == 0 {
        Seq::empty()
    } else {
        let rest = sd_show(items.drop_last());
        match ostr(jget(items.last(), "content"@)) {
            Some(c) => if sd_piece(c).len() > 0 {
                rest.push(sd_piece(c))
            } else {
                rest
            },
            None => rest,
        }
    }
}

/// The paragraphs of a chapter: those of `show_content`, else the text of
/// `content`; then, after an empty line, the author's note, if any.
pub open spec fn sd_paragraphs(data: Json) -> Seq<Seq<char>> {
    let p1 = sd_show(arr_or_empty(jget(data, "show_content"@)));
    let p2 = if p1.len() > 0 {
        p1
    } else {
        match ostr(jget(data, "content"@)) {
            Some(c) => if spec_html_to_text(c).len() > 0 {
                seq![spec_html_to_text(c)]
            } else {
                Seq::empty()
            },
            None => Seq::empty(),
        }
    };
    match ostr(jget(data, "miaoshu"@)) {
        Some(m) => if trim(strip_tags(m)).len() > 0 {
            p2 + seq![Seq::empty(), trim(strip_tags(m))]
        } else {
            p2
        },
        None => p2,
    }
}

/// A chapter of an answer of the chapter endpoint: its `data` member, or
/// the whole answer.
pub open spec fn sd_chapter(text: Seq<char>, chapter_id: Seq<char>) -> ChapterView {
    let j = json_or_null(text);
    let data = match jget(j, "data"@) {
        Some(d) => d,
        None => j,
    };
    ChapterView {
        id: chapter_id,
        title: str_or_empty(or_opt(jget(data, "title"@), jget(data, "chapter_name"@))),
        content: join(sd_paragraphs(data), "\n"@),
    }
}

fn sd_chapters_exec(items: &Vec<Json>) -> (r: Vec<ChapterInfo>)
    ensures
        r@.map_values(|c: ChapterInfo| c@) == sd_chapters(items@),
{
    let mut out: Vec<ChapterInfo> = Vec::new();
    let mut i: usize = 0;
    while i < items.len()
        invariant
            i <= items.len(),
            out@.map_values(|c: ChapterInfo| c@) == sd_chapters(items@.take(i as int)),
        decreases items.len() - i,
    {
        assert(items@.take(i + 1).drop_last() =~= items@.take(i as int));
        assert(items@.take(i + 1).last() == items@[i as int]);
        let ch = &items[i];
        let id = match or_ref(get(ch, "chapter_id"), get(ch, "id")) {
            Some(Json::Str(s)) => owned(s.as_str()),
            Some(Json::UInt(n)) => u64_to_string(*n),
            _ => String::new(),
        };
        let title = str_or_empty_exec(or_ref(get(ch, "title"), get(ch, "chapter_name")));
        if !id.as_str().is_empty() && !title.as_str().is_empty() {
            let url = concat("https://www.shaoniandream.com/read/", id.as_str());
            proof {
                reveal_strlit("https://www.shaoniandream.com/read/");
                reveal_strlit("https://www.shaoniandream.com");
                reveal_strlit("/read/");
            }
            assert("https://www.shaoniandream.com/read/"@ =~= sd_base() + "/read/"@);
            let ghost o0 = out@;
            out.push(ChapterInfo { title, chapter_id: id, url });
            assert(out@.map_values(|c: ChapterInfo| c@) =~= o0.map_values(|c: ChapterInfo| c@).push(out@.last()@));
        }
        i += 1;
    }
    assert(items@.take(i as int) =~= items@);
    out
}

fn sd_show_exec(items: &Vec<Json>) -> (r: Vec<String>)
    ensures
        r@.map_values(|s: String| s@) == sd_show(items@),
{
    let mut out: Vec<String> = Vec::new();
    let mut i: usize = 0;
    while i < items.len()
        invariant
            i <= items.len(),
            out@.map_values(|s: String| s@) == sd_show(items@.take(i as int)),
        decreases items.len() - i,
    {
        assert(items@.take(i + 1).drop_last() =~= items@.take(i as int));
        assert(items@.take(i + 1).last() == items@[i as int]);
        match crate::json::as_str(get(&items[i], "content")) {
            Some(c) => {
                proof {
                    reveal_strlit("<i>");
                    reveal_strlit("</i>");
                    reveal_strlit("");
                }
                assert(""@ =~= Seq::<char>::empty());
                let a = replace_exec(c, "<i>", "");
                let b = replace_exec(a.as_str(), "</i>", "");
                let s = strip_html(b.as_str());
                let t = trim_exec(s.as_str());
                if !t.as_str().is_empty() {
                    let ghost o0 = out@;
                    out.push(t);
                    assert(out@.map_values(|s: String| s@) =~= o0.map_values(|s: String| s@).push(out@.last()@));
                }
            },
            None => {},
        }
        i += 1;
    }
    assert(items@.take(i as int) =~= items@);
    out
}

impl ShaoniandreamProvider {
    /// The site's identifier.
    pub fn name(&self) -> (r: &'static str)
        ensures
            r@ == "shaoniandream"@,
    {
        "shaoniandream"
    }

    /// The site's display name.
    pub fn display_name(&self) -> (r: &'static str)
        ensures
            r@ == "少年之梦"@,
    {
        "少年之梦"
    }

    /// The site's address.
    pub fn base_url(&self) -> (r: &'static str)
        ensures
            r@ == sd_base(),
    {
        "https://www.shaoniandream.com"
    }

    /// The detail page: `{base}/book_detail/{id}`.
    pub fn book_url(&self, book_id: &str) -> (r: String)
        ensures
            r@ == sd_base() + "/book_detail/"@ + book_id@,
    {
        concat(concat(self.base_url(), "/book_detail/").as_str(), book_id)
    }

    /// The directory signing endpoint: `{base}/booklibrary/getbookdetaildirsign/book_id/{id}`.
    pub fn dir_sign_url(&self, book_id: &str) -> (r: String)
        ensures
            r@ == sd_base() + "/booklibrary/getbookdetaildirsign/book_id/"@ + book_id@,
    {
        concat(concat(self.base_url(), "/booklibrary/getbookdetaildirsign/book_id/").as_str(), book_id)
    }

    /// The directory endpoint: `{base}/booklibrary/getbookdetaildir/BookID/{id}`.
    pub fn dir_url(&self, book_id: &str) -> (r: String)
        ensures
            r@ == sd_base() + "/booklibrary/getbookdetaildir/BookID/"@ + book_id@,
    {
        concat(concat(self.base_url(), "/booklibrary/getbookdetaildir/BookID/").as_str(), book_id)
    }

    /// The chapter signing endpoint: `{base}/booklibrary/membersinglechaptersign/chapter_id/{id}`.
    pub fn chapter_sign_url(&self, chapter_id: &str) -> (r: String)
        ensures
            r@ == sd_base() + "/booklibrary/membersinglechaptersign/chapter_id/"@ + chapter_id@,
    {
        concat(concat(self.base_url(), "/booklibrary/membersinglechaptersign/chapter_id/").as_str(), chapter_id)
    }

    /// The chapter endpoint: `{base}/booklibrary/membersinglechapter/chapter_id/{id}`.
    pub fn chapter_url(&self, chapter_id: &str) -> (r: String)
        ensures
            r@ == sd_base() + "/booklibrary/membersinglechapter/chapter_id/"@ + chapter_id@,
    {
        concat(concat(self.base_url(), "/booklibrary/membersinglechapter/chapter_id/").as_str(), chapter_id)
    }

    /// The signed key of a signing answer, or empty; the directory is
    /// fetched only with a non-empty key, posted as `access_key`.
    pub fn access_key(sign_text: &str) -> (r: String)
        ensures
            r@ == sd_key(sign_text@),
    {
        let j = parse_or_null(sign_text);
        str_or_empty_exec(get(&j, "sign"))
    }

    /// The directory request's form for a signed key: one `access_key`
    /// field; none when the key is empty, and then no directory is asked for.
    pub fn dir_form(key: &str) -> (r: Option<Vec<(String, String)>>)
        ensures
            key@.len() == 0 <==> r is None,
            r matches Some(f) ==> f@.len() == 1 && f@[0].0@ == "access_key"@ && f@[0].1@ == key@,
    {
        if key.is_empty() {
            None
        } else {
            Some(vec![(owned("access_key"), owned(key))])
        }
    }

    /// The book's data completed by the directory answer: its volumes are
    /// those of the answer when there is one, and none otherwise.
    pub fn with_directory(info: BookInfo, dir_text: Option<&str>) -> (r: BookInfo)
        ensures
            r@.book_name == info@.book_name,
            r@.author == info@.author,
            r@.summary == info@.summary,
            r@.cover_url == info@.cover_url,
            r@.serial_status == info@.serial_status,
            r@.update_time == info@.update_time,
            r@.word_count == info@.word_count,
            r@.volumes == match dir_text {
                Some(t) => sd_volumes(t@),
                None => info@.volumes,
            },
    {
        let mut info = info;
        match dir_text {
            Some(t) => {
                info.volumes = Self::parse_volumes(t);
            },
            None => {},
        }
        info
    }

    /// Parses a detail page.
    pub fn parse_book_info(&self, html: &str) -> (info: BookInfo)
        ensures
            info@ == sd_info(html@),
    {
        let mut book_name = select_text(html, "div.bookdetail-name span.title, div[class*='bookdetail-name'] span.title");
        if book_name.as_str().is_empty() {
            book_name = select_text(html, "h1");
        }
        let mut author = select_text(html, "span.penName a, span[class*='penName'] a");
        if author.as_str().is_empty() {
            author = select_text(html, "span.penName, span[class*='penName']");
        }
        let mut cover = select_attr(html, "div.cover img", "data-original");
        if cover.as_str().is_empty() {
            cover = select_attr(html, "div.cover img", "src");
        }
        if !cover.as_str().is_empty() && !starts_with_exec(cover.as_str(), "http") {
            cover = normalize_url(self.base_url(), cover.as_str());
        }
        let u = select_text(html, "div.bookdetial-newchapter span, div[class*='bookdetial-newchapter'] span");
        proof {
            reveal_strlit("● ");
            reveal_strlit("");
        }
        assert(""@ =~= Seq::<char>::empty());
        let u2 = replace_exec(u.as_str(), "● ", "");
        let info = BookInfo {
            book_name,
            author,
            summary: select_text(html, "div.bookdetial-jianjie, div[class*='bookdetial-jianjie']"),
            cover_url: cover,
            serial_status: select_text(html, "div.bookdetail-name i, div[class*='bookdetail-name'] i"),
            update_time: trim_exec(u2.as_str()),
            word_count: select_text(html, "div.font-list span"),
            volumes: Vec::new(),
        };
        assert(info@.volumes =~= sd_info(html@).volumes);
        info
    }

    /// The volumes of a directory answer.
    pub fn parse_volumes(dir_text: &str) -> (r: Vec<Volume>)
        ensures
            r@.map_values(|v: Volume| v@) == sd_volumes(dir_text@),
    {
        let j = parse_or_null(dir_text);
        let mut out: Vec<Volume> = Vec::new();
        match as_array(get(&j, "readdir")) {
            Some(vols) => {
                let mut i: usize = 0;
                while i < vols.len()
                    invariant
                        i <= vols.len(),
                        out@.map_values(|v: Volume| v@) == sd_volumes_of(vols@.take(i as int)),
                    decreases vols.len() - i,
                {
                    assert(vols@.take(i + 1).drop_last() =~= vols@.take(i as int));
                    assert(vols@.take(i + 1).last() == vols@[i as int]);
                    let v = &vols[i];
                    let chapters = match as_array(or_ref(get(v, "chapters"), get(v, "list"))) {
                        Some(a) => sd_chapters_exec(a),
                        None => Vec::new(),
                    };
                    if chapters.len() > 0 {
                        let volume_name = str_or_empty_exec(or_ref(get(v, "volume_name"), get(v, "name")));
                        let ghost o0 = out@;
                        out.push(Volume { volume_name, chapters });
                        assert(out@.map_values(|v: Volume| v@) =~= o0.map_values(|v: Volume| v@).push(out@.last()@));
                    }
                    i += 1;
                }
                assert(vols@.take(i as int) =~= vols@);
            },
            None => {
                assert(out@.map_values(|v: Volume| v@) =~= sd_volumes(dir_text@));
            },
        }
        out
    }

    /// A chapter from an answer of the chapter endpoint.
    pub fn parse_chapter(text: &str, chapter_id: &str) -> (ch: Chapter)
        ensures
            ch@ == sd_chapter(text@, chapter_id@),
    {
        let j = parse_or_null(text);
        let data: &Json = match get(&j, "data") {
            Some(d) => d,
            None => &j,
        };
        let title = str_or_empty_exec(or_ref(get(data, "title"), get(data, "chapter_name")));
        let mut paras = match as_array(get(data, "show_content")) {
            Some(a) => sd_show_exec(a),
            None => Vec::new(),
        };
        assert(paras@.map_values(|s: String| s@) =~= sd_show(arr_or_empty(jget(*data, "show_content"@))));
        if paras.len() == 0 {
            match crate::json::as_str(get(data, "content")) {
                Some(c) => {
                    let t = html_to_text(c);
                    if !t.as_str().is_empty() {
                        paras.push(t);
                    }
                },
                None => {},
            }
        }
        let ghost p2 = paras@.map_values(|s: String| s@);
        match crate::json::as_str(get(data, "miaoshu")) {
            Some(m) => {
                let s = strip_html(m);
                let t = trim_exec(s.as_str());
                if !t.as_str().is_empty() {
                    let ghost q0 = paras@;
                    paras.push(String::new());
                    paras.push(t);
                    assert(paras@.map_values(|s: String| s@) =~= p2 + seq![Seq::<char>::empty(), trim(strip_tags(m@))]);
                }
            },
            None => {},
        }
        assert(paras@.map_values(|s: String| s@) =~= sd_paragraphs(*data));
        let content = join_exec(&paras, "\n");
        Chapter { id: owned(chapter_id), title, content }
    }
}

} // verus!
