//! KadoKado (kadokado.com.tw): everything comes from a JSON API.

use vstd::prelude::*;

use crate::html::{fragment_select, html_fragment_select};
use crate::json::{
    arr_or_empty, as_array, as_i64, get, jget, json_parsed, oarr, oget, oi64, or_opt, or_ref, ostr, parse_json,
    same, str_or_empty, str_or_empty_exec, Json,
};
use crate::markup::{html_to_text, spec_html_to_text};
use crate::providers::common::{nonempty_texts, nonempty_texts_exec, take_at_most, url_encode, url_encoded};
use crate::text::{concat, decimal, i64_to_string, join, join_exec, owned, signed_decimal, trim, trim_exec};
use crate::types::{BookInfo, BookInfoView, Chapter, ChapterInfo, ChapterInfoView, ChapterView, SearchResult, SearchResultView, Volume, VolumeView};

verus! {

/// The KadoKado site.
pub struct KadokadoProvider;

/// Site address.
pub open spec fn kd_base() -> Seq<char> {
    "https://www.kadokado.com.tw"@
}

/// API address.
pub open spec fn kd_api() -> Seq<char> {
    "https://api.kadokado.com.tw"@
}

/// An id member: an integer written in decimal, else a string, else empty.
pub open spec fn kd_id(v: Option<Json>) -> Seq<char> {
    match oi64(v) {
        Some(n) => signed_decimal(n as int),
        None => str_or_empty(v),
    }
}

/// An integer member written in decimal, or empty.
pub open spec fn kd_int_text(v: Option<Json>) -> Seq<char> {
    match oi64(v) {
        Some(n) => signed_decimal(n as int),
        None => Seq::empty(),
    }
}

/// The search results among the first `limit` rows; rows without id skipped.
pub open spec fn kd_results(rows: Seq<Json>) -> Seq<SearchResultView>
    decreases rows.len(),
{
    if rows.len() == 0 {
        Seq::empty()
    } else {
        let rest = kd_results(rows.drop_last());
        let r = Some(rows.last());
        let id = kd_id(oget(r, "id"@));
        if id.len() == 0 {
            rest
        } else {
            rest.push(
                SearchResultView {
                    site: "kadokado"@,
                    book_id: id,
                    title: trim(str_or_empty(oget(r, "displayName"@))),
                    author: trim(str_or_empty(oget(r, "ownerDisplayName"@))),
                    latest_chapter: Seq::empty(),
                    update_date: Seq::empty(),
                    word_count: kd_int_text(oget(r, "wordCount"@)),
                },
            )
        }
    }
}

/// The search results of a search answer.
pub open spec fn kd_search(data: Json, limit: nat) -> Seq<SearchResultView> {
    kd_results(take_at_most(arr_or_empty(jget(data, "data"@)), limit))
}

/// The chapters of a catalog volume, all of them, titles trimmed.
pub open spec fn kd_chapters(chs: Seq<Json>) -> Seq<ChapterInfoView>
    decreases chs.len(),
{
    if chs.len() == 0 {
        Seq::empty()
    } else {
        let c = Some(chs.last());
        let id = kd_id(oget(c, "chapterId"@));
        kd_chapters(chs.drop_last()).push(
            ChapterInfoView {
                title: trim(str_or_empty(oget(c, "chapterDisplayName"@))),
                chapter_id: id,
                url: kd_base() + "/chapter/"@ + id,
            },
        )
    }
}

/// The name of volume `idx` (from zero): its display name, else a numbered
/// placeholder.
pub open spec fn kd_volume_name(v: Json, idx: int) -> Seq<char> {
    let n = str_or_empty(jget(v, "collectionDisplayName"@));
    if n.len() == 0 {
        "未命名卷 "@ + decimal((idx + 1) as nat)
    } else {
        n
    }
}

/// The volumes of the first `n` catalog entries, kept even when empty.
pub open spec fn kd_volumes(vols: Seq<Json>, n: int) -> Seq<VolumeView>
    decreases n,
{
    if n <= 0 {
        Seq::empty()
    } else {
        let v = vols[n - 1];
        kd_volumes(vols, n - 1).push(
            VolumeView { volume_name: kd_volume_name(v, n - 1), chapters: kd_chapters(arr_or_empty(jget(v, "chapters"@))) },
        )
    }
}

/// A book from its info answer and its catalog answer.
pub open spec fn kd_info(info: Json, catalog: Json) -> BookInfoView {
    let covers = arr_or_empty(jget(info, "coverUrls"@));
    let vols = match catalog {
        Json::Array(a) => a@,
        _ => Seq::empty(),
    };
    BookInfoView {
        book_name: str_or_empty(jget(info, "displayName"@)),
        author: str_or_empty(jget(info, "ownerDisplayName"@)),
        summary: str_or_empty(or_opt(jget(info, "logline"@), jget(info, "oneLineIntro"@))),
        cover_url: if covers.len() > 0 {
            str_or_empty(Some(covers[0]))
        } else {
            Seq::empty()
        },
        serial_status: Seq::empty(),
        update_time: Seq::empty(),
        word_count: kd_int_text(jget(info, "wordCount"@)),
        volumes: kd_volumes(vols, vols.len() as int),
    }
}

/// A chapter from its info answer and its content answer: the non-empty
/// paragraphs of the content, else all its text.
pub open spec fn kd_chapter(info: Json, content: Json, chapter_id: Seq<char>) -> ChapterView {
    let raw = str_or_empty(jget(content, "content"@));
    let ps = nonempty_texts(html_fragment_select(raw, "p"@));
    ChapterView {
        id: chapter_id,
        title: str_or_empty(jget(info, "chapterDisplayName"@)),
        content: if raw.len() == 0 {
            Seq::empty()
        } else if ps.len() == 0 {
            spec_html_to_text(raw)
        } else {
            join(ps, "\n"@)
        },
    }
}

fn kd_id_exec(v: Option<&Json>) -> (r: String)
    ensures
        forall|o: Option<Json>| same(v, o) ==> r@ == kd_id(o),
{
    match as_i64(v) {
        Some(n) => i64_to_string(n),
        None => str_or_empty_exec(v),
    }
}

fn kd_int_text_exec(v: Option<&Json>) -> (r: String)
    ensures
        forall|o: Option<Json>| same(v, o) ==> r@ == kd_int_text(o),
{
    match as_i64(v) {
        Some(n) => i64_to_string(n),
        None => String::new(),
    }
}

fn kd_chapters_exec(chs: &Vec<Json>) -> (r: Vec<ChapterInfo>)
    ensures
        r@.map_values(|c: ChapterInfo| c@) == kd_chapters(chs@),
{
    let mut out: Vec<ChapterInfo> = Vec::new();
    let mut i: usize = 0;
    while i < chs.len()
        invariant
            i <= chs.len(),
            out@.map_values(|c: ChapterInfo| c@) == kd_chapters(chs@.take(i as int)),
        decreases chs.len() - i,
    {
        assert(chs@.take(i + 1).drop_last() =~= chs@.take(i as int));
        assert(chs@.take(i + 1).last() == chs@[i as int]);
        let c = Some(&chs[i]);
        assert(same(c, Some(chs@[i as int])));
        let id = kd_id_exec(crate::json::oget_exec(c, "chapterId"));
        let t = str_or_empty_exec(crate::json::oget_exec(c, "chapterDisplayName"));
        let url = concat("https://www.kadokado.com.tw/chapter/", id.as_str());
        proof {
            reveal_strlit("https://www.kadokado.com.tw/chapter/");
            reveal_strlit("https://www.kadokado.com.tw");
            reveal_strlit("/chapter/");
        }
        assert("https://www.kadokado.com.tw/chapter/"@ =~= kd_base() + "/chapter/"@);
        let ghost o0 = out@;
        out.push(ChapterInfo { title: trim_exec(t.as_str()), chapter_id: id, url });
        assert(out@.map_values(|c: ChapterInfo| c@) =~= o0.map_values(|c: ChapterInfo| c@).push(out@.last()@));
        i += 1;
    }
    assert(chs@.take(i as int) =~= chs@);
    out
}

impl KadokadoProvider {
    /// The site's identifier.
    pub fn name(&self) -> (r: &'static str)
        ensures
            r@ == "kadokado"@,
    {
        "kadokado"
    }

    /// The site's display name.
    pub fn display_name(&self) -> (r: &'static str)
        ensures
            r@ == "KadoKado"@,
    {
        "KadoKado"
    }

    /// The site's address.
    pub fn base_url(&self) -> (r: &'static str)
        ensures
            r@ == kd_base(),
    {
        "https://www.kadokado.com.tw"
    }

    /// The site has a search.
    pub fn supports_search(&self) -> (r: bool)
        ensures
            r,
    {
        true
    }

    /// The search request for a keyword.
    pub fn search_url(&self, keyword: &str) -> (r: String)
        ensures
            r@ == kd_api()
                + "/v3/search?order=Relevance&typeFilter=All&statusFilter=All&rRatedFilter=All&paidContentFilter=All&wordCountFilter=All&keyword="@
                + url_encoded(keyword@) + "&current=1&limit=96"@,
    {
        let k = url_encode(keyword);
        let a = concat(
            "https://api.kadokado.com.tw/v3/search?order=Relevance&typeFilter=All&statusFilter=All&rRatedFilter=All&paidContentFilter=All&wordCountFilter=All&keyword=",
            k.as_str(),
        );
        proof {
            reveal_strlit(
                "https://api.kadokado.com.tw/v3/search?order=Relevance&typeFilter=All&statusFilter=All&rRatedFilter=All&paidContentFilter=All&wordCountFilter=All&keyword=",
            );
            reveal_strlit("https://api.kadokado.com.tw");
            reveal_strlit(
                "/v3/search?order=Relevance&typeFilter=All&statusFilter=All&rRatedFilter=All&paidContentFilter=All&wordCountFilter=All&keyword=",
            );
        }
        assert("https://api.kadokado.com.tw/v3/search?order=Relevance&typeFilter=All&statusFilter=All&rRatedFilter=All&paidContentFilter=All&wordCountFilter=All&keyword="@
            =~= kd_api()
            + "/v3/search?order=Relevance&typeFilter=All&statusFilter=All&rRatedFilter=All&paidContentFilter=All&wordCountFilter=All&keyword="@);
        concat(a.as_str(), "&current=1&limit=96")
    }

    /// The book's info request: `{api}/v2/titles/{id}`.
    pub fn info_url(&self, book_id: &str) -> (r: String)
        ensures
            r@ == kd_api() + "/v2/titles/"@ + book_id@,
    {
        concat(concat("https://api.kadokado.com.tw", "/v2/titles/").as_str(), book_id)
    }

    /// The book's catalog request: `{api}/v3/title/{id}/collection`.
    pub fn catalog_url(&self, book_id: &str) -> (r: String)
        ensures
            r@ == kd_api() + "/v3/title/"@ + book_id@ + "/collection"@,
    {
        concat(concat(concat("https://api.kadokado.com.tw", "/v3/title/").as_str(), book_id).as_str(), "/collection")
    }

    /// A chapter's info request: `{api}/v3/chapter/{id}/info`.
    pub fn chapter_info_url(&self, chapter_id: &str) -> (r: String)
        ensures
            r@ == kd_api() + "/v3/chapter/"@ + chapter_id@ + "/info"@,
    {
        concat(concat(concat("https://api.kadokado.com.tw", "/v3/chapter/").as_str(), chapter_id).as_str(), "/info")
    }

    /// A chapter's content request: `{api}/v3/chapter/{id}/content`.
    pub fn chapter_content_url(&self, chapter_id: &str) -> (r: String)
        ensures
            r@ == kd_api() + "/v3/chapter/"@ + chapter_id@ + "/content"@,
    {
        concat(concat(concat("https://api.kadokado.com.tw", "/v3/chapter/").as_str(), chapter_id).as_str(), "/content")
    }

    /// The search results of a parsed search answer.
    pub fn results_from(data: &Json, limit: usize) -> (r: Vec<SearchResult>)
        ensures
            r@.map_values(|x: SearchResult| x@) == kd_search(*data, limit as nat),
    {
        let mut out: Vec<SearchResult> = Vec::new();
        let ghost rows = arr_or_empty(jget(*data, "data"@));
        match as_array(get(data, "data")) {
            Some(arr) => {
                let n = if limit < arr.len() {
                    limit
                } else {
                    arr.len()
                };
                assert(take_at_most(rows, limit as nat) =~= rows.take(n as int));
                let mut i: usize = 0;
                while i < n
                    invariant
                        i <= n <= arr.len(),
                        rows == arr@,
                        out@.map_values(|x: SearchResult| x@) == kd_results(rows.take(i as int)),
                    decreases n - i,
                {
                    assert(rows.take(i + 1).drop_last() =~= rows.take(i as int));
                    assert(rows.take(i + 1).last() == arr@[i as int]);
                    let r = Some(&arr[i]);
                    assert(same(r, Some(arr@[i as int])));
                    let id = kd_id_exec(crate::json::oget_exec(r, "id"));
                    if !id.as_str().is_empty() {
                        let t = str_or_empty_exec(crate::json::oget_exec(r, "displayName"));
                        let a = str_or_empty_exec(crate::json::oget_exec(r, "ownerDisplayName"));
                        let x = SearchResult {
                            site: owned("kadokado"),
                            book_id: id,
                            title: trim_exec(t.as_str()),
                            author: trim_exec(a.as_str()),
                            latest_chapter: String::new(),
                            update_date: String::new(),
                            word_count: kd_int_text_exec(crate::json::oget_exec(r, "wordCount")),
                        };
                        let ghost o0 = out@;
                        out.push(x);
                        assert(out@.map_values(|x: SearchResult| x@) =~= o0.map_values(|x: SearchResult| x@).push(
                            out@.last()@,
                        ));
                    }
                    i += 1;
                }
                assert(rows.take(n as int) =~= take_at_most(rows, limit as nat));
            },
            None => {
                assert(out@.map_values(|x: SearchResult| x@) =~= kd_search(*data, limit as nat));
            },
        }
        out
    }

    /// The search results of a search answer; `None` when it is not JSON.
    pub fn parse_search(text: &str, limit: usize) -> (r: Option<Vec<SearchResult>>)
        ensures
            match json_parsed(text@) {
                Some(j) => r matches Some(v) && v@.map_values(|x: SearchResult| x@) == kd_search(j, limit as nat),
                None => r is None,
            },
    {
        match parse_json(text) {
            Some(j) => Some(Self::results_from(&j, limit)),
            None => None,
        }
    }

    /// A book from its parsed info and catalog answers.
    pub fn info_from(info: &Json, catalog: &Json) -> (r: BookInfo)
        ensures
            r@ == kd_info(*info, *catalog),
    {
        let covers = as_array(get(info, "coverUrls"));
        let cover_url = match covers {
            Some(a) => if a.len() > 0 {
                assert(same(Some(&a[0]), Some(a@[0])));
                str_or_empty_exec(Some(&a[0]))
            } else {
                String::new()
            },
            None => String::new(),
        };
        let mut volumes: Vec<Volume> = Vec::new();
        match catalog {
            Json::Array(vols) => {
                let mut i: usize = 0;
                while i < vols.len()
                    invariant
                        i <= vols.len(),
                        *catalog == Json::Array(*vols),
                        volumes@.map_values(|v: Volume| v@) == kd_volumes(vols@, i as int),
                    decreases vols.len() - i,
                {
                    let v = &vols[i];
                    let n = str_or_empty_exec(get(v, "collectionDisplayName"));
                    let volume_name = if n.as_str().is_empty() {
                        let k = crate::text::usize_to_string(i + 1);
                        concat("未命名卷 ", k.as_str())
                    } else {
                        n
                    };
                    let chapters = match as_array(get(v, "chapters")) {
                        Some(chs) => kd_chapters_exec(chs),
                        None => Vec::new(),
                    };
                    assert(volume_name@ == kd_volume_name(vols@[i as int], i as int));
                    assert(chapters@.map_values(|c: ChapterInfo| c@) == kd_chapters(arr_or_empty(jget(vols@[i as int], "chapters"@))));
                    let ghost o0 = volumes@;
                    volumes.push(Volume { volume_name, chapters });
                    assert(volumes@.map_values(|v: Volume| v@) =~= o0.map_values(|v: Volume| v@).push(volumes@.last()@));
                    i += 1;
                }
            },
            _ => {},
        }
        let info_v = BookInfo {
            book_name: str_or_empty_exec(get(info, "displayName")),
            author: str_or_empty_exec(get(info, "ownerDisplayName")),
            summary: str_or_empty_exec(or_ref(get(info, "logline"), get(info, "oneLineIntro"))),
            cover_url,
            serial_status: String::new(),
            update_time: String::new(),
            word_count: kd_int_text_exec(get(info, "wordCount")),
            volumes,
        };
        assert(info_v@.volumes == kd_info(*info, *catalog).volumes);
        assert(info_v@.serial_status =~= Seq::<char>::empty());
        assert(info_v@.update_time =~= Seq::<char>::empty());
        info_v
    }

    /// A book from its info and catalog answers; `None` when either is not JSON.
    pub fn parse_book_info(info_text: &str, catalog_text: &str) -> (r: Option<BookInfo>)
        ensures
            match (json_parsed(info_text@), json_parsed(catalog_text@)) {
                (Some(i), Some(c)) => r matches Some(b) && b@ == kd_info(i, c),
                _ => r is None,
            },
    {
        match (parse_json(info_text), parse_json(catalog_text)) {
            (Some(i), Some(c)) => Some(Self::info_from(&i, &c)),
            _ => None,
        }
    }

    /// A chapter from its parsed info and content answers.
    pub fn chapter_from(info: &Json, content: &Json, chapter_id: &str) -> (ch: Chapter)
        ensures
            ch@ == kd_chapter(*info, *content, chapter_id@),
    {
        let raw = str_or_empty_exec(get(content, "content"));
        let text = if !raw.as_str().is_empty() {
            let ps = fragment_select(raw.as_str(), "p");
            let paras = nonempty_texts_exec(&ps);
            if paras.len() == 0 {
                html_to_text(raw.as_str())
            } else {
                join_exec(&paras, "\n")
            }
        } else {
            String::new()
        };
        Chapter { id: owned(chapter_id), title: str_or_empty_exec(get(info, "chapterDisplayName")), content: text }
    }

    /// A chapter from its info and content answers; `None` when either is not JSON.
    pub fn parse_chapter(info_text: &str, content_text: &str, chapter_id: &str) -> (r: Option<Chapter>)
        ensures
            match (json_parsed(info_text@), json_parsed(content_text@)) {
                (Some(i), Some(c)) => r matches Some(ch) && ch@ == kd_chapter(i, c, chapter_id@),
                _ => r is None,
            },
    {
        match (parse_json(info_text), parse_json(content_text)) {
            (Some(i), Some(c)) => Some(Self::chapter_from(&i, &c, chapter_id)),
            _ => None,
        }
    }
}

} // verus!
