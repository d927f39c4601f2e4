//! 和图书 (hetushu): book pages and a JSON table of contents of
//! `[tag, text, id]` rows.

use vstd::prelude::*;

use crate::html::{
    group_attr, group_attr_exec, group_text, group_text_exec, html_select, html_select_fields, sel_attr, sel_text,
    select_attr, select_fields, select_text, strs_view, Node, NodeView,
};
use crate::json::{json_parsed, parse_json, Json};
use crate::providers::common::{
    chapters_view, collect, collect_results, opt_result_view, paragraphs, paragraphs_exec, results_view,
    take_at_most, url_encode, url_encoded,
};
use crate::text::{
    after_last, after_last_exec, concat, contains, contains_exec, owned, starts_with, starts_with_exec, str_eq, trim,
    trim_end_matches, trim_end_matches_exec, trim_exec, trim_start_matches, trim_start_matches_exec,
};
use crate::types::{BookInfo, BookInfoView, Chapter, ChapterInfo, ChapterInfoView, ChapterView, SearchResult, SearchResultView, Volume, VolumeView};

verus! {

/// The hetushu site.
pub struct HetushuProvider;

/// Site address.
pub open spec fn ht_base() -> Seq<char> {
    "https://www.hetushu.com"@
}

/// What is read of each search row.
pub open spec fn ht_fields() -> Seq<Seq<char>> {
    seq!["h4 a"@, "h4 span"@]
}

/// One search row: the book link gives the id; the author loses its `/`
/// delimiters.
pub open spec fn ht_result(item: Seq<Seq<NodeView>>) -> Option<SearchResultView> {
    let href = group_attr(item, 0, "href"@);
    if href.len() == 0 {
        None
    } else {
        Some(
            SearchResultView {
                site: "hetushu"@,
                book_id: after_last(trim_end_matches(href, "/index.html"@), "/"@),
                title: group_text(item, 0),
                author: trim(trim_end_matches(trim_start_matches(group_text(item, 1), "/"@), "/"@)),
                latest_chapter: Seq::empty(),
                update_date: Seq::empty(),
                word_count: Seq::empty(),
            },
        )
    }
}

/// [`ht_result`] as a function value.
pub open spec fn ht_result_fn() -> spec_fn(Seq<Seq<NodeView>>) -> Option<SearchResultView> {
    |item: Seq<Seq<NodeView>>| ht_result(item)
}

/// The strings of an array of strings, if it is one.
pub open spec fn str_row(items: Seq<Json>) -> Option<Seq<Seq<char>>>
    decreases items.len(),
{
    if items.len() == 0 {
        Some(Seq::empty())
    } else {
        match (str_row(items.drop_last()), items.last()) {
            (Some(r), Json::Str(s)) => Some(r.push(s@)),
            _ => None,
        }
    }
}

/// The rows of an array of arrays of strings, if it is one.
pub open spec fn str_rows(items: Seq<Json>) -> Option<Seq<Seq<Seq<char>>>>
    decreases items.len(),
{
    if items.len() == 0 {
        Some(Seq::empty())
    } else {
        match (str_rows(items.drop_last()), items.last()) {
            (Some(r), Json::Array(a)) => match str_row(a@) {
                Some(row) => Some(r.push(row)),
                None => None,
            },
            _ => None,
        }
    }
}

/// The table of contents as rows of strings, if the answer is one.
pub open spec fn ht_rows(text: Seq<char>) -> Option<Seq<Seq<Seq<char>>>> {
    match json_parsed(text) {
        Some(Json::Array(a)) => str_rows(a@),
        _ => None,
    }
}

/// Volumes closed so far, the open volume's name and its chapters.
pub struct HtState {
    pub volumes: Seq<VolumeView>,
    pub name: Seq<char>,
    pub chapters: Seq<ChapterInfoView>,
}

/// A chapter page: `{base}/book/{book}/{chapter}.html`.
pub open spec fn ht_chapter_url(book_id: Seq<char>, chapter_id: Seq<char>) -> Seq<char> {
    ht_base() + "/book/"@ + book_id + "/"@ + chapter_id + ".html"@
}

/// One row: `dt` closes the open volume (when it has chapters) and names
/// the next; `dd` with an id adds a chapter.
pub open spec fn ht_step(st: HtState, row: Seq<Seq<char>>, book_id: Seq<char>) -> HtState {
    if row.len() == 0 {
        st
    } else if row[0] == "dt"@ {
        HtState {
            volumes: if st.chapters.len() > 0 {
                st.volumes.push(VolumeView { volume_name: st.name, chapters: st.chapters })
            } else {
                st.volumes
            },
            name: if row.len() > 1 {
                trim(row[1])
            } else {
                st.name
            },
            chapters: if st.chapters.len() > 0 {
                Seq::empty()
            } else {
                st.chapters
            },
        }
    } else if row[0] == "dd"@ && row.len() > 2 {
        HtState {
            chapters: st.chapters.push(
                ChapterInfoView { title: trim(row[1]), chapter_id: row[2], url: ht_chapter_url(book_id, row[2]) },
            ),
            ..st
        }
    } else {
        st
    }
}

/// The rows read in order, starting with an unnamed volume.
pub open spec fn ht_fold(rows: Seq<Seq<Seq<char>>>, book_id: Seq<char>) -> HtState
    decreases rows.len(),
{
    if rows.len() == 0 {
        HtState { volumes: Seq::empty(), name: "未命名卷"@, chapters: Seq::empty() }
    } else {
        ht_step(ht_fold(rows.drop_last(), book_id), rows.last(), book_id)
    }
}

/// The volumes of a table-of-contents answer; none when it is not rows of
/// strings.
pub open spec fn ht_volumes(text: Seq<char>, book_id: Seq<char>) -> Seq<VolumeView> {
    match ht_rows(text) {
        Some(rows) => {
            let st = ht_fold(rows, book_id);
            if st.chapters.len() > 0 {
                st.volumes.push(VolumeView { volume_name: st.name, chapters: st.chapters })
            } else {
                st.volumes
            }
        },
        None => Seq::empty(),
    }
}

/// A hetushu book: its page and its table-of-contents answer.
pub open spec fn ht_info(html: Seq<char>, catalog: Seq<char>, book_id: Seq<char>) -> BookInfoView {
    let c = sel_attr(html, "div.book_info img"@, "src"@);
    BookInfoView {
        book_name: sel_text(html, "div.book_info h2"@),
        author: sel_text(html, "div.book_info div a"@),
        summary: sel_text(html, "div.intro p"@),
        cover_url: if starts_with(c, "/"@) {
            ht_base() + c
        } else {
            c
        },
        serial_status: if contains(sel_attr(html, "div.book_info"@, "class"@), "finish"@) {
            "已完结"@
        } else {
            "连载中"@
        },
        update_time: Seq::empty(),
        word_count: Seq::empty(),
        volumes: ht_volumes(catalog, book_id),
    }
}

fn ht_result_exec(item: &Vec<Vec<Node>>) -> (r: Option<SearchResult>)
    ensures
        opt_result_view(r) == ht_result(crate::html::groups_view(item@)),
{
    let href = group_attr_exec(item, 0, "href");
    if href.as_str().is_empty() {
        return None;
    }
    let a = trim_end_matches_exec(href.as_str(), "/index.html");
    let raw = group_text_exec(item, 1);
    let b = trim_start_matches_exec(raw.as_str(), "/");
    let c = trim_end_matches_exec(b.as_str(), "/");
    Some(SearchResult {
        site: owned("hetushu"),
        book_id: after_last_exec(a.as_str(), "/"),
        title: group_text_exec(item, 0),
        author: trim_exec(c.as_str()),
        latest_chapter: String::new(),
        update_date: String::new(),
        word_count: String::new(),
    })
}

fn str_row_exec(items: &Vec<Json>) -> (r: Option<Vec<String>>)
    ensures
        match str_row(items@) {
            Some(v) => r matches Some(x) && x@.map_values(|s: String| s@) == v,
            None => r is None,
        },
{
    let mut out: Vec<String> = Vec::new();
    let mut i: usize = 0;
    while i < items.len()
        invariant
            i <= items.len(),
            str_row(items@.take(i as int)) == Some(out@.map_values(|s: String| s@)),
        decreases items.len() - i,
    {
        assert(items@.take(i + 1).drop_last() =~= items@.take(i as int));
        assert(items@.take(i + 1).last() == items@[i as int]);
        match &items[i] {
            Json::Str(s) => {
                let ghost o0 = out@;
                out.push(owned(s.as_str()));
                assert(out@.map_values(|s: String| s@) =~= o0.map_values(|s: String| s@).push(out@.last()@));
            },
            _ => {
                proof {
                    lemma_str_row_none(items@, i as int);
                }
                return None;
            },
        }
        i += 1;
    }
    assert(items@.take(i as int) =~= items@);
    Some(out)
}

/// A non-string item makes every longer prefix fail.
proof fn lemma_str_row_none(items: Seq<Json>, i: int)
    requires
        0 <= i < items.len(),
        !(items[i] is Str),
    ensures
        str_row(items) is None,
    decreases items.len(),
{
    if i < items.len() - 1 {
        lemma_str_row_none(items.drop_last(), i);
    }
}

/// A non-row item makes every longer prefix fail.
proof fn lemma_str_rows_none(items: Seq<Json>, i: int)
    requires
        0 <= i < items.len(),
        match items[i] {
            Json::Array(a) => str_row(a@) is None,
            _ => true,
        },
    ensures
        str_rows(items) is None,
    decreases items.len(),
{
    if i < items.len() - 1 {
        lemma_str_rows_none(items.drop_last(), i);
    }
}

/// The table-of-contents rows of an answer.
fn rows_exec(text: &str) -> (r: Option<Vec<Vec<String>>>)
    ensures
        match ht_rows(text@) {
            Some(v) => r matches Some(x) && x@.map_values(|row: Vec<String>| row@.map_values(|s: String| s@)) == v,
            None => r is None,
        },
{
    match parse_json(text) {
        Some(Json::Array(a)) => {
            let mut out: Vec<Vec<String>> = Vec::new();
            let mut i: usize = 0;
            assert(ht_rows(text@) == str_rows(a@));
            while i < a.len()
                invariant
                    i <= a.len(),
                    ht_rows(text@) == str_rows(a@),
                    str_rows(a@.take(i as int)) == Some(out@.map_values(|row: Vec<String>| row@.map_values(|s: String| s@))),
                decreases a.len() - i,
            {
                assert(a@.take(i + 1).drop_last() =~= a@.take(i as int));
                assert(a@.take(i + 1).last() == a@[i as int]);
                match &a[i] {
                    Json::Array(inner) => match str_row_exec(inner) {
                        Some(row) => {
                            let ghost o0 = out@;
                            out.push(row);
                            assert(out@.map_values(|row: Vec<String>| row@.map_values(|s: String| s@)) =~= o0.map_values(
                                |row: Vec<String>| row@.map_values(|s: String| s@),
                            ).push(out@.last()@.map_values(|s: String| s@)));
                        },
                        None => {
                            proof {
                                lemma_str_rows_none(a@, i as int);
                            }
                            return None;
                        },
                    },
                    _ => {
                        proof {
                            lemma_str_rows_none(a@, i as int);
                        }
                        return None;
                    },
                }
                i += 1;
            }
            assert(a@.take(i as int) =~= a@);
            Some(out)
        },
        _ => None,
    }
}

impl HetushuProvider {
    /// The site's identifier.
    pub fn name(&self) -> (r: &'static str)
        ensures
            r@ == "hetushu"@,
    {
        "hetushu"
    }

    /// The site's display name.
    pub fn display_name(&self) -> (r: &'static str)
        ensures
            r@ == "和图书"@,
    {
        "和图书"
    }

    /// The site's address.
    pub fn base_url(&self) -> (r: &'static str)
        ensures
            r@ == ht_base(),
    {
        "https://www.hetushu.com"
    }

    /// The site has a search.
    pub fn supports_search(&self) -> (r: bool)
        ensures
            r,
    {
        true
    }

    /// The search page: `{base}/search/?keyword={keyword}`.
    pub fn search_url(&self, keyword: &str) -> (r: String)
        ensures
            r@ == ht_base() + "/search/?keyword="@ + url_encoded(keyword@),
    {
        let k = url_encode(keyword);
        concat(concat(self.base_url(), "/search/?keyword=").as_str(), k.as_str())
    }

    /// The book page: `{base}/book/{id}/index.html`.
    pub fn book_url(&self, book_id: &str) -> (r: String)
        ensures
            r@ == ht_base() + "/book/"@ + book_id@ + "/index.html"@,
    {
        concat(concat(concat(self.base_url(), "/book/").as_str(), book_id).as_str(), "/index.html")
    }

    /// The table of contents: `{base}/book/{id}/dir.json`.
    pub fn catalog_url(&self, book_id: &str) -> (r: String)
        ensures
            r@ == ht_base() + "/book/"@ + book_id@ + "/dir.json"@,
    {
        concat(concat(concat(self.base_url(), "/book/").as_str(), book_id).as_str(), "/dir.json")
    }

    /// A chapter page.
    pub fn chapter_url(&self, book_id: &str, chapter_id: &str) -> (r: String)
        ensures
            r@ == ht_chapter_url(book_id@, chapter_id@),
    {
        let a = concat(concat(concat(self.base_url(), "/book/").as_str(), book_id).as_str(), "/");
        concat(concat(a.as_str(), chapter_id).as_str(), ".html")
    }

    /// The results among the first `limit` rows of a search page.
    pub fn parse_search(&self, html: &str, limit: usize) -> (r: Vec<SearchResult>)
        ensures
            results_view(r@) == collect(take_at_most(html_select_fields(html@, "dl.list#body dd"@, ht_fields()), limit as nat), ht_result_fn()),
    {
        let fields: Vec<&str> = vec!["h4 a", "h4 span"];
        assert(strs_view(fields@) =~= ht_fields());
        let items = select_fields(html, "dl.list#body dd", &fields);
        collect_results(
            &items,
            limit,
            (|it: &Vec<Vec<Node>>| -> (r: Option<SearchResult>)
                ensures
                    opt_result_view(r) == ht_result(crate::html::groups_view(it@)),
                { ht_result_exec(it) }),
            Ghost(ht_result_fn()),
        )
    }

    /// The volumes of a table-of-contents answer.
    pub fn parse_volumes(text: &str, book_id: &str) -> (r: Vec<Volume>)
        ensures
            r@.map_values(|v: Volume| v@) == ht_volumes(text@, book_id@),
    {
        let mut volumes: Vec<Volume> = Vec::new();
        let rows = match rows_exec(text) {
            Some(r) => r,
            None => {
                assert(volumes@.map_values(|v: Volume| v@) =~= ht_volumes(text@, book_id@));
                return volumes;
            },
        };
        let ghost rv = rows@.map_values(|row: Vec<String>| row@.map_values(|s: String| s@));
        let mut name = owned("未命名卷");
        let mut chapters: Vec<ChapterInfo> = Vec::new();
        let mut i: usize = 0;
        while i < rows.len()
            invariant
                i <= rows.len(),
                rv == rows@.map_values(|row: Vec<String>| row@.map_values(|s: String| s@)),
                ({
                    let st = ht_fold(rv.take(i as int), book_id@);
                    &&& volumes@.map_values(|v: Volume| v@) == st.volumes
                    &&& name@ == st.name
                    &&& chapters_view(chapters@) == st.chapters
                }),
            decreases rows.len() - i,
        {
            assert(rv.take(i + 1).drop_last() =~= rv.take(i as int));
            assert(rv.take(i + 1).last() == rows@[i as int]@.map_values(|s: String| s@));
            let row = &rows[i];
            if row.len() > 0 {
                if str_eq(row[0].as_str(), "dt") {
                    if chapters.len() > 0 {
                        let mut taken: Vec<ChapterInfo> = Vec::new();
                        std::mem::swap(&mut taken, &mut chapters);
                        let ghost prev = volumes@;
                        volumes.push(Volume { volume_name: owned(name.as_str()), chapters: taken });
                        assert(volumes@.map_values(|v: Volume| v@) =~= prev.map_values(|v: Volume| v@).push(volumes@.last()@));
                        assert(chapters_view(chapters@) =~= Seq::<ChapterInfoView>::empty());
                    }
                    if row.len() > 1 {
                        name = trim_exec(row[1].as_str());
                    }
                } else if str_eq(row[0].as_str(), "dd") && row.len() > 2 {
                    let c = ChapterInfo {
                        title: trim_exec(row[1].as_str()),
                        chapter_id: owned(row[2].as_str()),
                        url: self_chapter_url(book_id, row[2].as_str()),
                    };
                    let ghost c0 = chapters@;
                    chapters.push(c);
                    assert(chapters_view(chapters@) =~= chapters_view(c0).push(chapters@.last()@));
                }
            }
            i += 1;
        }
        assert(rv.take(i as int) =~= rv);
        if chapters.len() > 0 {
            let ghost prev = volumes@;
            volumes.push(Volume { volume_name: name, chapters });
            assert(volumes@.map_values(|v: Volume| v@) =~= prev.map_values(|v: Volume| v@).push(volumes@.last()@));
        }
        volumes
    }

    /// Parses the book page and the table-of-contents answer.
    pub fn parse_book_info(&self, html: &str, catalog: &str, book_id: &str) -> (info: BookInfo)
        ensures
            info@ == ht_info(html@, catalog@, book_id@),
    {
        let c = select_attr(html, "div.book_info img", "src");
        let cover_url = if starts_with_exec(c.as_str(), "/") {
            concat("https://www.hetushu.com", c.as_str())
        } else {
            c
        };
        let cls = select_attr(html, "div.book_info", "class");
        let serial_status = if contains_exec(cls.as_str(), "finish") {
            owned("已完结")
        } else {
            owned("连载中")
        };
        let info = BookInfo {
            book_name: select_text(html, "div.book_info h2"),
            author: select_text(html, "div.book_info div a"),
            summary: select_text(html, "div.intro p"),
            cover_url,
            serial_status,
            update_time: String::new(),
            word_count: String::new(),
            volumes: Self::parse_volumes(catalog, book_id),
        };
        assert(info@.update_time =~= Seq::<char>::empty());
        assert(info@.word_count =~= Seq::<char>::empty());
        info
    }

    /// Parses a chapter page.
    pub fn parse_chapter(&self, html: &str, chapter_id: &str) -> (ch: Chapter)
        ensures
            ch@ == (ChapterView {
                id: chapter_id@,
                title: sel_text(html@, "#content h2.h2"@),
                content: paragraphs(html_select(html@, "#content div"@)),
            }),
    {
        Chapter { id: owned(chapter_id), title: select_text(html, "#content h2.h2"), content: paragraphs_exec(html, "#content div") }
    }
}

fn self_chapter_url(book_id: &str, chapter_id: &str) -> (r: String)
    ensures
        r@ == ht_chapter_url(book_id@, chapter_id@),
{
    let a = concat(concat(concat("https://www.hetushu.com", "/book/").as_str(), book_id).as_str(), "/");
    concat(concat(a.as_str(), chapter_id).as_str(), ".html")
}

} // verus!
