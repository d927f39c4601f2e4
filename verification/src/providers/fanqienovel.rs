//! 番茄小说 (fanqienovel.com): book data and chapter text are embedded in
//! pages as a `window.__INITIAL_STATE__` object, cut out of the page by
//! balancing braces. The font mapping of the site is not decoded.

use vstd::prelude::*;

use crate::html::{fragment_select, html_fragment_select, or_else, sel_text, select_text};
use crate::json::{as_array, as_i64, get, jget, json_parsed, oarr, oget, oi64, or_opt, or_ref, parse_json, same, Json};
use crate::markup::{html_to_text, spec_html_to_text};
use crate::providers::common::{first_nonempty_body, first_nonempty_body_exec, key_pos, sort_by_key};
use crate::text::{
    chars_of, concat, decimal, find_from, first_occurrence_from, i64_to_string, join, join_exec, owned, parse_i64,
    parse_i64_exec, replace_all, replace_exec, signed_decimal, string_of, sub_chars, trim, trim_exec, u64_to_string,
};
use crate::types::{BookInfo, BookInfoView, Chapter, ChapterInfo, ChapterInfoView, ChapterView, Volume, VolumeView};

verus! {

/// The fanqienovel site.
pub struct FanqienovelProvider;

/// Site address.
pub open spec fn fq_base() -> Seq<char> {
    "https://fanqienovel.com"@
}

/// The end of the object that starts `s`: scanning from position `i` at
/// brace depth `depth`, inside a string or not, after a backslash or not,
/// the position just past the `}` that brings the depth back to zero.
pub open spec fn brace_end(s: Seq<char>, i: int, depth: int, in_str: bool, esc: bool) -> Option<int>
    decreases s.len() - i,
{
    if i < 0 || i >= s.len() {
        None
    } else {
        let c = s[i];
        if esc {
            brace_end(s, i + 1, depth, in_str, false)
        } else if c == '\\' && in_str {
            brace_end(s, i + 1, depth, in_str, true)
        } else if c == '"' {
            brace_end(s, i + 1, depth, !in_str, false)
        } else if in_str {
            brace_end(s, i + 1, depth, in_str, false)
        } else if c == '{' {
            brace_end(s, i + 1, depth + 1, in_str, false)
        } else if c == '}' {
            if depth - 1 == 0 {
                Some(i + 1)
            } else {
                brace_end(s, i + 1, depth - 1, in_str, false)
            }
        } else {
            brace_end(s, i + 1, depth, in_str, false)
        }
    }
}

/// The text of the `window.__INITIAL_STATE__` object: from the first `{`
/// after the `=` that follows the marker, to its balancing `}`.
pub open spec fn fq_state_text(html: Seq<char>) -> Option<Seq<char>> {
    match first_occurrence_from(html, "window.__INITIAL_STATE__"@, 0) {
        Some(st) => {
            let rest = html.skip(st);
            match first_occurrence_from(rest, "="@, 0) {
                Some(eq) => {
                    let after = rest.skip(eq + 1);
                    match first_occurrence_from(after, "{"@, 0) {
                        Some(b) => {
                            let js = after.skip(b);
                            match brace_end(js, 0, 0, false, false) {
                                Some(e) => Some(js.take(e)),
                                None => None,
                            }
                        },
                        None => None,
                    }
                },
                None => None,
            }
        },
        None => None,
    }
}

/// The page state: the object parsed as JSON, else parsed again with
/// `undefined` as `null` and `'` as `"`.
pub open spec fn fq_state(html: Seq<char>) -> Option<Json> {
    match fq_state_text(html) {
        Some(t) => match json_parsed(t) {
            Some(j) => Some(j),
            None => json_parsed(replace_all(replace_all(t, "undefined"@, "null"@), "'"@, "\""@)),
        },
        None => None,
    }
}

/// A member as text: a string as it stands, a number as written, else empty.
pub open spec fn fq_str(v: Json, key: Seq<char>) -> Seq<char> {
    match jget(v, key) {
        Some(Json::Str(s)) => s@,
        Some(Json::UInt(n)) => decimal(n as nat),
        Some(Json::Int(n)) => signed_decimal(n as int),
        Some(Json::Float(t)) => t@,
        _ => Seq::empty(),
    }
}

/// The order of a chapter: `realChapterOrder`, else `itemId`, read as an
/// integer from a number or a string; 0 when there is none.
pub open spec fn fq_key(ch: Json) -> i64 {
    match or_opt(jget(ch, "realChapterOrder"@), jget(ch, "itemId"@)) {
        Some(Json::UInt(n)) => if n <= i64::MAX {
            n as i64
        } else {
            0
        },
        Some(Json::Int(n)) => n,
        Some(Json::Str(s)) => match parse_i64(s@) {
            Some(v) => v,
            None => 0,
        },
        _ => 0,
    }
}

/// [`fq_key`] as a function value.
pub open spec fn fq_key_fn() -> spec_fn(Json) -> int {
    |j: Json| fq_key(j) as int
}

/// The chapters of `items`, in order, skipping those without an id.
pub open spec fn fq_chapter_list(items: Seq<Json>) -> Seq<ChapterInfoView>
    decreases items.len(),
{
    if items.len() == 0 {
        Seq::empty()
    } else {
        let rest = fq_chapter_list(items.drop_last());
        let ch = items.last();
        let id = fq_str(ch, "itemId"@);
        if id.len() == 0 {
            rest
        } else {
            rest.push(ChapterInfoView { title: fq_str(ch, "title"@), chapter_id: id, url: fq_base() + "/reader/"@ + id })
        }
    }
}

/// The strings of an array, in order, others skipped.
pub open spec fn str_items(items: Seq<Json>) -> Seq<Seq<char>>
    decreases items.len(),
{
    if items.len() == 0 {
        Seq::empty()
    } else {
        let rest = str_items(items.drop_last());
        match items.last() {
            Json::Str(s) => rest.push(s@),
            _ => rest,
        }
    }
}

/// The default name of volume `i` (counted from zero).
pub open spec fn fq_default_name(i: int) -> Seq<char> {
    "卷 "@ + decimal((i + 1) as nat)
}

/// The volume of group `i`: named by the `i`-th volume name, else by the
/// first chapter's `volume_name`, else by its number; chapters in order.
pub open spec fn fq_volume(g: Json, i: int, names: Seq<Seq<char>>) -> Option<VolumeView> {
    match g {
        Json::Array(a) => {
            let items = a@;
            let name = if i < names.len() {
                names[i]
            } else if items.len() > 0 {
                fq_str(items[0], "volume_name"@)
            } else {
                fq_default_name(i)
            };
            let chapters = fq_chapter_list(sort_by_key(items, fq_key_fn()));
            if chapters.len() > 0 {
                Some(
                    VolumeView {
                        volume_name: if name.len() == 0 {
                            fq_default_name(i)
                        } else {
                            name
                        },
                        chapters,
                    },
                )
            } else {
                None
            }
        },
        _ => None,
    }
}

/// The volumes of the first `n` groups.
pub open spec fn fq_volumes(groups: Seq<Json>, names: Seq<Seq<char>>, n: int) -> Seq<VolumeView>
    decreases n,
{
    if n <= 0 {
        Seq::empty()
    } else {
        let rest = fq_volumes(groups, names, n - 1);
        match fq_volume(groups[n - 1], n - 1, names) {
            Some(v) => rest.push(v),
            None => rest,
        }
    }
}

/// A book from the `page` member of the state.
pub open spec fn fq_info(page: Json) -> BookInfoView {
    let names = match oarr(jget(page, "volumeNameList"@)) {
        Some(a) => str_items(a),
        None => Seq::empty(),
    };
    let groups = match oarr(jget(page, "chapterListWithVolume"@)) {
        Some(a) => a,
        None => Seq::empty(),
    };
    BookInfoView {
        book_name: fq_str(page, "bookName"@),
        author: or_else(fq_str(page, "authorName"@), fq_str(page, "author"@)),
        summary: or_else(fq_str(page, "abstract"@), fq_str(page, "description"@)),
        cover_url: or_else(fq_str(page, "thumbUrl"@), fq_str(page, "thumbUri"@)),
        serial_status: if oi64(jget(page, "creationStatus"@)) == Some(2i64) {
            "完结"@
        } else {
            "连载"@
        },
        update_time: fq_str(page, "lastPublishTime"@),
        word_count: fq_str(page, "wordNumber"@),
        volumes: fq_volumes(groups, names, groups.len() as int),
    }
}

/// The paragraphs of a chapter's HTML: the non-empty trimmed texts of its
/// `p` elements, else its whole text trimmed, if non-empty.
pub open spec fn fq_paragraphs(raw: Seq<char>) -> Seq<Seq<char>> {
    let ps = crate::providers::common::nonempty_texts(html_fragment_select(raw, "p"@));
    if ps.len() > 0 {
        ps
    } else if trim(spec_html_to_text(raw)).len() > 0 {
        seq![trim(spec_html_to_text(raw))]
    } else {
        Seq::empty()
    }
}

/// Selectors tried for the chapter text when the state has no chapter.
pub open spec fn fq_body_sels() -> Seq<Seq<char>> {
    seq!["div.chapter-content"@, "div.read-content"@, "article"@]
}

/// A chapter from its page and the page's state.
pub open spec fn fq_chapter(html: Seq<char>, state: Json, chapter_id: Seq<char>) -> ChapterView {
    match oget(jget(state, "reader"@), "chapterData"@) {
        Some(cd) => {
            let raw = fq_str(cd, "content"@);
            ChapterView {
                id: chapter_id,
                title: fq_str(cd, "title"@),
                content: if raw.len() == 0 {
                    "[章节内容为空]"@
                } else if fq_paragraphs(raw).len() == 0 {
                    "[无法解析章节内容]"@
                } else {
                    join(fq_paragraphs(raw), "\n"@)
                },
            }
        },
        None => {
            let body = first_nonempty_body(html, fq_body_sels());
            ChapterView {
                id: chapter_id,
                title: sel_text(html, "h1"@),
                content: if body.len() == 0 {
                    "[无法获取章节内容]"@
                } else {
                    body
                },
            }
        },
    }
}

// ─── executable ────────────────────────────────────────────────────────────

/// The end of the object that starts `s` (see [`brace_end`]).
pub fn brace_end_exec(s: &Vec<char>) -> (r: Option<usize>)
    ensures
        match brace_end(s@, 0, 0, false, false) {
            Some(e) => r == Some(e as usize) && 0 < e <= s@.len(),
            None => r is None,
        },
{
    let mut depth: i128 = 0;
    let mut in_str = false;
    let mut esc = false;
    let mut i: usize = 0;
    proof {
        lemma_brace_end_range(s@, 0, 0, false);
    }
    while i < s.len()
        invariant
            i <= s.len(),
            -(i as int) <= depth <= i as int,
            brace_end(s@, 0, 0, false, false) == brace_end(s@, i as int, depth as int, in_str, esc),
            forall|e: int| brace_end(s@, i as int, depth as int, in_str, esc) == Some(e) ==> i < e <= s@.len(),
        decreases s.len() - i,
    {
        let c = s[i];
        proof {
            lemma_brace_end_range(s@, i as int + 1, depth as int - 1, in_str);
        }
        if esc {
            esc = false;
        } else if c == '\\' && in_str {
            esc = true;
        } else if c == '"' {
            in_str = !in_str;
        } else if in_str {
        } else if c == '{' {
            depth = depth + 1;
        } else if c == '}' {
            if depth - 1 == 0 {
                return Some(i + 1);
            }
            depth = depth - 1;
        }
        i += 1;
    }
    None
}

/// A found end lies after the start and within the string.
proof fn lemma_brace_end_range(s: Seq<char>, i: int, depth: int, in_str: bool)
    ensures
        forall|d: int, st: bool, e: bool, x: int| brace_end(s, i, d, st, e) == Some(x) ==> i < x <= s.len(),
    decreases s.len() - i,
{
    assert forall|d: int, st: bool, e: bool, x: int| brace_end(s, i, d, st, e) == Some(x) implies i < x <= s.len() by {
        lemma_brace_end_one(s, i, d, st, e);
    }
}

proof fn lemma_brace_end_one(s: Seq<char>, i: int, d: int, st: bool, e: bool)
    ensures
        forall|x: int| brace_end(s, i, d, st, e) == Some(x) ==> i < x <= s.len(),
    decreases s.len() - i,
{
    if 0 <= i < s.len() {
        lemma_brace_end_one(s, i + 1, d, st, false);
        lemma_brace_end_one(s, i + 1, d, st, true);
        lemma_brace_end_one(s, i + 1, d, !st, false);
        lemma_brace_end_one(s, i + 1, d + 1, st, false);
        lemma_brace_end_one(s, i + 1, d - 1, st, false);
    }
}

/// The text of the page's `window.__INITIAL_STATE__` object.
pub fn state_text(html: &str) -> (r: Option<String>)
    ensures
        crate::html::opt_str_view(r) == fq_state_text(html@),
{
    let v = chars_of(html);
    let marker = chars_of("window.__INITIAL_STATE__");
    let eq_c = chars_of("=");
    let br_c = chars_of("{");
    match find_from(&v, &marker, 0) {
        Some(st) => {
            proof {
                crate::text::lemma_first_occurrence_bounds(v@, marker@, 0);
            }
            let rest = sub_chars(&v, st, v.len());
            assert(rest@ =~= v@.skip(st as int));
            match find_from(&rest, &eq_c, 0) {
                Some(eq) => {
                    proof {
                        crate::text::lemma_first_occurrence_bounds(rest@, eq_c@, 0);
                        reveal_strlit("=");
                    }
                    assert(eq < rest.len());
                    let after = sub_chars(&rest, eq + 1, rest.len());
                    assert(after@ =~= rest@.skip(eq + 1));
                    match find_from(&after, &br_c, 0) {
                        Some(b) => {
                            proof {
                                crate::text::lemma_first_occurrence_bounds(after@, br_c@, 0);
                                reveal_strlit("{");
                            }
                            assert(b < after.len());
                            let js = sub_chars(&after, b, after.len());
                            assert(js@ =~= after@.skip(b as int));
                            match brace_end_exec(&js) {
                                Some(e) => {
                                    let t = sub_chars(&js, 0, e);
                                    assert(t@ =~= js@.take(e as int));
                                    Some(string_of(t.as_slice()))
                                },
                                None => None,
                            }
                        },
                        None => None,
                    }
                },
                None => None,
            }
        },
        None => None,
    }
}

/// A member as text (see [`fq_str`]).
pub fn fq_str_exec(v: &Json, key: &str) -> (r: String)
    ensures
        r@ == fq_str(*v, key@),
{
    match get(v, key) {
        Some(Json::Str(s)) => owned(s.as_str()),
        Some(Json::UInt(n)) => u64_to_string(*n),
        Some(Json::Int(n)) => i64_to_string(*n),
        Some(Json::Float(t)) => owned(t.as_str()),
        _ => String::new(),
    }
}

fn fq_key_exec(ch: &Json) -> (r: i64)
    ensures
        r == fq_key(*ch),
{
    match or_ref(get(ch, "realChapterOrder"), get(ch, "itemId")) {
        Some(Json::UInt(n)) => if *n <= 9223372036854775807u64 {
            *n as i64
        } else {
            0
        },
        Some(Json::Int(n)) => *n,
        Some(Json::Str(s)) => match parse_i64_exec(s.as_str()) {
            Some(x) => x,
            None => 0,
        },
        _ => 0,
    }
}

/// The order in which to read `items`: their indices stably sorted by chapter order.
fn sorted_order(items: &Vec<Json>) -> (r: Vec<usize>)
    ensures
        forall|k: int| 0 <= k < r@.len() ==> r@[k] < items@.len(),
        r@.map_values(|k: usize| items@[k as int]) == sort_by_key(items@, fq_key_fn()),
{
    let ghost kf = fq_key_fn();
    let mut out: Vec<(i64, usize)> = Vec::new();
    let mut i: usize = 0;
    while i < items.len()
        invariant
            i <= items.len(),
            kf == fq_key_fn(),
            forall|j: int| 0 <= j < out@.len() ==> out@[j].1 < i && out@[j].0 == fq_key(items@[out@[j].1 as int]),
            out@.map_values(|p: (i64, usize)| items@[p.1 as int]) == sort_by_key(items@.take(i as int), kf),
        decreases items.len() - i,
    {
        let k = fq_key_exec(&items[i]);
        let ghost ov = out@.map_values(|p: (i64, usize)| items@[p.1 as int]);
        assert(items@.take(i + 1).drop_last() =~= items@.take(i as int));
        assert(items@.take(i + 1).last() == items@[i as int]);
        let mut p: usize = 0;
        assert(ov.skip(0) =~= ov);
        while p < out.len() && out[p].0 <= k
            invariant
                p <= out.len(),
                kf == fq_key_fn(),
                ov == out@.map_values(|q: (i64, usize)| items@[q.1 as int]),
                forall|j: int| 0 <= j < out@.len() ==> out@[j].1 < i && out@[j].0 == fq_key(items@[out@[j].1 as int]),
                key_pos(ov, k as int, kf) == p + key_pos(ov.skip(p as int), k as int, kf),
            decreases out.len() - p,
        {
            assert(ov.skip(p as int)[0] == items@[out@[p as int].1 as int]);
            assert(ov.skip(p as int).skip(1) =~= ov.skip(p + 1));
            p += 1;
        }
        proof {
            if p < out.len() {
                assert(ov.skip(p as int)[0] == items@[out@[p as int].1 as int]);
            }
        }
        let ghost o0 = out@;
        out.insert(p, (k, i));
        assert(out@.map_values(|q: (i64, usize)| items@[q.1 as int]) =~= ov.insert(p as int, items@[i as int]));
        assert forall|j: int| 0 <= j < out@.len() implies out@[j].1 < i + 1 && out@[j].0 == fq_key(
            items@[out@[j].1 as int],
        ) by {
            if j < p {
                assert(out@[j] == o0[j]);
            } else if j > p {
                assert(out@[j] == o0[j - 1]);
            }
        }
        i += 1;
    }
    assert(items@.take(i as int) =~= items@);
    let mut r: Vec<usize> = Vec::new();
    let mut m: usize = 0;
    while m < out.len()
        invariant
            m <= out.len(),
            forall|j: int| 0 <= j < out@.len() ==> out@[j].1 < items@.len(),
            r@.len() == m,
            forall|j: int| 0 <= j < m ==> r@[j] == out@[j].1,
        decreases out.len() - m,
    {
        r.push(out[m].1);
        m += 1;
    }
    assert(r@.map_values(|k: usize| items@[k as int]) =~= out@.map_values(|p: (i64, usize)| items@[p.1 as int]));
    r
}

/// The chapters of one group, sorted by chapter order.
fn group_chapters(items: &Vec<Json>) -> (r: Vec<ChapterInfo>)
    ensures
        r@.map_values(|c: ChapterInfo| c@) == fq_chapter_list(sort_by_key(items@, fq_key_fn())),
{
    let order = sorted_order(items);
    let ghost sv = order@.map_values(|k: usize| items@[k as int]);
    let mut out: Vec<ChapterInfo> = Vec::new();
    let mut m: usize = 0;
    while m < order.len()
        invariant
            m <= order.len(),
            sv == order@.map_values(|k: usize| items@[k as int]),
            forall|k: int| 0 <= k < order@.len() ==> order@[k] < items@.len(),
            out@.map_values(|c: ChapterInfo| c@) == fq_chapter_list(sv.take(m as int)),
        decreases order.len() - m,
    {
        assert(sv.take(m + 1).drop_last() =~= sv.take(m as int));
        assert(sv.take(m + 1).last() == items@[order@[m as int] as int]);
        let ch = &items[order[m]];
        let id = fq_str_exec(ch, "itemId");
        if !id.as_str().is_empty() {
            let title = fq_str_exec(ch, "title");
            let url = concat("https://fanqienovel.com/reader/", id.as_str());
            proof {
                reveal_strlit("https://fanqienovel.com/reader/");
                reveal_strlit("https://fanqienovel.com");
                reveal_strlit("/reader/");
            }
            assert("https://fanqienovel.com/reader/"@ =~= fq_base() + "/reader/"@);
            let ghost o0 = out@;
            out.push(ChapterInfo { title, chapter_id: id, url });
            assert(out@.map_values(|c: ChapterInfo| c@) =~= o0.map_values(|c: ChapterInfo| c@).push(out@.last()@));
        }
        m += 1;
    }
    assert(sv.take(m as int) =~= sv);
    out
}

fn str_items_exec(items: &Vec<Json>) -> (r: Vec<String>)
    ensures
        r@.map_values(|s: String| s@) == str_items(items@),
{
    let mut out: Vec<String> = Vec::new();
    let mut i: usize = 0;
    while i < items.len()
        invariant
            i <= items.len(),
            out@.map_values(|s: String| s@) == str_items(items@.take(i as int)),
        decreases items.len() - i,
    {
        assert(items@.take(i + 1).drop_last() =~= items@.take(i as int));
        assert(items@.take(i + 1).last() == items@[i as int]);
        match &items[i] {
            Json::Str(s) => {
                let ghost o0 = out@;
                out.push(owned(s.as_str()));
                assert(out@.map_values(|s: String| s@) =~= o0.map_values(|s: String| s@).push(out@.last()@));
            },
            _ => {},
        }
        i += 1;
    }
    assert(items@.take(i as int) =~= items@);
    out
}

fn default_name(i: usize) -> (r: String)
    requires
        i < usize::MAX,
    ensures
        r@ == fq_default_name(i as int),
{
    let n = crate::text::usize_to_string(i + 1);
    concat("卷 ", n.as_str())
}

impl FanqienovelProvider {
    /// The site's identifier.
    pub fn name(&self) -> (r: &'static str)
        ensures
            r@ == "fanqienovel"@,
    {
        "fanqienovel"
    }

    /// The site's display name.
    pub fn display_name(&self) -> (r: &'static str)
        ensures
            r@ == "番茄小说"@,
    {
        "番茄小说"
    }

    /// The site's address.
    pub fn base_url(&self) -> (r: &'static str)
        ensures
            r@ == fq_base(),
    {
        "https://fanqienovel.com"
    }

    /// The book page: `{base}/page/{id}`.
    pub fn book_url(&self, book_id: &str) -> (r: String)
        ensures
            r@ == fq_base() + "/page/"@ + book_id@,
    {
        concat(concat(self.base_url(), "/page/").as_str(), book_id)
    }

    /// A chapter page: `{base}/reader/{id}`.
    pub fn chapter_url(&self, chapter_id: &str) -> (r: String)
        ensures
            r@ == fq_base() + "/reader/"@ + chapter_id@,
    {
        concat(concat(self.base_url(), "/reader/").as_str(), chapter_id)
    }

    /// The state object of a page, if it has one that parses.
    pub fn extract_initial_state(html: &str) -> (r: Option<Json>)
        ensures
            r == fq_state(html@),
    {
        match state_text(html) {
            Some(t) => match parse_json(t.as_str()) {
                Some(j) => Some(j),
                None => {
                    proof {
                        reveal_strlit("undefined");
                        reveal_strlit("'");
                    }
                    let a = replace_exec(t.as_str(), "undefined", "null");
                    let b = replace_exec(a.as_str(), "'", "\"");
                    parse_json(b.as_str())
                },
            },
            None => None,
        }
    }

    /// A book from the `page` member of the state.
    pub fn info_from_page(page: &Json) -> (info: BookInfo)
        ensures
            info@ == fq_info(*page),
    {
        let names: Vec<String> = match as_array(get(page, "volumeNameList")) {
            Some(a) => str_items_exec(a),
            None => Vec::new(),
        };
        let ghost nv = names@.map_values(|s: String| s@);
        assert(nv =~= match oarr(jget(*page, "volumeNameList"@)) {
            Some(a) => str_items(a),
            None => Seq::empty(),
        });
        let mut volumes: Vec<Volume> = Vec::new();
        let ghost groups = match oarr(jget(*page, "chapterListWithVolume"@)) {
            Some(a) => a,
            None => Seq::<Json>::empty(),
        };
        match as_array(get(page, "chapterListWithVolume")) {
            Some(gs) => {
                let mut i: usize = 0;
                while i < gs.len()
                    invariant
                        i <= gs.len(),
                        groups == gs@,
                        nv == names@.map_values(|s: String| s@),
                        volumes@.map_values(|v: Volume| v@) == fq_volumes(groups, nv, i as int),
                    decreases gs.len() - i,
                {
                    match &gs[i] {
                        Json::Array(a) => {
                            let name = if i < names.len() {
                                owned(names[i].as_str())
                            } else if a.len() > 0 {
                                fq_str_exec(&a[0], "volume_name")
                            } else {
                                default_name(i)
                            };
                            let chapters = group_chapters(a);
                            if chapters.len() > 0 {
                                let volume_name = if name.as_str().is_empty() {
                                    default_name(i)
                                } else {
                                    name
                                };
                                let ghost o0 = volumes@;
                                volumes.push(Volume { volume_name, chapters });
                                assert(volumes@.map_values(|v: Volume| v@) =~= o0.map_values(|v: Volume| v@).push(
                                    volumes@.last()@,
                                ));
                            }
                        },
                        _ => {},
                    }
                    i += 1;
                }
            },
            None => {},
        }
        let author = {
            let a = fq_str_exec(page, "authorName");
            if a.as_str().is_empty() {
                fq_str_exec(page, "author")
            } else {
                a
            }
        };
        let cover_url = {
            let a = fq_str_exec(page, "thumbUrl");
            if a.as_str().is_empty() {
                fq_str_exec(page, "thumbUri")
            } else {
                a
            }
        };
        let summary = {
            let a = fq_str_exec(page, "abstract");
            if a.as_str().is_empty() {
                fq_str_exec(page, "description")
            } else {
                a
            }
        };
        let status = match as_i64(get(page, "creationStatus")) {
            Some(n) => n,
            None => 0,
        };
        let serial_status = if status == 2 {
            owned("完结")
        } else {
            owned("连载")
        };
        let info = BookInfo {
            book_name: fq_str_exec(page, "bookName"),
            author,
            summary,
            cover_url,
            serial_status,
            update_time: fq_str_exec(page, "lastPublishTime"),
            word_count: fq_str_exec(page, "wordNumber"),
            volumes,
        };
        assert(info@.volumes == fq_info(*page).volumes);
        assert(info@.serial_status == fq_info(*page).serial_status);
        assert(info@.author == fq_info(*page).author);
        info
    }

    /// A book page: `None` when the page has no state or the state has no
    /// `page` member.
    pub fn parse_book_info(html: &str) -> (r: Option<BookInfo>)
        ensures
            match fq_state(html@) {
                Some(st) => match jget(st, "page"@) {
                    Some(p) => r matches Some(info) && info@ == fq_info(p),
                    None => r is None,
                },
                None => r is None,
            },
    {
        match Self::extract_initial_state(html) {
            Some(st) => match get(&st, "page") {
                Some(p) => Some(Self::info_from_page(p)),
                None => None,
            },
            None => None,
        }
    }

    /// A chapter from its page and the page's state.
    pub fn chapter_from_state(html: &str, state: &Json, chapter_id: &str) -> (ch: Chapter)
        ensures
            ch@ == fq_chapter(html@, *state, chapter_id@),
    {
        match crate::json::oget_exec(get(state, "reader"), "chapterData") {
            Some(cd) => {
                let title = fq_str_exec(cd, "title");
                let raw = fq_str_exec(cd, "content");
                let content = if raw.as_str().is_empty() {
                    owned("[章节内容为空]")
                } else {
                    let ps = fragment_select(raw.as_str(), "p");
                    let mut paras = crate::providers::common::nonempty_texts_exec(&ps);
                    if paras.len() == 0 {
                        let t = html_to_text(raw.as_str());
                        let tt = trim_exec(t.as_str());
                        if !tt.as_str().is_empty() {
                            paras.push(tt);
                            assert(paras@.map_values(|s: String| s@) =~= seq![trim(spec_html_to_text(raw@))]);
                        } else {
                            assert(paras@.map_values(|s: String| s@) =~= Seq::<Seq<char>>::empty());
                        }
                    }
                    if paras.len() == 0 {
                        owned("[无法解析章节内容]")
                    } else {
                        join_exec(&paras, "\n")
                    }
                };
                Chapter { id: owned(chapter_id), title, content }
            },
            None => {
                let title = select_text(html, "h1");
                let sels: Vec<&str> = vec!["div.chapter-content", "div.read-content", "article"];
                assert(crate::html::strs_view(sels@) =~= fq_body_sels());
                let body = first_nonempty_body_exec(html, &sels);
                let content = if body.as_str().is_empty() {
                    owned("[无法获取章节内容]")
                } else {
                    body
                };
                Chapter { id: owned(chapter_id), title, content }
            },
        }
    }

    /// A chapter page: `None` when the page has no state.
    pub fn parse_chapter(html: &str, chapter_id: &str) -> (r: Option<Chapter>)
        ensures
            match fq_state(html@) {
                Some(st) => r matches Some(ch) && ch@ == fq_chapter(html@, st, chapter_id@),
                None => r is None,
            },
    {
        match Self::extract_initial_state(html) {
            Some(st) => Some(Self::chapter_from_state(html, &st, chapter_id)),
            None => None,
        }
    }
}

} // verus!
