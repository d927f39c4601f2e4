//! 无限轻小说 (8novel): search, book pages with volume folders, and chapter
//! text fetched from an address built from values hidden in the chapter
//! page's script. Lines that spell the site's address in look-alike
//! characters are dropped.

use vstd::prelude::*;

use crate::html::{
    attr_or_empty, attr_or_empty_exec, element_text, group_text, group_text_exec, html_select, html_select_fields,
    node_text, nodes_view, sel_attr, sel_text, select_all, select_attr, select_fields, select_text, strs_view, Node,
    NodeView,
};
use crate::markup::{html_to_text, spec_html_to_text};
use crate::providers::common::{
    chapters_view, id_by_rule, item_nodes, items_view, regex_all_captured, regex_capture, regex_captures_all,
    regex_group1, split_by, split_exec, take_at_most, url_encode, url_encoded, IdRule,
};
use crate::text::{
    after_last, after_last_exec, all_digits, before_first, before_first_exec, chars_of, concat, join, join_exec,
    owned, parse_usize, parse_usize_exec, replace_all, replace_exec, starts_with, starts_with_exec, str_eq,
    string_of, trim, trim_exec,
};
use crate::types::{BookInfo, BookInfoView, Chapter, ChapterInfo, ChapterInfoView, ChapterView, SearchResult, SearchResultView, Volume, VolumeView};

verus! {

/// The 8novel site.
pub struct N8novelProvider;

/// Site address.
pub open spec fn n8_base() -> Seq<char> {
    "https://www.8novel.com"@
}

/// For each position of the disguised address, the characters that spell it.
pub open spec fn ad_sets() -> Seq<Seq<char>> {
    seq![
        seq!['8', '⑧', '⑻', '⒏', '８'],
        seq!['N', 'Ν', 'Ｎ', 'ｎ'],
        seq!['O', 'o', 'ο', 'σ', 'О', 'Ｏ', 'ｏ'],
        seq!['v', 'ν', 'Ｖ'],
        seq!['E', 'Ε', 'Ё', 'Е', 'ヨ', 'Ｅ', 'ｅ'],
        seq!['L', '└', '┕', '┗', 'Ｌ', 'ｌ'],
        seq!['.', '·', '。', '．'],
        seq!['C', 'c', 'С', 'с', 'Ｃ', 'ｃ'],
        seq!['o', 'Ο', 'ο', 'О', 'о', 'Ｏ'],
        seq!['m', 'м', 'ｍ'],
    ]
}

/// The number of positions below `n` whose character is not one of those
/// allowed there.
pub open spec fn ad_mismatches(line: Seq<char>, n: int) -> int
    decreases n,
{
    if n <= 0 {
        0
    } else {
        ad_mismatches(line, n - 1) + if ad_sets()[n - 1].contains(line[n - 1]) {
            0int
        } else {
            1int
        }
    }
}

/// A line is the disguised address: ten characters, at most two of them
/// not among the look-alikes for their position.
pub open spec fn is_ad(line: Seq<char>) -> bool {
    line.len() == 10 && ad_mismatches(line, 10) <= 2
}

/// Whether a line spells the site's address in look-alike characters.
pub fn is_n8novel_ad(line: &str) -> (r: bool)
    ensures
        r == is_ad(line@),
{
    let sets: Vec<Vec<char>> = vec![
        vec!['8', '⑧', '⑻', '⒏', '８'],
        vec!['N', 'Ν', 'Ｎ', 'ｎ'],
        vec!['O', 'o', 'ο', 'σ', 'О', 'Ｏ', 'ｏ'],
        vec!['v', 'ν', 'Ｖ'],
        vec!['E', 'Ε', 'Ё', 'Е', 'ヨ', 'Ｅ', 'ｅ'],
        vec!['L', '└', '┕', '┗', 'Ｌ', 'ｌ'],
        vec!['.', '·', '。', '．'],
        vec!['C', 'c', 'С', 'с', 'Ｃ', 'ｃ'],
        vec!['o', 'Ο', 'ο', 'О', 'о', 'Ｏ'],
        vec!['m', 'м', 'ｍ'],
    ];
    assert(sets@.map_values(|v: Vec<char>| v@) =~= ad_sets());
    let chars = chars_of(line);
    if chars.len() != 10 {
        return false;
    }
    let mut mismatches: usize = 0;
    let mut i: usize = 0;
    while i < 10
        invariant
            i <= 10,
            chars@ == line@,
            chars@.len() == 10,
            sets@.len() == 10,
            sets@.map_values(|v: Vec<char>| v@) == ad_sets(),
            mismatches as int == ad_mismatches(line@, i as int),
            mismatches <= 2,
        decreases 10 - i,
    {
        let c = chars[i];
        let set = &sets[i];
        assert(set@ == ad_sets()[i as int]);
        let mut found = false;
        let mut k: usize = 0;
        while k < set.len()
            invariant
                k <= set.len(),
                found == exists|j: int| 0 <= j < k && set@[j] == c,
            decreases set.len() - k,
        {
            if set[k] == c {
                found = true;
            }
            k += 1;
        }
        assert(found == set@.contains(c));
        if !found {
            mismatches += 1;
            if mismatches > 2 {
                proof {
                    lemma_mismatches_grow(line@, i as int + 1, 10);
                }
                return false;
            }
        }
        i += 1;
    }
    true
}

/// Mismatches only grow with the length examined.
proof fn lemma_mismatches_grow(line: Seq<char>, a: int, b: int)
    requires
        0 <= a <= b,
    ensures
        ad_mismatches(line, a) <= ad_mismatches(line, b),
    decreases b - a,
{
    if a < b {
        lemma_mismatches_grow(line, a, b - 1);
    }
}

/// One search result: a cover link, its id and its `title`.
pub open spec fn n8_result(n: NodeView) -> Option<SearchResultView> {
    let href = attr_or_empty(n, "href"@);
    if href.len() == 0 {
        None
    } else {
        Some(
            SearchResultView {
                site: "n8novel"@,
                book_id: id_by_rule(IdRule::TrimmedSegment, href),
                title: attr_or_empty(n, "title"@),
                author: Seq::empty(),
                latest_chapter: Seq::empty(),
                update_date: Seq::empty(),
                word_count: Seq::empty(),
            },
        )
    }
}

/// The search results among the first `limit` cover links.
pub open spec fn n8_results(html: Seq<char>, limit: nat) -> Seq<SearchResultView> {
    crate::providers::common::collect(
        take_at_most(html_select(html, "div.picsize a[href]"@), limit),
        |n: NodeView| n8_result(n),
    )
}

/// A chapter link of a volume folder: its text and `href`, both non-empty;
/// the id is what follows the last `?`.
pub open spec fn n8_link(n: NodeView) -> Option<ChapterInfoView> {
    let title = node_text(n);
    let href = attr_or_empty(n, "href"@);
    if title.len() == 0 || href.len() == 0 {
        None
    } else {
        Some(
            ChapterInfoView {
                title,
                chapter_id: after_last(href, "?"@),
                url: if starts_with(href, "http"@) {
                    href
                } else {
                    n8_base() + href
                },
            },
        )
    }
}

/// [`n8_link`] as a function value.
pub open spec fn n8_link_fn() -> spec_fn(NodeView) -> Option<ChapterInfoView> {
    |n: NodeView| n8_link(n)
}

/// The volume folders, each with its name up to a `/` and its chapters
/// (kept even when empty).
pub open spec fn n8_volumes(items: Seq<Seq<Seq<NodeView>>>) -> Seq<VolumeView>
    decreases items.len(),
{
    if items.len() == 0 {
        Seq::empty()
    } else {
        n8_volumes(items.drop_last()).push(
            VolumeView {
                volume_name: trim(before_first(group_text(items.last(), 0), "/"@)),
                chapters: crate::providers::common::collect(item_nodes(items.last(), 1), n8_link_fn()),
            },
        )
    }
}

/// Selectors of the volume folders, their names and their chapter links.
pub open spec fn n8_vol_fields() -> Seq<Seq<char>> {
    seq!["div.vol-title h3"@, "a.episode_li.d-block[href]"@]
}

/// An 8novel book page.
pub open spec fn n8_info(html: Seq<char>) -> BookInfoView {
    let nums = html_select(html, "li.small.text-gray span.item-info-num"@);
    BookInfoView {
        book_name: sel_text(html, "li.h2"@),
        author: trim(
            replace_all(
                replace_all(sel_text(html, "span.item-info-author"@), "作者: "@, Seq::empty()),
                "作者："@,
                Seq::empty(),
            ),
        ),
        summary: sel_text(html, "li.full_text.mt-2"@),
        cover_url: n8_base() + sel_attr(html, "div.item-cover img"@, "src"@),
        serial_status: Seq::empty(),
        update_time: trim(
            replace_all(
                replace_all(sel_text(html, "span.item-info-date"@), "更新: "@, Seq::empty()),
                "更新："@,
                Seq::empty(),
            ),
        ),
        word_count: if nums.len() >= 2 {
            trim(node_text(nums[1])) + "萬字"@
        } else {
            Seq::empty()
        },
        volumes: n8_volumes(html_select_fields(html, "div.folder[pid]"@, n8_vol_fields())),
    }
}

/// The pattern of the text-directory digit.
pub open spec fn n8_dir_re() -> Seq<char> {
    "%2f(\\d)%"@
}

/// The pattern of a comma-separated number list being split in the script.
pub open spec fn n8_seed_re() -> Seq<char> {
    "[\"\\'](\\d+(?:,\\d+)*)[\"\\']\\.split\\s*\\(\\s*[\"\\']\\s*,\\s*[\"\\']\\s*\\)"@
}

/// The pattern of any comma-separated list being split in the script.
pub open spec fn n8_list_re() -> Seq<char> {
    "[\"\\']([^\"\\']+)[\"\\']\\.split\\s*\\(\\s*[\"\\']\\s*,\\s*[\"\\']\\s*\\)"@
}

/// The captures of a pattern, none when it does not compile.
pub open spec fn all_caps(pattern: Seq<char>, text: Seq<char>) -> Seq<Seq<char>> {
    match regex_all_captured(pattern, text) {
        Some(v) => v,
        None => Seq::empty(),
    }
}

/// The directory of the chapter text: the digit of `%2f…%`, else `1`.
pub open spec fn n8_txt_dir(page: Seq<char>) -> Seq<char> {
    match regex_group1(n8_dir_re(), page) {
        Some(d) => d,
        None => "1"@,
    }
}

/// The address seed: the last number of the last split number list, else
/// `00000`.
pub open spec fn n8_url_seed(page: Seq<char>) -> Seq<char> {
    let caps = all_caps(n8_seed_re(), page);
    let seed = if caps.len() > 0 {
        caps.last()
    } else {
        Seq::empty()
    };
    if seed.len() == 0 {
        "00000"@
    } else {
        after_last(seed, ","@)
    }
}

/// The five seed characters for a chapter, from position `3·n mod 100`.
pub open spec fn n8_segment(seed: Seq<char>, chapter_id: Seq<char>) -> Seq<char> {
    let n: int = match parse_usize(chapter_id) {
        Some(v) => v as int,
        None => 0,
    };
    let start = (n * 3) % 100;
    if start >= seed.len() {
        Seq::empty()
    } else if start + 5 <= seed.len() {
        seed.subrange(start, start + 5)
    } else {
        seed.skip(start)
    }
}

/// The items of a split list, trimmed.
pub open spec fn list_items(cap: Seq<char>) -> Seq<Seq<char>> {
    split_by(cap, ","@).map_values(|x: Seq<char>| trim(x))
}

/// Every item is empty or all digits.
pub open spec fn numeric_items(items: Seq<Seq<char>>) -> bool {
    forall|k: int| 0 <= k < items.len() ==> (#[trigger] items[k]).len() == 0 || all_digits(items[k])
}

/// Every item is empty.
pub open spec fn empty_items(items: Seq<Seq<char>>) -> bool {
    forall|k: int| 0 <= k < items.len() ==> (#[trigger] items[k]).len() == 0
}

/// The id list and title list found so far, and whether both are found.
pub struct N8Lists {
    pub ids: Option<Seq<Seq<char>>>,
    pub titles: Option<Seq<Seq<char>>>,
}

/// One more split list: a numeric one with several non-empty items becomes
/// the id list; the first other one becomes the title list. Nothing changes
/// once both are found.
pub open spec fn n8_step(st: N8Lists, cap: Seq<char>) -> N8Lists {
    if st.ids is Some && st.titles is Some {
        st
    } else {
        let items = list_items(cap);
        if numeric_items(items) {
            if items.len() > 1 && !empty_items(items) {
                N8Lists { ids: Some(items), ..st }
            } else {
                st
            }
        } else if st.titles is None {
            N8Lists { titles: Some(items), ..st }
        } else {
            st
        }
    }
}

/// The lists found in the split lists `caps`.
pub open spec fn n8_lists(caps: Seq<Seq<char>>) -> N8Lists
    decreases caps.len(),
{
    if caps.len() == 0 {
        N8Lists { ids: None, titles: None }
    } else {
        n8_step(n8_lists(caps.drop_last()), caps.last())
    }
}

/// The first position of `x` in `s`.
pub open spec fn index_of(s: Seq<Seq<char>>, x: Seq<char>) -> Option<int>
    decreases s.len(),
{
    if s.len() == 0 {
        None
    } else if s[0] == x {
        Some(0)
    } else {
        match index_of(s.skip(1), x) {
            Some(i) => Some(i + 1),
            None => None,
        }
    }
}

/// The chapter's title: the title at the chapter's position in the id list.
pub open spec fn n8_title(page: Seq<char>, chapter_id: Seq<char>) -> Seq<char> {
    let st = n8_lists(all_caps(n8_list_re(), page));
    match (st.ids, st.titles) {
        (Some(ids), Some(ts)) => match index_of(ids, chapter_id) {
            Some(p) => if p < ts.len() {
                ts[p]
            } else {
                Seq::empty()
            },
            None => Seq::empty(),
        },
        _ => Seq::empty(),
    }
}

/// The lines that are not empty and not the disguised address.
pub open spec fn ad_free(ls: Seq<Seq<char>>) -> Seq<Seq<char>>
    decreases ls.len(),
{
    if ls.len() == 0 {
        Seq::empty()
    } else {
        let rest = ad_free(ls.drop_last());
        let t = trim(ls.last());
        if t.len() > 0 && !is_ad(t) {
            rest.push(ls.last())
        } else {
            rest
        }
    }
}

/// The text of the content page: its HTML read inside a `div`, lines that
/// are empty or the disguised address dropped.
pub open spec fn n8_content(content_html: Seq<char>) -> Seq<char> {
    join(ad_free(split_by(spec_html_to_text("<div>"@ + content_html + "</div>"@), "\n"@)), "\n"@)
}

// ─── executable ────────────────────────────────────────────────────────────

fn n8_link_exec(n: &Node) -> (r: Option<ChapterInfo>)
    ensures
        crate::providers::common::opt_chapter_view(r) == n8_link(n@),
{
    let title = element_text(n);
    let href = attr_or_empty_exec(n, "href");
    if title.as_str().is_empty() || href.as_str().is_empty() {
        return None;
    }
    let url = if starts_with_exec(href.as_str(), "http") {
        owned(href.as_str())
    } else {
        concat("https://www.8novel.com", href.as_str())
    };
    Some(ChapterInfo { title, chapter_id: after_last_exec(href.as_str(), "?"), url })
}

fn list_items_exec(cap: &str) -> (r: Vec<String>)
    ensures
        r@.map_values(|s: String| s@) == list_items(cap@),
{
    proof {
        reveal_strlit(",");
    }
    let parts = split_exec(cap, ",");
    let ghost pv = parts@.map_values(|s: String| s@);
    let mut out: Vec<String> = Vec::new();
    let mut i: usize = 0;
    while i < parts.len()
        invariant
            i <= parts.len(),
            pv == parts@.map_values(|s: String| s@),
            out@.map_values(|s: String| s@) == pv.take(i as int).map_values(|x: Seq<char>| trim(x)),
        decreases parts.len() - i,
    {
        let ghost o0 = out@;
        out.push(trim_exec(parts[i].as_str()));
        assert(pv.take(i + 1) =~= pv.take(i as int).push(pv[i as int]));
        assert(out@.map_values(|s: String| s@) =~= o0.map_values(|s: String| s@).push(out@.last()@));
        assert(pv.take(i + 1).map_values(|x: Seq<char>| trim(x)) =~= pv.take(i as int).map_values(|x: Seq<char>| trim(x)).push(
            trim(pv[i as int]),
        ));
        i += 1;
    }
    assert(pv.take(i as int) =~= pv);
    out
}

fn all_digits_exec(s: &str) -> (r: bool)
    ensures
        r == all_digits(s@),
{
    let v = chars_of(s);
    let mut i: usize = 0;
    while i < v.len()
        invariant
            i <= v.len(),
            v@ == s@,
            forall|k: int| 0 <= k < i ==> '0' <= #[trigger] v@[k] <= '9',
        decreases v.len() - i,
    {
        if !('0' <= v[i] && v[i] <= '9') {
            return false;
        }
        i += 1;
    }
    true
}

fn classify(items: &Vec<String>) -> (r: (bool, bool))
    ensures
        r.0 == numeric_items(items@.map_values(|s: String| s@)),
        r.1 == empty_items(items@.map_values(|s: String| s@)),
{
    let ghost iv = items@.map_values(|s: String| s@);
    let mut numeric = true;
    let mut empty = true;
    let mut i: usize = 0;
    while i < items.len()
        invariant
            i <= items.len(),
            iv == items@.map_values(|s: String| s@),
            numeric == (forall|k: int| 0 <= k < i ==> (#[trigger] iv[k]).len() == 0 || all_digits(iv[k])),
            empty == (forall|k: int| 0 <= k < i ==> (#[trigger] iv[k]).len() == 0),
        decreases items.len() - i,
    {
        let e = items[i].as_str().is_empty();
        assert(iv[i as int] == items@[i as int]@);
        let d = all_digits_exec(items[i].as_str());
        numeric = numeric && (e || d);
        empty = empty && e;
        i += 1;
    }
    (numeric, empty)
}

fn index_of_exec(s: &Vec<String>, x: &str) -> (r: Option<usize>)
    ensures
        match index_of(s@.map_values(|t: String| t@), x@) {
            Some(p) => r == Some(p as usize) && 0 <= p < s@.len(),
            None => r is None,
        },
{
    let ghost sv = s@.map_values(|t: String| t@);
    let mut i: usize = 0;
    assert(sv.skip(0) =~= sv);
    while i < s.len()
        invariant
            i <= s.len(),
            sv == s@.map_values(|t: String| t@),
            index_of(sv, x@) == match index_of(sv.skip(i as int), x@) {
                Some(k) => Some(k + i),
                None => None,
            },
        decreases s.len() - i,
    {
        assert(sv.skip(i as int)[0] == s@[i as int]@);
        assert(sv.skip(i as int).skip(1) =~= sv.skip(i + 1));
        if str_eq(s[i].as_str(), x) {
            return Some(i);
        }
        i += 1;
    }
    None
}

impl N8novelProvider {
    /// The site's identifier.
    pub fn name(&self) -> (r: &'static str)
        ensures
            r@ == "n8novel"@,
    {
        "n8novel"
    }

    /// The site's display name.
    pub fn display_name(&self) -> (r: &'static str)
        ensures
            r@ == "无限轻小说"@,
    {
        "无限轻小说"
    }

    /// The site's address.
    pub fn base_url(&self) -> (r: &'static str)
        ensures
            r@ == n8_base(),
    {
        "https://www.8novel.com"
    }

    /// The site has a search.
    pub fn supports_search(&self) -> (r: bool)
        ensures
            r,
    {
        true
    }

    /// The search page: `{base}/search/?key={keyword}`.
    pub fn search_url(&self, keyword: &str) -> (r: String)
        ensures
            r@ == n8_base() + "/search/?key="@ + url_encoded(keyword@),
    {
        let k = url_encode(keyword);
        concat(concat(self.base_url(), "/search/?key=").as_str(), k.as_str())
    }

    /// The book page: `{base}/novelbooks/{id}/`.
    pub fn book_url(&self, book_id: &str) -> (r: String)
        ensures
            r@ == n8_base() + "/novelbooks/"@ + book_id@ + "/"@,
    {
        concat(concat(concat(self.base_url(), "/novelbooks/").as_str(), book_id).as_str(), "/")
    }

    /// The chapter page: `https://article.8novel.com/read/{book}/?{chapter}`.
    pub fn chapter_page_url(&self, book_id: &str, chapter_id: &str) -> (r: String)
        ensures
            r@ == "https://article.8novel.com/read/"@ + book_id@ + "/?"@ + chapter_id@,
    {
        concat(concat(concat("https://article.8novel.com/read/", book_id).as_str(), "/?").as_str(), chapter_id)
    }

    /// The search results among the first `limit` cover links.
    pub fn parse_search(&self, html: &str, limit: usize) -> (r: Vec<SearchResult>)
        ensures
            r@.map_values(|x: SearchResult| x@) == n8_results(html@, limit as nat),
    {
        let links = select_all(html, "div.picsize a[href]");
        let ghost lv = nodes_view(links@);
        let n = if limit < links.len() {
            limit
        } else {
            links.len()
        };
        assert(take_at_most(lv, limit as nat) =~= lv.take(n as int));
        let ghost f = |nv: NodeView| n8_result(nv);
        let mut out: Vec<SearchResult> = Vec::new();
        let mut i: usize = 0;
        while i < n
            invariant
                i <= n <= links.len(),
                lv == nodes_view(links@),
                f == (|nv: NodeView| n8_result(nv)),
                out@.map_values(|x: SearchResult| x@) == crate::providers::common::collect(lv.take(n as int).take(i as int), f),
            decreases n - i,
        {
            proof {
                crate::providers::common::lemma_collect_step(lv.take(n as int), f, i as int);
            }
            assert(lv.take(n as int).take(i + 1) =~= lv.take(i + 1));
            assert(lv.take(n as int).take(i as int) =~= lv.take(i as int));
            assert(lv.take(n as int)[i as int] == links@[i as int]@);
            let href = attr_or_empty_exec(&links[i], "href");
            if !href.as_str().is_empty() {
                let r = SearchResult {
                    site: owned("n8novel"),
                    book_id: crate::providers::common::chapter_id_by_rule(IdRule::TrimmedSegment, href.as_str()),
                    title: attr_or_empty_exec(&links[i], "title"),
                    author: String::new(),
                    latest_chapter: String::new(),
                    update_date: String::new(),
                    word_count: String::new(),
                };
                let ghost o0 = out@;
                out.push(r);
                assert(out@.map_values(|x: SearchResult| x@) =~= o0.map_values(|x: SearchResult| x@).push(out@.last()@));
            }
            i += 1;
        }
        assert(lv.take(n as int).take(n as int) =~= lv.take(n as int));
        out
    }

    /// Parses a book page.
    pub fn parse_book_info(&self, html: &str) -> (info: BookInfo)
        ensures
            info@ == n8_info(html@),
    {
        proof {
            reveal_strlit("作者: ");
            reveal_strlit("作者：");
            reveal_strlit("更新: ");
            reveal_strlit("更新：");
            reveal_strlit("");
        }
        assert(""@ =~= Seq::<char>::empty());
        let a0 = select_text(html, "span.item-info-author");
        let a1 = replace_exec(a0.as_str(), "作者: ", "");
        let a2 = replace_exec(a1.as_str(), "作者：", "");
        let u0 = select_text(html, "span.item-info-date");
        let u1 = replace_exec(u0.as_str(), "更新: ", "");
        let u2 = replace_exec(u1.as_str(), "更新：", "");
        let nums = select_all(html, "li.small.text-gray span.item-info-num");
        let word_count = if nums.len() >= 2 {
            let t = element_text(&nums[1]);
            let tt = trim_exec(t.as_str());
            concat(tt.as_str(), "萬字")
        } else {
            String::new()
        };
        let cover = select_attr(html, "div.item-cover img", "src");
        let fields: Vec<&str> = vec!["div.vol-title h3", "a.episode_li.d-block[href]"];
        assert(strs_view(fields@) =~= n8_vol_fields());
        let items = select_fields(html, "div.folder[pid]", &fields);
        let ghost iv = items_view(items@);
        assert(iv =~= items@.map_values(|item: Vec<Vec<Node>>| crate::html::groups_view(item@)));
        let mut volumes: Vec<Volume> = Vec::new();
        let mut i: usize = 0;
        while i < items.len()
            invariant
                i <= items.len(),
                iv == items_view(items@),
                volumes@.map_values(|v: Volume| v@) == n8_volumes(iv.take(i as int)),
            decreases items.len() - i,
        {
            assert(iv.take(i + 1).drop_last() =~= iv.take(i as int));
            assert(iv.take(i + 1).last() == crate::html::groups_view(items@[i as int]@));
            let item = &items[i];
            let empty: Vec<Node> = Vec::new();
            let links: &Vec<Node> = if 1 < item.len() {
                &item[1]
            } else {
                &empty
            };
            assert(nodes_view(links@) =~= item_nodes(crate::html::groups_view(item@), 1));
            let chapters = crate::providers::common::collect_chapters(
                links,
                (|n: &Node| -> (r: Option<ChapterInfo>)
                    ensures
                        crate::providers::common::opt_chapter_view(r) == n8_link(n@),
                    { n8_link_exec(n) }),
                Ghost(n8_link_fn()),
            );
            let name = group_text_exec(item, 0);
            let b = before_first_exec(name.as_str(), "/");
            let ghost o0 = volumes@;
            volumes.push(Volume { volume_name: trim_exec(b.as_str()), chapters });
            assert(volumes@.map_values(|v: Volume| v@) =~= o0.map_values(|v: Volume| v@).push(volumes@.last()@));
            i += 1;
        }
        assert(iv.take(i as int) =~= iv);
        let info = BookInfo {
            book_name: select_text(html, "li.h2"),
            author: trim_exec(a2.as_str()),
            summary: select_text(html, "li.full_text.mt-2"),
            cover_url: concat(self.base_url(), cover.as_str()),
            serial_status: String::new(),
            update_time: trim_exec(u2.as_str()),
            word_count,
            volumes,
        };
        assert(info@.serial_status =~= Seq::<char>::empty());
        info
    }

    /// The directory digit of the chapter text.
    pub fn txt_dir(page: &str) -> (r: String)
        ensures
            r@ == n8_txt_dir(page@),
    {
        match regex_capture("%2f(\\d)%", page) {
            Some(d) => d,
            None => owned("1"),
        }
    }

    /// The address seed of a chapter page.
    pub fn url_seed(page: &str) -> (r: String)
        ensures
            r@ == n8_url_seed(page@),
    {
        let caps = match regex_captures_all(
            "[\"\\'](\\d+(?:,\\d+)*)[\"\\']\\.split\\s*\\(\\s*[\"\\']\\s*,\\s*[\"\\']\\s*\\)",
            page,
        ) {
            Some(v) => v,
            None => Vec::new(),
        };
        assert(caps@.map_values(|s: String| s@) =~= all_caps(n8_seed_re(), page@));
        let seed = if caps.len() > 0 {
            owned(caps[caps.len() - 1].as_str())
        } else {
            String::new()
        };
        if seed.as_str().is_empty() {
            owned("00000")
        } else {
            after_last_exec(seed.as_str(), ",")
        }
    }

    /// The five seed characters for a chapter.
    pub fn seed_segment(seed: &str, chapter_id: &str) -> (r: String)
        ensures
            r@ == n8_segment(seed@, chapter_id@),
    {
        let n: usize = match parse_usize_exec(chapter_id) {
            Some(v) => v,
            None => 0,
        };
        let start: usize = ((n % 100) * 3) % 100;
        proof {
            vstd::arithmetic::div_mod::lemma_mul_mod_noop_left(n as int, 3, 100);
        }
        let v = chars_of(seed);
        if start >= v.len() {
            String::new()
        } else if start + 5 <= v.len() {
            string_of(crate::text::sub_chars(&v, start, start + 5).as_slice())
        } else {
            let t = crate::text::sub_chars(&v, start, v.len());
            assert(t@ =~= v@.skip(start as int));
            string_of(t.as_slice())
        }
    }

    /// The address of the chapter text: `https://article.8novel.com/txt/{dir}/{book}/{chapter}{segment}.html`.
    pub fn content_url(txt_dir: &str, book_id: &str, chapter_id: &str, segment: &str) -> (r: String)
        ensures
            r@ == "https://article.8novel.com/txt/"@ + txt_dir@ + "/"@ + book_id@ + "/"@ + chapter_id@ + segment@
                + ".html"@,
    {
        let a = concat(concat("https://article.8novel.com/txt/", txt_dir).as_str(), "/");
        let b = concat(concat(a.as_str(), book_id).as_str(), "/");
        let c = concat(concat(b.as_str(), chapter_id).as_str(), segment);
        concat(c.as_str(), ".html")
    }

    /// The chapter's title, read from the split lists of the chapter page.
    pub fn chapter_title(page: &str, chapter_id: &str) -> (r: String)
        ensures
            r@ == n8_title(page@, chapter_id@),
    {
        let caps = match regex_captures_all(
            "[\"\\']([^\"\\']+)[\"\\']\\.split\\s*\\(\\s*[\"\\']\\s*,\\s*[\"\\']\\s*\\)",
            page,
        ) {
            Some(v) => v,
            None => Vec::new(),
        };
        let ghost cv = caps@.map_values(|s: String| s@);
        assert(cv =~= all_caps(n8_list_re(), page@));
        let mut ids: Option<Vec<String>> = None;
        let mut titles: Option<Vec<String>> = None;
        let mut i: usize = 0;
        while i < caps.len()
            invariant
                i <= caps.len(),
                cv == caps@.map_values(|s: String| s@),
                ({
                    let st = n8_lists(cv.take(i as int));
                    &&& match st.ids {
                        Some(x) => ids matches Some(v) && v@.map_values(|s: String| s@) == x,
                        None => ids is None,
                    }
                    &&& match st.titles {
                        Some(x) => titles matches Some(v) && v@.map_values(|s: String| s@) == x,
                        None => titles is None,
                    }
                }),
            decreases caps.len() - i,
        {
            assert(cv.take(i + 1).drop_last() =~= cv.take(i as int));
            assert(cv.take(i + 1).last() == caps@[i as int]@);
            if !(ids.is_some() && titles.is_some()) {
                let items = list_items_exec(caps[i].as_str());
                let (numeric, empty) = classify(&items);
                if numeric {
                    if items.len() > 1 && !empty {
                        ids = Some(items);
                    }
                } else if titles.is_none() {
                    titles = Some(items);
                }
            }
            i += 1;
        }
        assert(cv.take(i as int) =~= cv);
        let ghost st = n8_lists(cv);
        if ids.is_none() || titles.is_none() {
            return String::new();
        }
        let iv = ids.unwrap();
        let tv = titles.unwrap();
        assert(iv@.map_values(|s: String| s@) == st.ids.unwrap());
        assert(tv@.map_values(|s: String| s@) == st.titles.unwrap());
        assert(n8_lists(all_caps(n8_list_re(), page@)) == st);
        assert(n8_title(page@, chapter_id@) == match index_of(st.ids.unwrap(), chapter_id@) {
            Some(p) => if p < st.titles.unwrap().len() {
                st.titles.unwrap()[p]
            } else {
                Seq::empty()
            },
            None => Seq::empty(),
        });
        match index_of_exec(&iv, chapter_id) {
            Some(p) => if p < tv.len() {
                assert(tv@.map_values(|s: String| s@)[p as int] == tv@[p as int]@);
                owned(tv[p].as_str())
            } else {
                String::new()
            },
            None => String::new(),
        }
    }

    /// The text of a content page.
    pub fn parse_content(content_html: &str) -> (r: String)
        ensures
            r@ == n8_content(content_html@),
    {
        let wrapped = concat(concat("<div>", content_html).as_str(), "</div>");
        let t = html_to_text(wrapped.as_str());
        proof {
            reveal_strlit("\n");
        }
        let lines = split_exec(t.as_str(), "\n");
        let ghost lv = lines@.map_values(|s: String| s@);
        let mut kept: Vec<String> = Vec::new();
        let mut i: usize = 0;
        while i < lines.len()
            invariant
                i <= lines.len(),
                lv == lines@.map_values(|s: String| s@),
                kept@.map_values(|s: String| s@) == ad_free(lv.take(i as int)),
            decreases lines.len() - i,
        {
            assert(lv.take(i + 1).drop_last() =~= lv.take(i as int));
            assert(lv.take(i + 1).last() == lines@[i as int]@);
            let tr = trim_exec(lines[i].as_str());
            if !tr.as_str().is_empty() && !is_n8novel_ad(tr.as_str()) {
                let ghost k0 = kept@;
                kept.push(owned(lines[i].as_str()));
                assert(kept@.map_values(|s: String| s@) =~= k0.map_values(|s: String| s@).push(kept@.last()@));
            }
            i += 1;
        }
        assert(lv.take(i as int) =~= lv);
        join_exec(&kept, "\n")
    }

    /// A chapter from its page and its content page.
    pub fn parse_chapter(page: &str, content_html: &str, chapter_id: &str) -> (ch: Chapter)
        ensures
            ch@ == (ChapterView { id: chapter_id@, title: n8_title(page@, chapter_id@), content: n8_content(content_html@) }),
    {
        Chapter {
            id: owned(chapter_id),
            title: Self::chapter_title(page, chapter_id),
            content: Self::parse_content(content_html),
        }
    }
}

} // verus!
