//! 次元姬 (ciyuanji): every page carries its data as JSON in a
//! `__NEXT_DATA__` script. The table of contents is a flat chapter list that
//! is grouped into volumes by volume id, the volumes ordered by their sort
//! number and the chapters of each volume by theirs.

use vstd::prelude::*;

use crate::html::{sel_text, select_text};
use crate::json::{
    arr_or_empty, as_array, as_i64, as_str, as_u64, at_path, at_path_exec, get, json_parsed, oget, oget_exec, oi64,
    ostr, ou64, parse_json, same, str_or_empty, str_or_empty_exec, text_or_empty, text_or_empty_exec, unquoted,
    unquoted_exec, Json,
};
use crate::providers::common::{take_at_most, url_encode, url_encoded};
use crate::text::{concat, decimal, owned, str_eq, u64_to_string};
use crate::types::{BookInfo, BookInfoView, Chapter, ChapterInfo, ChapterInfoView, ChapterView, SearchResult, SearchResultView, Volume, VolumeView};

verus! {

/// The ciyuanji site.
pub struct CiyuanjiProvider;

/// Site address.
pub open spec fn cy_base() -> Seq<char> {
    "https://www.ciyuanji.com"@
}

/// The JSON of a page's `__NEXT_DATA__` script, if it has one that parses.
pub open spec fn cy_next_data(html: Seq<char>) -> Option<Json> {
    let nodes = crate::html::html_select(html, "script#__NEXT_DATA__"@);
    if nodes.len() > 0 {
        json_parsed(crate::html::node_text(nodes[0]))
    } else {
        None
    }
}

/// The path of names `props`, `pageProps`, then `last`.
pub open spec fn page_props(last: Seq<char>) -> Seq<Seq<char>> {
    seq!["props"@, "pageProps"@, last]
}

/// An integer member, or 0.
pub open spec fn int_or_zero(v: Option<Json>) -> i64 {
    match oi64(v) {
        Some(n) => n,
        None => 0,
    }
}

/// One chapter of the flat list, with its volume's id, title and sort
/// number and its own sort number.
pub struct CyEntry {
    pub vid: i64,
    pub vtitle: Seq<char>,
    pub vsort: i64,
    pub sort: i64,
    pub info: ChapterInfoView,
}

/// A chapter page: `{base}/chapter/{book}_{chapter}.html`.
pub open spec fn cy_chapter_url(book_id: Seq<char>, chapter_id: Seq<char>) -> Seq<char> {
    cy_base() + "/chapter/"@ + book_id + "_"@ + chapter_id + ".html"@
}

/// The entry of one element of the chapter list.
pub open spec fn cy_entry(ch: Json) -> CyEntry {
    let j = Some(ch);
    CyEntry {
        vid: int_or_zero(oget(j, "volumeId"@)),
        vtitle: str_or_empty(oget(j, "title"@)),
        vsort: int_or_zero(oget(j, "volumeSortNum"@)),
        sort: int_or_zero(oget(j, "sortNum"@)),
        info: ChapterInfoView {
            title: str_or_empty(oget(j, "chapterName"@)),
            chapter_id: unquoted(oget(j, "chapterId"@)),
            url: cy_chapter_url(unquoted(oget(j, "bookId"@)), unquoted(oget(j, "chapterId"@))),
        },
    }
}

/// A volume being gathered: its id, title and sort number (those of its
/// first chapter) and its chapters with their sort numbers.
pub struct CyGroupView {
    pub vid: i64,
    pub title: Seq<char>,
    pub vsort: i64,
    pub chapters: Seq<(i64, ChapterInfoView)>,
}

/// The first volume with id `vid`.
pub open spec fn find_group(gs: Seq<CyGroupView>, vid: i64) -> Option<int>
    decreases gs.len(),
{
    if gs.len() == 0 {
        None
    } else if gs[0].vid == vid {
        Some(0)
    } else {
        match find_group(gs.skip(1), vid) {
            Some(i) => Some(i + 1),
            None => None,
        }
    }
}

/// The number of leading volumes with an id at most `vid`.
pub open spec fn vid_pos(gs: Seq<CyGroupView>, vid: i64) -> int
    decreases gs.len(),
{
    if gs.len() == 0 || gs[0].vid > vid {
        0
    } else {
        1 + vid_pos(gs.skip(1), vid)
    }
}

/// One chapter added: to its volume when there is one, else as a new volume
/// placed by id.
pub open spec fn add_entry(gs: Seq<CyGroupView>, e: CyEntry) -> Seq<CyGroupView> {
    match find_group(gs, e.vid) {
        Some(i) => gs.update(i, CyGroupView { chapters: gs[i].chapters.push((e.sort, e.info)), ..gs[i] }),
        None => gs.insert(
            vid_pos(gs, e.vid),
            CyGroupView { vid: e.vid, title: e.vtitle, vsort: e.vsort, chapters: seq![(e.sort, e.info)] },
        ),
    }
}

/// The chapters grouped into volumes, volumes ordered by id.
pub open spec fn grouped(list: Seq<Json>) -> Seq<CyGroupView>
    decreases list.len(),
{
    if list.len() == 0 {
        Seq::empty()
    } else {
        add_entry(grouped(list.drop_last()), cy_entry(list.last()))
    }
}

/// The number of leading volumes whose sort number is at most `k`.
pub open spec fn vsort_pos(gs: Seq<CyGroupView>, k: i64) -> int
    decreases gs.len(),
{
    if gs.len() == 0 || gs[0].vsort > k {
        0
    } else {
        1 + vsort_pos(gs.skip(1), k)
    }
}

/// The volumes stably sorted by sort number.
pub open spec fn sort_groups(gs: Seq<CyGroupView>) -> Seq<CyGroupView>
    decreases gs.len(),
{
    if gs.len() == 0 {
        Seq::empty()
    } else {
        let r = sort_groups(gs.drop_last());
        r.insert(vsort_pos(r, gs.last().vsort), gs.last())
    }
}

/// The number of leading chapters whose sort number is at most `k`.
pub open spec fn sort_pos(cs: Seq<(i64, ChapterInfoView)>, k: i64) -> int
    decreases cs.len(),
{
    if cs.len() == 0 || cs[0].0 > k {
        0
    } else {
        1 + sort_pos(cs.skip(1), k)
    }
}

/// The chapters stably sorted by sort number.
pub open spec fn sort_chapters(cs: Seq<(i64, ChapterInfoView)>) -> Seq<(i64, ChapterInfoView)>
    decreases cs.len(),
{
    if cs.len() == 0 {
        Seq::empty()
    } else {
        let r = sort_chapters(cs.drop_last());
        r.insert(sort_pos(r, cs.last().0), cs.last())
    }
}

/// A gathered volume as a volume of the book.
pub open spec fn group_volume(g: CyGroupView) -> VolumeView {
    VolumeView {
        volume_name: g.title,
        chapters: sort_chapters(g.chapters).map_values(|p: (i64, ChapterInfoView)| p.1),
    }
}

/// The volumes of the chapter list.
pub open spec fn cy_volumes(list: Seq<Json>) -> Seq<VolumeView> {
    sort_groups(grouped(list)).map_values(|g: CyGroupView| group_volume(g))
}

/// The serial status: `1` is finished, `2` is ongoing, anything else stays.
pub open spec fn cy_status(s: Seq<char>) -> Seq<char> {
    if s == "1"@ {
        "完结"@
    } else if s == "2"@ {
        "连载"@
    } else {
        s
    }
}

/// A book from a page's data.
pub open spec fn cy_info(data: Json) -> BookInfoView {
    let book = at_path(Some(data), page_props("book"@));
    let list = at_path(Some(data), seq!["props"@, "pageProps"@, "bookChapter"@, "chapterList"@]);
    BookInfoView {
        book_name: str_or_empty(oget(book, "bookName"@)),
        author: str_or_empty(oget(book, "authorName"@)),
        summary: str_or_empty(oget(book, "notes"@)),
        cover_url: str_or_empty(oget(book, "imgUrl"@)),
        serial_status: if book is Some {
            cy_status(unquoted(oget(book, "endState"@)))
        } else {
            Seq::empty()
        },
        update_time: str_or_empty(oget(book, "latestUpdateTime"@)),
        word_count: text_or_empty(oget(book, "wordCount"@)),
        volumes: cy_volumes(arr_or_empty(list)),
    }
}

/// One search result.
pub open spec fn cy_result(item: Json) -> SearchResultView {
    let j = Some(item);
    SearchResultView {
        site: "ciyuanji"@,
        book_id: match ou64(oget(j, "bookId"@)) {
            Some(n) => decimal(n as nat),
            None => str_or_empty(oget(j, "bookId"@)),
        },
        title: str_or_empty(oget(j, "bookName"@)),
        author: str_or_empty(oget(j, "authorName"@)),
        latest_chapter: str_or_empty(oget(j, "latestChapterName"@)),
        update_date: str_or_empty(oget(j, "latestUpdateTime"@)),
        word_count: text_or_empty(oget(j, "wordCount"@)),
    }
}

/// The search results of a search page's data: the first `limit` of its list.
pub open spec fn cy_results(data: Json, limit: nat) -> Seq<SearchResultView> {
    take_at_most(arr_or_empty(at_path(Some(data), page_props("list"@))), limit).map_values(|j: Json| cy_result(j))
}

/// A chapter from its page's data; the text is passed on as the site sends
/// it.
pub open spec fn cy_chapter(data: Json, chapter_id: Seq<char>) -> ChapterView {
    let c = at_path(Some(data), page_props("chapterContent"@));
    ChapterView { id: chapter_id, title: str_or_empty(oget(c, "chapterName"@)), content: str_or_empty(oget(c, "content"@)) }
}

// ─── executable ────────────────────────────────────────────────────────────

/// A volume being gathered.
pub struct CyGroup {
    pub vid: i64,
    pub title: String,
    pub vsort: i64,
    pub chapters: Vec<(i64, ChapterInfo)>,
}

/// View of a chapter with its sort number.
pub open spec fn pair_view(p: (i64, ChapterInfo)) -> (i64, ChapterInfoView) {
    (p.0, p.1@)
}

/// View of chapters with their sort numbers.
pub open spec fn pairs_view(v: Seq<(i64, ChapterInfo)>) -> Seq<(i64, ChapterInfoView)> {
    v.map_values(|p: (i64, ChapterInfo)| pair_view(p))
}

impl View for CyGroup {
    type V = CyGroupView;

    open spec fn view(&self) -> CyGroupView {
        CyGroupView { vid: self.vid, title: self.title@, vsort: self.vsort, chapters: pairs_view(self.chapters@) }
    }
}

/// View of gathered volumes.
pub open spec fn groups_view(v: Seq<CyGroup>) -> Seq<CyGroupView> {
    v.map_values(|g: CyGroup| g@)
}

pub fn int_or_zero_exec(v: Option<&Json>) -> (r: i64)
    ensures
        forall|o: Option<Json>| same(v, o) ==> r == int_or_zero(o),
{
    match as_i64(v) {
        Some(n) => n,
        None => 0,
    }
}

fn chapter_url_of(book_id: &str, chapter_id: &str) -> (r: String)
    ensures
        r@ == cy_chapter_url(book_id@, chapter_id@),
{
    let a = concat("https://www.ciyuanji.com/chapter/", book_id);
    proof {
        reveal_strlit("https://www.ciyuanji.com/chapter/");
        reveal_strlit("https://www.ciyuanji.com");
        reveal_strlit("/chapter/");
    }
    assert("https://www.ciyuanji.com/chapter/"@ =~= cy_base() + "/chapter/"@);
    concat(concat(concat(a.as_str(), "_").as_str(), chapter_id).as_str(), ".html")
}

fn group_pos(gs: &Vec<CyGroup>, vid: i64) -> (r: (Option<usize>, usize))
    ensures
        match find_group(groups_view(gs@), vid) {
            Some(i) => r.0 == Some(i as usize) && 0 <= i < gs@.len(),
            None => r.0 is None,
        },
        r.1 as int == vid_pos(groups_view(gs@), vid),
        r.1 <= gs.len(),
{
    let ghost gv = groups_view(gs@);
    let mut i: usize = 0;
    assert(gv.skip(0) =~= gv);
    while i < gs.len() && gs[i].vid != vid
        invariant
            i <= gs.len(),
            gv == groups_view(gs@),
            find_group(gv, vid) == match find_group(gv.skip(i as int), vid) {
                Some(k) => Some(k + i),
                None => None,
            },
        decreases gs.len() - i,
    {
        assert(gv.skip(i as int)[0] == gs@[i as int]@);
        assert(gv.skip(i as int).skip(1) =~= gv.skip(i + 1));
        i += 1;
    }
    proof {
        if i < gs.len() {
            assert(gv.skip(i as int)[0] == gs@[i as int]@);
        } else {
            assert(gv.skip(i as int).len() == 0);
        }
    }
    let found = if i < gs.len() {
        Some(i)
    } else {
        None
    };
    let mut p: usize = 0;
    assert(gv.skip(0) =~= gv);
    while p < gs.len() && gs[p].vid <= vid
        invariant
            p <= gs.len(),
            gv == groups_view(gs@),
            vid_pos(gv, vid) == p + vid_pos(gv.skip(p as int), vid),
        decreases gs.len() - p,
    {
        assert(gv.skip(p as int)[0] == gs@[p as int]@);
        assert(gv.skip(p as int).skip(1) =~= gv.skip(p + 1));
        p += 1;
    }
    proof {
        if p < gs.len() {
            assert(gv.skip(p as int)[0] == gs@[p as int]@);
        }
    }
    (found, p)
}

fn add_entry_exec(gs: &mut Vec<CyGroup>, ch: &Json)
    ensures
        groups_view(final(gs)@) == add_entry(groups_view(old(gs)@), cy_entry(*ch)),
{
    let j = Some(ch);
    assert(same(j, Some(*ch)));
    let vid = int_or_zero_exec(oget_exec(j, "volumeId"));
    let vtitle = str_or_empty_exec(oget_exec(j, "title"));
    let vsort = int_or_zero_exec(oget_exec(j, "volumeSortNum"));
    let sort = int_or_zero_exec(oget_exec(j, "sortNum"));
    let title = str_or_empty_exec(oget_exec(j, "chapterName"));
    let chapter_id = unquoted_exec(oget_exec(j, "chapterId"));
    let b_id = unquoted_exec(oget_exec(j, "bookId"));
    let url = chapter_url_of(b_id.as_str(), chapter_id.as_str());
    let info = ChapterInfo { title, chapter_id, url };
    let ghost e = cy_entry(*ch);
    assert(e.info == info@);
    let ghost before = groups_view(gs@);
    let (found, pos) = group_pos(gs, vid);
    match found {
        Some(i) => {
            let mut g = gs.remove(i);
            let ghost gc = g.chapters@;
            g.chapters.push((sort, info));
            assert(pairs_view(g.chapters@) =~= pairs_view(gc).push((sort, info@)));
            gs.insert(i, g);
            assert(groups_view(gs@) =~= add_entry(before, e));
        },
        None => {
            let mut chapters: Vec<(i64, ChapterInfo)> = Vec::new();
            chapters.push((sort, info));
            let g = CyGroup { vid, title: vtitle, vsort, chapters };
            assert(pairs_view(g.chapters@) =~= seq![(sort, info@)]);
            gs.insert(pos, g);
            assert(groups_view(gs@) =~= add_entry(before, e));
        },
    }
}

fn sort_groups_exec(gs: Vec<CyGroup>) -> (r: Vec<CyGroup>)
    ensures
        groups_view(r@) == sort_groups(groups_view(gs@)),
{
    let ghost all = groups_view(gs@);
    let mut rest = gs;
    let mut out: Vec<CyGroup> = Vec::new();
    let ghost mut taken: int = 0;
    while rest.len() > 0
        invariant
            0 <= taken <= all.len(),
            groups_view(rest@) == all.skip(taken),
            groups_view(out@) == sort_groups(all.take(taken)),
        decreases rest.len(),
    {
        let g = rest.remove(0);
        assert(all.skip(taken)[0] == g@);
        assert(all.skip(taken).skip(1) =~= all.skip(taken + 1));
        assert(all.take(taken + 1).drop_last() =~= all.take(taken));
        assert(all.take(taken + 1).last() == g@);
        let ghost ov = groups_view(out@);
        let mut p: usize = 0;
        assert(ov.skip(0) =~= ov);
        while p < out.len() && out[p].vsort <= g.vsort
            invariant
                p <= out.len(),
                ov == groups_view(out@),
                vsort_pos(ov, g.vsort) == p + vsort_pos(ov.skip(p as int), g.vsort),
            decreases out.len() - p,
        {
            assert(ov.skip(p as int)[0] == out@[p as int]@);
            assert(ov.skip(p as int).skip(1) =~= ov.skip(p + 1));
            p += 1;
        }
        proof {
            if p < out.len() {
                assert(ov.skip(p as int)[0] == out@[p as int]@);
            }
        }
        out.insert(p, g);
        assert(groups_view(out@) =~= ov.insert(p as int, g@));
        proof {
            taken = taken + 1;
        }
        assert(groups_view(rest@) =~= all.skip(taken));
    }
    assert(all.take(taken) =~= all);
    out
}

fn sort_chapters_exec(cs: Vec<(i64, ChapterInfo)>) -> (r: Vec<(i64, ChapterInfo)>)
    ensures
        pairs_view(r@) == sort_chapters(pairs_view(cs@)),
{
    let ghost all = pairs_view(cs@);
    let mut rest = cs;
    let mut out: Vec<(i64, ChapterInfo)> = Vec::new();
    let ghost mut taken: int = 0;
    while rest.len() > 0
        invariant
            0 <= taken <= all.len(),
            pairs_view(rest@) == all.skip(taken),
            pairs_view(out@) == sort_chapters(all.take(taken)),
        decreases rest.len(),
    {
        let c = rest.remove(0);
        assert(all.skip(taken)[0] == pair_view(c));
        assert(all.skip(taken).skip(1) =~= all.skip(taken + 1));
        assert(all.take(taken + 1).drop_last() =~= all.take(taken));
        assert(all.take(taken + 1).last() == pair_view(c));
        let ghost ov = pairs_view(out@);
        let mut p: usize = 0;
        assert(ov.skip(0) =~= ov);
        while p < out.len() && out[p].0 <= c.0
            invariant
                p <= out.len(),
                ov == pairs_view(out@),
                sort_pos(ov, c.0) == p + sort_pos(ov.skip(p as int), c.0),
            decreases out.len() - p,
        {
            assert(ov.skip(p as int)[0] == pair_view(out@[p as int]));
            assert(ov.skip(p as int).skip(1) =~= ov.skip(p + 1));
            p += 1;
        }
        proof {
            if p < out.len() {
                assert(ov.skip(p as int)[0] == pair_view(out@[p as int]));
            }
        }
        let ghost cv = pair_view(c);
        out.insert(p, c);
        assert(pairs_view(out@) =~= ov.insert(p as int, cv));
        proof {
            taken = taken + 1;
        }
        assert(pairs_view(rest@) =~= all.skip(taken));
    }
    assert(all.take(taken) =~= all);
    out
}

impl CiyuanjiProvider {
    /// The site's identifier.
    pub fn name(&self) -> (r: &'static str)
        ensures
            r@ == "ciyuanji"@,
    {
        "ciyuanji"
    }

    /// The site's display name.
    pub fn display_name(&self) -> (r: &'static str)
        ensures
            r@ == "次元姬"@,
    {
        "次元姬"
    }

    /// The site's address.
    pub fn base_url(&self) -> (r: &'static str)
        ensures
            r@ == cy_base(),
    {
        "https://www.ciyuanji.com"
    }

    /// The site has a search.
    pub fn supports_search(&self) -> (r: bool)
        ensures
            r,
    {
        true
    }

    /// The JSON of a page's `__NEXT_DATA__` script.
    pub fn extract_next_data(html: &str) -> (r: Option<Json>)
        ensures
            r == cy_next_data(html@),
    {
        let nodes = crate::html::select_all(html, "script#__NEXT_DATA__");
        if nodes.len() > 0 {
            let t = crate::html::element_text(&nodes[0]);
            parse_json(t.as_str())
        } else {
            None
        }
    }

    /// The search page for a keyword: `{base}/search/{keyword}_0_0_0_0_0_1.html`.
    pub fn search_url(&self, keyword: &str) -> (r: String)
        ensures
            r@ == cy_base() + "/search/"@ + url_encoded(keyword@) + "_0_0_0_0_0_1.html"@,
    {
        let k = url_encode(keyword);
        concat(concat(concat(self.base_url(), "/search/").as_str(), k.as_str()).as_str(), "_0_0_0_0_0_1.html")
    }

    /// The book page: `{base}/b_d_{id}.html`.
    pub fn book_url(&self, book_id: &str) -> (r: String)
        ensures
            r@ == cy_base() + "/b_d_"@ + book_id@ + ".html"@,
    {
        concat(concat(concat(self.base_url(), "/b_d_").as_str(), book_id).as_str(), ".html")
    }

    /// A chapter page.
    pub fn chapter_url(&self, book_id: &str, chapter_id: &str) -> (r: String)
        ensures
            r@ == cy_chapter_url(book_id@, chapter_id@),
    {
        chapter_url_of(book_id, chapter_id)
    }

    /// The search results of a search page's data.
    pub fn results_from_data(data: &Json, limit: usize) -> (r: Vec<SearchResult>)
        ensures
            r@.map_values(|x: SearchResult| x@) == cy_results(*data, limit as nat),
    {
        let path: Vec<&str> = vec!["props", "pageProps", "list"];
        assert(crate::html::strs_view(path@) =~= page_props("list"@));
        let mut out: Vec<SearchResult> = Vec::new();
        let ghost items = arr_or_empty(at_path(Some(*data), page_props("list"@)));
        match as_array(at_path_exec(data, &path)) {
            Some(list) => {
                let n = if limit < list.len() {
                    limit
                } else {
                    list.len()
                };
                let mut i: usize = 0;
                while i < n
                    invariant
                        i <= n <= list.len(),
                        items == list@,
                        out@.map_values(|x: SearchResult| x@) == items.take(i as int).map_values(|j: Json| cy_result(j)),
                    decreases n - i,
                {
                    let j = Some(&list[i]);
                    assert(same(j, Some(list@[i as int])));
                    let id_v = oget_exec(j, "bookId");
                    let book_id = match as_u64(id_v) {
                        Some(v) => u64_to_string(v),
                        None => str_or_empty_exec(id_v),
                    };
                    let r = SearchResult {
                        site: owned("ciyuanji"),
                        book_id,
                        title: str_or_empty_exec(oget_exec(j, "bookName")),
                        author: str_or_empty_exec(oget_exec(j, "authorName")),
                        latest_chapter: str_or_empty_exec(oget_exec(j, "latestChapterName")),
                        update_date: str_or_empty_exec(oget_exec(j, "latestUpdateTime")),
                        word_count: text_or_empty_exec(oget_exec(j, "wordCount")),
                    };
                    assert(r@ == cy_result(list@[i as int]));
                    let ghost prev = out@;
                    out.push(r);
                    assert(items.take(i + 1) =~= items.take(i as int).push(list@[i as int]));
                    assert(out@.map_values(|x: SearchResult| x@) =~= prev.map_values(|x: SearchResult| x@).push(out@.last()@));
                    assert(items.take(i + 1).map_values(|j: Json| cy_result(j)) =~= items.take(i as int).map_values(|j: Json| cy_result(j)).push(cy_result(list@[i as int])));
                    i += 1;
                }
                assert(take_at_most(items, limit as nat) =~= items.take(n as int));
            },
            None => {
                assert(out@.map_values(|x: SearchResult| x@) =~= cy_results(*data, limit as nat));
            },
        }
        out
    }

    /// The search results of a search page: none when it carries no data.
    pub fn parse_search(html: &str, limit: usize) -> (r: Vec<SearchResult>)
        ensures
            match cy_next_data(html@) {
                Some(d) => r@.map_values(|x: SearchResult| x@) == cy_results(d, limit as nat),
                None => r@.len() == 0,
            },
    {
        match Self::extract_next_data(html) {
            Some(d) => Self::results_from_data(&d, limit),
            None => Vec::new(),
        }
    }

    /// The volumes of a chapter list.
    pub fn volumes_from_list(list: &Vec<Json>) -> (r: Vec<Volume>)
        ensures
            r@.map_values(|v: Volume| v@) == cy_volumes(list@),
    {
        let mut gs: Vec<CyGroup> = Vec::new();
        let mut i: usize = 0;
        while i < list.len()
            invariant
                i <= list.len(),
                groups_view(gs@) == grouped(list@.take(i as int)),
            decreases list.len() - i,
        {
            assert(list@.take(i + 1).drop_last() =~= list@.take(i as int));
            assert(list@.take(i + 1).last() == list@[i as int]);
            add_entry_exec(&mut gs, &list[i]);
            i += 1;
        }
        assert(list@.take(i as int) =~= list@);
        let sorted = sort_groups_exec(gs);
        let ghost sv = groups_view(sorted@);
        let mut rest = sorted;
        let mut out: Vec<Volume> = Vec::new();
        let ghost mut k: int = 0;
        while rest.len() > 0
            invariant
                0 <= k <= sv.len(),
                groups_view(rest@) == sv.skip(k),
                out@.map_values(|v: Volume| v@) == sv.take(k).map_values(|g: CyGroupView| group_volume(g)),
            decreases rest.len(),
        {
            let g = rest.remove(0);
            assert(sv.skip(k)[0] == g@);
            assert(sv.skip(k).skip(1) =~= sv.skip(k + 1));
            let cs = sort_chapters_exec(g.chapters);
            let ghost cv = pairs_view(cs@);
            let mut chapters: Vec<ChapterInfo> = Vec::new();
            let mut rc = cs;
            let ghost mut m: int = 0;
            while rc.len() > 0
                invariant
                    0 <= m <= cv.len(),
                    pairs_view(rc@) == cv.skip(m),
                    chapters@.map_values(|c: ChapterInfo| c@) == cv.take(m).map_values(|p: (i64, ChapterInfoView)| p.1),
                decreases rc.len(),
            {
                let p = rc.remove(0);
                assert(cv.skip(m)[0] == pair_view(p));
                assert(cv.skip(m).skip(1) =~= cv.skip(m + 1));
                let ghost c0 = chapters@;
                assert(cv.take(m + 1) =~= cv.take(m).push(pair_view(p)));
                chapters.push(p.1);
                assert(chapters@.map_values(|c: ChapterInfo| c@) =~= c0.map_values(|c: ChapterInfo| c@).push(chapters@.last()@));
                assert(cv.take(m + 1).map_values(|p: (i64, ChapterInfoView)| p.1) =~= cv.take(m).map_values(|p: (i64, ChapterInfoView)| p.1).push(pair_view(p).1));
                proof {
                    m = m + 1;
                }
                assert(chapters@.map_values(|c: ChapterInfo| c@) =~= cv.take(m).map_values(|p: (i64, ChapterInfoView)| p.1));
                assert(pairs_view(rc@) =~= cv.skip(m));
            }
            assert(cv.take(m) =~= cv);
            let vol = Volume { volume_name: g.title, chapters };
            assert(vol@ == group_volume(sv[k]));
            let ghost o0 = out@;
            assert(sv.take(k + 1) =~= sv.take(k).push(sv[k]));
            out.push(vol);
            assert(out@.map_values(|v: Volume| v@) =~= o0.map_values(|v: Volume| v@).push(out@.last()@));
            assert(sv.take(k + 1).map_values(|g: CyGroupView| group_volume(g)) =~= sv.take(k).map_values(|g: CyGroupView| group_volume(g)).push(group_volume(sv[k])));
            proof {
                k = k + 1;
            }
            assert(out@.map_values(|v: Volume| v@) =~= sv.take(k).map_values(|g: CyGroupView| group_volume(g)));
            assert(groups_view(rest@) =~= sv.skip(k));
        }
        assert(sv.take(k) =~= sv);
        out
    }

    /// A book from its page's data.
    pub fn info_from_data(data: &Json) -> (info: BookInfo)
        ensures
            info@ == cy_info(*data),
    {
        let bp: Vec<&str> = vec!["props", "pageProps", "book"];
        assert(crate::html::strs_view(bp@) =~= page_props("book"@));
        let book = at_path_exec(data, &bp);
        let serial_status = if book.is_some() {
            let s = unquoted_exec(oget_exec(book, "endState"));
            if str_eq(s.as_str(), "1") {
                owned("完结")
            } else if str_eq(s.as_str(), "2") {
                owned("连载")
            } else {
                s
            }
        } else {
            String::new()
        };
        let lp: Vec<&str> = vec!["props", "pageProps", "bookChapter", "chapterList"];
        assert(crate::html::strs_view(lp@) =~= seq!["props"@, "pageProps"@, "bookChapter"@, "chapterList"@]);
        let volumes = match as_array(at_path_exec(data, &lp)) {
            Some(list) => Self::volumes_from_list(list),
            None => {
                let v: Vec<Volume> = Vec::new();
                assert(v@.map_values(|x: Volume| x@) =~= cy_volumes(Seq::empty()));
                v
            },
        };
        BookInfo {
            book_name: str_or_empty_exec(oget_exec(book, "bookName")),
            author: str_or_empty_exec(oget_exec(book, "authorName")),
            summary: str_or_empty_exec(oget_exec(book, "notes")),
            cover_url: str_or_empty_exec(oget_exec(book, "imgUrl")),
            serial_status,
            update_time: str_or_empty_exec(oget_exec(book, "latestUpdateTime")),
            word_count: text_or_empty_exec(oget_exec(book, "wordCount")),
            volumes,
        }
    }

    /// A book page: `None` when it carries no data.
    pub fn parse_book_info(html: &str) -> (r: Option<BookInfo>)
        ensures
            match cy_next_data(html@) {
                Some(d) => r matches Some(info) && info@ == cy_info(d),
                None => r is None,
            },
    {
        match Self::extract_next_data(html) {
            Some(d) => Some(Self::info_from_data(&d)),
            None => None,
        }
    }

    /// A chapter from its page's data.
    pub fn chapter_from_data(data: &Json, chapter_id: &str) -> (ch: Chapter)
        ensures
            ch@ == cy_chapter(*data, chapter_id@),
    {
        let cp: Vec<&str> = vec!["props", "pageProps", "chapterContent"];
        assert(crate::html::strs_view(cp@) =~= page_props("chapterContent"@));
        let c = at_path_exec(data, &cp);
        Chapter {
            id: owned(chapter_id),
            title: str_or_empty_exec(oget_exec(c, "chapterName")),
            content: str_or_empty_exec(oget_exec(c, "content")),
        }
    }

    /// A chapter page: `None` when it carries no data.
    pub fn parse_chapter(html: &str, chapter_id: &str) -> (r: Option<Chapter>)
        ensures
            match cy_next_data(html@) {
                Some(d) => r matches Some(ch) && ch@ == cy_chapter(d, chapter_id@),
                None => r is None,
            },
    {
        match Self::extract_next_data(html) {
            Some(d) => Some(Self::chapter_from_data(&d, chapter_id)),
            None => None,
        }
    }
}

} // verus!
