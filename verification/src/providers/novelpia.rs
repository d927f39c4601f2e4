//! ノベルピア (novelpia.jp): book data from a JSON endpoint, the episode
//! list from HTML pages of twenty entries, chapter text from JSON.

use vstd::prelude::*;

use crate::html::{attr_value, element_text, first_text, fragment_select, html_fragment_select, html_select, node_attr, node_text, nodes_view, select_all, select_in, NodeView};
use crate::json::{
    arr_or_empty, as_array, as_str, as_u64, get, jget, json_parsed, oget, oget_exec, or_opt, or_ref, ostr, ou64,
    parse_json, same, str_or_empty, str_or_empty_exec, Json,
};
use crate::markup::{html_to_text, spec_html_to_text, strip_html, strip_tags};
use crate::providers::common::{chapters_view, nonempty_texts, nonempty_texts_exec, single_volume_if_any};
use crate::text::{concat, decimal, join, join_exec, owned, replace_all, replace_exec, starts_with, starts_with_exec, u64_to_string};
use crate::types::{BookInfo, BookInfoView, Chapter, ChapterInfo, ChapterInfoView, ChapterView, Volume};

verus! {

/// The novelpia site.
pub struct NovelpiaProvider;

/// Site address.
pub open spec fn np_base() -> Seq<char> {
    "https://novelpia.jp"@
}

/// Episodes per page of the episode list.
pub const NP_PER_PAGE: u64 = 20;

/// The summary: line breaks for `<br>` tags, other tags removed.
pub open spec fn np_summary(story: Seq<char>) -> Seq<char> {
    strip_tags(
        replace_all(replace_all(replace_all(story, "<br>"@, "\n"@), "<br/>"@, "\n"@), "<br />"@, "\n"@),
    )
}

/// The book data of the `get_novel` answer (without its episodes).
pub open spec fn np_info(json: Json) -> BookInfoView {
    let nv = jget(json, "novel"@);
    let cover = str_or_empty(or_opt(oget(nv, "cover_img"@), oget(nv, "novel_img_all"@)));
    BookInfoView {
        book_name: str_or_empty(oget(nv, "novel_name"@)),
        author: str_or_empty(oget(nv, "writer_nick"@)),
        summary: if nv is Some {
            np_summary(str_or_empty(oget(nv, "novel_story"@)))
        } else {
            Seq::empty()
        },
        cover_url: if starts_with(cover, "//"@) {
            "https:"@ + cover
        } else {
            cover
        },
        serial_status: Seq::empty(),
        update_time: str_or_empty(or_opt(oget(nv, "last_write_date"@), oget(nv, "status_date"@))),
        word_count: Seq::empty(),
        volumes: Seq::empty(),
    }
}

/// The number of episode-list pages: enough pages of twenty for the book's
/// episode count, and one page when the count is zero or missing.
pub open spec fn np_pages(json: Json) -> nat {
    let count: nat = match ou64(oget(jget(json, "novel"@), "count_book"@)) {
        Some(n) => n as nat,
        None => 0,
    };
    if count > 0 {
        ((count + 19) / 20) as nat
    } else {
        1
    }
}

/// One row of the episode list: its `data-content-no`, titled by its first
/// `b`, else its first `td`, else `Episode {no}`; rows without a number are
/// skipped.
pub open spec fn np_episode(row: NodeView, bs: Seq<NodeView>, tds: Seq<NodeView>) -> Option<ChapterInfoView> {
    let no = match attr_value(row.attrs, "data-content-no"@) {
        Some(v) => v,
        None => Seq::empty(),
    };
    let t1 = first_text(bs);
    let t2 = if t1.len() > 0 {
        t1
    } else {
        first_text(tds)
    };
    if no.len() == 0 {
        None
    } else {
        Some(
            ChapterInfoView {
                title: if t2.len() > 0 {
                    t2
                } else {
                    "Episode "@ + no
                },
                chapter_id: no,
                url: np_base() + "/viewer/"@ + no,
            },
        )
    }
}

/// The episodes of rows `0..n`.
pub open spec fn np_episodes_upto(rows: Seq<NodeView>, bs: Seq<Seq<NodeView>>, tds: Seq<Seq<NodeView>>, n: int) -> Seq<
    ChapterInfoView,
>
    decreases n,
{
    if n <= 0 {
        Seq::empty()
    } else {
        let rest = np_episodes_upto(rows, bs, tds, n - 1);
        let k = n - 1;
        let b = if k < bs.len() {
            bs[k]
        } else {
            Seq::empty()
        };
        let t = if k < tds.len() {
            tds[k]
        } else {
            Seq::empty()
        };
        match np_episode(rows[k], b, t) {
            Some(c) => rest.push(c),
            None => rest,
        }
    }
}

/// Selector of the rows of the episode list.
pub open spec fn np_row_sel() -> Seq<char> {
    "tr[class*='ep_style5']"@
}

/// The episodes of one page of the episode list, in order.
pub open spec fn np_episodes(html: Seq<char>) -> Seq<ChapterInfoView> {
    let rows = html_select(html, np_row_sel());
    np_episodes_upto(
        rows,
        crate::html::html_select_in(html, np_row_sel(), "b"@),
        crate::html::html_select_in(html, np_row_sel(), "td"@),
        rows.len() as int,
    )
}

/// The paragraphs gathered from the items of a chapter's `s` array: each
/// item's text gives the non-empty texts of its `p` elements; when nothing
/// has been gathered after an item, that item's whole text, if non-empty.
pub open spec fn np_paragraphs(items: Seq<Json>) -> Seq<Seq<char>>
    decreases items.len(),
{
    if items.len() == 0 {
        Seq::empty()
    } else {
        let before = np_paragraphs(items.drop_last());
        match ostr(jget(items.last(), "text"@)) {
            Some(t) => if t.len() == 0 {
                before
            } else {
                let ps = before + nonempty_texts(html_fragment_select(t, "p"@));
                if ps.len() == 0 && spec_html_to_text(t).len() > 0 {
                    ps.push(spec_html_to_text(t))
                } else {
                    ps
                }
            },
            None => before,
        }
    }
}

/// A chapter from the `viewer_data` answer.
pub open spec fn np_chapter(json: Json, chapter_id: Seq<char>) -> ChapterView {
    ChapterView {
        id: chapter_id,
        title: str_or_empty(jget(json, "title"@)),
        content: join(np_paragraphs(arr_or_empty(jget(json, "s"@))), "\n"@),
    }
}

fn np_episode_exec(row: &crate::html::Node, bs: &Vec<crate::html::Node>, tds: &Vec<crate::html::Node>) -> (r: Option<
    ChapterInfo,
>)
    ensures
        crate::providers::common::opt_chapter_view(r) == np_episode(row@, nodes_view(bs@), nodes_view(tds@)),
{
    let no = match node_attr(row, "data-content-no") {
        Some(v) => v,
        None => String::new(),
    };
    if no.as_str().is_empty() {
        return None;
    }
    let mut title = if bs.len() > 0 {
        element_text(&bs[0])
    } else {
        String::new()
    };
    if title.as_str().is_empty() {
        title = if tds.len() > 0 {
            element_text(&tds[0])
        } else {
            String::new()
        };
    }
    if title.as_str().is_empty() {
        title = concat("Episode ", no.as_str());
    }
    let url = concat("https://novelpia.jp/viewer/", no.as_str());
    proof {
        reveal_strlit("https://novelpia.jp/viewer/");
        reveal_strlit("https://novelpia.jp");
        reveal_strlit("/viewer/");
    }
    assert("https://novelpia.jp/viewer/"@ =~= np_base() + "/viewer/"@);
    Some(ChapterInfo { title, chapter_id: no, url })
}

impl NovelpiaProvider {
    /// The site's identifier.
    pub fn name(&self) -> (r: &'static str)
        ensures
            r@ == "novelpia"@,
    {
        "novelpia"
    }

    /// The site's display name.
    pub fn display_name(&self) -> (r: &'static str)
        ensures
            r@ == "ノベルピア"@,
    {
        "ノベルピア"
    }

    /// The site's address.
    pub fn base_url(&self) -> (r: &'static str)
        ensures
            r@ == np_base(),
    {
        "https://novelpia.jp"
    }

    /// The request timestamp for a clock reading: the milliseconds since the
    /// epoch cut to 64 bits, or zero for a reading before the epoch (`None`).
    pub fn timestamp_of(millis: Option<u128>) -> (r: u64)
        ensures
            r == match millis {
                Some(m) => (m % 0x1_0000_0000_0000_0000) as u64,
                None => 0,
            },
    {
        match millis {
            Some(m) => {
                let r: u64 = #[verifier::truncate]
                (m as u64);
                assert(r == (m % 0x1_0000_0000_0000_0000) as u64) by (bit_vector)
                    requires
                        r == m as u64,
                ;
                r
            },
            None => 0,
        }
    }

    /// Milliseconds since the Unix epoch by the system clock, cut to 64
    /// bits; zero when the clock stands before the epoch. Nothing more is
    /// stated of the value: it is the time.
    pub fn timestamp() -> (r: u64) {
        let t = crate::clock::clock_now();
        let millis: Option<u128> = match crate::clock::since_epoch(&t) {
            Ok(d) => Some(crate::clock::whole_millis(&d)),
            Err(_) => None,
        };
        Self::timestamp_of(millis)
    }

    /// The book-data request: `{base}/proc/novel?cmd=get_novel&novel_no={id}&mem_nick=HATI&_={ts}`.
    pub fn info_url(&self, book_id: &str, ts: u64) -> (r: String)
        ensures
            r@ == np_base() + "/proc/novel?cmd=get_novel&novel_no="@ + book_id@ + "&mem_nick=HATI&_="@ + decimal(
                ts as nat,
            ),
    {
        let a = concat(concat(self.base_url(), "/proc/novel?cmd=get_novel&novel_no=").as_str(), book_id);
        let t = u64_to_string(ts);
        concat(concat(a.as_str(), "&mem_nick=HATI&_=").as_str(), t.as_str())
    }

    /// The episode-list endpoint: `{base}/proc/episode_list`.
    pub fn episode_list_url(&self) -> (r: String)
        ensures
            r@ == np_base() + "/proc/episode_list"@,
    {
        concat(self.base_url(), "/proc/episode_list")
    }

    /// The form of page `page` of the episode list: `novel_no`, `page`,
    /// `sort=1`.
    pub fn episode_form(book_id: &str, page: u64) -> (r: Vec<(String, String)>)
        ensures
            r@.map_values(|p: (String, String)| (p.0@, p.1@)) == seq![
                ("novel_no"@, book_id@),
                ("page"@, decimal(page as nat)),
                ("sort"@, "1"@),
            ],
    {
        let mut r: Vec<(String, String)> = Vec::new();
        r.push((owned("novel_no"), owned(book_id)));
        r.push((owned("page"), u64_to_string(page)));
        r.push((owned("sort"), owned("1")));
        assert(r@.map_values(|p: (String, String)| (p.0@, p.1@)) =~= seq![
            ("novel_no"@, book_id@),
            ("page"@, decimal(page as nat)),
            ("sort"@, "1"@),
        ]);
        r
    }

    /// The chapter endpoint: `{base}/proc/viewer_data/{id}`, posted with `no={id}`.
    pub fn chapter_url(&self, chapter_id: &str) -> (r: String)
        ensures
            r@ == np_base() + "/proc/viewer_data/"@ + chapter_id@,
    {
        concat(concat(self.base_url(), "/proc/viewer_data/").as_str(), chapter_id)
    }

    /// The book data of a parsed `get_novel` answer.
    pub fn book_from_json(json: &Json) -> (info: BookInfo)
        ensures
            info@ == np_info(*json),
    {
        let nv = get(json, "novel");
        let book_name = str_or_empty_exec(oget_exec(nv, "novel_name"));
        let author = str_or_empty_exec(oget_exec(nv, "writer_nick"));
        let cover = str_or_empty_exec(or_ref(oget_exec(nv, "cover_img"), oget_exec(nv, "novel_img_all")));
        let cover_url = if starts_with_exec(cover.as_str(), "//") {
            concat("https:", cover.as_str())
        } else {
            cover
        };
        let update_time = str_or_empty_exec(or_ref(oget_exec(nv, "last_write_date"), oget_exec(nv, "status_date")));
        let summary = if nv.is_some() {
            let story = str_or_empty_exec(oget_exec(nv, "novel_story"));
            proof {
                reveal_strlit("<br>");
                reveal_strlit("<br/>");
                reveal_strlit("<br />");
            }
            let a = replace_exec(story.as_str(), "<br>", "\n");
            let b = replace_exec(a.as_str(), "<br/>", "\n");
            let c = replace_exec(b.as_str(), "<br />", "\n");
            strip_html(c.as_str())
        } else {
            String::new()
        };
        let info = BookInfo {
            book_name,
            author,
            summary,
            cover_url,
            serial_status: String::new(),
            update_time,
            word_count: String::new(),
            volumes: Vec::new(),
        };
        assert(info@.volumes =~= np_info(*json).volumes);
        assert(info@.word_count =~= Seq::<char>::empty());
        assert(info@.serial_status =~= Seq::<char>::empty());
        info
    }

    /// The book data of a `get_novel` answer; `None` when it is not JSON.
    pub fn parse_book_response(text: &str) -> (r: Option<BookInfo>)
        ensures
            match json_parsed(text@) {
                Some(j) => r matches Some(info) && info@ == np_info(j),
                None => r is None,
            },
    {
        match parse_json(text) {
            Some(j) => Some(Self::book_from_json(&j)),
            None => None,
        }
    }

    /// The number of episode-list pages to fetch.
    pub fn episode_pages(json: &Json) -> (r: u64)
        ensures
            r as nat == np_pages(*json),
    {
        let count = match as_u64(oget_exec(get(json, "novel"), "count_book")) {
            Some(n) => n,
            None => 0,
        };
        if count > 0 {
            count / 20 + if count % 20 != 0 {
                1u64
            } else {
                0u64
            }
        } else {
            1
        }
    }

    /// The episodes of one page of the episode list.
    pub fn parse_episodes(html: &str) -> (r: Vec<ChapterInfo>)
        ensures
            chapters_view(r@) == np_episodes(html@),
    {
        let sel = "tr[class*='ep_style5']";
        let rows = select_all(html, sel);
        let bs = select_in(html, sel, "b");
        let tds = select_in(html, sel, "td");
        let ghost rv = nodes_view(rows@);
        let ghost bv = bs@.map_values(|v: Vec<crate::html::Node>| nodes_view(v@));
        let ghost tv = tds@.map_values(|v: Vec<crate::html::Node>| nodes_view(v@));
        let empty: Vec<crate::html::Node> = Vec::new();
        let mut out: Vec<ChapterInfo> = Vec::new();
        let mut k: usize = 0;
        while k < rows.len()
            invariant
                k <= rows.len(),
                rv == nodes_view(rows@),
                bv == bs@.map_values(|v: Vec<crate::html::Node>| nodes_view(v@)),
                tv == tds@.map_values(|v: Vec<crate::html::Node>| nodes_view(v@)),
                empty@.len() == 0,
                chapters_view(out@) == np_episodes_upto(rv, bv, tv, k as int),
            decreases rows.len() - k,
        {
            let b: &Vec<crate::html::Node> = if k < bs.len() {
                &bs[k]
            } else {
                &empty
            };
            let t: &Vec<crate::html::Node> = if k < tds.len() {
                &tds[k]
            } else {
                &empty
            };
            assert(nodes_view(b@) =~= (if k < bv.len() {
                bv[k as int]
            } else {
                Seq::empty()
            }));
            assert(nodes_view(t@) =~= (if k < tv.len() {
                tv[k as int]
            } else {
                Seq::empty()
            }));
            assert(rv[k as int] == rows@[k as int]@);
            match np_episode_exec(&rows[k], b, t) {
                Some(c) => {
                    let ghost prev = out@;
                    out.push(c);
                    assert(chapters_view(out@) =~= chapters_view(prev).push(out@.last()@));
                },
                None => {},
            }
            k += 1;
        }
        out
    }

    /// The book data with its episodes as one unnamed volume (none when
    /// there are no episodes).
    pub fn with_episodes(info: BookInfo, chapters: Vec<ChapterInfo>) -> (r: BookInfo)
        ensures
            r@ == (BookInfoView { volumes: info@.volumes + single_volume_if_any(chapters_view(chapters@)), ..info@ }),
    {
        let mut info = info;
        let ghost before = info@.volumes;
        if chapters.len() > 0 {
            info.volumes.push(Volume { volume_name: String::new(), chapters });
        }
        assert(info@.volumes =~= before + single_volume_if_any(chapters_view(chapters@)));
        info
    }

    /// A chapter from a parsed `viewer_data` answer.
    pub fn chapter_from_json(json: &Json, chapter_id: &str) -> (ch: Chapter)
        ensures
            ch@ == np_chapter(*json, chapter_id@),
    {
        let title = str_or_empty_exec(get(json, "title"));
        let mut paras: Vec<String> = Vec::new();
        let ghost items: Seq<Json> = arr_or_empty(jget(*json, "s"@));
        match as_array(get(json, "s")) {
            Some(arr) => {
                let mut i: usize = 0;
                while i < arr.len()
                    invariant
                        i <= arr.len(),
                        items == arr@,
                        paras@.map_values(|s: String| s@) == np_paragraphs(items.take(i as int)),
                    decreases arr.len() - i,
                {
                    assert(items.take(i + 1).drop_last() =~= items.take(i as int));
                    assert(items.take(i + 1).last() == arr@[i as int]);
                    let item = &arr[i];
                    match as_str(get(item, "text")) {
                        Some(t) => {
                            if !t.is_empty() {
                                let ps = fragment_select(t, "p");
                                let mut found = nonempty_texts_exec(&ps);
                                let ghost p0 = paras@;
                                let ghost f0 = found@;
                                paras.append(&mut found);
                                assert(paras@ =~= p0 + f0);
                                assert(paras@.map_values(|s: String| s@) =~= p0.map_values(|s: String| s@)
                                    + f0.map_values(|s: String| s@));
                                if paras.len() == 0 {
                                    let cleaned = html_to_text(t);
                                    if !cleaned.as_str().is_empty() {
                                        let ghost q0 = paras@;
                                        paras.push(cleaned);
                                        assert(paras@.map_values(|s: String| s@) =~= q0.map_values(|s: String| s@).push(
                                            spec_html_to_text(t@),
                                        ));
                                    }
                                }
                            }
                        },
                        None => {},
                    }
                    i += 1;
                }
                assert(items.take(i as int) =~= items);
            },
            None => {
                assert(items =~= Seq::<Json>::empty());
                assert(paras@.map_values(|s: String| s@) =~= np_paragraphs(items));
            },
        }
        let content = join_exec(&paras, "\n");
        Chapter { id: owned(chapter_id), title, content }
    }

    /// A chapter from a `viewer_data` answer; `None` when it is not JSON.
    pub fn parse_chapter_response(text: &str, chapter_id: &str) -> (r: Option<Chapter>)
        ensures
            match json_parsed(text@) {
                Some(j) => r matches Some(ch) && ch@ == np_chapter(j, chapter_id@),
                None => r is None,
            },
    {
        match parse_json(text) {
            Some(j) => Some(Self::chapter_from_json(&j, chapter_id)),
            None => None,
        }
    }
}

} // verus!
