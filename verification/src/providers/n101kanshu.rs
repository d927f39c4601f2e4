//! 101看书 (101kanshu): search by form, book page with a separate chapter
//! list, chapter text gathered from the reading area's text nodes outside
//! scripts, styles and ad boxes.

use vstd::prelude::*;

use crate::html::{
    attr_value, element_text, group_attr, group_attr_exec, group_text, group_text_exec, html_select,
    html_select_fields, html_walks, meta, meta_content, node_attr, node_text, nodes_view, normalize_url,
    normalized_url, or_else, piece_view, sel_text, select_all, select_fields, select_text, select_walks, strs_view,
    walk_view, Node, NodeView, Piece, PieceView,
};
use crate::markup::{clean_content, cleaned};
use crate::providers::common::{
    chapters_view, collect, collect_results, first_text_containing, first_text_containing_exec, id_by_rule,
    opt_result_view, results_view, take_at_most, IdRule,
};
use crate::text::{before_first, before_first_exec, concat, contains, join, join_exec, owned, replace_all, replace_exec, str_eq, trim, trim_exec};
use crate::types::{BookInfo, BookInfoView, Chapter, ChapterInfo, ChapterInfoView, ChapterView, SearchResult, SearchResultView, Volume, VolumeView};

verus! {

/// The 101kanshu site.
pub struct N101kanshuProvider;

/// Site address.
pub open spec fn ks_base() -> Seq<char> {
    "https://101kanshu.com"@
}

/// What is read of each search row.
pub open spec fn ks_fields() -> Seq<Seq<char>> {
    seq!["a.imgbox"@, "div.newnav h3 a"@, "div.labelbox label:first-child"@, "div.zxzj a"@]
}

/// One search row: the cover link gives the id.
pub open spec fn ks_result(item: Seq<Seq<NodeView>>) -> Option<SearchResultView> {
    let url = group_attr(item, 0, "href"@);
    if url.len() == 0 {
        None
    } else {
        Some(
            SearchResultView {
                site: "n101kanshu"@,
                book_id: before_first(id_by_rule(IdRule::TrimmedSegment, url), "."@),
                title: group_text(item, 1),
                author: group_text(item, 2),
                latest_chapter: group_text(item, 3),
                update_date: Seq::empty(),
                word_count: Seq::empty(),
            },
        )
    }
}

/// [`ks_result`] as a function value.
pub open spec fn ks_result_fn() -> spec_fn(Seq<Seq<NodeView>>) -> Option<SearchResultView> {
    |item: Seq<Seq<NodeView>>| ks_result(item)
}

/// The chapter links of the chapter list: every link with an `href`, even
/// one without text.
pub open spec fn ks_chapters(links: Seq<NodeView>) -> Seq<ChapterInfoView>
    decreases links.len(),
{
    if links.len() == 0 {
        Seq::empty()
    } else {
        let rest = ks_chapters(links.drop_last());
        let n = links.last();
        match attr_value(n.attrs, "href"@) {
            Some(h) => if h.len() == 0 {
                rest
            } else {
                rest.push(
                    ChapterInfoView { title: node_text(n), chapter_id: id_by_rule(IdRule::SegmentStem, h), url: normalized_url(ks_base(), h) },
                )
            },
            None => rest,
        }
    }
}

/// The word count: the first paragraph mentioning `字`, up to a `|`.
pub open spec fn ks_words(info: Seq<char>) -> Seq<char> {
    match first_text_containing(html_select(info, "p"@), "字"@) {
        Some(t) => trim(before_first(t, "|"@)),
        None => Seq::empty(),
    }
}

/// A 101kanshu book: its page and its chapter list.
pub open spec fn ks_info(info: Seq<char>, catalog: Seq<char>) -> BookInfoView {
    let chapters = ks_chapters(html_select(catalog, "ul a[href]"@));
    BookInfoView {
        book_name: or_else(meta(info, "og:novel:book_name"@), meta(info, "og:title"@)),
        author: meta(info, "og:novel:author"@),
        summary: replace_all(meta(info, "og:description"@), "<br />"@, "\n"@),
        cover_url: meta(info, "og:image"@),
        serial_status: meta(info, "og:novel:status"@),
        update_time: meta(info, "og:novel:update_time"@),
        word_count: ks_words(info),
        volumes: if chapters.len() > 0 {
            seq![VolumeView { volume_name: "正文"@, chapters }]
        } else {
            Seq::empty()
        },
    }
}

/// Texts gathered so far, and the depth of the skipped element being walked
/// through, if any.
pub struct KsWalk {
    pub skip: Option<int>,
    pub parts: Seq<Seq<char>>,
}

/// An element whose subtree is not read: a script, a style, an ad box.
pub open spec fn ks_skipped(tag: Seq<char>, class: Option<Seq<char>>) -> bool {
    tag == "script"@ || tag == "style"@ || (tag == "div"@ && class is Some && contains(class.unwrap(), "txtad"@))
}

/// One node of the walk: text outside skipped subtrees gives its trimmed
/// text when not empty; a skipped element starts a skipped subtree.
pub open spec fn ks_step(st: KsWalk, p: (int, PieceView)) -> KsWalk {
    let inside = match st.skip {
        Some(sd) => p.0 > sd,
        None => false,
    };
    let skip = if inside {
        st.skip
    } else {
        None
    };
    match p.1 {
        PieceView::Text(t) => if !inside && trim(t).len() > 0 {
            KsWalk { skip, parts: st.parts.push(trim(t)) }
        } else {
            KsWalk { skip, ..st }
        },
        PieceView::Elem(tag, class) => if !inside && ks_skipped(tag, class) {
            KsWalk { skip: Some(p.0), ..st }
        } else {
            KsWalk { skip, ..st }
        },
        PieceView::Other => KsWalk { skip, ..st },
    }
}

/// The walk read in order.
pub open spec fn ks_fold(w: Seq<(int, PieceView)>) -> KsWalk
    decreases w.len(),
{
    if w.len() == 0 {
        KsWalk { skip: None, parts: Seq::empty() }
    } else {
        ks_step(ks_fold(w.drop_last()), w.last())
    }
}

/// The texts of the reading area (the walk without the area itself).
pub open spec fn ks_parts(html: Seq<char>) -> Seq<Seq<char>> {
    let ws = html_walks(html, "div#txtcontent"@);
    if ws.len() > 0 && ws[0].len() > 0 {
        ks_fold(ws[0].skip(1)).parts
    } else {
        Seq::empty()
    }
}

fn ks_result_exec(item: &Vec<Vec<Node>>) -> (r: Option<SearchResult>)
    ensures
        opt_result_view(r) == ks_result(crate::html::groups_view(item@)),
{
    let url = group_attr_exec(item, 0, "href");
    if url.as_str().is_empty() {
        return None;
    }
    let seg = crate::providers::common::chapter_id_by_rule(IdRule::TrimmedSegment, url.as_str());
    Some(SearchResult {
        site: owned("n101kanshu"),
        book_id: before_first_exec(seg.as_str(), "."),
        title: group_text_exec(item, 1),
        author: group_text_exec(item, 2),
        latest_chapter: group_text_exec(item, 3),
        update_date: String::new(),
        word_count: String::new(),
    })
}

impl N101kanshuProvider {
    /// The site's identifier.
    pub fn name(&self) -> (r: &'static str)
        ensures
            r@ == "n101kanshu"@,
    {
        "n101kanshu"
    }

    /// The site's display name (its identifier).
    pub fn display_name(&self) -> (r: &'static str)
        ensures
            r@ == "n101kanshu"@,
    {
        "n101kanshu"
    }

    /// The site's address.
    pub fn base_url(&self) -> (r: &'static str)
        ensures
            r@ == ks_base(),
    {
        "https://101kanshu.com"
    }

    /// The site has a search.
    pub fn supports_search(&self) -> (r: bool)
        ensures
            r,
    {
        true
    }

    /// The search endpoint.
    pub fn search_url(&self) -> (r: &'static str)
        ensures
            r@ == "https://101kanshu.com/search"@,
    {
        "https://101kanshu.com/search"
    }

    /// The search form for a keyword.
    pub fn search_form(keyword: &str) -> (r: Vec<(String, String)>)
        ensures
            r@.map_values(|p: (String, String)| (p.0@, p.1@)) == seq![("searchkey"@, keyword@), ("searchtype"@, "all"@)],
    {
        let mut r: Vec<(String, String)> = Vec::new();
        r.push((owned("searchkey"), owned(keyword)));
        r.push((owned("searchtype"), owned("all")));
        assert(r@.map_values(|p: (String, String)| (p.0@, p.1@)) =~= seq![("searchkey"@, keyword@), ("searchtype"@, "all"@)]);
        r
    }

    /// The book page: `{base}/book/{id}.html`.
    pub fn info_url(&self, book_id: &str) -> (r: String)
        ensures
            r@ == ks_base() + "/book/"@ + book_id@ + ".html"@,
    {
        concat(concat(concat(self.base_url(), "/book/").as_str(), book_id).as_str(), ".html")
    }

    /// The chapter list: `{base}/ajax_novels/chapterlist/{id}.html`.
    pub fn catalog_url(&self, book_id: &str) -> (r: String)
        ensures
            r@ == ks_base() + "/ajax_novels/chapterlist/"@ + book_id@ + ".html"@,
    {
        concat(concat(concat(self.base_url(), "/ajax_novels/chapterlist/").as_str(), book_id).as_str(), ".html")
    }

    /// A chapter page: `{base}/txt/{book}/{chapter}.html`.
    pub fn chapter_url(&self, book_id: &str, chapter_id: &str) -> (r: String)
        ensures
            r@ == ks_base() + "/txt/"@ + book_id@ + "/"@ + chapter_id@ + ".html"@,
    {
        let a = concat(concat(concat(self.base_url(), "/txt/").as_str(), book_id).as_str(), "/");
        concat(concat(a.as_str(), chapter_id).as_str(), ".html")
    }

    /// The results among the first `limit` rows of a search page.
    pub fn parse_search(&self, html: &str, limit: usize) -> (r: Vec<SearchResult>)
        ensures
            results_view(r@) == collect(
                take_at_most(html_select_fields(html@, "ul#article_list_content li"@, ks_fields()), limit as nat),
                ks_result_fn(),
            ),
    {
        let fields: Vec<&str> = vec!["a.imgbox", "div.newnav h3 a", "div.labelbox label:first-child", "div.zxzj a"];
        assert(strs_view(fields@) =~= ks_fields());
        let items = select_fields(html, "ul#article_list_content li", &fields);
        collect_results(
            &items,
            limit,
            (|it: &Vec<Vec<Node>>| -> (r: Option<SearchResult>)
                ensures
                    opt_result_view(r) == ks_result(crate::html::groups_view(it@)),
                { ks_result_exec(it) }),
            Ghost(ks_result_fn()),
        )
    }

    /// Parses the book page and the chapter list.
    pub fn parse_book_info(&self, info_html: &str, catalog_html: &str) -> (info: BookInfo)
        ensures
            info@ == ks_info(info_html@, catalog_html@),
    {
        let mut book_name = meta_content(info_html, "og:novel:book_name");
        if book_name.as_str().is_empty() {
            book_name = meta_content(info_html, "og:title");
        }
        proof {
            reveal_strlit("<br />");
        }
        let d = meta_content(info_html, "og:description");
        let summary = replace_exec(d.as_str(), "<br />", "\n");
        let word_count = match first_text_containing_exec(info_html, "p", "字") {
            Some(t) => {
                let b = before_first_exec(t.as_str(), "|");
                trim_exec(b.as_str())
            },
            None => String::new(),
        };
        let links = select_all(catalog_html, "ul a[href]");
        let ghost lv = nodes_view(links@);
        let mut chapters: Vec<ChapterInfo> = Vec::new();
        let mut i: usize = 0;
        while i < links.len()
            invariant
                i <= links.len(),
                lv == nodes_view(links@),
                chapters_view(chapters@) == ks_chapters(lv.take(i as int)),
            decreases links.len() - i,
        {
            assert(lv.take(i + 1).drop_last() =~= lv.take(i as int));
            assert(lv.take(i + 1).last() == links@[i as int]@);
            match node_attr(&links[i], "href") {
                Some(h) => {
                    if !h.as_str().is_empty() {
                        let c = ChapterInfo {
                            title: element_text(&links[i]),
                            chapter_id: crate::providers::common::chapter_id_by_rule(IdRule::SegmentStem, h.as_str()),
                            url: normalize_url("https://101kanshu.com", h.as_str()),
                        };
                        let ghost o0 = chapters@;
                        chapters.push(c);
                        assert(chapters_view(chapters@) =~= chapters_view(o0).push(chapters@.last()@));
                    }
                },
                None => {},
            }
            i += 1;
        }
        assert(lv.take(i as int) =~= lv);
        let mut volumes: Vec<Volume> = Vec::new();
        if chapters.len() > 0 {
            volumes.push(Volume { volume_name: owned("正文"), chapters });
        }
        let info = BookInfo {
            book_name,
            author: meta_content(info_html, "og:novel:author"),
            summary,
            cover_url: meta_content(info_html, "og:image"),
            serial_status: meta_content(info_html, "og:novel:status"),
            update_time: meta_content(info_html, "og:novel:update_time"),
            word_count,
            volumes,
        };
        assert(info@.volumes =~= ks_info(info_html@, catalog_html@).volumes);
        info
    }

    /// The texts of the reading area of a chapter page.
    pub fn text_parts(html: &str) -> (r: Vec<String>)
        ensures
            r@.map_values(|s: String| s@) == ks_parts(html@),
    {
        let walks = select_walks(html, "div#txtcontent");
        let ghost wv = walks@.map_values(|v: Vec<(usize, Piece)>| walk_view(v@));
        let mut parts: Vec<String> = Vec::new();
        if walks.len() == 0 || walks[0].len() == 0 {
            proof {
                if walks.len() > 0 {
                    assert(wv[0] == walk_view(walks@[0]@));
                }
            }
            assert(parts@.map_values(|s: String| s@) =~= ks_parts(html@));
            return parts;
        }
        let w = &walks[0];
        let ghost all = walk_view(w@).skip(1);
        assert(wv[0] == walk_view(w@));
        let mut skip: Option<usize> = None;
        let mut i: usize = 1;
        assert(all.take(0) =~= Seq::<(int, PieceView)>::empty());
        while i < w.len()
            invariant
                1 <= i <= w.len(),
                all == walk_view(w@).skip(1),
                ({
                    let st = ks_fold(all.take(i - 1));
                    &&& parts@.map_values(|s: String| s@) == st.parts
                    &&& match skip {
                        Some(d) => st.skip == Some(d as int),
                        None => st.skip is None,
                    }
                }),
            decreases w.len() - i,
        {
            assert(all.take(i as int).drop_last() =~= all.take(i - 1));
            assert(all.take(i as int).last() == piece_view(w@[i as int]));
            let d = w[i].0;
            let inside = match skip {
                Some(sd) => d > sd,
                None => false,
            };
            let next_skip = if inside {
                skip
            } else {
                None
            };
            match &w[i].1 {
                Piece::Text(t) => {
                    let tt = trim_exec(t.as_str());
                    if !inside && !tt.as_str().is_empty() {
                        let ghost p0 = parts@;
                        parts.push(tt);
                        assert(parts@.map_values(|s: String| s@) =~= p0.map_values(|s: String| s@).push(parts@.last()@));
                    }
                    skip = next_skip;
                },
                Piece::Elem(tag, class) => {
                    let skipped = str_eq(tag.as_str(), "script") || str_eq(tag.as_str(), "style") || (str_eq(
                        tag.as_str(),
                        "div",
                    ) && match class {
                        Some(c) => crate::text::contains_exec(c.as_str(), "txtad"),
                        None => false,
                    });
                    if !inside && skipped {
                        skip = Some(d);
                    } else {
                        skip = next_skip;
                    }
                },
                Piece::Other => {
                    skip = next_skip;
                },
            }
            i += 1;
        }
        assert(all.take(i - 1) =~= all);
        parts
    }

    /// Parses a chapter page.
    pub fn parse_chapter(html: &str, chapter_id: &str) -> (ch: Chapter)
        ensures
            ch@ == (ChapterView {
                id: chapter_id@,
                title: sel_text(html@, "div.txtnav h1"@),
                content: cleaned(join(ks_parts(html@), "\n"@)),
            }),
    {
        let parts = Self::text_parts(html);
        let joined = join_exec(&parts, "\n");
        Chapter { id: owned(chapter_id), title: select_text(html, "div.txtnav h1"), content: clean_content(joined.as_str()) }
    }
}

} // verus!
