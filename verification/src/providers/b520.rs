//! 笔趣阁 b520: a table search with a header row, one chapter list per book,
//! and chapter pages served in GBK.

use vstd::prelude::*;

use crate::html::{
    group_attr, group_attr_exec, group_text, group_text_exec, html_select, html_select_fields, sel_attr, sel_text,
    select_all, select_attr, select_fields, select_text, strs_view, Node, NodeView,
};
use crate::providers::common::{
    id_by_rule, items_view, link_chapters, links_to_chapters, paras_or_text, paras_or_text_exec, results_view,
    strip_exec, stripped, url_encode, url_encoded, IdRule,
};
use crate::text::{concat, owned};
use crate::types::{BookInfo, BookInfoView, Chapter, ChapterView, SearchResult, SearchResultView, Volume, VolumeView};

verus! {

/// The b520 site.
pub struct B520Provider;

/// Site address.
pub open spec fn b5_base() -> Seq<char> {
    "http://www.b520.cc"@
}

/// Selections made in each table row: the five cells.
pub open spec fn b5_fields() -> Seq<Seq<char>> {
    seq![
        "td:first-child a"@,
        "td:nth-child(2) a"@,
        "td:nth-child(3)"@,
        "td:nth-child(4)"@,
        "td:nth-child(5)"@,
    ]
}

/// A table row; rows without a book link are skipped.
pub open spec fn b5_result(it: Seq<Seq<NodeView>>) -> Option<SearchResultView> {
    let href = group_attr(it, 0, "href"@);
    if href.len() == 0 {
        None
    } else {
        Some(
            SearchResultView {
                site: "b520"@,
                book_id: id_by_rule(IdRule::TrimmedSegment, href),
                title: group_text(it, 0),
                author: group_text(it, 2),
                latest_chapter: group_text(it, 1),
                update_date: group_text(it, 4),
                word_count: group_text(it, 3),
            },
        )
    }
}

/// Rows read in order until `limit` results are found.
pub open spec fn b5_scan(rows: Seq<Seq<Seq<NodeView>>>, limit: nat) -> Seq<SearchResultView>
    decreases rows.len(),
{
    if rows.len() == 0 || limit == 0 {
        Seq::empty()
    } else {
        match b5_result(rows[0]) {
            Some(r) => seq![r] + b5_scan(rows.skip(1), (limit - 1) as nat),
            None => b5_scan(rows.skip(1), limit),
        }
    }
}

/// The results of a search page: the rows after the header, read until
/// `limit` results are found.
pub open spec fn b5_results(html: Seq<char>, limit: nat) -> Seq<SearchResultView> {
    let rows = html_select_fields(html, "table.grid tr"@, b5_fields());
    if rows.len() > 0 {
        b5_scan(rows.skip(1), limit)
    } else {
        Seq::empty()
    }
}

/// What is removed from the author line.
pub open spec fn b5_author_pats() -> Seq<Seq<char>> {
    seq!["\u{a0}"@, "作者："@]
}

/// A b520 book page.
pub open spec fn b5_info(html: Seq<char>) -> BookInfoView {
    let cs = link_chapters(html_select(html, "#list dl dd a[href]"@), b5_base(), IdRule::SegmentStem);
    BookInfoView {
        book_name: sel_text(html, "#info h1"@),
        author: stripped(sel_text(html, "#info p:first-of-type"@), b5_author_pats()),
        summary: sel_text(html, "#intro p"@),
        cover_url: sel_attr(html, "#fmimg img"@, "src"@),
        serial_status: Seq::empty(),
        update_time: stripped(sel_text(html, "#info p:nth-of-type(3)"@), seq!["最后更新："@]),
        word_count: Seq::empty(),
        volumes: if cs.len() > 0 {
            seq![VolumeView { volume_name: "正文"@, chapters: cs }]
        } else {
            Seq::empty()
        },
    }
}

fn b5_result_exec(it: &Vec<Vec<Node>>) -> (r: Option<SearchResult>)
    ensures
        crate::providers::common::opt_result_view(r) == b5_result(crate::html::groups_view(it@)),
{
    let href = group_attr_exec(it, 0, "href");
    if href.as_str().is_empty() {
        return None;
    }
    Some(SearchResult {
        site: owned("b520"),
        book_id: crate::providers::common::chapter_id_by_rule(IdRule::TrimmedSegment, href.as_str()),
        title: group_text_exec(it, 0),
        author: group_text_exec(it, 2),
        latest_chapter: group_text_exec(it, 1),
        update_date: group_text_exec(it, 4),
        word_count: group_text_exec(it, 3),
    })
}

impl B520Provider {
    /// The site's identifier.
    pub fn name(&self) -> (r: &'static str)
        ensures
            r@ == "b520"@,
    {
        "b520"
    }

    /// The site's display name.
    pub fn display_name(&self) -> (r: &'static str)
        ensures
            r@ == "笔趣阁(b520)"@,
    {
        "笔趣阁(b520)"
    }

    /// The site's address.
    pub fn base_url(&self) -> (r: &'static str)
        ensures
            r@ == b5_base(),
    {
        "http://www.b520.cc"
    }

    /// The site has a search.
    pub fn supports_search(&self) -> (r: bool)
        ensures
            r,
    {
        true
    }

    /// The search page: `http://www.b520.cc/modules/article/search.php?searchkey={keyword}`.
    pub fn search_url(&self, keyword: &str) -> (r: String)
        ensures
            r@ == "http://www.b520.cc/modules/article/search.php?searchkey="@ + url_encoded(keyword@),
    {
        let k = url_encode(keyword);
        concat("http://www.b520.cc/modules/article/search.php?searchkey=", k.as_str())
    }

    /// The book page: `http://www.b520.cc/{id}/`.
    pub fn book_url(&self, book_id: &str) -> (r: String)
        ensures
            r@ == "http://www.b520.cc/"@ + book_id@ + "/"@,
    {
        concat(concat("http://www.b520.cc/", book_id).as_str(), "/")
    }

    /// A chapter page: `http://www.b520.cc/{book}/{chapter}.html`.
    pub fn chapter_url(&self, book_id: &str, chapter_id: &str) -> (r: String)
        ensures
            r@ == "http://www.b520.cc/"@ + book_id@ + "/"@ + chapter_id@ + ".html"@,
    {
        let a = concat(concat("http://www.b520.cc/", book_id).as_str(), "/");
        concat(concat(a.as_str(), chapter_id).as_str(), ".html")
    }

    /// The results of a search page.
    pub fn parse_search(&self, html: &str, limit: usize) -> (r: Vec<SearchResult>)
        ensures
            results_view(r@) == b5_results(html@, limit as nat),
    {
        let fields: Vec<&str> = vec!["td:first-child a", "td:nth-child(2) a", "td:nth-child(3)", "td:nth-child(4)", "td:nth-child(5)"];
        assert(strs_view(fields@) =~= b5_fields());
        let rows = select_fields(html, "table.grid tr", &fields);
        let ghost rv = items_view(rows@);
        assert(rv =~= rows@.map_values(|item: Vec<Vec<Node>>| crate::html::groups_view(item@)));
        let mut out: Vec<SearchResult> = Vec::new();
        if rows.len() == 0 {
            return out;
        }
        let mut i: usize = 1;
        assert(rv.skip(1).skip(0) =~= rv.skip(1));
        while i < rows.len() && out.len() < limit
            invariant
                1 <= i <= rows.len(),
                out.len() <= limit,
                rv == items_view(rows@),
                b5_scan(rv.skip(1), limit as nat) == results_view(out@) + b5_scan(
                    rv.skip(i as int),
                    (limit - out.len()) as nat,
                ),
            decreases rows.len() - i,
        {
            assert(rv.skip(i as int)[0] == crate::html::groups_view(rows@[i as int]@));
            assert(rv.skip(i as int).skip(1) =~= rv.skip(i + 1));
            match b5_result_exec(&rows[i]) {
                Some(r) => {
                    let ghost o0 = out@;
                    out.push(r);
                    assert(results_view(out@) =~= results_view(o0) + seq![out@.last()@]);
                },
                None => {},
            }
            i += 1;
        }
        assert(b5_scan(rv.skip(i as int), (limit - out.len()) as nat) =~= Seq::<SearchResultView>::empty());
        assert(results_view(out@) + Seq::<SearchResultView>::empty() =~= results_view(out@));
        out
    }

    /// Parses a book page.
    pub fn parse_book_info(&self, html: &str) -> (info: BookInfo)
        ensures
            info@ == b5_info(html@),
    {
        proof {
            reveal_strlit("\u{a0}");
            reveal_strlit("作者：");
            reveal_strlit("最后更新：");
        }
        let ap: Vec<&str> = vec!["\u{a0}", "作者："];
        let up: Vec<&str> = vec!["最后更新："];
        assert(strs_view(ap@) =~= b5_author_pats());
        assert(strs_view(up@) =~= seq!["最后更新："@]);
        let a = select_text(html, "#info p:first-of-type");
        let u = select_text(html, "#info p:nth-of-type(3)");
        let links = select_all(html, "#list dl dd a[href]");
        let chapters = links_to_chapters(&links, self.base_url(), IdRule::SegmentStem);
        let mut volumes: Vec<Volume> = Vec::new();
        if chapters.len() > 0 {
            volumes.push(Volume { volume_name: owned("正文"), chapters });
        }
        assert(volumes@.map_values(|v: Volume| v@) =~= b5_info(html@).volumes);
        let info = BookInfo {
            book_name: select_text(html, "#info h1"),
            author: strip_exec(a.as_str(), &ap),
            summary: select_text(html, "#intro p"),
            cover_url: select_attr(html, "#fmimg img", "src"),
            serial_status: String::new(),
            update_time: strip_exec(u.as_str(), &up),
            word_count: String::new(),
            volumes,
        };
        assert(info@.serial_status =~= Seq::<char>::empty());
        assert(info@.word_count =~= Seq::<char>::empty());
        info
    }

    /// Parses a chapter page: its paragraphs, else its text block.
    pub fn parse_chapter(&self, html: &str, chapter_id: &str) -> (ch: Chapter)
        ensures
            ch@ == (ChapterView {
                id: chapter_id@,
                title: sel_text(html@, "div.bookname h1"@),
                content: paras_or_text(html@, "#content p"@, "#content"@),
            }),
    {
        Chapter {
            id: owned(chapter_id),
            title: select_text(html, "div.bookname h1"),
            content: paras_or_text_exec(html, "#content p", "#content"),
        }
    }
}

} // verus!
