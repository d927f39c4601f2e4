//! 17K小说网 (n17k): a book page, a separate catalog page of volumes, and
//! chapter pages that may be locked.

use vstd::prelude::*;

use crate::html::{
    attr_or_empty, attr_or_empty_exec, element_text, first_text, group_text, group_text_exec, html_nested, html_select,
    html_select_fields, nodes_view, normalize_url, normalized_url, or_else, sel_attr, sel_text, select_all,
    select_attr, select_fields, select_nested, select_text, strs_view, with_inner_view, Node, NodeView,
};
use crate::providers::common::{chapters_view, id_by_rule, items_view, paragraphs, paragraphs_exec, IdRule};
use crate::text::{
    concat, contains, contains_exec, decimal, owned, replace_all, replace_exec, trim, trim_exec, usize_to_string,
};
use crate::types::{BookInfo, BookInfoView, Chapter, ChapterInfo, ChapterInfoView, ChapterView, Volume, VolumeView};

verus! {

/// The 17k site.
pub struct N17kProvider;

/// Site address.
pub open spec fn k17_base() -> Seq<char> {
    "https://www.17k.com"@
}

/// A catalog link with its `span` elements: the trimmed `href` (skipped when
/// empty), titled by its first `span` (empty when it has none).
pub open spec fn k17_link(p: (NodeView, Seq<NodeView>)) -> Option<ChapterInfoView> {
    let h = trim(attr_or_empty(p.0, "href"@));
    if h.len() == 0 {
        None
    } else {
        Some(ChapterInfoView { title: first_text(p.1), chapter_id: id_by_rule(IdRule::SegmentStem, h), url: normalized_url(k17_base(), h) })
    }
}

/// The entries of a volume's links, in order.
pub open spec fn k17_links(ps: Seq<(NodeView, Seq<NodeView>)>) -> Seq<ChapterInfoView>
    decreases ps.len(),
{
    if ps.len() == 0 {
        Seq::empty()
    } else {
        let r = k17_links(ps.drop_last());
        match k17_link(ps.last()) {
            Some(c) => r.push(c),
            None => r,
        }
    }
}

/// The name of an unnamed volume, numbered among the volumes kept.
pub open spec fn k17_unnamed(k: nat) -> Seq<char> {
    "未命名卷 "@ + decimal(k)
}

/// The first `n` volume blocks: each gives a volume when it has entries,
/// named by its title or else numbered among the volumes kept so far.
pub open spec fn k17_volumes(names: Seq<Seq<Seq<NodeView>>>, links: Seq<Seq<(NodeView, Seq<NodeView>)>>, n: int) -> Seq<
    VolumeView,
>
    decreases n,
{
    if n <= 0 {
        Seq::empty()
    } else {
        let prev = k17_volumes(names, links, n - 1);
        let k = n - 1;
        let cs = k17_links(if k < links.len() { links[k] } else { Seq::empty() });
        let nm = group_text(if k < names.len() { names[k] } else { Seq::empty() }, 0);
        if cs.len() > 0 {
            prev.push(VolumeView { volume_name: if nm.len() == 0 { k17_unnamed(prev.len() + 1) } else { nm }, chapters: cs })
        } else {
            prev
        }
    }
}

/// The volumes of a catalog page.
pub open spec fn k17_catalog(catalog: Seq<char>) -> Seq<VolumeView> {
    let links = html_nested(catalog, "dl.Volume"@, "dd a[href]"@, "span"@);
    k17_volumes(html_select_fields(catalog, "dl.Volume"@, seq!["dt span.tit"@]), links, links.len() as int)
}

/// A 17k book: the book page gives everything but the author and the
/// volumes, which the catalog page gives.
pub open spec fn k17_info(info: Seq<char>, catalog: Seq<char>) -> BookInfoView {
    BookInfoView {
        book_name: or_else(sel_text(info, "div.Info.Sign h1 a"@), sel_text(info, "h1 a"@)),
        author: sel_text(catalog, "div.Author a"@),
        summary: sel_text(info, "p.intro"@),
        cover_url: sel_attr(info, "#bookCover img"@, "src"@),
        serial_status: sel_text(info, "div.label span"@),
        update_time: trim(replace_all(sel_text(info, "dl#bookInfo em"@), "更新:"@, Seq::empty())),
        word_count: sel_text(info, "div.BookData p em.red"@),
        volumes: k17_catalog(catalog),
    }
}

/// A chapter page: a locked chapter gives a notice; otherwise the title and
/// the unclassed paragraphs.
pub open spec fn k17_chapter(html: Seq<char>, chapter_id: Seq<char>) -> ChapterView {
    if contains(html, "VIP章节, 余下还有"@) {
        ChapterView { id: chapter_id, title: Seq::empty(), content: "[VIP章节，需要购买后阅读]"@ }
    } else {
        ChapterView {
            id: chapter_id,
            title: sel_text(html, "#readArea h1"@),
            content: paragraphs(html_select(html, "#readArea div.p p:not([class])"@)),
        }
    }
}

/// View of a volume's links with their spans.
pub open spec fn pairs_view(v: Seq<(Node, Vec<Node>)>) -> Seq<(NodeView, Seq<NodeView>)> {
    v.map_values(|p: (Node, Vec<Node>)| with_inner_view(p))
}

fn k17_links_exec(ps: &Vec<(Node, Vec<Node>)>) -> (r: Vec<ChapterInfo>)
    ensures
        chapters_view(r@) == k17_links(pairs_view(ps@)),
{
    let ghost pv = pairs_view(ps@);
    let mut out: Vec<ChapterInfo> = Vec::new();
    let mut i: usize = 0;
    while i < ps.len()
        invariant
            i <= ps.len(),
            pv == pairs_view(ps@),
            chapters_view(out@) == k17_links(pv.take(i as int)),
        decreases ps.len() - i,
    {
        assert(pv.take(i + 1).drop_last() =~= pv.take(i as int));
        assert(pv.take(i + 1).last() == with_inner_view(ps@[i as int]));
        let a = &ps[i].0;
        let h0 = attr_or_empty_exec(a, "href");
        let h = trim_exec(h0.as_str());
        if !h.as_str().is_empty() {
            let spans = &ps[i].1;
            let title = if spans.len() > 0 {
                element_text(&spans[0])
            } else {
                String::new()
            };
            let c = ChapterInfo {
                title,
                chapter_id: crate::providers::common::chapter_id_by_rule(IdRule::SegmentStem, h.as_str()),
                url: normalize_url("https://www.17k.com", h.as_str()),
            };
            let ghost o0 = out@;
            out.push(c);
            assert(chapters_view(out@) =~= chapters_view(o0).push(out@.last()@));
        }
        i += 1;
    }
    assert(pv.take(i as int) =~= pv);
    out
}

impl N17kProvider {
    /// The site's identifier.
    pub fn name(&self) -> (r: &'static str)
        ensures
            r@ == "n17k"@,
    {
        "n17k"
    }

    /// The site's display name.
    pub fn display_name(&self) -> (r: &'static str)
        ensures
            r@ == "17K小说网"@,
    {
        "17K小说网"
    }

    /// The site's address.
    pub fn base_url(&self) -> (r: &'static str)
        ensures
            r@ == k17_base(),
    {
        "https://www.17k.com"
    }

    /// The site has no search.
    pub fn supports_search(&self) -> (r: bool)
        ensures
            !r,
    {
        false
    }

    /// The book page: `https://www.17k.com/book/{id}.html`.
    pub fn info_url(&self, book_id: &str) -> (r: String)
        ensures
            r@ == "https://www.17k.com/book/"@ + book_id@ + ".html"@,
    {
        concat(concat("https://www.17k.com/book/", book_id).as_str(), ".html")
    }

    /// The catalog page: `https://www.17k.com/list/{id}.html`.
    pub fn catalog_url(&self, book_id: &str) -> (r: String)
        ensures
            r@ == "https://www.17k.com/list/"@ + book_id@ + ".html"@,
    {
        concat(concat("https://www.17k.com/list/", book_id).as_str(), ".html")
    }

    /// A chapter page: `https://www.17k.com/chapter/{book}/{chapter}.html`.
    pub fn chapter_url(&self, book_id: &str, chapter_id: &str) -> (r: String)
        ensures
            r@ == "https://www.17k.com/chapter/"@ + book_id@ + "/"@ + chapter_id@ + ".html"@,
    {
        let a = concat(concat("https://www.17k.com/chapter/", book_id).as_str(), "/");
        concat(concat(a.as_str(), chapter_id).as_str(), ".html")
    }

    /// The volumes of a catalog page.
    pub fn parse_catalog(&self, catalog: &str) -> (r: Vec<Volume>)
        ensures
            r@.map_values(|v: Volume| v@) == k17_catalog(catalog@),
    {
        let fields: Vec<&str> = vec!["dt span.tit"];
        assert(strs_view(fields@) =~= seq!["dt span.tit"@]);
        let names = select_fields(catalog, "dl.Volume", &fields);
        let links = select_nested(catalog, "dl.Volume", "dd a[href]", "span");
        let ghost nv = items_view(names@);
        let ghost lv = links@.map_values(|v: Vec<(Node, Vec<Node>)>| v@.map_values(|p: (Node, Vec<Node>)| with_inner_view(p)));
        assert(nv =~= names@.map_values(|item: Vec<Vec<Node>>| crate::html::groups_view(item@)));
        let empty_n: Vec<Vec<Node>> = Vec::new();
        let mut volumes: Vec<Volume> = Vec::new();
        let mut k: usize = 0;
        while k < links.len()
            invariant
                k <= links.len(),
                nv == items_view(names@),
                lv == links@.map_values(|v: Vec<(Node, Vec<Node>)>| v@.map_values(|p: (Node, Vec<Node>)| with_inner_view(p))),
                empty_n@.len() == 0,
                volumes@.map_values(|v: Volume| v@) == k17_volumes(nv, lv, k as int),
                volumes@.len() <= k,
            decreases links.len() - k,
        {
            assert(pairs_view(links@[k as int]@) =~= lv[k as int]);
            let cs = k17_links_exec(&links[k]);
            let it: &Vec<Vec<Node>> = if k < names.len() {
                &names[k]
            } else {
                &empty_n
            };
            assert(crate::html::groups_view(it@) =~= (if k < nv.len() {
                nv[k as int]
            } else {
                Seq::empty()
            }));
            if cs.len() > 0 {
                let nm = group_text_exec(it, 0);
                let name = if nm.as_str().is_empty() {
                    let n = usize_to_string(volumes.len() + 1);
                    concat("未命名卷 ", n.as_str())
                } else {
                    nm
                };
                let ghost o0 = volumes@;
                volumes.push(Volume { volume_name: name, chapters: cs });
                assert(volumes@.map_values(|v: Volume| v@) =~= o0.map_values(|v: Volume| v@).push(volumes@.last()@));
            }
            k += 1;
        }
        volumes
    }

    /// A book from its book page and its catalog page.
    pub fn parse_book_info(&self, info_html: &str, catalog: &str) -> (info: BookInfo)
        ensures
            info@ == k17_info(info_html@, catalog@),
    {
        let mut book_name = select_text(info_html, "div.Info.Sign h1 a");
        if book_name.as_str().is_empty() {
            book_name = select_text(info_html, "h1 a");
        }
        let u = select_text(info_html, "dl#bookInfo em");
        proof {
            reveal_strlit("更新:");
            reveal_strlit("");
        }
        assert(""@ =~= Seq::<char>::empty());
        let u1 = replace_exec(u.as_str(), "更新:", "");
        BookInfo {
            book_name,
            author: select_text(catalog, "div.Author a"),
            summary: select_text(info_html, "p.intro"),
            cover_url: select_attr(info_html, "#bookCover img", "src"),
            serial_status: select_text(info_html, "div.label span"),
            update_time: trim_exec(u1.as_str()),
            word_count: select_text(info_html, "div.BookData p em.red"),
            volumes: self.parse_catalog(catalog),
        }
    }

    /// Parses a chapter page.
    pub fn parse_chapter(&self, html: &str, chapter_id: &str) -> (ch: Chapter)
        ensures
            ch@ == k17_chapter(html@, chapter_id@),
    {
        if contains_exec(html, "VIP章节, 余下还有") {
            let ch = Chapter { id: owned(chapter_id), title: String::new(), content: owned("[VIP章节，需要购买后阅读]") };
            assert(ch@.title =~= Seq::<char>::empty());
            return ch;
        }
        Chapter {
            id: owned(chapter_id),
            title: select_text(html, "#readArea h1"),
            content: paragraphs_exec(html, "#readArea div.p p:not([class])"),
        }
    }
}

} // verus!
