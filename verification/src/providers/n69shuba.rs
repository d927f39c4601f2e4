//! 69书吧 (n69shuba): a book page, a catalog listed newest first, and chapter
//! pages whose text block mixes the title, notices and paragraphs.

use vstd::prelude::*;

use crate::html::{
    attr_or_empty, attr_or_empty_exec, element_text, html_select, node_text, nodes_view, normalize_url, normalized_url,
    sel_attr, sel_text, select_all, select_attr, select_text, Node, NodeView,
};
use crate::providers::common::{after_first, after_first_exec, chapters_view};
use crate::text::{
    after_last, after_last_exec, before_first, before_first_exec, concat, contains, contains_exec, ends_with,
    ends_with_exec, join, join_exec, lowercase, owned, replace_all, replace_exec, str_eq, to_lowercase, trim,
    trim_end, trim_end_matches, trim_end_matches_exec, trim_exec, trim_start_matches, trim_start_matches_exec,
};
use crate::types::{BookInfo, BookInfoView, Chapter, ChapterInfo, ChapterInfoView, ChapterView, Volume, VolumeView};

verus! {

/// The 69shuba site.
pub struct N69shubaProvider;

/// Site address.
pub open spec fn s69_base() -> Seq<char> {
    "https://www.69shuba.com"@
}

/// The first paragraph that gives the word count and status (it mentions
/// `字` and `|`): the trimmed text before the first `|` and the trimmed
/// text between the first two; both empty when there is none.
pub open spec fn s69_counts(ps: Seq<NodeView>) -> (Seq<char>, Seq<char>)
    decreases ps.len(),
{
    if ps.len() == 0 {
        (Seq::empty(), Seq::empty())
    } else {
        let t = node_text(ps[0]);
        if contains(t, "字"@) && contains(t, "|"@) {
            (
                trim(before_first(t, "|"@)),
                match after_first(t, "|"@) {
                    Some(r) => trim(before_first(r, "|"@)),
                    None => Seq::empty(),
                },
            )
        } else {
            s69_counts(ps.skip(1))
        }
    }
}

/// The first paragraph mentioning `更新`, without its label, trimmed; empty
/// when there is none.
pub open spec fn s69_update(ps: Seq<NodeView>) -> Seq<char>
    decreases ps.len(),
{
    if ps.len() == 0 {
        Seq::empty()
    } else if contains(node_text(ps[0]), "更新"@) {
        trim(replace_all(node_text(ps[0]), "更新："@, Seq::empty()))
    } else {
        s69_update(ps.skip(1))
    }
}

/// The catalog entries in page order: links with a non-empty trimmed
/// `href`, id = last segment of the link without surrounding `/`.
pub open spec fn s69_links(ns: Seq<NodeView>) -> Seq<ChapterInfoView>
    decreases ns.len(),
{
    if ns.len() == 0 {
        Seq::empty()
    } else {
        let r = s69_links(ns.drop_last());
        let h = trim(attr_or_empty(ns.last(), "href"@));
        if h.len() == 0 {
            r
        } else {
            r.push(
                ChapterInfoView {
                    title: node_text(ns.last()),
                    chapter_id: after_last(trim_end_matches(trim_start_matches(h, "/"@), "/"@), "/"@),
                    url: normalized_url(s69_base(), h),
                },
            )
        }
    }
}

/// A 69shuba book: the book page gives the metadata, the catalog page the
/// chapters, put back in reading order, as one volume `正文` when there are
/// any.
pub open spec fn s69_info(info: Seq<char>, catalog: Seq<char>) -> BookInfoView {
    let ps = html_select(info, "div.booknav2 p"@);
    let cs = s69_links(html_select(catalog, "#catalog ul li a[href]"@)).reverse();
    BookInfoView {
        book_name: sel_text(info, "div.booknav2 h1 a"@),
        author: sel_text(info, "div.booknav2 p a"@),
        summary: sel_text(info, "div.navtxt p"@),
        cover_url: sel_attr(info, "div.bookimg2 img"@, "src"@),
        serial_status: s69_counts(ps).1,
        update_time: s69_update(ps),
        word_count: s69_counts(ps).0,
        volumes: if cs.len() > 0 {
            seq![VolumeView { volume_name: "正文"@, chapters: cs }]
        } else {
            Seq::empty()
        },
    }
}

/// Whether a child of the text block is a notice: its lower-cased class
/// mentions `txtinfo` or `bottom-ad`, or its lower-cased id `txtright`.
pub open spec fn s69_notice(e: NodeView) -> bool {
    let cls = lowercase(attr_or_empty(e, "class"@));
    let eid = lowercase(attr_or_empty(e, "id"@));
    contains(cls, "txtinfo"@) || contains(cls, "bottom-ad"@) || contains(eid, "txtright"@)
}

/// The text block read child by child: the first `h1` while no title is
/// set gives the title; notices are skipped; other non-empty texts are
/// paragraphs.
pub open spec fn s69_fold(es: Seq<NodeView>) -> (Seq<char>, Seq<Seq<char>>)
    decreases es.len(),
{
    if es.len() == 0 {
        (Seq::empty(), Seq::empty())
    } else {
        let (title, ps) = s69_fold(es.drop_last());
        let e = es.last();
        if e.tag == "h1"@ && title.len() == 0 {
            (node_text(e), ps)
        } else if s69_notice(e) || node_text(e).len() == 0 {
            (title, ps)
        } else {
            (title, ps.push(node_text(e)))
        }
    }
}

/// The paragraphs without a first one repeating the title.
pub open spec fn s69_dedup(title: Seq<char>, ps: Seq<Seq<char>>) -> Seq<Seq<char>> {
    if ps.len() > 0 && trim(ps[0]) == trim(title) {
        ps.skip(1)
    } else {
        ps
    }
}

/// The end-of-chapter marker.
pub open spec fn s69_marker() -> Seq<char> {
    "(本章完)"@
}

/// The paragraphs with the end marker cut off the last one, which goes when
/// nothing else is left of it.
pub open spec fn s69_unmarked(ps: Seq<Seq<char>>) -> Seq<Seq<char>> {
    if ps.len() > 0 && ends_with(ps.last(), s69_marker()) {
        let t = trim_end(ps.last().take(ps.last().len() - s69_marker().len()));
        if t.len() == 0 {
            ps.drop_last()
        } else {
            ps.drop_last().push(t)
        }
    } else {
        ps
    }
}

/// A chapter page.
pub open spec fn s69_chapter(html: Seq<char>, chapter_id: Seq<char>) -> ChapterView {
    let (title, ps) = s69_fold(html_select(html, "div.txtnav > *"@));
    ChapterView { id: chapter_id, title, content: join(s69_unmarked(s69_dedup(title, ps)), "\n"@) }
}

fn s69_counts_exec(ps: &Vec<Node>) -> (r: (String, String))
    ensures
        r.0@ == s69_counts(nodes_view(ps@)).0,
        r.1@ == s69_counts(nodes_view(ps@)).1,
{
    let ghost pv = nodes_view(ps@);
    let mut i: usize = 0;
    assert(pv.skip(0) =~= pv);
    while i < ps.len()
        invariant
            i <= ps.len(),
            pv == nodes_view(ps@),
            s69_counts(pv) == s69_counts(pv.skip(i as int)),
        decreases ps.len() - i,
    {
        assert(pv.skip(i as int)[0] == ps@[i as int]@);
        let t = element_text(&ps[i]);
        if contains_exec(t.as_str(), "字") && contains_exec(t.as_str(), "|") {
            let w = before_first_exec(t.as_str(), "|");
            let s = match after_first_exec(t.as_str(), "|") {
                Some(r) => {
                    let b = before_first_exec(r.as_str(), "|");
                    trim_exec(b.as_str())
                },
                None => String::new(),
            };
            return (trim_exec(w.as_str()), s);
        }
        assert(pv.skip(i as int).skip(1) =~= pv.skip(i + 1));
        i += 1;
    }
    (String::new(), String::new())
}

fn s69_update_exec(ps: &Vec<Node>) -> (r: String)
    ensures
        r@ == s69_update(nodes_view(ps@)),
{
    let ghost pv = nodes_view(ps@);
    let mut i: usize = 0;
    assert(pv.skip(0) =~= pv);
    while i < ps.len()
        invariant
            i <= ps.len(),
            pv == nodes_view(ps@),
            s69_update(pv) == s69_update(pv.skip(i as int)),
        decreases ps.len() - i,
    {
        assert(pv.skip(i as int)[0] == ps@[i as int]@);
        let t = element_text(&ps[i]);
        if contains_exec(t.as_str(), "更新") {
            proof {
                reveal_strlit("更新：");
                reveal_strlit("");
            }
            assert(""@ =~= Seq::<char>::empty());
            let u = replace_exec(t.as_str(), "更新：", "");
            return trim_exec(u.as_str());
        }
        assert(pv.skip(i as int).skip(1) =~= pv.skip(i + 1));
        i += 1;
    }
    String::new()
}

fn s69_links_exec(ns: &Vec<Node>) -> (r: Vec<ChapterInfo>)
    ensures
        chapters_view(r@) == s69_links(nodes_view(ns@)),
{
    let ghost nv = nodes_view(ns@);
    let mut out: Vec<ChapterInfo> = Vec::new();
    let mut i: usize = 0;
    while i < ns.len()
        invariant
            i <= ns.len(),
            nv == nodes_view(ns@),
            chapters_view(out@) == s69_links(nv.take(i as int)),
        decreases ns.len() - i,
    {
        assert(nv.take(i + 1).drop_last() =~= nv.take(i as int));
        assert(nv.take(i + 1).last() == ns@[i as int]@);
        let h0 = attr_or_empty_exec(&ns[i], "href");
        let h = trim_exec(h0.as_str());
        if !h.as_str().is_empty() {
            let a = trim_start_matches_exec(h.as_str(), "/");
            let b = trim_end_matches_exec(a.as_str(), "/");
            let c = ChapterInfo {
                title: element_text(&ns[i]),
                chapter_id: after_last_exec(b.as_str(), "/"),
                url: normalize_url("https://www.69shuba.com", h.as_str()),
            };
            let ghost o0 = out@;
            out.push(c);
            assert(chapters_view(out@) =~= chapters_view(o0).push(out@.last()@));
        }
        i += 1;
    }
    assert(nv.take(i as int) =~= nv);
    out
}

impl N69shubaProvider {
    /// The site's identifier.
    pub fn name(&self) -> (r: &'static str)
        ensures
            r@ == "n69shuba"@,
    {
        "n69shuba"
    }

    /// The site's display name.
    pub fn display_name(&self) -> (r: &'static str)
        ensures
            r@ == "69书吧"@,
    {
        "69书吧"
    }

    /// The site's address.
    pub fn base_url(&self) -> (r: &'static str)
        ensures
            r@ == s69_base(),
    {
        "https://www.69shuba.com"
    }

    /// The site has no search.
    pub fn supports_search(&self) -> (r: bool)
        ensures
            !r,
    {
        false
    }

    /// The book page: `https://www.69shuba.com/book/{id}.htm`.
    pub fn info_url(&self, book_id: &str) -> (r: String)
        ensures
            r@ == "https://www.69shuba.com/book/"@ + book_id@ + ".htm"@,
    {
        concat(concat("https://www.69shuba.com/book/", book_id).as_str(), ".htm")
    }

    /// The catalog page: `https://www.69shuba.com/book/{id}/`.
    pub fn catalog_url(&self, book_id: &str) -> (r: String)
        ensures
            r@ == "https://www.69shuba.com/book/"@ + book_id@ + "/"@,
    {
        concat(concat("https://www.69shuba.com/book/", book_id).as_str(), "/")
    }

    /// The `Referer` sent with the book and catalog pages.
    pub fn book_referer(&self) -> (r: &'static str)
        ensures
            r@ == "https://www.69shuba.com/"@,
    {
        "https://www.69shuba.com/"
    }

    /// A chapter page: `https://www.69shuba.com/txt/{book}/{chapter}`.
    pub fn chapter_url(&self, book_id: &str, chapter_id: &str) -> (r: String)
        ensures
            r@ == "https://www.69shuba.com/txt/"@ + book_id@ + "/"@ + chapter_id@,
    {
        let a = concat(concat("https://www.69shuba.com/txt/", book_id).as_str(), "/");
        concat(a.as_str(), chapter_id)
    }

    /// The `Referer` sent with a chapter page:
    /// `https://www.69shuba.com/book/{chapter}/`.
    pub fn chapter_referer(&self, chapter_id: &str) -> (r: String)
        ensures
            r@ == "https://www.69shuba.com/book/"@ + chapter_id@ + "/"@,
    {
        concat(concat("https://www.69shuba.com/book/", chapter_id).as_str(), "/")
    }

    /// A book from its book page and its catalog page.
    pub fn parse_book_info(&self, info_html: &str, catalog: &str) -> (info: BookInfo)
        ensures
            info@ == s69_info(info_html@, catalog@),
    {
        let ps = select_all(info_html, "div.booknav2 p");
        let (word_count, serial_status) = s69_counts_exec(&ps);
        let links = select_all(catalog, "#catalog ul li a[href]");
        let found = s69_links_exec(&links);
        let ghost c0 = found@;
        let chapters = crate::providers::common::reversed(found);
        assert(chapters_view(chapters@) =~= chapters_view(c0).reverse());
        let mut volumes: Vec<Volume> = Vec::new();
        if chapters.len() > 0 {
            volumes.push(Volume { volume_name: owned("正文"), chapters });
        }
        assert(volumes@.map_values(|v: Volume| v@) =~= s69_info(info_html@, catalog@).volumes);
        BookInfo {
            book_name: select_text(info_html, "div.booknav2 h1 a"),
            author: select_text(info_html, "div.booknav2 p a"),
            summary: select_text(info_html, "div.navtxt p"),
            cover_url: select_attr(info_html, "div.bookimg2 img", "src"),
            serial_status,
            update_time: s69_update_exec(&ps),
            word_count,
            volumes,
        }
    }

    /// Parses a chapter page.
    pub fn parse_chapter(&self, html: &str, chapter_id: &str) -> (ch: Chapter)
        ensures
            ch@ == s69_chapter(html@, chapter_id@),
    {
        let es = select_all(html, "div.txtnav > *");
        let ghost ev = nodes_view(es@);
        let mut title = String::new();
        let mut ps: Vec<String> = Vec::new();
        let mut i: usize = 0;
        while i < es.len()
            invariant
                i <= es.len(),
                ev == nodes_view(es@),
                (title@, ps@.map_values(|s: String| s@)) == s69_fold(ev.take(i as int)),
            decreases es.len() - i,
        {
            assert(ev.take(i + 1).drop_last() =~= ev.take(i as int));
            assert(ev.take(i + 1).last() == es@[i as int]@);
            let e = &es[i];
            if str_eq(e.tag.as_str(), "h1") && title.as_str().is_empty() {
                title = element_text(e);
            } else {
                let c0 = attr_or_empty_exec(e, "class");
                let cls = to_lowercase(c0.as_str());
                let d0 = attr_or_empty_exec(e, "id");
                let eid = to_lowercase(d0.as_str());
                let notice = contains_exec(cls.as_str(), "txtinfo") || contains_exec(cls.as_str(), "bottom-ad")
                    || contains_exec(eid.as_str(), "txtright");
                let t = element_text(e);
                if !notice && !t.as_str().is_empty() {
                    let ghost p0 = ps@;
                    ps.push(t);
                    assert(ps@.map_values(|s: String| s@) =~= p0.map_values(|s: String| s@).push(ps@.last()@));
                }
            }
            i += 1;
        }
        assert(ev.take(i as int) =~= ev);
        let ghost pv = ps@.map_values(|s: String| s@);
        if ps.len() > 0 {
            let a = trim_exec(ps[0].as_str());
            let b = trim_exec(title.as_str());
            if str_eq(a.as_str(), b.as_str()) {
                ps.remove(0);
                assert(ps@.map_values(|s: String| s@) =~= pv.skip(1));
            }
        }
        let ghost dv = ps@.map_values(|s: String| s@);
        assert(dv == s69_dedup(title@, pv));
        let n = ps.len();
        if n > 0 && ends_with_exec(ps[n - 1].as_str(), "(本章完)") {
            proof {
                reveal_strlit("(本章完)");
            }
            assert(dv.last() == ps@[n - 1]@);
            let last = ps.pop().unwrap();
            let stem = without_marker(last.as_str());
            if !stem.as_str().is_empty() {
                ps.push(stem);
            }
            assert(ps@.map_values(|s: String| s@) =~= s69_unmarked(dv));
        }
        Chapter { id: owned(chapter_id), title, content: join_exec(&ps, "\n") }
    }
}

/// A line ending with the end marker: what precedes the marker, without
/// trailing whitespace.
fn without_marker(s: &str) -> (r: String)
    requires
        ends_with(s@, s69_marker()),
    ensures
        r@ == trim_end(s@.take(s@.len() - s69_marker().len())),
{
    let v = crate::text::chars_of(s);
    proof {
        reveal_strlit("(本章完)");
    }
    assert(s69_marker().len() == 5);
    assert(v@.len() >= 5);
    let n = v.len() - 5;
    let ghost head = v@.take(n as int);
    let mut b: usize = n;
    assert(head.subrange(0, n as int) =~= head);
    while b > 0 && crate::text::is_whitespace(v[b - 1])
        invariant
            b <= n <= v.len(),
            head == v@.take(n as int),
            trim_end(head) == trim_end(v@.subrange(0, b as int)),
        decreases b,
    {
        assert(v@.subrange(0, b as int).drop_last() =~= v@.subrange(0, b - 1));
        b -= 1;
    }
    assert(trim_end(v@.subrange(0, b as int)) == v@.subrange(0, b as int));
    crate::text::string_of(crate::text::sub_chars(&v, 0, b).as_slice())
}

} // verus!
