//! 刺猬猫 (ciweimao): book page, chapter list from a form endpoint, and the
//! text that chapter pages carry without a session. Chapters drawn as
//! images are recognised and not decoded.

use vstd::prelude::*;

use crate::html::{
    attr_or_empty, attr_or_empty_exec, element_text, group_text, group_text_exec, html_select, html_select_fields,
    meta, meta_content, node_text, nodes_view, or_else, sel_attr, sel_text, select_all, select_attr, select_fields,
    select_text, strs_view, Node, NodeView,
};
use crate::markup::{html_to_text, kept_lines, kept_lines_exec, lines, spec_html_to_text};
use crate::providers::common::{
    chapters_view, collect, collect_chapters, id_by_rule, item_nodes, items_view, opt_chapter_view, IdRule,
};
use crate::text::{chars_of, concat, contains, contains_exec, join, join_exec, owned, replace_all, replace_exec, trim, trim_exec};
use crate::types::{BookInfo, BookInfoView, Chapter, ChapterInfo, ChapterInfoView, ChapterView, Volume, VolumeView};

verus! {

/// The ciweimao site.
pub struct CiweimaoProvider;

/// Site address.
pub open spec fn cw_base() -> Seq<char> {
    "https://www.ciweimao.com"@
}

/// A chapter link: trimmed text and the last segment of its `href`, both
/// non-empty.
pub open spec fn cw_link(n: NodeView) -> Option<ChapterInfoView> {
    let href = attr_or_empty(n, "href"@);
    let id = id_by_rule(IdRule::TrimmedSegment, href);
    let title = trim(node_text(n));
    if href.len() == 0 || title.len() == 0 || id.len() == 0 {
        None
    } else {
        Some(ChapterInfoView { title, chapter_id: id, url: cw_base() + "/chapter/"@ + id })
    }
}

/// [`cw_link`] as a function value.
pub open spec fn cw_link_fn() -> spec_fn(NodeView) -> Option<ChapterInfoView> {
    |n: NodeView| cw_link(n)
}

/// The volumes of the chapter list: each box with chapters, named by its
/// heading or `正文`.
pub open spec fn cw_volumes_of(items: Seq<Seq<Seq<NodeView>>>) -> Seq<VolumeView>
    decreases items.len(),
{
    if items.len() == 0 {
        Seq::empty()
    } else {
        let rest = cw_volumes_of(items.drop_last());
        let chapters = collect(item_nodes(items.last(), 1), cw_link_fn());
        let name = group_text(items.last(), 0);
        if chapters.len() > 0 {
            rest.push(
                VolumeView {
                    volume_name: if name.len() == 0 {
                        "正文"@
                    } else {
                        name
                    },
                    chapters,
                },
            )
        } else {
            rest
        }
    }
}

/// Selectors of a volume box: its heading and its chapter links.
pub open spec fn cw_fields() -> Seq<Seq<char>> {
    seq!["h4.sub-tit"@, "ul.book-chapter-list a[href]"@]
}

/// The volumes of a chapter-list answer (none when the request failed and
/// the answer is empty).
pub open spec fn cw_volumes(catalog: Seq<char>) -> Seq<VolumeView> {
    if catalog.len() == 0 {
        Seq::empty()
    } else {
        cw_volumes_of(html_select_fields(catalog, "div.book-chapter-box"@, cw_fields()))
    }
}

/// A ciweimao book: its page and its chapter-list answer.
pub open spec fn cw_info(html: Seq<char>, catalog: Seq<char>) -> BookInfoView {
    BookInfoView {
        book_name: or_else(meta(html, "og:novel:book_name"@), sel_text(html, "h1.title"@)),
        author: or_else(meta(html, "og:novel:author"@), sel_text(html, "h1.title span a"@)),
        summary: or_else(meta(html, "og:description"@), sel_text(html, "div.book-desc"@)),
        cover_url: or_else(meta(html, "og:image"@), sel_attr(html, "div.cover img"@, "src"@)),
        serial_status: sel_text(html, "p.update-state"@),
        update_time: trim(replace_all(sel_text(html, "p.update-time"@), "最后更新："@, Seq::empty())),
        word_count: sel_text(html, "p.book-grade b:last-child"@),
        volumes: cw_volumes(catalog),
    }
}

/// Selectors tried for the chapter text.
pub open spec fn cw_body_sels() -> Seq<Seq<char>> {
    seq!["div.read-bd div.chapter-entity"@, "div#J_BookRead"@, "div.chapter-content"@, "div.read-content"@]
}

/// The trimmed non-empty lines of the first reading area, among `sels`
/// taken in order, that has any.
pub open spec fn cw_lines(html: Seq<char>, sels: Seq<Seq<char>>) -> Seq<Seq<char>>
    decreases sels.len(),
{
    if sels.len() == 0 {
        Seq::empty()
    } else {
        let ns = html_select(html, sels[0]);
        if ns.len() > 0 && kept_lines(lines(spec_html_to_text(ns[0].inner_html))).len() > 0 {
            kept_lines(lines(spec_html_to_text(ns[0].inner_html)))
        } else {
            cw_lines(html, sels.skip(1))
        }
    }
}

/// A ciweimao chapter page.
pub open spec fn cw_chapter(html: Seq<char>, chapter_id: Seq<char>) -> ChapterView {
    let title = sel_text(html, "div#J_BookCnt div.read-hd h1.chapter"@);
    let say = sel_text(html, "p.author_say"@);
    let body = join(cw_lines(html, cw_body_sels()), "\n"@);
    let content = if say.len() > 0 {
        body + "\n\n作者说\n"@ + say
    } else {
        body
    };
    ChapterView {
        id: chapter_id,
        title,
        content: if contains(html, "J_ImgRead"@) {
            "[VIP图片章节，需要登录并订阅]"@
        } else if content.len() == 0 {
            "[需要登录查看章节内容]"@
        } else {
            content
        },
    }
}

fn cw_link_exec(n: &Node) -> (r: Option<ChapterInfo>)
    ensures
        opt_chapter_view(r) == cw_link(n@),
{
    let href = attr_or_empty_exec(n, "href");
    let id = crate::providers::common::chapter_id_by_rule(IdRule::TrimmedSegment, href.as_str());
    let t = element_text(n);
    let title = trim_exec(t.as_str());
    if href.as_str().is_empty() || title.as_str().is_empty() || id.as_str().is_empty() {
        return None;
    }
    let url = concat("https://www.ciweimao.com/chapter/", id.as_str());
    proof {
        reveal_strlit("https://www.ciweimao.com/chapter/");
        reveal_strlit("https://www.ciweimao.com");
        reveal_strlit("/chapter/");
    }
    assert("https://www.ciweimao.com/chapter/"@ =~= cw_base() + "/chapter/"@);
    Some(ChapterInfo { title, chapter_id: id, url })
}

fn cw_lines_exec(html: &str, sels: &Vec<&str>) -> (r: Vec<String>)
    ensures
        r@.map_values(|s: String| s@) == cw_lines(html@, strs_view(sels@)),
{
    let ghost all = strs_view(sels@);
    let mut i: usize = 0;
    assert(all.skip(0) =~= all);
    while i < sels.len()
        invariant
            i <= sels.len(),
            all == strs_view(sels@),
            cw_lines(html@, all) == cw_lines(html@, all.skip(i as int)),
        decreases sels.len() - i,
    {
        assert(all.skip(i as int)[0] == sels@[i as int]@);
        assert(all.skip(i as int).skip(1) =~= all.skip(i + 1));
        let ns = select_all(html, sels[i]);
        if ns.len() > 0 {
            let t = html_to_text(ns[0].inner_html.as_str());
            let v = chars_of(t.as_str());
            let ls = kept_lines_exec(&v);
            assert(ls@.map_values(|s: String| s@) =~= crate::markup::strings_view(ls@));
            if ls.len() > 0 {
                return ls;
            }
        }
        i += 1;
    }
    let r: Vec<String> = Vec::new();
    assert(r@.map_values(|s: String| s@) =~= Seq::<Seq<char>>::empty());
    r
}

impl CiweimaoProvider {
    /// The site's identifier.
    pub fn name(&self) -> (r: &'static str)
        ensures
            r@ == "ciweimao"@,
    {
        "ciweimao"
    }

    /// The site's display name.
    pub fn display_name(&self) -> (r: &'static str)
        ensures
            r@ == "刺猬猫"@,
    {
        "刺猬猫"
    }

    /// The site's address.
    pub fn base_url(&self) -> (r: &'static str)
        ensures
            r@ == cw_base(),
    {
        "https://www.ciweimao.com"
    }

    /// The book page: `{base}/book/{id}`.
    pub fn book_url(&self, book_id: &str) -> (r: String)
        ensures
            r@ == cw_base() + "/book/"@ + book_id@,
    {
        concat(concat(self.base_url(), "/book/").as_str(), book_id)
    }

    /// The chapter-list endpoint.
    pub fn chapter_list_url(&self) -> (r: String)
        ensures
            r@ == cw_base() + "/chapter/get_chapter_list_in_chapter_detail"@,
    {
        concat(self.base_url(), "/chapter/get_chapter_list_in_chapter_detail")
    }

    /// The chapter-list form: the book, from the start, in order.
    pub fn chapter_list_form(book_id: &str) -> (r: Vec<(String, String)>)
        ensures
            r@.map_values(|p: (String, String)| (p.0@, p.1@)) == seq![
                ("book_id"@, book_id@),
                ("chapter_id"@, "0"@),
                ("orderby"@, "0"@),
            ],
    {
        let mut r: Vec<(String, String)> = Vec::new();
        r.push((owned("book_id"), owned(book_id)));
        r.push((owned("chapter_id"), owned("0")));
        r.push((owned("orderby"), owned("0")));
        assert(r@.map_values(|p: (String, String)| (p.0@, p.1@)) =~= seq![
            ("book_id"@, book_id@),
            ("chapter_id"@, "0"@),
            ("orderby"@, "0"@),
        ]);
        r
    }

    /// A chapter page: `{base}/chapter/{id}`.
    pub fn chapter_url(&self, chapter_id: &str) -> (r: String)
        ensures
            r@ == cw_base() + "/chapter/"@ + chapter_id@,
    {
        concat(concat(self.base_url(), "/chapter/").as_str(), chapter_id)
    }

    /// The volumes of a chapter-list answer.
    pub fn parse_volumes(catalog: &str) -> (r: Vec<Volume>)
        ensures
            r@.map_values(|v: Volume| v@) == cw_volumes(catalog@),
    {
        let mut out: Vec<Volume> = Vec::new();
        if catalog.is_empty() {
            assert(out@.map_values(|v: Volume| v@) =~= cw_volumes(catalog@));
            return out;
        }
        let fields: Vec<&str> = vec!["h4.sub-tit", "ul.book-chapter-list a[href]"];
        assert(strs_view(fields@) =~= cw_fields());
        let items = select_fields(catalog, "div.book-chapter-box", &fields);
        let ghost iv = items_view(items@);
        assert(iv =~= items@.map_values(|item: Vec<Vec<Node>>| crate::html::groups_view(item@)));
        let mut i: usize = 0;
        while i < items.len()
            invariant
                i <= items.len(),
                iv == items_view(items@),
                out@.map_values(|v: Volume| v@) == cw_volumes_of(iv.take(i as int)),
            decreases items.len() - i,
        {
            assert(iv.take(i + 1).drop_last() =~= iv.take(i as int));
            assert(iv.take(i + 1).last() == crate::html::groups_view(items@[i as int]@));
            let item = &items[i];
            let empty: Vec<Node> = Vec::new();
            let links: &Vec<Node> = if 1 < item.len() {
                &item[1]
            } else {
                &empty
            };
            assert(nodes_view(links@) =~= item_nodes(crate::html::groups_view(item@), 1));
            let chapters = collect_chapters(
                links,
                (|n: &Node| -> (r: Option<ChapterInfo>)
                    ensures
                        opt_chapter_view(r) == cw_link(n@),
                    { cw_link_exec(n) }),
                Ghost(cw_link_fn()),
            );
            if chapters.len() > 0 {
                let name = group_text_exec(item, 0);
                let volume_name = if name.as_str().is_empty() {
                    owned("正文")
                } else {
                    name
                };
                let ghost o0 = out@;
                out.push(Volume { volume_name, chapters });
                assert(out@.map_values(|v: Volume| v@) =~= o0.map_values(|v: Volume| v@).push(out@.last()@));
            }
            i += 1;
        }
        assert(iv.take(i as int) =~= iv);
        out
    }

    /// Parses the book page and the chapter-list answer.
    pub fn parse_book_info(&self, html: &str, catalog: &str) -> (info: BookInfo)
        ensures
            info@ == cw_info(html@, catalog@),
    {
        let mut book_name = meta_content(html, "og:novel:book_name");
        if book_name.as_str().is_empty() {
            book_name = select_text(html, "h1.title");
        }
        let mut author = meta_content(html, "og:novel:author");
        if author.as_str().is_empty() {
            author = select_text(html, "h1.title span a");
        }
        let mut cover_url = meta_content(html, "og:image");
        if cover_url.as_str().is_empty() {
            cover_url = select_attr(html, "div.cover img", "src");
        }
        let mut summary = meta_content(html, "og:description");
        if summary.as_str().is_empty() {
            summary = select_text(html, "div.book-desc");
        }
        proof {
            reveal_strlit("最后更新：");
            reveal_strlit("");
        }
        assert(""@ =~= Seq::<char>::empty());
        let u = select_text(html, "p.update-time");
        let u2 = replace_exec(u.as_str(), "最后更新：", "");
        BookInfo {
            book_name,
            author,
            summary,
            cover_url,
            serial_status: select_text(html, "p.update-state"),
            update_time: trim_exec(u2.as_str()),
            word_count: select_text(html, "p.book-grade b:last-child"),
            volumes: Self::parse_volumes(catalog),
        }
    }

    /// Parses a chapter page.
    pub fn parse_chapter(html: &str, chapter_id: &str) -> (ch: Chapter)
        ensures
            ch@ == cw_chapter(html@, chapter_id@),
    {
        let title = select_text(html, "div#J_BookCnt div.read-hd h1.chapter");
        if contains_exec(html, "J_ImgRead") {
            return Chapter { id: owned(chapter_id), title, content: owned("[VIP图片章节，需要登录并订阅]") };
        }
        let sels: Vec<&str> = vec!["div.read-bd div.chapter-entity", "div#J_BookRead", "div.chapter-content", "div.read-content"];
        assert(strs_view(sels@) =~= cw_body_sels());
        let ls = cw_lines_exec(html, &sels);
        let body = join_exec(&ls, "\n");
        let say = select_text(html, "p.author_say");
        let content = if !say.as_str().is_empty() {
            concat(concat(body.as_str(), "\n\n作者说\n").as_str(), say.as_str())
        } else {
            body
        };
        let content = if content.as_str().is_empty() {
            owned("[需要登录查看章节内容]")
        } else {
            content
        };
        Chapter { id: owned(chapter_id), title, content }
    }
}

} // verus!
