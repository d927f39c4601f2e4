//! 鲲弩小说 (kunnu): labelled metadata paragraphs, a content list of volume
//! titles and chapter lists, and chapter paragraphs without advertisements.

use vstd::prelude::*;

use crate::html::{
    attr_or_empty, attr_or_empty_exec, element_text, html_select, html_select_in, node_text, nodes_view,
    normalize_url, normalized_url, or_else, sel_attr, sel_text, select_all, select_attr, select_in, select_text,
    strs_view, Node, NodeView,
};
use crate::providers::common::{
    chapters_view, collect, collect_chapters, contains_any, contains_any_exec, keep_by, kept_by, nonempty_texts,
    nonempty_texts_exec, opt_chapter_view, paragraphs, paragraphs_exec, strip_exec, stripped, titled_link,
    titled_link_exec,
};
use crate::text::{
    after_last, after_last_exec, concat, contains, contains_exec, join, join_exec, lowercase, owned, starts_with,
    starts_with_exec, to_lowercase, trim_end_matches, trim_end_matches_exec,
};
use crate::types::{BookInfo, BookInfoView, Chapter, ChapterInfo, ChapterInfoView, ChapterView, Volume, VolumeView};

verus! {

/// The kunnu site.
pub struct KunnuProvider;

/// Site address.
pub open spec fn kn_base() -> Seq<char> {
    "https://www.kunnu.com"@
}

/// Words that mark a line as an advertisement.
pub open spec fn kn_ad_words() -> Seq<Seq<char>> {
    seq!["鲲弩小说"@, "kunnu.com"@, "最新章节"@, "请记住"@, "本站域名"@, "请收藏"@, "加入书架"@]
}

/// Whether a line, lower-cased, contains one of the advertisement words.
pub open spec fn kn_is_ad(t: Seq<char>) -> bool {
    contains_any(lowercase(t), kn_ad_words())
}

/// Whether a line is kept in a chapter.
pub open spec fn kn_keep() -> spec_fn(Seq<char>) -> bool {
    |t: Seq<char>| !kn_is_ad(t)
}

/// Author, status and last update read from the labelled paragraphs.
pub struct KnMeta {
    pub author: Seq<char>,
    pub status: Seq<char>,
    pub update: Seq<char>,
}

/// The labelled paragraphs read in order: a paragraph mentioning `作者` sets
/// the author, else one mentioning `状态` the status, else one mentioning
/// `最近更新` the update time; each value is the text without its label,
/// trimmed.
pub open spec fn kn_meta(ps: Seq<NodeView>) -> KnMeta
    decreases ps.len(),
{
    if ps.len() == 0 {
        KnMeta { author: Seq::empty(), status: Seq::empty(), update: Seq::empty() }
    } else {
        let m = kn_meta(ps.drop_last());
        let t = node_text(ps.last());
        if contains(t, "作者"@) {
            KnMeta { author: stripped(t, seq!["作者："@, "作者:"@]), ..m }
        } else if contains(t, "状态"@) {
            KnMeta { status: stripped(t, seq!["状态："@, "状态:"@]), ..m }
        } else if contains(t, "最近更新"@) {
            KnMeta { update: stripped(t, seq!["最近更新："@, "最近更新:"@]), ..m }
        } else {
            m
        }
    }
}

/// A chapter link: titled by its text, id = last path segment without
/// `.htm` and then `.html`.
pub open spec fn kn_link(n: NodeView) -> Option<ChapterInfoView> {
    match titled_link(n) {
        Some((h, t)) => Some(
            ChapterInfoView {
                title: t,
                chapter_id: after_last(trim_end_matches(trim_end_matches(h, ".htm"@), ".html"@), "/"@),
                url: normalized_url(kn_base(), h),
            },
        ),
        None => None,
    }
}

/// [`kn_link`] as a function value.
pub open spec fn kn_link_fn() -> spec_fn(NodeView) -> Option<ChapterInfoView> {
    |n: NodeView| kn_link(n)
}

/// Volumes closed so far, the current volume name and its chapters.
pub struct KnState {
    pub volumes: Seq<VolumeView>,
    pub name: Seq<char>,
    pub chapters: Seq<ChapterInfoView>,
}

/// One block of the content list: a `title` block closes the current volume
/// (when it has chapters) and names the next; a `book-list` block adds its
/// links; others are skipped.
pub open spec fn kn_step(st: KnState, elem: NodeView, links: Seq<NodeView>) -> KnState {
    let class = attr_or_empty(elem, "class"@);
    if contains(class, "title"@) {
        KnState {
            volumes: if st.chapters.len() > 0 {
                st.volumes.push(VolumeView { volume_name: st.name, chapters: st.chapters })
            } else {
                st.volumes
            },
            name: node_text(elem),
            chapters: Seq::empty(),
        }
    } else if contains(class, "book-list"@) {
        KnState { chapters: st.chapters + collect(links, kn_link_fn()), ..st }
    } else {
        st
    }
}

/// The content list read block by block.
pub open spec fn kn_fold(elems: Seq<NodeView>, groups: Seq<Seq<NodeView>>) -> KnState
    decreases elems.len(),
{
    if elems.len() == 0 {
        KnState { volumes: Seq::empty(), name: Seq::empty(), chapters: Seq::empty() }
    } else {
        let k = elems.len() - 1;
        kn_step(kn_fold(elems.drop_last(), groups), elems.last(), if k < groups.len() { groups[k] } else { Seq::empty() })
    }
}

/// The volumes of a book page, the last one closed when it has chapters.
pub open spec fn kn_volumes(html: Seq<char>) -> Seq<VolumeView> {
    let st = kn_fold(html_select(html, "#content-list > div"@), html_select_in(html, "#content-list > div"@, "a[href]"@));
    if st.chapters.len() > 0 {
        st.volumes.push(VolumeView { volume_name: st.name, chapters: st.chapters })
    } else {
        st.volumes
    }
}

/// The cover: made absolute when it is not already.
pub open spec fn kn_cover(c: Seq<char>) -> Seq<char> {
    if c.len() > 0 && !starts_with(c, "http"@) {
        normalized_url(kn_base(), c)
    } else {
        c
    }
}

/// A kunnu book page.
pub open spec fn kn_info(html: Seq<char>) -> BookInfoView {
    let m = kn_meta(html_select(html, "div.book-describe p, div[class*='book-describe'] p"@));
    BookInfoView {
        book_name: or_else(sel_text(html, "div.book-describe h1, div[class*='book-describe'] h1"@), sel_text(html, "h1"@)),
        author: m.author,
        summary: paragraphs(html_select(html, "div.describe-html p"@)),
        cover_url: kn_cover(sel_attr(html, "div.book-img img"@, "src"@)),
        serial_status: m.status,
        update_time: m.update,
        word_count: Seq::empty(),
        volumes: kn_volumes(html),
    }
}

/// The text of a chapter page: its non-empty paragraphs that are no
/// advertisement, joined with `\n`.
pub open spec fn kn_content(html: Seq<char>) -> Seq<char> {
    join(kept_by(nonempty_texts(html_select(html, "#nr1 p"@)), kn_keep()), "\n"@)
}

/// Whether a line advertises the site: its lower-cased form contains one of
/// the advertisement words.
pub fn is_ad_line(text: &str) -> (r: bool)
    ensures
        r == kn_is_ad(text@),
{
    let kws: Vec<&str> = vec!["鲲弩小说", "kunnu.com", "最新章节", "请记住", "本站域名", "请收藏", "加入书架"];
    assert(strs_view(kws@) =~= kn_ad_words());
    let lower = to_lowercase(text);
    contains_any_exec(lower.as_str(), &kws)
}

fn kn_link_exec(n: &Node) -> (r: Option<ChapterInfo>)
    ensures
        opt_chapter_view(r) == kn_link(n@),
{
    match titled_link_exec(n) {
        Some((href, title)) => {
            let a = trim_end_matches_exec(href.as_str(), ".htm");
            let b = trim_end_matches_exec(a.as_str(), ".html");
            Some(ChapterInfo {
                title,
                chapter_id: after_last_exec(b.as_str(), "/"),
                url: normalize_url("https://www.kunnu.com", href.as_str()),
            })
        },
        None => None,
    }
}

fn kn_meta_exec(ps: &Vec<Node>) -> (r: (String, String, String))
    ensures
        r.0@ == kn_meta(nodes_view(ps@)).author,
        r.1@ == kn_meta(nodes_view(ps@)).status,
        r.2@ == kn_meta(nodes_view(ps@)).update,
{
    let ghost pv = nodes_view(ps@);
    let mut author = String::new();
    let mut status = String::new();
    let mut update = String::new();
    let a_pats: Vec<&str> = vec!["作者：", "作者:"];
    let s_pats: Vec<&str> = vec!["状态：", "状态:"];
    let u_pats: Vec<&str> = vec!["最近更新：", "最近更新:"];
    proof {
        reveal_strlit("作者：");
        reveal_strlit("作者:");
        reveal_strlit("状态：");
        reveal_strlit("状态:");
        reveal_strlit("最近更新：");
        reveal_strlit("最近更新:");
    }
    assert(strs_view(a_pats@) =~= seq!["作者："@, "作者:"@]);
    assert(strs_view(s_pats@) =~= seq!["状态："@, "状态:"@]);
    assert(strs_view(u_pats@) =~= seq!["最近更新："@, "最近更新:"@]);
    let mut i: usize = 0;
    while i < ps.len()
        invariant
            i <= ps.len(),
            pv == nodes_view(ps@),
            strs_view(a_pats@) == seq!["作者："@, "作者:"@],
            strs_view(s_pats@) == seq!["状态："@, "状态:"@],
            strs_view(u_pats@) == seq!["最近更新："@, "最近更新:"@],
            forall|k: int| 0 <= k < a_pats@.len() ==> a_pats@[k]@.len() > 0,
            forall|k: int| 0 <= k < s_pats@.len() ==> s_pats@[k]@.len() > 0,
            forall|k: int| 0 <= k < u_pats@.len() ==> u_pats@[k]@.len() > 0,
            author@ == kn_meta(pv.take(i as int)).author,
            status@ == kn_meta(pv.take(i as int)).status,
            update@ == kn_meta(pv.take(i as int)).update,
        decreases ps.len() - i,
    {
        assert(pv.take(i + 1).drop_last() =~= pv.take(i as int));
        assert(pv.take(i + 1).last() == ps@[i as int]@);
        let t = element_text(&ps[i]);
        if contains_exec(t.as_str(), "作者") {
            author = strip_exec(t.as_str(), &a_pats);
        } else if contains_exec(t.as_str(), "状态") {
            status = strip_exec(t.as_str(), &s_pats);
        } else if contains_exec(t.as_str(), "最近更新") {
            update = strip_exec(t.as_str(), &u_pats);
        }
        i += 1;
    }
    assert(pv.take(i as int) =~= pv);
    (author, status, update)
}

impl KunnuProvider {
    /// The site's identifier.
    pub fn name(&self) -> (r: &'static str)
        ensures
            r@ == "kunnu"@,
    {
        "kunnu"
    }

    /// The site's display name.
    pub fn display_name(&self) -> (r: &'static str)
        ensures
            r@ == "鲲弩小说"@,
    {
        "鲲弩小说"
    }

    /// The site's address.
    pub fn base_url(&self) -> (r: &'static str)
        ensures
            r@ == kn_base(),
    {
        "https://www.kunnu.com"
    }

    /// The site has no search.
    pub fn supports_search(&self) -> (r: bool)
        ensures
            !r,
    {
        false
    }

    /// The book page: `{base}/{id}/`.
    pub fn book_url(&self, book_id: &str) -> (r: String)
        ensures
            r@ == kn_base() + "/"@ + book_id@ + "/"@,
    {
        concat(concat(concat(self.base_url(), "/").as_str(), book_id).as_str(), "/")
    }

    /// A chapter page: `{base}/{book}/{chapter}.htm`.
    pub fn chapter_url(&self, book_id: &str, chapter_id: &str) -> (r: String)
        ensures
            r@ == kn_base() + "/"@ + book_id@ + "/"@ + chapter_id@ + ".htm"@,
    {
        let a = concat(concat(concat(self.base_url(), "/").as_str(), book_id).as_str(), "/");
        concat(concat(a.as_str(), chapter_id).as_str(), ".htm")
    }

    /// The volumes of a book page.
    pub fn parse_volumes(&self, html: &str) -> (r: Vec<Volume>)
        ensures
            r@.map_values(|v: Volume| v@) == kn_volumes(html@),
    {
        let sel = "#content-list > div";
        let elems = select_all(html, sel);
        let groups = select_in(html, sel, "a[href]");
        let ghost ev = nodes_view(elems@);
        let ghost gv = groups@.map_values(|v: Vec<Node>| nodes_view(v@));
        let mut volumes: Vec<Volume> = Vec::new();
        let mut name = String::new();
        let mut chapters: Vec<ChapterInfo> = Vec::new();
        let mut j: usize = 0;
        while j < elems.len()
            invariant
                j <= elems.len(),
                ev == nodes_view(elems@),
                gv == groups@.map_values(|v: Vec<Node>| nodes_view(v@)),
                ({
                    let st = kn_fold(ev.take(j as int), gv);
                    &&& volumes@.map_values(|v: Volume| v@) == st.volumes
                    &&& name@ == st.name
                    &&& chapters_view(chapters@) == st.chapters
                }),
            decreases elems.len() - j,
        {
            assert(ev.take(j + 1).drop_last() =~= ev.take(j as int));
            assert(ev.take(j + 1).last() == elems@[j as int]@);
            let e = &elems[j];
            let class = attr_or_empty_exec(e, "class");
            if contains_exec(class.as_str(), "title") {
                if chapters.len() > 0 {
                    let mut taken: Vec<ChapterInfo> = Vec::new();
                    std::mem::swap(&mut taken, &mut chapters);
                    let ghost prev = volumes@;
                    let nm = name.clone();
                    volumes.push(Volume { volume_name: nm, chapters: taken });
                    assert(volumes@.map_values(|v: Volume| v@) =~= prev.map_values(|v: Volume| v@).push(volumes@.last()@));
                }
                name = element_text(e);
                chapters = Vec::new();
                assert(chapters_view(chapters@) =~= Seq::<ChapterInfoView>::empty());
            } else if contains_exec(class.as_str(), "book-list") {
                let empty: Vec<Node> = Vec::new();
                let links: &Vec<Node> = if j < groups.len() {
                    &groups[j]
                } else {
                    &empty
                };
                assert(nodes_view(links@) =~= (if j < gv.len() {
                    gv[j as int]
                } else {
                    Seq::empty()
                }));
                let mut found = collect_chapters(
                    links,
                    (|n: &Node| -> (r: Option<ChapterInfo>)
                        ensures
                            opt_chapter_view(r) == kn_link(n@),
                        { kn_link_exec(n) }),
                    Ghost(kn_link_fn()),
                );
                let ghost before = chapters_view(chapters@);
                let ghost added = chapters_view(found@);
                let ghost c0 = chapters@;
                let ghost f0 = found@;
                chapters.append(&mut found);
                assert(chapters@ =~= c0 + f0);
                assert(chapters_view(chapters@) =~= before + added);
            }
            j += 1;
        }
        assert(ev.take(j as int) =~= ev);
        if chapters.len() > 0 {
            let ghost prev = volumes@;
            volumes.push(Volume { volume_name: name, chapters });
            assert(volumes@.map_values(|v: Volume| v@) =~= prev.map_values(|v: Volume| v@).push(volumes@.last()@));
        }
        volumes
    }

    /// Parses a book page.
    pub fn parse_book_info(&self, html: &str) -> (info: BookInfo)
        ensures
            info@ == kn_info(html@),
    {
        let c = select_attr(html, "div.book-img img", "src");
        let cover_url = if !c.as_str().is_empty() && !starts_with_exec(c.as_str(), "http") {
            normalize_url(self.base_url(), c.as_str())
        } else {
            c
        };
        let mut book_name = select_text(html, "div.book-describe h1, div[class*='book-describe'] h1");
        if book_name.as_str().is_empty() {
            book_name = select_text(html, "h1");
        }
        let ps = select_all(html, "div.book-describe p, div[class*='book-describe'] p");
        let (author, serial_status, update_time) = kn_meta_exec(&ps);
        let info = BookInfo {
            book_name,
            author,
            summary: paragraphs_exec(html, "div.describe-html p"),
            cover_url,
            serial_status,
            update_time,
            word_count: String::new(),
            volumes: self.parse_volumes(html),
        };
        assert(info@.word_count =~= Seq::<char>::empty());
        info
    }

    /// Parses a chapter page.
    pub fn parse_chapter(&self, html: &str, chapter_id: &str) -> (ch: Chapter)
        ensures
            ch@ == (ChapterView { id: chapter_id@, title: sel_text(html@, "#nr_title, h1.post-title, h1"@), content: kn_content(html@) }),
    {
        let ps = select_all(html, "#nr1 p");
        let texts = nonempty_texts_exec(&ps);
        let kept = keep_by(
            texts,
            (|t: &str| -> (b: bool)
                ensures
                    b == !kn_is_ad(t@),
                { !is_ad_line(t) }),
            Ghost(kn_keep()),
        );
        Chapter { id: owned(chapter_id), title: select_text(html, "#nr_title, h1.post-title, h1"), content: join_exec(&kept, "\n") }
    }
}

} // verus!
