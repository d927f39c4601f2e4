//! 哔哩轻小说 (linovelib): the info page lists volume pages, each volume
//! page lists its chapters, and chapters span numbered pages.

use vstd::prelude::*;

use crate::html::{
    attr_or_empty, attr_or_empty_exec, element_text, html_select, html_select_in, meta,
    meta_content, node_text, nodes_view, or_else, sel_text, select_all, select_in, select_text,
    Node, NodeView,
};
use crate::providers::common::{
    chapters_view, collect, collect_chapters, dedup, dedup_exec, opt_chapter_view,
    regex_all_captured, regex_captures_all, regex_escape, regex_escaped, trim_start_set,
    trim_start_set_exec,
};
use crate::text::{
    after_last, after_last_exec, before_first, before_first_exec, concat, contains,
    contains_exec, decimal, owned, replace_all, replace_exec, starts_with, starts_with_exec,
    trim, trim_exec, usize_to_string,
};
use crate::types::{BookInfo, BookInfoView, Chapter, ChapterInfo, ChapterInfoView, Volume, VolumeView};

verus! {

/// The linovelib site.
pub struct LinovelibProvider;

/// Site address.
pub open spec fn lib_base() -> Seq<char> {
    "https://www.linovelib.com"@
}

/// The book fields of an info page (volumes are read from volume pages).
pub open spec fn lib_info(html: Seq<char>) -> BookInfoView {
    let wc = sel_text(html, "div.nums span"@);
    BookInfoView {
        book_name: or_else(or_else(meta(html, "og:novel:book_name"@), meta(html, "og:title"@)), sel_text(html, "h1.book-name"@)),
        author: or_else(or_else(meta(html, "og:novel:author"@), meta(html, "author"@)), sel_text(html, "div.book-author div.au-name a"@)),
        summary: or_else(meta(html, "og:description"@), sel_text(html, "div.book-dec p"@)),
        cover_url: or_else(meta(html, "og:image"@), meta(html, "pic"@)),
        serial_status: or_else(meta(html, "og:novel:status"@), sel_text(html, "div.book-label a.state"@)),
        update_time: meta(html, "og:novel:update_time"@),
        word_count: if contains(wc, "字数"@) {
            trim(replace_all(wc, "字数："@, Seq::empty()))
        } else {
            Seq::empty()
        },
        volumes: Seq::empty(),
    }
}

/// The pattern of volume links of a book.
pub open spec fn lib_vol_pattern(book_id: Seq<char>) -> Seq<char> {
    "/novel/"@ + regex_escaped(book_id) + "/([^.]+)\\.html"@
}

/// The pattern used when the book's own pattern does not compile.
pub open spec fn lib_vol_fallback() -> Seq<char> {
    "/novel/\\d+/(vol_\\d+)\\.html"@
}

/// The captured ids that start with `vol_`, in order.
pub open spec fn vol_only(s: Seq<Seq<char>>) -> Seq<Seq<char>>
    decreases s.len(),
{
    if s.len() == 0 {
        s
    } else {
        let r = vol_only(s.drop_last());
        if starts_with(s.last(), "vol_"@) {
            r.push(s.last())
        } else {
            r
        }
    }
}

/// The volume ids linked from a page, in page order, without consecutive
/// repeats.
pub open spec fn lib_vol_ids(html: Seq<char>, book_id: Seq<char>) -> Seq<Seq<char>> {
    let caps = match regex_all_captured(lib_vol_pattern(book_id), html) {
        Some(v) => v,
        None => match regex_all_captured(lib_vol_fallback(), html) {
            Some(v) => v,
            None => Seq::empty(),
        },
    };
    dedup(vol_only(caps))
}

/// A sequence in reverse order.
pub open spec fn rev(s: Seq<Seq<char>>) -> Seq<Seq<char>>
    decreases s.len(),
{
    if s.len() == 0 {
        s
    } else {
        seq![s.last()] + rev(s.drop_last())
    }
}

/// Characters stripped between the book name and a volume name.
pub open spec fn lib_sep_chars() -> Seq<char> {
    " ：:·-—"@
}

/// A volume's name: its page title without the book name prefix and the
/// separators after it.
pub open spec fn lib_volume_name(full: Seq<char>, book_name: Seq<char>) -> Seq<char> {
    if book_name.len() > 0 && starts_with(full, book_name) {
        trim_start_set(full.skip(book_name.len() as int), lib_sep_chars())
    } else {
        full
    }
}

/// A chapter link of a volume page: id = last segment before `.`; entries
/// without a title or an id are dropped.
pub open spec fn lib_link(book_id: Seq<char>, n: NodeView) -> Option<ChapterInfoView> {
    let title = node_text(n);
    let href = attr_or_empty(n, "href"@);
    let id = before_first(after_last(href, "/"@), "."@);
    if title.len() == 0 || id.len() == 0 {
        None
    } else {
        Some(ChapterInfoView { title, chapter_id: id, url: lib_base() + "/novel/"@ + book_id + "/"@ + id + ".html"@ })
    }
}

/// [`lib_link`] as a function value.
pub open spec fn lib_link_fn(book_id: Seq<char>) -> spec_fn(NodeView) -> Option<ChapterInfoView> {
    |n: NodeView| lib_link(book_id, n)
}

/// The volume of a volume page, when it has chapters.
pub open spec fn lib_volume(html: Seq<char>, book_id: Seq<char>, book_name: Seq<char>) -> Option<VolumeView> {
    let full = or_else(meta(html, "og:title"@), sel_text(html, "h1.book-name"@));
    let chapters = collect(html_select(html, "div.book-new-chapter a[href]"@), lib_link_fn(book_id));
    if chapters.len() > 0 {
        Some(VolumeView { volume_name: lib_volume_name(full, book_name), chapters })
    } else {
        None
    }
}

/// The suffix of page `page` of a chapter.
pub open spec fn lib_page_suffix(book_id: Seq<char>, chapter_id: Seq<char>, page: nat) -> Seq<char> {
    if page == 1 {
        "/novel/"@ + book_id + "/"@ + chapter_id + ".html"@
    } else {
        "/novel/"@ + book_id + "/"@ + chapter_id + "_"@ + decimal(page) + ".html"@
    }
}

/// A chapter being read page by page.
pub struct ChapterPages {
    pub title: String,
    pub paragraphs: Vec<String>,
    /// Number of the page read next.
    pub page: usize,
}

/// The trimmed non-empty paragraph texts of a reading area.
pub open spec fn lib_paragraphs(nodes: Seq<NodeView>) -> Seq<Seq<char>>
    decreases nodes.len(),
{
    if nodes.len() == 0 {
        Seq::empty()
    } else {
        let r = lib_paragraphs(nodes.drop_last());
        let t = trim(node_text(nodes.last()));
        if t.len() > 0 {
            r.push(t)
        } else {
            r
        }
    }
}

/// The paragraphs of the first reading area of a page.
pub open spec fn lib_page_paragraphs(html: Seq<char>) -> Seq<Seq<char>> {
    let g = html_select_in(html, "#TextContent"@, "p"@);
    if g.len() > 0 {
        lib_paragraphs(g[0])
    } else {
        Seq::empty()
    }
}

fn lib_link_exec(book_id: &str, n: &Node) -> (r: Option<ChapterInfo>)
    ensures
        opt_chapter_view(r) == lib_link(book_id@, n@),
{
    let title = element_text(n);
    let href = attr_or_empty_exec(n, "href");
    let a = after_last_exec(href.as_str(), "/");
    let id = before_first_exec(a.as_str(), ".");
    if title.as_str().is_empty() || id.as_str().is_empty() {
        return None;
    }
    let u1 = concat(concat(concat("https://www.linovelib.com", "/novel/").as_str(), book_id).as_str(), "/");
    let url = concat(concat(u1.as_str(), id.as_str()).as_str(), ".html");
    Some(ChapterInfo { title, chapter_id: id, url })
}

impl LinovelibProvider {
    /// The site's identifier.
    pub fn name(&self) -> (r: &'static str)
        ensures
            r@ == "linovelib"@,
    {
        "linovelib"
    }

    /// The site's display name.
    pub fn display_name(&self) -> (r: &'static str)
        ensures
            r@ == "哔哩轻小说"@,
    {
        "哔哩轻小说"
    }

    /// The site's address.
    pub fn base_url(&self) -> (r: &'static str)
        ensures
            r@ == lib_base(),
    {
        "https://www.linovelib.com"
    }

    /// The info page: `{base}/novel/{id}.html`.
    pub fn info_url(&self, book_id: &str) -> (r: String)
        ensures
            r@ == lib_base() + "/novel/"@ + book_id@ + ".html"@,
    {
        concat(concat(concat(self.base_url(), "/novel/").as_str(), book_id).as_str(), ".html")
    }

    /// The catalog page: `{base}/novel/{id}/catalog`.
    pub fn catalog_url(&self, book_id: &str) -> (r: String)
        ensures
            r@ == lib_base() + "/novel/"@ + book_id@ + "/catalog"@,
    {
        concat(concat(concat(self.base_url(), "/novel/").as_str(), book_id).as_str(), "/catalog")
    }

    /// The catalog page to read volume ids from, when the info page's ids
    /// `info_ids` are none; `None` when the info page gave some.
    pub fn catalog_fallback(&self, info_ids: &Vec<String>, book_id: &str) -> (r: Option<String>)
        ensures
            info_ids@.len() == 0 ==> (r matches Some(u) && u@ == lib_base() + "/novel/"@ + book_id@ + "/catalog"@),
            info_ids@.len() > 0 ==> r is None,
    {
        if info_ids.len() == 0 {
            Some(self.catalog_url(book_id))
        } else {
            None
        }
    }

    /// A volume page: `{base}/novel/{id}/{vol}.html`.
    pub fn volume_url(&self, book_id: &str, vol_id: &str) -> (r: String)
        ensures
            r@ == lib_base() + "/novel/"@ + book_id@ + "/"@ + vol_id@ + ".html"@,
    {
        let a = concat(concat(concat(self.base_url(), "/novel/").as_str(), book_id).as_str(), "/");
        concat(concat(a.as_str(), vol_id).as_str(), ".html")
    }

    /// Page `page` of a chapter.
    pub fn chapter_page_url(&self, book_id: &str, chapter_id: &str, page: usize) -> (r: String)
        ensures
            r@ == lib_base() + lib_page_suffix(book_id@, chapter_id@, page as nat),
    {
        let a = concat(concat(concat("/novel/", book_id).as_str(), "/").as_str(), chapter_id);
        let suffix = if page == 1 {
            concat(a.as_str(), ".html")
        } else {
            concat(concat(concat(a.as_str(), "_").as_str(), usize_to_string(page).as_str()).as_str(), ".html")
        };
        concat(self.base_url(), suffix.as_str())
    }

    /// The book fields of an info page.
    pub fn parse_info(&self, html: &str) -> (info: BookInfo)
        ensures
            info@ == lib_info(html@),
    {
        let mut book_name = meta_content(html, "og:novel:book_name");
        if book_name.as_str().is_empty() {
            book_name = meta_content(html, "og:title");
        }
        if book_name.as_str().is_empty() {
            book_name = select_text(html, "h1.book-name");
        }
        let mut author = meta_content(html, "og:novel:author");
        if author.as_str().is_empty() {
            author = meta_content(html, "author");
        }
        if author.as_str().is_empty() {
            author = select_text(html, "div.book-author div.au-name a");
        }
        let mut cover_url = meta_content(html, "og:image");
        if cover_url.as_str().is_empty() {
            cover_url = meta_content(html, "pic");
        }
        let mut serial_status = meta_content(html, "og:novel:status");
        if serial_status.as_str().is_empty() {
            serial_status = select_text(html, "div.book-label a.state");
        }
        let mut summary = meta_content(html, "og:description");
        if summary.as_str().is_empty() {
            summary = select_text(html, "div.book-dec p");
        }
        let wc = select_text(html, "div.nums span");
        proof {
            reveal_strlit("字数：");
            reveal_strlit("");
            assert(""@ =~= Seq::<char>::empty());
        }
        let word_count = if contains_exec(wc.as_str(), "字数") {
            let r = replace_exec(wc.as_str(), "字数：", "");
            trim_exec(r.as_str())
        } else {
            String::new()
        };
        let update_time = meta_content(html, "og:novel:update_time");
        let info = BookInfo {
            book_name,
            author,
            summary,
            cover_url,
            serial_status,
            update_time,
            word_count,
            volumes: Vec::new(),
        };
        assert(info@.volumes =~= lib_info(html@).volumes);
        info
    }

    /// The volume ids linked from a page (see [`lib_vol_ids`]).
    pub fn volume_ids(&self, html: &str, book_id: &str) -> (r: Vec<String>)
        ensures
            r@.map_values(|s: String| s@) == lib_vol_ids(html@, book_id@),
    {
        let esc = regex_escape(book_id);
        let pat = concat(concat("/novel/", esc.as_str()).as_str(), "/([^.]+)\\.html");
        let caps: Vec<String> = match regex_captures_all(pat.as_str(), html) {
            Some(v) => v,
            None => match regex_captures_all("/novel/\\d+/(vol_\\d+)\\.html", html) {
                Some(v) => v,
                None => Vec::new(),
            },
        };
        let ghost cv = caps@.map_values(|s: String| s@);
        let mut kept: Vec<String> = Vec::new();
        let mut i: usize = 0;
        while i < caps.len()
            invariant
                i <= caps.len(),
                cv == caps@.map_values(|s: String| s@),
                kept@.map_values(|s: String| s@) == vol_only(cv.take(i as int)),
            decreases caps.len() - i,
        {
            assert(cv.take(i + 1).drop_last() =~= cv.take(i as int));
            assert(cv.take(i + 1).last() == caps@[i as int]@);
            if starts_with_exec(caps[i].as_str(), "vol_") {
                let ghost prev = kept@;
                kept.push(caps[i].clone());
                assert(kept@.map_values(|s: String| s@) =~= prev.map_values(|s: String| s@).push(caps@[i as int]@));
            }
            i += 1;
        }
        assert(cv.take(i as int) =~= cv);
        dedup_exec(kept)
    }

    /// The volume ids of the info page, last first.
    pub fn info_volume_ids(&self, html: &str, book_id: &str) -> (r: Vec<String>)
        ensures
            r@.map_values(|s: String| s@) == rev(lib_vol_ids(html@, book_id@)),
    {
        let mut ids = self.volume_ids(html, book_id);
        let ghost orig = ids@.map_values(|s: String| s@);
        let mut out: Vec<String> = Vec::new();
        while ids.len() > 0
            invariant
                out@.map_values(|s: String| s@) == rev(orig).take(out@.len() as int),
                ids@.map_values(|s: String| s@) == orig.take(ids@.len() as int),
                out@.len() + ids@.len() == orig.len(),
            decreases ids.len(),
        {
            let ghost before = ids@;
            let x = ids.pop().unwrap();
            proof {
                lemma_rev_index(orig, out@.len() as int);
                lemma_rev_len(orig);
            }
            assert(x == before[before.len() - 1]);
            assert(before.map_values(|s: String| s@)[before.len() - 1] == orig[before.len() - 1]);
            assert(x@ == rev(orig)[out@.len() as int]);
            let ghost prev = out@;
            out.push(x);
            assert(rev(orig).take(out@.len() as int) =~= rev(orig).take(prev.len() as int).push(rev(orig)[prev.len() as int]));
            assert(ids@ =~= before.drop_last());
            assert(ids@.map_values(|s: String| s@) =~= orig.take(ids@.len() as int));
            assert(out@.map_values(|s: String| s@) =~= rev(orig).take(out@.len() as int));
        }
        proof {
            lemma_rev_len(orig);
        }
        assert(rev(orig).take(out@.len() as int) =~= rev(orig));
        out
    }

    /// One step of reading the volume pages: `page` is the answer for a
    /// volume page, `None` when fetching it failed. A page that yields a
    /// volume adds it at the end of `info`'s volumes; nothing else changes.
    pub fn add_volume(&self, info: &mut BookInfo, page: Option<&str>, book_id: &str)
        ensures
            final(info)@.book_name == old(info)@.book_name,
            final(info)@.author == old(info)@.author,
            final(info)@.summary == old(info)@.summary,
            final(info)@.cover_url == old(info)@.cover_url,
            final(info)@.serial_status == old(info)@.serial_status,
            final(info)@.update_time == old(info)@.update_time,
            final(info)@.word_count == old(info)@.word_count,
            final(info)@.volumes == old(info)@.volumes + match page {
                Some(h) => match lib_volume(h@, book_id@, old(info)@.book_name) {
                    Some(v) => seq![v],
                    None => Seq::<VolumeView>::empty(),
                },
                None => Seq::<VolumeView>::empty(),
            },
    {
        match page {
            Some(h) => {
                let v = self.parse_volume(h, book_id, info.book_name.as_str());
                match v {
                    Some(v) => {
                        let ghost before = info.volumes@;
                        info.volumes.push(v);
                        assert(info.volumes@.map_values(|x: Volume| x@) =~= before.map_values(|x: Volume| x@) + seq![v@]);
                    },
                    None => {
                        assert(info@.volumes =~= old(info)@.volumes + Seq::<VolumeView>::empty());
                    },
                }
            },
            None => {
                assert(info@.volumes =~= old(info)@.volumes + Seq::<VolumeView>::empty());
            },
        }
    }

    /// The volume of a volume page, named relative to the book name.
    pub fn parse_volume(&self, html: &str, book_id: &str, book_name: &str) -> (r: Option<Volume>)
        ensures
            crate::providers::lnovel::opt_volume_view(r) == lib_volume(html@, book_id@, book_name@),
    {
        let mut full = meta_content(html, "og:title");
        if full.as_str().is_empty() {
            full = select_text(html, "h1.book-name");
        }
        let volume_name = if !book_name.is_empty() && starts_with_exec(full.as_str(), book_name) {
            let fv = crate::text::chars_of(full.as_str());
            let bv = crate::text::chars_of(book_name);
            let rest = crate::text::string_of(crate::text::sub_chars(&fv, bv.len(), fv.len()).as_slice());
            assert(rest@ =~= full@.skip(book_name@.len() as int));
            trim_start_set_exec(rest.as_str(), " ：:·-—")
        } else {
            full
        };
        let links = select_all(html, "div.book-new-chapter a[href]");
        let chapters = collect_chapters(
            &links,
            (|n: &Node| -> (r: Option<ChapterInfo>)
                ensures
                    opt_chapter_view(r) == lib_link(book_id@, n@),
                { lib_link_exec(book_id, n) }),
            Ghost(lib_link_fn(book_id@)),
        );
        if chapters.len() > 0 {
            Some(Volume { volume_name, chapters })
        } else {
            None
        }
    }
}

/// Element `i` of the reverse is element `len - 1 - i`.
pub proof fn lemma_rev_index(s: Seq<Seq<char>>, i: int)
    requires
        0 <= i < s.len(),
    ensures
        rev(s).len() == s.len(),
        rev(s)[i] == s[s.len() - 1 - i],
    decreases s.len(),
{
    lemma_rev_len(s);
    if i > 0 {
        lemma_rev_index(s.drop_last(), i - 1);
    }
}

/// The reverse has the same length.
pub proof fn lemma_rev_len(s: Seq<Seq<char>>)
    ensures
        rev(s).len() == s.len(),
    decreases s.len(),
{
    if s.len() > 0 {
        lemma_rev_len(s.drop_last());
    }
}

impl ChapterPages {
    /// A chapter with nothing read yet; page 1 is read first.
    pub fn new() -> (r: ChapterPages)
        ensures
            r.title@.len() == 0,
            r.paragraphs@.len() == 0,
            r.page == 1,
    {
        ChapterPages { title: String::new(), paragraphs: Vec::new(), page: 1 }
    }

    /// Takes in the page just fetched: the title from the first page that
    /// has one, the trimmed non-empty paragraphs of its reading area; then
    /// the address of the next page if this page links to it.
    pub fn absorb(&mut self, html: &str, book_id: &str, chapter_id: &str) -> (next: Option<String>)
        requires
            old(self).page >= 1,
        ensures
            final(self).title@ == if old(self).title@.len() == 0 {
                or_else(sel_text(html@, "div#mlfy_main_text h1"@), sel_text(html@, "h1"@))
            } else {
                old(self).title@
            },
            final(self).paragraphs@.map_values(|s: String| s@) == old(self).paragraphs@.map_values(
                |s: String| s@,
            ) + lib_page_paragraphs(html@),
            old(self).page < usize::MAX ==> final(self).page == old(self).page + 1,
            old(self).page < usize::MAX && contains(html@, lib_page_suffix(book_id@, chapter_id@, (old(self).page + 1) as nat))
                ==> (next matches Some(u) && u@ == lib_base() + lib_page_suffix(book_id@, chapter_id@, (old(self).page + 1) as nat)),
            !(old(self).page < usize::MAX && contains(html@, lib_page_suffix(book_id@, chapter_id@, (old(self).page + 1) as nat)))
                ==> next is None,
    {
        if self.title.as_str().is_empty() {
            self.title = select_text(html, "div#mlfy_main_text h1");
            if self.title.as_str().is_empty() {
                self.title = select_text(html, "h1");
            }
        }
        let groups = select_in(html, "#TextContent", "p");
        if groups.len() > 0 {
            let ps = &groups[0];
            let ghost pv = nodes_view(ps@);
            let ghost base = self.paragraphs@.map_values(|s: String| s@);
            let ghost t_now = self.title@;
            let ghost p_now = self.page;
            let mut i: usize = 0;
            while i < ps.len()
                invariant
                    i <= ps.len(),
                    pv == nodes_view(ps@),
                    self.title@ == t_now,
                    self.page == p_now,
                    self.paragraphs@.map_values(|s: String| s@) == base + lib_paragraphs(pv.take(i as int)),
                decreases ps.len() - i,
            {
                assert(pv.take(i + 1).drop_last() =~= pv.take(i as int));
                assert(pv.take(i + 1).last() == ps@[i as int]@);
                let t0 = element_text(&ps[i]);
                let t = trim_exec(t0.as_str());
                if !t.as_str().is_empty() {
                    let ghost prev = self.paragraphs@;
                    self.paragraphs.push(t);
                    assert(self.paragraphs@.map_values(|s: String| s@) =~= prev.map_values(|s: String| s@).push(self.paragraphs@.last()@));
                }
                i += 1;
            }
            assert(pv.take(i as int) =~= pv);
            assert(pv == groups@.map_values(|v: Vec<Node>| nodes_view(v@))[0]);
        } else {
            assert(self.paragraphs@.map_values(|s: String| s@) =~= self.paragraphs@.map_values(|s: String| s@) + Seq::<Seq<char>>::empty());
        }
        if self.page == usize::MAX {
            return None;
        }
        self.page = self.page + 1;
        let suffix = concat(
            concat(concat(concat(concat(concat("/novel/", book_id).as_str(), "/").as_str(), chapter_id).as_str(), "_").as_str(), usize_to_string(self.page).as_str()).as_str(),
            ".html",
        );
        proof {
            assert(self.page != 1);
        }
        if contains_exec(html, suffix.as_str()) {
            Some(concat("https://www.linovelib.com", suffix.as_str()))
        } else {
            None
        }
    }

    /// The chapter: the collected paragraphs joined by `\n`.
    pub fn finish(self, chapter_id: &str) -> (ch: Chapter)
        ensures
            ch@.id == chapter_id@,
            ch@.title == self.title@,
            ch@.content == crate::text::join(self.paragraphs@.map_values(|s: String| s@), "\n"@),
    {
        let content = crate::text::join_exec(&self.paragraphs, "\n");
        Chapter { id: owned(chapter_id), title: self.title, content }
    }
}

} // verus!
