//! 爱下电子书 (ixdzs8): pages may first answer with a browser check that is
//! passed by echoing a token; the catalog is a JSON list.

use vstd::prelude::*;

use crate::html::{
    attr_or_empty, attr_or_empty_exec, group_attr, group_attr_exec, group_text, group_text_exec, html_select,
    html_select_fields, meta, meta_content, normalize_url, normalized_url, nodes_view, or_else, sel_attr, sel_text,
    select_all, select_attr, select_fields, select_text, strs_view, Node, NodeView,
};
use crate::json::{as_array, as_str, as_u64, get, jget, json_parsed, oarr, oget, ostr, ou64, parse_json, same, str_or_empty_exec, Json};
use crate::markup::{clean_content, cleaned};
use crate::providers::common::{
    chapters_view, id_by_rule, items_view, nonempty_texts, nonempty_texts_exec, regex_capture, regex_group1,
    remove_str, remove_str_exec, trim_lines, trim_lines_exec, url_encode, url_encoded, IdRule,
};
use crate::text::{
    before_first, before_first_exec, concat, contains, contains_exec, decimal, join, join_exec, owned, replace_all,
    replace_exec, trim, trim_exec, u64_to_string,
};
use crate::types::{BookInfo, BookInfoView, Chapter, ChapterInfo, ChapterInfoView, ChapterView, SearchResult, SearchResultView, Volume, VolumeView};

verus! {

/// The ixdzs8 site.
pub struct Ixdzs8Provider;

/// Site address.
pub open spec fn ix_base() -> Seq<char> {
    "https://ixdzs8.com"@
}

/// The pattern of the browser-check token.
pub open spec fn ix_token_re() -> Seq<char> {
    "let\\s+token\\s*=\\s*\"([^\"]+)\""@
}

/// What to do with a fetched page: keep it (`None`), or pass the browser
/// check at the returned address and fetch the page again.
pub open spec fn ix_challenge(url: Seq<char>, html: Seq<char>) -> Option<Seq<char>> {
    if !contains(html, "正在验证浏览器"@) {
        None
    } else {
        match regex_group1(ix_token_re(), html) {
            Some(t) => Some(url + "?challenge="@ + t),
            None => None,
        }
    }
}

/// What is read of each search row: title link, author, size, latest
/// chapter, its date.
pub open spec fn ix_fields() -> Seq<Seq<char>> {
    seq!["h3.bname a"@, "span.bauthor a"@, "span.size"@, "p.l-last span.l-chapter"@, "p.l-last span.l-time"@]
}

/// The search results among the first `n` rows; rows without a book path
/// are skipped.
pub open spec fn ix_results_upto(rows: Seq<NodeView>, items: Seq<Seq<Seq<NodeView>>>, n: int) -> Seq<SearchResultView>
    decreases n,
{
    if n <= 0 {
        Seq::empty()
    } else {
        let rest = ix_results_upto(rows, items, n - 1);
        let k = n - 1;
        let it = if k < items.len() {
            items[k]
        } else {
            Seq::empty()
        };
        let path = or_else(attr_or_empty(rows[k], "data-url"@), group_attr(it, 0, "href"@));
        if path.len() == 0 {
            rest
        } else {
            rest.push(
                SearchResultView {
                    site: "ixdzs8"@,
                    book_id: id_by_rule(IdRule::TrimmedSegment, path),
                    title: or_else(group_attr(it, 0, "title"@), group_text(it, 0)),
                    author: group_text(it, 1),
                    latest_chapter: group_text(it, 3),
                    update_date: group_text(it, 4),
                    word_count: group_text(it, 2),
                },
            )
        }
    }
}

/// The search results among the first `limit` rows of a search page.
pub open spec fn ix_results(html: Seq<char>, limit: nat) -> Seq<SearchResultView> {
    let rows = html_select(html, "ul.u-list li.burl"@);
    ix_results_upto(
        rows,
        html_select_fields(html, "ul.u-list li.burl"@, ix_fields()),
        if limit < rows.len() {
            limit as int
        } else {
            rows.len() as int
        },
    )
}

/// The update time: the ISO time with `T` as a space and the zone cut off.
pub open spec fn ix_update(iso: Seq<char>) -> Seq<char> {
    if iso.len() == 0 {
        Seq::empty()
    } else {
        trim(before_first(replace_all(iso, "T"@, " "@), "+"@))
    }
}

/// The summary: `&nbsp;` dropped, `<br />` as line breaks, lines trimmed.
pub open spec fn ix_summary(raw: Seq<char>) -> Seq<char> {
    if raw.len() == 0 {
        Seq::empty()
    } else {
        trim_lines(replace_all(replace_all(raw, "&nbsp;"@, Seq::empty()), "<br />"@, "\n"@))
    }
}

/// The book data of the book page (the catalog comes separately).
pub open spec fn ix_info(html: Seq<char>) -> BookInfoView {
    BookInfoView {
        book_name: or_else(meta(html, "og:novel:book_name"@), sel_text(html, "div.n-text h1"@)),
        author: meta(html, "og:novel:author"@),
        summary: ix_summary(meta(html, "og:description"@)),
        cover_url: or_else(meta(html, "og:image"@), sel_attr(html, "div.n-img img"@, "src"@)),
        serial_status: meta(html, "og:novel:status"@),
        update_time: ix_update(meta(html, "og:novel:update_time"@)),
        word_count: sel_text(html, "div.n-text span.nsize"@),
        volumes: Seq::empty(),
    }
}

/// The order number of a catalog entry: a non-negative integer in decimal,
/// else a string, else empty.
pub open spec fn ix_order(c: Json) -> Seq<char> {
    match ou64(jget(c, "ordernum"@)) {
        Some(n) => decimal(n as nat),
        None => match ostr(jget(c, "ordernum"@)) {
            Some(s) => s,
            None => Seq::empty(),
        },
    }
}

/// The catalog entries with an order number; ids are `p{order}`.
pub open spec fn ix_chapters(list: Seq<Json>, book_id: Seq<char>) -> Seq<ChapterInfoView>
    decreases list.len(),
{
    if list.len() == 0 {
        Seq::empty()
    } else {
        let rest = ix_chapters(list.drop_last(), book_id);
        let c = list.last();
        let ord = ix_order(c);
        let id = "p"@ + ord;
        if ord.len() == 0 {
            rest
        } else {
            rest.push(
                ChapterInfoView {
                    title: trim(
                        match ostr(jget(c, "title"@)) {
                            Some(s) => s,
                            None => "未命名章节"@,
                        },
                    ),
                    chapter_id: id,
                    url: normalized_url(ix_base(), "/read/"@ + book_id + "/"@ + id + ".html"@),
                },
            )
        }
    }
}

/// The volumes of a catalog answer: one volume `正文` of its entries, none
/// when there are none or the answer is not JSON.
pub open spec fn ix_volumes(text: Seq<char>, book_id: Seq<char>) -> Seq<VolumeView> {
    match json_parsed(text) {
        Some(j) => {
            let cs = ix_chapters(
                match oarr(jget(j, "data"@)) {
                    Some(a) => a,
                    None => Seq::empty(),
                },
                book_id,
            );
            if cs.len() > 0 {
                seq![VolumeView { volume_name: "正文"@, chapters: cs }]
            } else {
                Seq::empty()
            }
        },
        None => Seq::empty(),
    }
}

/// The paragraphs of a chapter page: the first one without the title, the
/// last one dropped when it says the chapter ends.
pub open spec fn ix_paragraphs(ps: Seq<Seq<char>>, title: Seq<char>) -> Seq<Seq<char>> {
    let p2 = if ps.len() > 0 {
        let first = trim(remove_str(remove_str(ps[0], title), replace_all(title, " "@, Seq::empty())));
        if first.len() == 0 {
            ps.skip(1)
        } else {
            ps.update(0, first)
        }
    } else {
        ps
    };
    if p2.len() > 0 && contains(p2.last(), "本章完"@) {
        p2.drop_last()
    } else {
        p2
    }
}

/// An ixdzs8 chapter page.
pub open spec fn ix_chapter(html: Seq<char>, chapter_id: Seq<char>) -> ChapterView {
    let title = or_else(sel_text(html, "div.page-d-top h1"@), sel_text(html, "article.page-content h3"@));
    let ps = nonempty_texts(html_select(html, "article.page-content section p:not(.abg)"@));
    ChapterView { id: chapter_id, title, content: cleaned(join(ix_paragraphs(ps, title), "\n"@)) }
}

impl Ixdzs8Provider {
    /// The site's identifier.
    pub fn name(&self) -> (r: &'static str)
        ensures
            r@ == "ixdzs8"@,
    {
        "ixdzs8"
    }

    /// The site's display name (its identifier).
    pub fn display_name(&self) -> (r: &'static str)
        ensures
            r@ == "ixdzs8"@,
    {
        "ixdzs8"
    }

    /// The site's address.
    pub fn base_url(&self) -> (r: &'static str)
        ensures
            r@ == ix_base(),
    {
        "https://ixdzs8.com"
    }

    /// The site has a search.
    pub fn supports_search(&self) -> (r: bool)
        ensures
            r,
    {
        true
    }

    /// What to do with a fetched page (see [`ix_challenge`]).
    pub fn challenge_url(url: &str, html: &str) -> (r: Option<String>)
        ensures
            crate::html::opt_str_view(r) == ix_challenge(url@, html@),
    {
        if !contains_exec(html, "正在验证浏览器") {
            return None;
        }
        match regex_capture("let\\s+token\\s*=\\s*\"([^\"]+)\"", html) {
            Some(t) => Some(concat(concat(url, "?challenge=").as_str(), t.as_str())),
            None => None,
        }
    }

    /// The search page: `{base}/bsearch?q={keyword}`.
    pub fn search_url(&self, keyword: &str) -> (r: String)
        ensures
            r@ == ix_base() + "/bsearch?q="@ + url_encoded(keyword@),
    {
        let k = url_encode(keyword);
        concat(concat(self.base_url(), "/bsearch?q=").as_str(), k.as_str())
    }

    /// The book page: `{base}/read/{id}/`.
    pub fn book_url(&self, book_id: &str) -> (r: String)
        ensures
            r@ == ix_base() + "/read/"@ + book_id@ + "/"@,
    {
        concat(concat(concat(self.base_url(), "/read/").as_str(), book_id).as_str(), "/")
    }

    /// The catalog endpoint, posted with `bid`.
    pub fn catalog_url(&self) -> (r: String)
        ensures
            r@ == ix_base() + "/novel/clist/"@,
    {
        concat(self.base_url(), "/novel/clist/")
    }

    /// A chapter page: `{base}/read/{book}/{chapter}.html`.
    pub fn chapter_url(&self, book_id: &str, chapter_id: &str) -> (r: String)
        ensures
            r@ == ix_base() + "/read/"@ + book_id@ + "/"@ + chapter_id@ + ".html"@,
    {
        let a = concat(concat(concat(self.base_url(), "/read/").as_str(), book_id).as_str(), "/");
        concat(concat(a.as_str(), chapter_id).as_str(), ".html")
    }

    /// The results among the first `limit` rows of a search page.
    pub fn parse_search(&self, html: &str, limit: usize) -> (r: Vec<SearchResult>)
        ensures
            r@.map_values(|x: SearchResult| x@) == ix_results(html@, limit as nat),
    {
        let sel = "ul.u-list li.burl";
        let rows = select_all(html, sel);
        let fields: Vec<&str> = vec!["h3.bname a", "span.bauthor a", "span.size", "p.l-last span.l-chapter", "p.l-last span.l-time"];
        assert(strs_view(fields@) =~= ix_fields());
        let items = select_fields(html, sel, &fields);
        let ghost rv = nodes_view(rows@);
        let ghost iv = items_view(items@);
        assert(iv =~= items@.map_values(|item: Vec<Vec<Node>>| crate::html::groups_view(item@)));
        let n = if limit < rows.len() {
            limit
        } else {
            rows.len()
        };
        let empty: Vec<Vec<Node>> = Vec::new();
        let mut out: Vec<SearchResult> = Vec::new();
        let mut k: usize = 0;
        while k < n
            invariant
                k <= n <= rows.len(),
                rv == nodes_view(rows@),
                iv == items_view(items@),
                empty@.len() == 0,
                out@.map_values(|x: SearchResult| x@) == ix_results_upto(rv, iv, k as int),
            decreases n - k,
        {
            let it: &Vec<Vec<Node>> = if k < items.len() {
                &items[k]
            } else {
                &empty
            };
            assert(crate::html::groups_view(it@) =~= (if k < iv.len() {
                iv[k as int]
            } else {
                Seq::empty()
            }));
            assert(rv[k as int] == rows@[k as int]@);
            let mut path = attr_or_empty_exec(&rows[k], "data-url");
            if path.as_str().is_empty() {
                path = group_attr_exec(it, 0, "href");
            }
            if !path.as_str().is_empty() {
                let mut title = group_attr_exec(it, 0, "title");
                if title.as_str().is_empty() {
                    title = group_text_exec(it, 0);
                }
                let r = SearchResult {
                    site: owned("ixdzs8"),
                    book_id: crate::providers::common::chapter_id_by_rule(IdRule::TrimmedSegment, path.as_str()),
                    title,
                    author: group_text_exec(it, 1),
                    latest_chapter: group_text_exec(it, 3),
                    update_date: group_text_exec(it, 4),
                    word_count: group_text_exec(it, 2),
                };
                let ghost o0 = out@;
                out.push(r);
                assert(out@.map_values(|x: SearchResult| x@) =~= o0.map_values(|x: SearchResult| x@).push(out@.last()@));
            }
            k += 1;
        }
        out
    }

    /// Parses the book page.
    pub fn parse_book_info(&self, html: &str) -> (info: BookInfo)
        ensures
            info@ == ix_info(html@),
    {
        let mut book_name = meta_content(html, "og:novel:book_name");
        if book_name.as_str().is_empty() {
            book_name = select_text(html, "div.n-text h1");
        }
        let mut cover_url = meta_content(html, "og:image");
        if cover_url.as_str().is_empty() {
            cover_url = select_attr(html, "div.n-img img", "src");
        }
        let iso = meta_content(html, "og:novel:update_time");
        let update_time = if !iso.as_str().is_empty() {
            proof {
                reveal_strlit("T");
            }
            let a = replace_exec(iso.as_str(), "T", " ");
            let b = before_first_exec(a.as_str(), "+");
            trim_exec(b.as_str())
        } else {
            String::new()
        };
        let raw = meta_content(html, "og:description");
        let summary = if !raw.as_str().is_empty() {
            proof {
                reveal_strlit("&nbsp;");
                reveal_strlit("<br />");
                reveal_strlit("");
            }
            assert(""@ =~= Seq::<char>::empty());
            let a = replace_exec(raw.as_str(), "&nbsp;", "");
            let b = replace_exec(a.as_str(), "<br />", "\n");
            trim_lines_exec(b.as_str())
        } else {
            String::new()
        };
        let info = BookInfo {
            book_name,
            author: meta_content(html, "og:novel:author"),
            summary,
            cover_url,
            serial_status: meta_content(html, "og:novel:status"),
            update_time,
            word_count: select_text(html, "div.n-text span.nsize"),
            volumes: Vec::new(),
        };
        assert(info@.volumes =~= ix_info(html@).volumes);
        info
    }

    /// The volumes of a catalog answer.
    pub fn parse_volumes(&self, text: &str, book_id: &str) -> (r: Vec<Volume>)
        ensures
            r@.map_values(|v: Volume| v@) == ix_volumes(text@, book_id@),
    {
        let mut out: Vec<Volume> = Vec::new();
        match parse_json(text) {
            Some(j) => {
                let ghost list = match oarr(jget(j, "data"@)) {
                    Some(a) => a,
                    None => Seq::<Json>::empty(),
                };
                let mut chapters: Vec<ChapterInfo> = Vec::new();
                match as_array(get(&j, "data")) {
                    Some(arr) => {
                        let mut i: usize = 0;
                        while i < arr.len()
                            invariant
                                i <= arr.len(),
                                list == arr@,
                                chapters_view(chapters@) == ix_chapters(list.take(i as int), book_id@),
                            decreases arr.len() - i,
                        {
                            assert(list.take(i + 1).drop_last() =~= list.take(i as int));
                            assert(list.take(i + 1).last() == arr@[i as int]);
                            let c = &arr[i];
                            let ov = get(c, "ordernum");
                            let ord = match as_u64(ov) {
                                Some(n) => u64_to_string(n),
                                None => match as_str(ov) {
                                    Some(s) => owned(s),
                                    None => String::new(),
                                },
                            };
                            if !ord.as_str().is_empty() {
                                let t = match as_str(get(c, "title")) {
                                    Some(s) => owned(s),
                                    None => owned("未命名章节"),
                                };
                                let id = concat("p", ord.as_str());
                                let path = concat(
                                    concat(concat(concat("/read/", book_id).as_str(), "/").as_str(), id.as_str()).as_str(),
                                    ".html",
                                );
                                let ci = ChapterInfo {
                                    title: trim_exec(t.as_str()),
                                    chapter_id: id,
                                    url: normalize_url("https://ixdzs8.com", path.as_str()),
                                };
                                let ghost o0 = chapters@;
                                chapters.push(ci);
                                assert(chapters_view(chapters@) =~= chapters_view(o0).push(chapters@.last()@));
                            }
                            i += 1;
                        }
                        assert(list.take(i as int) =~= list);
                    },
                    None => {
                        assert(chapters_view(chapters@) =~= ix_chapters(list, book_id@));
                    },
                }
                if chapters.len() > 0 {
                    out.push(Volume { volume_name: owned("正文"), chapters });
                }
                assert(out@.map_values(|v: Volume| v@) =~= ix_volumes(text@, book_id@));
            },
            None => {
                assert(out@.map_values(|v: Volume| v@) =~= ix_volumes(text@, book_id@));
            },
        }
        out
    }

    /// Parses a chapter page.
    pub fn parse_chapter(html: &str, chapter_id: &str) -> (ch: Chapter)
        ensures
            ch@ == ix_chapter(html@, chapter_id@),
    {
        let mut title = select_text(html, "div.page-d-top h1");
        if title.as_str().is_empty() {
            title = select_text(html, "article.page-content h3");
        }
        let nodes = select_all(html, "article.page-content section p:not(.abg)");
        let mut ps = nonempty_texts_exec(&nodes);
        let ghost p0 = ps@.map_values(|s: String| s@);
        if ps.len() > 0 {
            proof {
                reveal_strlit(" ");
                reveal_strlit("");
            }
            assert(""@ =~= Seq::<char>::empty());
            let bare = replace_exec(title.as_str(), " ", "");
            let a = remove_str_exec(ps[0].as_str(), title.as_str());
            let b = remove_str_exec(a.as_str(), bare.as_str());
            let first = trim_exec(b.as_str());
            if first.as_str().is_empty() {
                ps.remove(0);
                assert(ps@.map_values(|s: String| s@) =~= p0.skip(1));
            } else {
                let ghost q = ps@;
                ps.set(0, first);
                assert(ps@.map_values(|s: String| s@) =~= p0.update(0, ps@[0]@));
            }
        }
        let ghost p2 = ps@.map_values(|s: String| s@);
        if ps.len() > 0 && contains_exec(ps[ps.len() - 1].as_str(), "本章完") {
            assert(p2.last() == ps@[ps.len() - 1]@);
            ps.pop();
            assert(ps@.map_values(|s: String| s@) =~= p2.drop_last());
        }
        assert(ps@.map_values(|s: String| s@) =~= ix_paragraphs(p0, title@));
        let joined = join_exec(&ps, "\n");
        Chapter { id: owned(chapter_id), title, content: clean_content(joined.as_str()) }
    }
}

} // verus!
