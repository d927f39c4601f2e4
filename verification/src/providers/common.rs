//! Building blocks shared by the site parsers.

use vstd::prelude::*;

use crate::html::{attr_value, element_text, html_select, node_attr, node_text, normalize_url, normalized_url, nodes_view, select_all, strs_view, Node, NodeView};
use crate::markup::{html_to_text, spec_html_to_text};
use crate::text::{
    after_last, after_last_exec, before_first, before_first_exec, trim_end_matches,
    trim_end_matches_exec,
};
use crate::types::{BookInfoView, ChapterInfo, ChapterInfoView, Volume, VolumeView};

verus! {

/// How a chapter id is read off a chapter link.
#[derive(Debug, Clone, Copy, PartialEq, Eq)]
pub enum IdRule {
    /// The last path segment without a `.html` suffix: `/12/345.html` gives `345`.
    LastSegment,
    /// The last path segment up to its first `.`: `/12/345.html` gives `345`,
    /// `/12/345_2.htm` gives `345_2`.
    SegmentStem,
    /// The last path segment as it stands: `/12/345.html` gives `345.html`.
    RawSegment,
    /// The last path segment after trailing `/` are removed: `/c/9/` gives `9`.
    TrimmedSegment,
    /// The last path segment without its query, up to its first `.`:
    /// `/b/12.html?x=1` gives `12`.
    QueryStem,
}

/// The chapter id of a link `href` under a rule.
pub open spec fn id_by_rule(rule: IdRule, href: Seq<char>) -> Seq<char> {
    match rule {
        IdRule::LastSegment => after_last(trim_end_matches(href, ".html"@), "/"@),
        IdRule::SegmentStem => before_first(after_last(href, "/"@), "."@),
        IdRule::RawSegment => after_last(href, "/"@),
        IdRule::TrimmedSegment => after_last(trim_end_matches(href, "/"@), "/"@),
        IdRule::QueryStem => before_first(before_first(after_last(href, "/"@), "?"@), "."@),
    }
}

/// The chapter id of a link under a rule.
pub fn chapter_id_by_rule(rule: IdRule, href: &str) -> (r: String)
    ensures
        r@ == id_by_rule(rule, href@),
{
    match rule {
        IdRule::LastSegment => {
            let t = trim_end_matches_exec(href, ".html");
            after_last_exec(t.as_str(), "/")
        },
        IdRule::SegmentStem => {
            let t = after_last_exec(href, "/");
            before_first_exec(t.as_str(), ".")
        },
        IdRule::RawSegment => after_last_exec(href, "/"),
        IdRule::TrimmedSegment => {
            let t = trim_end_matches_exec(href, "/");
            after_last_exec(t.as_str(), "/")
        },
        IdRule::QueryStem => {
            let t = after_last_exec(href, "/");
            let u = before_first_exec(t.as_str(), "?");
            before_first_exec(u.as_str(), ".")
        },
    }
}

/// The table-of-contents entries of links: each link with an `href` and
/// non-empty text gives an entry titled by its text, with the id read off
/// the `href` and the link made absolute against `base`.
pub open spec fn link_chapters(nodes: Seq<NodeView>, base: Seq<char>, rule: IdRule) -> Seq<ChapterInfoView>
    decreases nodes.len(),
{
    if nodes.len() == 0 {
        Seq::empty()
    } else {
        let rest = link_chapters(nodes.drop_last(), base, rule);
        let n = nodes.last();
        match attr_value(n.attrs, "href"@) {
            Some(h) => if node_text(n).len() > 0 {
                rest.push(
                    ChapterInfoView {
                        title: node_text(n),
                        chapter_id: id_by_rule(rule, h),
                        url: normalized_url(base, h),
                    },
                )
            } else {
                rest
            },
            None => rest,
        }
    }
}

/// View of a list of table-of-contents entries.
pub open spec fn chapters_view(v: Seq<ChapterInfo>) -> Seq<ChapterInfoView> {
    v.map_values(|c: ChapterInfo| c@)
}

/// The table-of-contents entries of the links `nodes` (see [`link_chapters`]).
pub fn links_to_chapters(nodes: &Vec<Node>, base: &str, rule: IdRule) -> (r: Vec<ChapterInfo>)
    ensures
        chapters_view(r@) == link_chapters(nodes_view(nodes@), base@, rule),
{
    let ghost nv = nodes_view(nodes@);
    let mut out: Vec<ChapterInfo> = Vec::new();
    let mut i: usize = 0;
    while i < nodes.len()
        invariant
            i <= nodes.len(),
            nv == nodes_view(nodes@),
            chapters_view(out@) == link_chapters(nv.take(i as int), base@, rule),
        decreases nodes.len() - i,
    {
        let n = &nodes[i];
        assert(nv.take(i + 1).drop_last() =~= nv.take(i as int));
        assert(nv.take(i + 1).last() == n@);
        match node_attr(n, "href") {
            Some(href) => {
                let title = element_text(n);
                if !title.as_str().is_empty() {
                    let chapter_id = chapter_id_by_rule(rule, href.as_str());
                    let url = normalize_url(base, href.as_str());
                    let ghost prev = out@;
                    out.push(ChapterInfo { title, chapter_id, url });
                    assert(chapters_view(out@) =~= chapters_view(prev).push(out@.last()@));
                }
            },
            None => {},
        }
        i += 1;
    }
    assert(nv.take(i as int) =~= nv);
    out
}

/// A single unnamed volume holding `chapters`, or nothing when there are none.
pub open spec fn single_volume_if_any(chapters: Seq<ChapterInfoView>) -> Seq<VolumeView> {
    if chapters.len() > 0 {
        seq![VolumeView { volume_name: Seq::empty(), chapters }]
    } else {
        Seq::empty()
    }
}

/// A single unnamed volume holding `chapters`, even when there are none.
pub open spec fn single_volume(chapters: Seq<ChapterInfoView>) -> Seq<VolumeView> {
    seq![VolumeView { volume_name: Seq::empty(), chapters }]
}

/// An unnamed volume of the given chapters.
pub fn unnamed_volume(chapters: Vec<ChapterInfo>) -> (v: Volume)
    ensures
        v@ == (VolumeView { volume_name: Seq::empty(), chapters: chapters_view(chapters@) }),
{
    Volume { volume_name: String::new(), chapters }
}

/// The book id in a link: the last path segment, without a trailing `/` or an
/// `.html`/`.htm` suffix.
pub open spec fn spec_extract_book_id(href: Seq<char>) -> Seq<char> {
    after_last(trim_end_matches(trim_end_matches(trim_end_matches(href, "/"@), ".html"@), ".htm"@), "/"@)
}

/// A one-character pattern occurs at `j` exactly when that character is there.
proof fn lemma_occurs_one(s: Seq<char>, c: char, j: int)
    requires
        0 <= j < s.len(),
    ensures
        crate::text::occurs_at(s, seq![c], j) <==> s[j] == c,
{
    if s[j] == c {
        assert(s.subrange(j, j + 1) =~= seq![c]);
    }
    if crate::text::occurs_at(s, seq![c], j) {
        assert(s.subrange(j, j + 1)[0] == s[j]);
    }
}

/// A path `p/id` does not end with a pattern that holds no `/` and does not
/// occur in `id`.
proof fn lemma_path_not_ending(p: Seq<char>, id: Seq<char>, pat: Seq<char>)
    requires
        pat.len() >= 1,
        forall|k: int| 0 <= k < pat.len() ==> pat[k] != '/',
        !crate::text::contains(id, pat),
    ensures
        !crate::text::ends_with(p + seq!['/'] + id, pat),
{
    let s = p + seq!['/'] + id;
    let n = s.len() as int;
    let m = pat.len() as int;
    if crate::text::ends_with(s, pat) {
        if m <= id.len() {
            assert(id.subrange(id.len() - m, id.len() as int) =~= s.subrange(n - m, n));
            assert(crate::text::occurs_at(id, pat, id.len() - m));
        } else {
            let k = m - id.len() - 1;
            assert(s.subrange(n - m, n)[k] == s[p.len() as int]);
            assert(s[p.len() as int] == '/');
            assert(pat[k] == '/');
        }
    }
}

/// Trimming a pattern that `s` does not end with leaves `s`.
proof fn lemma_trim_end_none(s: Seq<char>, pat: Seq<char>)
    requires
        pat.len() >= 1,
        !crate::text::ends_with(s, pat),
    ensures
        trim_end_matches(s, pat) == s,
{
}

/// The last `/` of `p/id`, `id` free of `/`, is the one before `id`.
proof fn lemma_last_slash(p: Seq<char>, id: Seq<char>, end: int)
    requires
        p.len() + 1 <= end <= p.len() + 1 + id.len(),
        forall|k: int| 0 <= k < id.len() ==> id[k] != '/',
    ensures
        crate::text::last_occurrence_before(p + seq!['/'] + id, seq!['/'], end) == Some(p.len() as int),
    decreases end,
{
    let s = p + seq!['/'] + id;
    lemma_occurs_one(s, '/', end - 1);
    if end - 1 > p.len() {
        assert(s[end - 1] == id[end - 1 - p.len() - 1]);
        lemma_last_slash(p, id, end - 1);
    }
}

/// The book id of a link `p/id/`, `p/id.html` or `p/id` is `id`, when `id` is
/// not empty and holds no `/`, `.html` or `.htm`: in particular it is never
/// empty for such a link.
pub proof fn lemma_extract_book_id(p: Seq<char>, id: Seq<char>)
    requires
        id.len() > 0,
        forall|k: int| 0 <= k < id.len() ==> id[k] != '/',
        !crate::text::contains(id, ".html"@),
        !crate::text::contains(id, ".htm"@),
    ensures
        spec_extract_book_id(p + "/"@ + id + "/"@) == id,
        spec_extract_book_id(p + "/"@ + id + ".html"@) == id,
        spec_extract_book_id(p + "/"@ + id) == id,
{
    reveal_strlit("/");
    reveal_strlit(".html");
    reveal_strlit(".htm");
    let s = p + seq!['/'] + id;
    assert("/"@ =~= seq!['/']);
    assert(p + "/"@ + id =~= s);
    // `s` ends with none of the three patterns.
    assert forall|k: int| 0 <= k < ".html"@.len() implies ".html"@[k] != '/' by {}
    assert forall|k: int| 0 <= k < ".htm"@.len() implies ".htm"@[k] != '/' by {}
    lemma_path_not_ending(p, id, ".html"@);
    lemma_path_not_ending(p, id, ".htm"@);
    lemma_occurs_one(s, '/', s.len() - 1);
    assert(s[s.len() - 1] == id[id.len() - 1]);
    assert(!crate::text::ends_with(s, "/"@));
    lemma_trim_end_none(s, "/"@);
    lemma_trim_end_none(s, ".html"@);
    lemma_trim_end_none(s, ".htm"@);
    lemma_last_slash(p, id, s.len() as int);
    assert(crate::text::after_last(s, "/"@) =~= id);
    // `p/id/`
    let a = s + "/"@;
    assert(a.subrange(a.len() - 1, a.len() as int) =~= "/"@);
    assert(a.subrange(0, a.len() - 1) =~= s);
    assert(crate::text::ends_with(a, "/"@));
    assert(trim_end_matches(a, "/"@) == trim_end_matches(s, "/"@));
    // `p/id.html`
    let b = s + ".html"@;
    assert(b.subrange(b.len() - 5, b.len() as int) =~= ".html"@);
    assert(b.subrange(0, b.len() - 5) =~= s);
    assert(crate::text::ends_with(b, ".html"@));
    lemma_occurs_one(b, '/', b.len() - 1);
    assert(b[b.len() - 1] == 'l');
    assert(!crate::text::ends_with(b, "/"@));
    lemma_trim_end_none(b, "/"@);
    assert(trim_end_matches(b, ".html"@) == trim_end_matches(s, ".html"@));
    assert(p + "/"@ + id + "/"@ =~= a);
    assert(p + "/"@ + id + ".html"@ =~= b);
}

/// The book id in a link to a book page.
pub fn extract_book_id(href: &str) -> (r: String)
    ensures
        r@ == spec_extract_book_id(href@),
{
    let a = trim_end_matches_exec(href, "/");
    let b = trim_end_matches_exec(a.as_str(), ".html");
    let c = trim_end_matches_exec(b.as_str(), ".htm");
    after_last_exec(c.as_str(), "/")
}

/// The results of `f` on `items`, in order, where `f` gives one.
pub open spec fn collect<A, B>(items: Seq<A>, f: spec_fn(A) -> Option<B>) -> Seq<B>
    decreases items.len(),
{
    if items.len() == 0 {
        Seq::empty()
    } else {
        let r = collect(items.drop_last(), f);
        match f(items.last()) {
            Some(b) => r.push(b),
            None => r,
        }
    }
}

/// One more item: `collect` of a longer prefix.
pub proof fn lemma_collect_step<A, B>(items: Seq<A>, f: spec_fn(A) -> Option<B>, i: int)
    requires
        0 <= i < items.len(),
    ensures
        collect(items.take(i + 1), f) == match f(items[i]) {
            Some(b) => collect(items.take(i), f).push(b),
            None => collect(items.take(i), f),
        },
{
    assert(items.take(i + 1).drop_last() =~= items.take(i));
    assert(items.take(i + 1).last() == items[i]);
}

/// The first `n` items (all when there are fewer).
pub open spec fn take_at_most<A>(items: Seq<A>, n: nat) -> Seq<A> {
    if n < items.len() {
        items.take(n as int)
    } else {
        items
    }
}

/// View of search results.
pub open spec fn results_view(v: Seq<crate::types::SearchResult>) -> Seq<crate::types::SearchResultView> {
    v.map_values(|r: crate::types::SearchResult| r@)
}

/// View of the items of a field selection.
pub open spec fn items_view(v: Seq<Vec<Vec<Node>>>) -> Seq<Seq<Seq<NodeView>>> {
    v.map_values(|item: Vec<Vec<Node>>| crate::html::groups_view(item@))
}

/// Percent-encoding of a string for a URL query (`urlencoding::encode`).
pub uninterp spec fn url_encoded(s: Seq<char>) -> Seq<char>;

/// `urlencoding::encode`: its result depends on the string alone.
#[verifier::external_body]
pub(crate) fn url_encode(s: &str) -> (r: String)
    ensures
        r@ == url_encoded(s@),
{
    urlencoding::encode(s).into_owned()
}

/// Group 1 of the first match of the regular expression `pattern` in
/// `text`, if the pattern compiles and matches and the group took part.
pub uninterp spec fn regex_group1(pattern: Seq<char>, text: Seq<char>) -> Option<Seq<char>>;

/// `regex::Regex::new` then `Regex::captures`, group 1.
#[verifier::external_body]
pub(crate) fn regex_capture(pattern: &str, text: &str) -> (r: Option<String>)
    ensures
        crate::html::opt_str_view(r) == regex_group1(pattern@, text@),
{
    regex::Regex::new(pattern).ok().and_then(|re| re.captures(text)).and_then(|c| c.get(1)).map(|m| m.as_str().to_string())
}

/// The inner HTML of the first element matching the first selector (in
/// order) that matches anything; empty when none does.
pub open spec fn first_inner(html: Seq<char>, sels: Seq<Seq<char>>) -> Seq<char>
    decreases sels.len(),
{
    if sels.len() == 0 {
        Seq::empty()
    } else {
        let ns = html_select(html, sels[0]);
        if ns.len() > 0 {
            ns[0].inner_html
        } else {
            first_inner(html, sels.skip(1))
        }
    }
}

/// The inner HTML of the first element matched by the first matching selector.
pub fn first_inner_exec(html: &str, sels: &Vec<&str>) -> (r: String)
    ensures
        r@ == first_inner(html@, strs_view(sels@)),
{
    let ghost all = strs_view(sels@);
    let mut i: usize = 0;
    assert(all.skip(0) =~= all);
    while i < sels.len()
        invariant
            i <= sels.len(),
            all == strs_view(sels@),
            first_inner(html@, all) == first_inner(html@, all.skip(i as int)),
        decreases sels.len() - i,
    {
        assert(all.skip(i as int)[0] == sels@[i as int]@);
        assert(all.skip(i as int).skip(1) =~= all.skip(i + 1));
        let ns = select_all(html, sels[i]);
        if ns.len() > 0 {
            return ns[0].inner_html.clone();
        }
        i += 1;
    }
    String::new()
}

/// The text of the first element matched by a selector, taken in order,
/// whose text is not empty; empty when there is none.
pub open spec fn first_nonempty_body(html: Seq<char>, sels: Seq<Seq<char>>) -> Seq<char>
    decreases sels.len(),
{
    if sels.len() == 0 {
        Seq::empty()
    } else {
        let ns = html_select(html, sels[0]);
        if ns.len() > 0 && spec_html_to_text(ns[0].inner_html).len() > 0 {
            spec_html_to_text(ns[0].inner_html)
        } else {
            first_nonempty_body(html, sels.skip(1))
        }
    }
}

/// The first non-empty text of an element matched by the selectors in order.
pub fn first_nonempty_body_exec(html: &str, sels: &Vec<&str>) -> (r: String)
    ensures
        r@ == first_nonempty_body(html@, strs_view(sels@)),
{
    let ghost all = strs_view(sels@);
    let mut i: usize = 0;
    assert(all.skip(0) =~= all);
    while i < sels.len()
        invariant
            i <= sels.len(),
            all == strs_view(sels@),
            first_nonempty_body(html@, all) == first_nonempty_body(html@, all.skip(i as int)),
        decreases sels.len() - i,
    {
        assert(all.skip(i as int)[0] == sels@[i as int]@);
        assert(all.skip(i as int).skip(1) =~= all.skip(i + 1));
        let ns = select_all(html, sels[i]);
        if ns.len() > 0 {
            let t = html_to_text(ns[0].inner_html.as_str());
            if !t.as_str().is_empty() {
                return t;
            }
        }
        i += 1;
    }
    String::new()
}

/// View of an optional search result.
pub open spec fn opt_result_view(o: Option<crate::types::SearchResult>) -> Option<crate::types::SearchResultView> {
    match o {
        Some(x) => Some(x@),
        None => None,
    }
}

/// The results that `f` gives on the first `limit` items, in order; `sf` is
/// what `f` computes.
pub fn collect_results<F: Fn(&Vec<Vec<Node>>) -> Option<crate::types::SearchResult>>(
    items: &Vec<Vec<Vec<Node>>>,
    limit: usize,
    f: F,
    Ghost(sf): Ghost<spec_fn(Seq<Seq<NodeView>>) -> Option<crate::types::SearchResultView>>,
) -> (r: Vec<crate::types::SearchResult>)
    requires
        forall|it: &Vec<Vec<Node>>| f.requires((it,)),
        forall|it: &Vec<Vec<Node>>, x: Option<crate::types::SearchResult>|
            f.ensures((it,), x) ==> opt_result_view(x) == sf(crate::html::groups_view(it@)),
    ensures
        results_view(r@) == collect(take_at_most(items_view(items@), limit as nat), sf),
{
    let ghost iv = items_view(items@);
    let n = if limit < items.len() {
        limit
    } else {
        items.len()
    };
    assert(take_at_most(iv, limit as nat) =~= iv.take(n as int));
    let mut out: Vec<crate::types::SearchResult> = Vec::new();
    let mut i: usize = 0;
    while i < n
        invariant
            i <= n <= items.len(),
            iv == items_view(items@),
            forall|it: &Vec<Vec<Node>>| f.requires((it,)),
            forall|it: &Vec<Vec<Node>>, x: Option<crate::types::SearchResult>|
                f.ensures((it,), x) ==> opt_result_view(x) == sf(crate::html::groups_view(it@)),
            results_view(out@) == collect(iv.take(n as int).take(i as int), sf),
        decreases n - i,
    {
        proof {
            lemma_collect_step(iv.take(n as int), sf, i as int);
        }
        assert(iv.take(n as int)[i as int] == crate::html::groups_view(items@[i as int]@));
        match f(&items[i]) {
            Some(x) => {
                let ghost prev = out@;
                out.push(x);
                assert(results_view(out@) =~= results_view(prev).push(out@.last()@));
            },
            None => {},
        }
        i += 1;
    }
    assert(iv.take(n as int).take(n as int) =~= iv.take(n as int));
    out
}

/// View of an optional table-of-contents entry.
pub open spec fn opt_chapter_view(o: Option<ChapterInfo>) -> Option<ChapterInfoView> {
    match o {
        Some(x) => Some(x@),
        None => None,
    }
}

/// The entries that `f` gives on the nodes, in order; `sf` is what `f` computes.
pub fn collect_chapters<F: Fn(&Node) -> Option<ChapterInfo>>(
    nodes: &Vec<Node>,
    f: F,
    Ghost(sf): Ghost<spec_fn(NodeView) -> Option<ChapterInfoView>>,
) -> (r: Vec<ChapterInfo>)
    requires
        forall|n: &Node| f.requires((n,)),
        forall|n: &Node, x: Option<ChapterInfo>| f.ensures((n,), x) ==> opt_chapter_view(x) == sf(n@),
    ensures
        chapters_view(r@) == collect(nodes_view(nodes@), sf),
{
    let ghost nv = nodes_view(nodes@);
    let mut out: Vec<ChapterInfo> = Vec::new();
    let mut i: usize = 0;
    while i < nodes.len()
        invariant
            i <= nodes.len(),
            nv == nodes_view(nodes@),
            forall|n: &Node| f.requires((n,)),
            forall|n: &Node, x: Option<ChapterInfo>| f.ensures((n,), x) ==> opt_chapter_view(x) == sf(n@),
            chapters_view(out@) == collect(nv.take(i as int), sf),
        decreases nodes.len() - i,
    {
        proof {
            lemma_collect_step(nv, sf, i as int);
        }
        assert(nv[i as int] == nodes@[i as int]@);
        match f(&nodes[i]) {
            Some(x) => {
                let ghost prev = out@;
                out.push(x);
                assert(chapters_view(out@) =~= chapters_view(prev).push(out@.last()@));
            },
            None => {},
        }
        i += 1;
    }
    assert(nv.take(i as int) =~= nv);
    out
}

/// The link of a node and its trimmed text, when it has an `href` and the
/// text is not empty.
pub open spec fn titled_link(n: NodeView) -> Option<(Seq<char>, Seq<char>)> {
    match attr_value(n.attrs, "href"@) {
        Some(h) => if node_text(n).len() > 0 {
            Some((h, node_text(n)))
        } else {
            None
        },
        None => None,
    }
}

/// The link and trimmed text of a node, when it has a link and a text.
pub fn titled_link_exec(n: &Node) -> (r: Option<(String, String)>)
    ensures
        match titled_link(n@) {
            Some((h, t)) => r matches Some(x) && x.0@ == h && x.1@ == t,
            None => r is None,
        },
{
    match node_attr(n, "href") {
        Some(href) => {
            let title = element_text(n);
            if title.as_str().is_empty() {
                None
            } else {
                Some((href, title))
            }
        },
        None => None,
    }
}

/// The part of `s` after the first occurrence of `pat`, if it occurs.
pub open spec fn after_first(s: Seq<char>, pat: Seq<char>) -> Option<Seq<char>> {
    match crate::text::first_occurrence_from(s, pat, 0) {
        Some(k) => Some(s.skip(k + pat.len())),
        None => None,
    }
}

/// The part after the first occurrence of `pat`, if it occurs.
pub fn after_first_exec(s: &str, pat: &str) -> (r: Option<String>)
    ensures
        crate::html::opt_str_view(r) == after_first(s@, pat@),
{
    let sv = crate::text::chars_of(s);
    let pv = crate::text::chars_of(pat);
    match crate::text::find_from(&sv, &pv, 0) {
        Some(k) => {
            proof {
                crate::text::lemma_first_occurrence_bounds(sv@, pv@, 0);
            }
            assert(k + pv@.len() <= sv@.len());
            assert(k + pv.len() <= sv.len());
            let rest = crate::text::sub_chars(&sv, k + pv.len(), sv.len());
            assert(rest@ =~= sv@.skip(k + pv@.len()));
            Some(crate::text::string_of(rest.as_slice()))
        },
        None => None,
    }
}

/// An absolute address for an image link: `//…` gets `https:`, a link not
/// starting with `http` is put after the site address, others stay.
pub open spec fn absolute_cover(base: Seq<char>, cover: Seq<char>) -> Seq<char> {
    if crate::text::starts_with(cover, "//"@) {
        "https:"@ + cover
    } else if cover.len() > 0 && !crate::text::starts_with(cover, "http"@) {
        base + cover
    } else {
        cover
    }
}

/// The absolute address of an image link.
pub fn absolute_cover_exec(base: &str, cover: String) -> (r: String)
    ensures
        r@ == absolute_cover(base@, cover@),
{
    if crate::text::starts_with_exec(cover.as_str(), "//") {
        crate::text::concat("https:", cover.as_str())
    } else if !cover.as_str().is_empty() && !crate::text::starts_with_exec(cover.as_str(), "http") {
        crate::text::concat(base, cover.as_str())
    } else {
        cover
    }
}

/// The non-empty trimmed texts of the nodes, in order.
pub open spec fn nonempty_texts(nodes: Seq<NodeView>) -> Seq<Seq<char>>
    decreases nodes.len(),
{
    if nodes.len() == 0 {
        Seq::empty()
    } else {
        let r = nonempty_texts(nodes.drop_last());
        if node_text(nodes.last()).len() > 0 {
            r.push(node_text(nodes.last()))
        } else {
            r
        }
    }
}

/// The non-empty trimmed texts of the nodes, joined by `\n`.
pub open spec fn paragraphs(nodes: Seq<NodeView>) -> Seq<char> {
    crate::text::join(nonempty_texts(nodes), "\n"@)
}

/// The non-empty trimmed texts of the nodes, in order.
pub fn nonempty_texts_exec(nodes: &Vec<Node>) -> (r: Vec<String>)
    ensures
        r@.map_values(|s: String| s@) == nonempty_texts(nodes_view(nodes@)),
{
    let ghost nv = nodes_view(nodes@);
    let mut out: Vec<String> = Vec::new();
    let mut i: usize = 0;
    while i < nodes.len()
        invariant
            i <= nodes.len(),
            nv == nodes_view(nodes@),
            out@.map_values(|s: String| s@) == nonempty_texts(nv.take(i as int)),
        decreases nodes.len() - i,
    {
        assert(nv.take(i + 1).drop_last() =~= nv.take(i as int));
        assert(nv.take(i + 1).last() == nodes@[i as int]@);
        let t = element_text(&nodes[i]);
        if !t.as_str().is_empty() {
            let ghost prev = out@;
            out.push(t);
            assert(out@.map_values(|s: String| s@) =~= prev.map_values(|s: String| s@).push(out@.last()@));
        }
        i += 1;
    }
    assert(nv.take(i as int) =~= nv);
    out
}

/// The non-empty texts of the nodes matching `selector`, joined by `\n`.
pub fn paragraphs_exec(html: &str, selector: &str) -> (r: String)
    ensures
        r@ == paragraphs(html_select(html@, selector@)),
{
    let nodes = select_all(html, selector);
    let parts = nonempty_texts_exec(&nodes);
    crate::text::join_exec(&parts, "\n")
}

/// Group 1 of every non-overlapping match of `pattern` in `text`, in order,
/// `None` for a match in which group 1 took no part; `None` as a whole when
/// the pattern does not compile.
pub uninterp spec fn regex_all_group1(pattern: Seq<char>, text: Seq<char>) -> Option<Seq<Option<Seq<char>>>>;

/// `regex::Regex::new` then `Regex::captures_iter`: group 1 of each match.
#[verifier::external_body]
fn regex_match_groups(pattern: &str, text: &str) -> (r: Option<Vec<Option<String>>>)
    ensures
        match regex_all_group1(pattern@, text@) {
            Some(v) => r matches Some(x) && x@.map_values(|o: Option<String>| crate::html::opt_str_view(o)) == v,
            None => r is None,
        },
{
    regex::Regex::new(pattern).ok().map(|re| re.captures_iter(text).map(|c| c.get(1).map(|m| m.as_str().to_string())).collect())
}

/// The present entries, in order.
pub open spec fn present_strs(s: Seq<Option<Seq<char>>>) -> Seq<Seq<char>>
    decreases s.len(),
{
    if s.len() == 0 {
        Seq::empty()
    } else {
        let p = present_strs(s.drop_last());
        match s.last() {
            Some(x) => p.push(x),
            None => p,
        }
    }
}

/// Group 1 of every match of `pattern` in `text` that has it, in order;
/// `None` when the pattern does not compile.
pub open spec fn regex_all_captured(pattern: Seq<char>, text: Seq<char>) -> Option<Seq<Seq<char>>> {
    match regex_all_group1(pattern, text) {
        Some(v) => Some(present_strs(v)),
        None => None,
    }
}

/// Group 1 of every match of `pattern` in `text` that has it, in order;
/// `None` when the pattern does not compile.
pub fn regex_captures_all(pattern: &str, text: &str) -> (r: Option<Vec<String>>)
    ensures
        match regex_all_captured(pattern@, text@) {
            Some(v) => r matches Some(x) && x@.map_values(|s: String| s@) == v,
            None => r is None,
        },
{
    match regex_match_groups(pattern, text) {
        Some(groups) => {
            let ghost gv = groups@.map_values(|o: Option<String>| crate::html::opt_str_view(o));
            let mut out: Vec<String> = Vec::new();
            let mut i: usize = 0;
            while i < groups.len()
                invariant
                    i <= groups.len(),
                    gv == groups@.map_values(|o: Option<String>| crate::html::opt_str_view(o)),
                    out@.map_values(|s: String| s@) == present_strs(gv.take(i as int)),
                decreases groups.len() - i,
            {
                assert(gv.take(i + 1).drop_last() =~= gv.take(i as int));
                assert(gv.take(i + 1).last() == crate::html::opt_str_view(groups@[i as int]));
                match &groups[i] {
                    Some(g) => {
                        let ghost o0 = out@;
                        out.push(crate::text::owned(g.as_str()));
                        assert(out@.map_values(|s: String| s@) =~= o0.map_values(|s: String| s@).push(g@));
                    },
                    None => {},
                }
                i += 1;
            }
            assert(gv.take(i as int) =~= gv);
            Some(out)
        },
        None => None,
    }
}

/// `s` with every regular-expression metacharacter escaped (`regex::escape`).
pub uninterp spec fn regex_escaped(s: Seq<char>) -> Seq<char>;

/// `regex::escape`.
#[verifier::external_body]
pub(crate) fn regex_escape(s: &str) -> (r: String)
    ensures
        r@ == regex_escaped(s@),
{
    regex::escape(s)
}

/// Consecutive repeats removed, the first of each run kept (`Vec::dedup`).
pub open spec fn dedup(s: Seq<Seq<char>>) -> Seq<Seq<char>>
    decreases s.len(),
{
    if s.len() <= 1 {
        s
    } else if s.last() == s[s.len() - 2] {
        dedup(s.drop_last())
    } else {
        dedup(s.drop_last()).push(s.last())
    }
}

/// The last element of `dedup(s)` is the last element of `s`.
pub proof fn lemma_dedup_last(s: Seq<Seq<char>>)
    requires
        s.len() > 0,
    ensures
        dedup(s).len() > 0,
        dedup(s).last() == s.last(),
    decreases s.len(),
{
    if s.len() > 1 {
        lemma_dedup_last(s.drop_last());
    }
}

/// Consecutive repeats removed (`Vec::dedup`).
pub fn dedup_exec(v: Vec<String>) -> (r: Vec<String>)
    ensures
        r@.map_values(|s: String| s@) == dedup(v@.map_values(|s: String| s@)),
{
    let ghost vv = v@.map_values(|s: String| s@);
    let mut out: Vec<String> = Vec::new();
    let mut i: usize = 0;
    while i < v.len()
        invariant
            i <= v.len(),
            vv == v@.map_values(|s: String| s@),
            out@.map_values(|s: String| s@) == dedup(vv.take(i as int)),
            i > 0 ==> out@.len() > 0 && out@.last()@ == vv[i - 1],
        decreases v.len() - i,
    {
        assert(vv.take(i + 1).drop_last() =~= vv.take(i as int));
        assert(vv.take(i + 1).last() == vv[i as int]);
        let same = i > 0 && crate::text::str_eq(out[out.len() - 1].as_str(), v[i].as_str());
        if i > 0 {
            assert(vv.take(i + 1)[i - 1] == vv[i - 1]);
        }
        if !same {
            let ghost prev = out@;
            out.push(v[i].clone());
            assert(out@.map_values(|s: String| s@) =~= prev.map_values(|s: String| s@).push(vv[i as int]));
        }
        proof {
            if same {
                lemma_dedup_last(vv.take(i + 1));
            }
        }
        i += 1;
    }
    assert(vv.take(i as int) =~= vv);
    out
}

/// `s` without leading characters that belong to `set`.
pub open spec fn trim_start_set(s: Seq<char>, set: Seq<char>) -> Seq<char>
    decreases s.len(),
{
    if s.len() > 0 && set.contains(s[0]) {
        trim_start_set(s.skip(1), set)
    } else {
        s
    }
}

/// `str::trim_start_matches` with a set of characters.
pub fn trim_start_set_exec(s: &str, set: &str) -> (r: String)
    ensures
        r@ == trim_start_set(s@, set@),
{
    let sv = crate::text::chars_of(s);
    let cv = crate::text::chars_of(set);
    let mut a: usize = 0;
    assert(sv@.skip(0) =~= sv@);
    loop
        invariant
            a <= sv.len(),
            cv@ == set@,
            trim_start_set(s@, set@) == trim_start_set(sv@.skip(a as int), set@),
            sv@ == s@,
        ensures
            a <= sv.len(),
            trim_start_set(s@, set@) == sv@.skip(a as int),
        decreases sv.len() - a,
    {
        if a >= sv.len() {
            break;
        }
        let c = sv[a];
        let mut found = false;
        let mut k: usize = 0;
        while k < cv.len()
            invariant
                k <= cv.len(),
                found == exists|j: int| 0 <= j < k && cv@[j] == c,
            decreases cv.len() - k,
        {
            if cv[k] == c {
                found = true;
            }
            k += 1;
        }
        assert(found == cv@.contains(c));
        assert(sv@.skip(a as int)[0] == c);
        if !found {
            break;
        }
        assert(sv@.skip(a as int).skip(1) =~= sv@.skip(a + 1));
        a += 1;
    }
    assert(sv@.skip(a as int) =~= sv@.subrange(a as int, sv@.len() as int));
    crate::text::string_of(crate::text::sub_chars(&sv, a, sv.len()).as_slice())
}


/// The table-of-contents entry of one link (see [`link_chapters`]).
pub open spec fn link_chapter(n: NodeView, base: Seq<char>, rule: IdRule) -> Option<ChapterInfoView> {
    match attr_value(n.attrs, "href"@) {
        Some(h) => if node_text(n).len() > 0 {
            Some(ChapterInfoView { title: node_text(n), chapter_id: id_by_rule(rule, h), url: normalized_url(base, h) })
        } else {
            None
        },
        None => None,
    }
}

/// The table-of-contents entry of one link, if it has an `href` and a text.
pub fn link_chapter_exec(n: &Node, base: &str, rule: IdRule) -> (r: Option<ChapterInfo>)
    ensures
        opt_chapter_view(r) == link_chapter(n@, base@, rule),
{
    match node_attr(n, "href") {
        Some(href) => {
            let title = element_text(n);
            if title.as_str().is_empty() {
                None
            } else {
                let chapter_id = chapter_id_by_rule(rule, href.as_str());
                let url = normalize_url(base, href.as_str());
                Some(ChapterInfo { title, chapter_id, url })
            }
        },
        None => None,
    }
}

/// For each element whose tag is `tag`, the entry of the first link inside it
/// (`groups[j]` holds the links inside element `j`), in order.
pub open spec fn tagged_first_links(
    elems: Seq<NodeView>,
    groups: Seq<Seq<NodeView>>,
    tag: Seq<char>,
    base: Seq<char>,
    rule: IdRule,
) -> Seq<ChapterInfoView>
    decreases elems.len(),
{
    if elems.len() == 0 {
        Seq::empty()
    } else {
        let j = elems.len() - 1;
        let rest = tagged_first_links(elems.drop_last(), groups, tag, base, rule);
        if elems.last().tag == tag && j < groups.len() && groups[j].len() > 0 {
            match link_chapter(groups[j][0], base, rule) {
                Some(c) => rest.push(c),
                None => rest,
            }
        } else {
            rest
        }
    }
}

/// The entries of the first link of each `tag` element matching `elem_sel`.
pub fn tagged_first_link_chapters(
    html: &str,
    elem_sel: &str,
    link_sel: &str,
    tag: &str,
    base: &str,
    rule: IdRule,
) -> (r: Vec<ChapterInfo>)
    ensures
        chapters_view(r@) == tagged_first_links(
            html_select(html@, elem_sel@),
            crate::html::html_select_in(html@, elem_sel@, link_sel@),
            tag@,
            base@,
            rule,
        ),
{
    let elems = select_all(html, elem_sel);
    let groups = crate::html::select_in(html, elem_sel, link_sel);
    let ghost ev = nodes_view(elems@);
    let ghost gv = groups@.map_values(|v: Vec<Node>| nodes_view(v@));
    let mut out: Vec<ChapterInfo> = Vec::new();
    let mut j: usize = 0;
    while j < elems.len()
        invariant
            j <= elems.len(),
            ev == nodes_view(elems@),
            gv == groups@.map_values(|v: Vec<Node>| nodes_view(v@)),
            chapters_view(out@) == tagged_first_links(ev.take(j as int), gv, tag@, base@, rule),
        decreases elems.len() - j,
    {
        assert(ev.take(j + 1).drop_last() =~= ev.take(j as int));
        assert(ev.take(j + 1).last() == elems@[j as int]@);
        if crate::text::str_eq(elems[j].tag.as_str(), tag) && j < groups.len() && groups[j].len() > 0 {
            assert(gv[j as int][0] == groups@[j as int]@[0]@);
            match link_chapter_exec(&groups[j][0], base, rule) {
                Some(c) => {
                    let ghost prev = out@;
                    out.push(c);
                    assert(chapters_view(out@) =~= chapters_view(prev).push(out@.last()@));
                },
                None => {},
            }
        }
        j += 1;
    }
    assert(ev.take(j as int) =~= ev);
    out
}

/// The text of the first element matching `selector` (its inner HTML turned
/// into text), or empty when nothing matches.
pub open spec fn sel_inner_text(html: Seq<char>, selector: Seq<char>) -> Seq<char> {
    let ns = html_select(html, selector);
    if ns.len() > 0 {
        spec_html_to_text(ns[0].inner_html)
    } else {
        Seq::empty()
    }
}

/// The text of the first element matching `selector`, or empty.
pub fn inner_text_exec(html: &str, selector: &str) -> (r: String)
    ensures
        r@ == sel_inner_text(html@, selector@),
{
    let ns = select_all(html, selector);
    if ns.len() > 0 {
        html_to_text(ns[0].inner_html.as_str())
    } else {
        String::new()
    }
}

/// The paragraphs matching `p_sel`; when there are none, the text of the
/// first element matching `body_sel`.
pub open spec fn paras_or_text(html: Seq<char>, p_sel: Seq<char>, body_sel: Seq<char>) -> Seq<char> {
    let p = paragraphs(html_select(html, p_sel));
    if p.len() > 0 {
        p
    } else {
        sel_inner_text(html, body_sel)
    }
}

/// The paragraphs matching `p_sel`, else the text of `body_sel`.
pub fn paras_or_text_exec(html: &str, p_sel: &str, body_sel: &str) -> (r: String)
    ensures
        r@ == paras_or_text(html@, p_sel@, body_sel@),
{
    let p = paragraphs_exec(html, p_sel);
    if !p.as_str().is_empty() {
        p
    } else {
        inner_text_exec(html, body_sel)
    }
}

/// `s` with every occurrence of each of `pats` removed, in order.
pub open spec fn remove_all(s: Seq<char>, pats: Seq<Seq<char>>) -> Seq<char>
    decreases pats.len(),
{
    if pats.len() == 0 {
        s
    } else {
        remove_all(crate::text::replace_all(s, pats[0], Seq::empty()), pats.skip(1))
    }
}

/// `s` with each of `pats` removed, then trimmed.
pub open spec fn stripped(s: Seq<char>, pats: Seq<Seq<char>>) -> Seq<char> {
    crate::text::trim(remove_all(s, pats))
}

/// Every occurrence of each of the (non-empty) `pats` removed, then trimmed.
pub fn strip_exec(s: &str, pats: &Vec<&str>) -> (r: String)
    requires
        forall|i: int| 0 <= i < pats@.len() ==> pats@[i]@.len() > 0,
    ensures
        r@ == stripped(s@, strs_view(pats@)),
{
    let ghost all = strs_view(pats@);
    let mut cur = crate::text::owned(s);
    let mut i: usize = 0;
    assert(all.skip(0) =~= all);
    while i < pats.len()
        invariant
            i <= pats.len(),
            all == strs_view(pats@),
            forall|k: int| 0 <= k < pats@.len() ==> pats@[k]@.len() > 0,
            remove_all(s@, all) == remove_all(cur@, all.skip(i as int)),
        decreases pats.len() - i,
    {
        assert(all.skip(i as int)[0] == pats@[i as int]@);
        assert(all.skip(i as int).skip(1) =~= all.skip(i + 1));
        proof {
            reveal_strlit("");
        }
        assert(""@ =~= Seq::<char>::empty());
        cur = crate::text::replace_exec(cur.as_str(), pats[i], "");
        i += 1;
    }
    crate::text::trim_exec(cur.as_str())
}


/// `s` cut before the first `pat` and trimmed, when `pat` occurs; else `s`.
pub open spec fn cut_before(s: Seq<char>, pat: Seq<char>) -> Seq<char> {
    if crate::text::contains(s, pat) {
        crate::text::trim(before_first(s, pat))
    } else {
        s
    }
}

/// `s` cut before the first `pat` and trimmed, when `pat` occurs.
pub fn cut_before_exec(s: String, pat: &str) -> (r: String)
    ensures
        r@ == cut_before(s@, pat@),
{
    if crate::text::contains_exec(s.as_str(), pat) {
        let b = before_first_exec(s.as_str(), pat);
        crate::text::trim_exec(b.as_str())
    } else {
        s
    }
}

/// The trimmed text of the first node whose text contains `pat`.
pub open spec fn first_text_containing(nodes: Seq<NodeView>, pat: Seq<char>) -> Option<Seq<char>>
    decreases nodes.len(),
{
    if nodes.len() == 0 {
        None
    } else if crate::text::contains(node_text(nodes[0]), pat) {
        Some(node_text(nodes[0]))
    } else {
        first_text_containing(nodes.skip(1), pat)
    }
}

/// The trimmed text of the first node matching `selector` whose text
/// contains `pat`.
pub fn first_text_containing_exec(html: &str, selector: &str, pat: &str) -> (r: Option<String>)
    ensures
        crate::html::opt_str_view(r) == first_text_containing(html_select(html@, selector@), pat@),
{
    let nodes = select_all(html, selector);
    let ghost nv = nodes_view(nodes@);
    let mut i: usize = 0;
    assert(nv.skip(0) =~= nv);
    while i < nodes.len()
        invariant
            i <= nodes.len(),
            nv == nodes_view(nodes@),
            nv == html_select(html@, selector@),
            first_text_containing(nv, pat@) == first_text_containing(nv.skip(i as int), pat@),
        decreases nodes.len() - i,
    {
        assert(nv.skip(i as int)[0] == nodes@[i as int]@);
        assert(nv.skip(i as int).skip(1) =~= nv.skip(i + 1));
        let t = element_text(&nodes[i]);
        if crate::text::contains_exec(t.as_str(), pat) {
            return Some(t);
        }
        i += 1;
    }
    None
}

/// An image address: `//…` gets `https:`, `/…` is put after the site address.
pub open spec fn rooted_cover(base: Seq<char>, c: Seq<char>) -> Seq<char> {
    if crate::text::starts_with(c, "//"@) {
        "https:"@ + c
    } else if crate::text::starts_with(c, "/"@) {
        base + c
    } else {
        c
    }
}

/// An image address made absolute (see [`rooted_cover`]).
pub fn rooted_cover_exec(base: &str, c: String) -> (r: String)
    ensures
        r@ == rooted_cover(base@, c@),
{
    if crate::text::starts_with_exec(c.as_str(), "//") {
        crate::text::concat("https:", c.as_str())
    } else if crate::text::starts_with_exec(c.as_str(), "/") {
        crate::text::concat(base, c.as_str())
    } else {
        c
    }
}


/// Nodes of selection `k` of an element, or none.
pub open spec fn item_nodes(item: Seq<Seq<NodeView>>, k: int) -> Seq<NodeView> {
    if 0 <= k < item.len() {
        item[k]
    } else {
        Seq::empty()
    }
}

/// The volumes of blocks: each block (selections: its name, its links) gives
/// a volume named by the first name element's text, holding the entries of
/// its links; blocks without entries are dropped.
pub open spec fn named_volumes(items: Seq<Seq<Seq<NodeView>>>, base: Seq<char>, rule: IdRule) -> Seq<VolumeView>
    decreases items.len(),
{
    if items.len() == 0 {
        Seq::empty()
    } else {
        let rest = named_volumes(items.drop_last(), base, rule);
        let chapters = link_chapters(item_nodes(items.last(), 1), base, rule);
        if chapters.len() > 0 {
            rest.push(VolumeView { volume_name: crate::html::group_text(items.last(), 0), chapters })
        } else {
            rest
        }
    }
}

/// The volumes of the blocks matching `block_sel`, named by `name_sel` and
/// holding the links `link_sel` inside them.
pub fn named_volumes_exec(
    html: &str,
    block_sel: &str,
    name_sel: &str,
    link_sel: &str,
    base: &str,
    rule: IdRule,
) -> (r: Vec<Volume>)
    ensures
        r@.map_values(|v: Volume| v@) == named_volumes(
            crate::html::html_select_fields(html@, block_sel@, seq![name_sel@, link_sel@]),
            base@,
            rule,
        ),
{
    let fields: Vec<&str> = vec![name_sel, link_sel];
    assert(strs_view(fields@) =~= seq![name_sel@, link_sel@]);
    let items = crate::html::select_fields(html, block_sel, &fields);
    let ghost iv = items_view(items@);
    assert(iv =~= items@.map_values(|item: Vec<Vec<Node>>| crate::html::groups_view(item@)));
    let mut out: Vec<Volume> = Vec::new();
    let mut i: usize = 0;
    while i < items.len()
        invariant
            i <= items.len(),
            iv == items_view(items@),
            out@.map_values(|v: Volume| v@) == named_volumes(iv.take(i as int), base@, rule),
        decreases items.len() - i,
    {
        assert(iv.take(i + 1).drop_last() =~= iv.take(i as int));
        assert(iv.take(i + 1).last() == crate::html::groups_view(items@[i as int]@));
        let item = &items[i];
        let empty: Vec<Node> = Vec::new();
        let links: &Vec<Node> = if 1 < item.len() {
            &item[1]
        } else {
            &empty
        };
        assert(nodes_view(links@) =~= item_nodes(crate::html::groups_view(item@), 1));
        let chapters = links_to_chapters(links, base, rule);
        if chapters.len() > 0 {
            let volume_name = crate::html::group_text_exec(item, 0);
            let ghost prev = out@;
            out.push(Volume { volume_name, chapters });
            assert(out@.map_values(|v: Volume| v@) =~= prev.map_values(|v: Volume| v@).push(out@.last()@));
        }
        i += 1;
    }
    assert(iv.take(i as int) =~= iv);
    out
}

/// Of the first row whose text contains `pat`, the text of its first field
/// element; empty when there is no such row.
pub open spec fn field_of_first_containing(rows: Seq<NodeView>, fields: Seq<Seq<NodeView>>, pat: Seq<char>) -> Seq<
    char,
>
    decreases rows.len(),
{
    if rows.len() == 0 {
        Seq::empty()
    } else if crate::text::contains(node_text(rows[0]), pat) {
        crate::html::first_text(item_nodes(fields, 0))
    } else {
        field_of_first_containing(rows.skip(1), if fields.len() > 0 { fields.skip(1) } else { fields }, pat)
    }
}

/// Of the first row matching `row_sel` whose text contains `pat`, the text of
/// the first element matching `field_sel` inside it.
pub fn field_of_first_containing_exec(html: &str, row_sel: &str, field_sel: &str, pat: &str) -> (r: String)
    ensures
        r@ == field_of_first_containing(
            html_select(html@, row_sel@),
            crate::html::html_select_in(html@, row_sel@, field_sel@),
            pat@,
        ),
{
    let rows = select_all(html, row_sel);
    let fields = crate::html::select_in(html, row_sel, field_sel);
    let ghost rv = nodes_view(rows@);
    let ghost fv = fields@.map_values(|v: Vec<Node>| nodes_view(v@));
    let mut i: usize = 0;
    assert(rv.skip(0) =~= rv);
    assert(fv.skip(0) =~= fv);
    while i < rows.len()
        invariant
            i <= rows.len(),
            rv == nodes_view(rows@),
            fv == fields@.map_values(|v: Vec<Node>| nodes_view(v@)),
            rv == html_select(html@, row_sel@),
            fv == crate::html::html_select_in(html@, row_sel@, field_sel@),
            field_of_first_containing(rv, fv, pat@) == field_of_first_containing(
                rv.skip(i as int),
                if i <= fv.len() {
                    fv.skip(i as int)
                } else {
                    Seq::empty()
                },
                pat@,
            ),
        decreases rows.len() - i,
    {
        assert(rv.skip(i as int)[0] == rows@[i as int]@);
        assert(rv.skip(i as int).skip(1) =~= rv.skip(i + 1));
        let t = element_text(&rows[i]);
        if crate::text::contains_exec(t.as_str(), pat) {
            if i < fields.len() && fields[i].len() > 0 {
                assert(fv.skip(i as int)[0] == nodes_view(fields@[i as int]@));
                return element_text(&fields[i][0]);
            } else {
                proof {
                    if i < fv.len() {
                        assert(fv.skip(i as int)[0] == nodes_view(fields@[i as int]@));
                    }
                }
                return String::new();
            }
        }
        proof {
            if i < fv.len() {
                assert(fv.skip(i as int).skip(1) =~= fv.skip(i + 1));
            } else if i == fv.len() {
                assert(fv.skip(i as int) =~= Seq::<Seq<NodeView>>::empty());
            }
        }
        i += 1;
    }
    String::new()
}

/// `s` contains at least one of `pats`.
pub open spec fn contains_any(s: Seq<char>, pats: Seq<Seq<char>>) -> bool
    decreases pats.len(),
{
    if pats.len() == 0 {
        false
    } else {
        crate::text::contains(s, pats[0]) || contains_any(s, pats.skip(1))
    }
}

/// Whether `s` contains at least one of `pats`.
pub fn contains_any_exec(s: &str, pats: &Vec<&str>) -> (r: bool)
    ensures
        r == contains_any(s@, strs_view(pats@)),
{
    let ghost all = strs_view(pats@);
    let mut i: usize = 0;
    assert(all.skip(0) =~= all);
    while i < pats.len()
        invariant
            i <= pats.len(),
            all == strs_view(pats@),
            contains_any(s@, all) == contains_any(s@, all.skip(i as int)),
        decreases pats.len() - i,
    {
        assert(all.skip(i as int)[0] == pats@[i as int]@);
        assert(all.skip(i as int).skip(1) =~= all.skip(i + 1));
        if crate::text::contains_exec(s, pats[i]) {
            return true;
        }
        i += 1;
    }
    false
}

/// The entries of the links whose `href` contains one of `pats`.
pub open spec fn filtered_link_chapters(nodes: Seq<NodeView>, base: Seq<char>, rule: IdRule, pats: Seq<Seq<char>>) -> Seq<
    ChapterInfoView,
>
    decreases nodes.len(),
{
    if nodes.len() == 0 {
        Seq::empty()
    } else {
        let rest = filtered_link_chapters(nodes.drop_last(), base, rule, pats);
        let n = nodes.last();
        match attr_value(n.attrs, "href"@) {
            Some(h) => if contains_any(h, pats) {
                match link_chapter(n, base, rule) {
                    Some(c) => rest.push(c),
                    None => rest,
                }
            } else {
                rest
            },
            None => rest,
        }
    }
}

/// The entries of the links whose `href` contains one of `pats`.
pub fn filtered_link_chapters_exec(nodes: &Vec<Node>, base: &str, rule: IdRule, pats: &Vec<&str>) -> (r: Vec<ChapterInfo>)
    ensures
        chapters_view(r@) == filtered_link_chapters(nodes_view(nodes@), base@, rule, strs_view(pats@)),
{
    let ghost nv = nodes_view(nodes@);
    let mut out: Vec<ChapterInfo> = Vec::new();
    let mut i: usize = 0;
    while i < nodes.len()
        invariant
            i <= nodes.len(),
            nv == nodes_view(nodes@),
            chapters_view(out@) == filtered_link_chapters(nv.take(i as int), base@, rule, strs_view(pats@)),
        decreases nodes.len() - i,
    {
        assert(nv.take(i + 1).drop_last() =~= nv.take(i as int));
        assert(nv.take(i + 1).last() == nodes@[i as int]@);
        match node_attr(&nodes[i], "href") {
            Some(h) => {
                if contains_any_exec(h.as_str(), pats) {
                    match link_chapter_exec(&nodes[i], base, rule) {
                        Some(c) => {
                            let ghost prev = out@;
                            out.push(c);
                            assert(chapters_view(out@) =~= chapters_view(prev).push(out@.last()@));
                        },
                        None => {},
                    }
                }
            },
            None => {},
        }
        i += 1;
    }
    assert(nv.take(i as int) =~= nv);
    out
}


/// The number of leading items whose key is at most `k`.
pub open spec fn key_pos<T>(s: Seq<T>, k: int, key: spec_fn(T) -> int) -> int
    decreases s.len(),
{
    if s.len() == 0 || key(s[0]) > k {
        0
    } else {
        1 + key_pos(s.skip(1), k, key)
    }
}

/// `s` stably sorted by `key` (`slice::sort_by_key`): each item, taken in
/// order, goes after the items already placed whose key is not greater.
pub open spec fn sort_by_key<T>(s: Seq<T>, key: spec_fn(T) -> int) -> Seq<T>
    decreases s.len(),
{
    if s.len() == 0 {
        Seq::empty()
    } else {
        let r = sort_by_key(s.drop_last(), key);
        r.insert(key_pos(r, key(s.last()), key), s.last())
    }
}


/// The pieces of `s` between the occurrences of the non-empty `pat`
/// (`str::split`).
pub open spec fn split_by(s: Seq<char>, pat: Seq<char>) -> Seq<Seq<char>>
    decreases s.len(),
{
    if pat.len() == 0 {
        seq![s]
    } else {
        match crate::text::first_occurrence_from(s, pat, 0) {
            Some(k) => if 0 <= k && k + pat.len() <= s.len() {
                seq![s.take(k)] + split_by(s.skip(k + pat.len()), pat)
            } else {
                seq![s]
            },
            None => seq![s],
        }
    }
}

/// The pieces of `s` between the occurrences of `pat`.
pub fn split_exec(s: &str, pat: &str) -> (r: Vec<String>)
    requires
        pat@.len() > 0,
    ensures
        r@.map_values(|x: String| x@) == split_by(s@, pat@),
{
    let v = crate::text::chars_of(s);
    let pv = crate::text::chars_of(pat);
    let mut out: Vec<String> = Vec::new();
    let mut pos: usize = 0;
    assert(v@.skip(0) =~= v@);
    loop
        invariant
            pos <= v@.len(),
            v@ == s@,
            pv@ == pat@,
            pat@.len() > 0,
            split_by(s@, pat@) == out@.map_values(|x: String| x@) + split_by(v@.skip(pos as int), pat@),
        decreases v@.len() - pos,
    {
        let ghost rest = v@.skip(pos as int);
        proof {
            crate::markup::lemma_first_occurrence_skip(v@, pat@, pos as int, 0);
            crate::text::lemma_first_occurrence_bounds(v@, pat@, pos as int);
        }
        match crate::text::find_from(&v, &pv, pos) {
            Some(k) => {
                assert(k + pv.len() <= v.len());
                let piece = crate::text::sub_chars(&v, pos, k);
                assert(piece@ =~= rest.take(k - pos));
                assert(rest.skip(k - pos + pat@.len()) =~= v@.skip(k + pv.len()));
                let ghost o0 = out@;
                out.push(crate::text::string_of(piece.as_slice()));
                assert(out@.map_values(|x: String| x@) =~= o0.map_values(|x: String| x@) + seq![piece@]);
                pos = k + pv.len();
            },
            None => {
                let piece = crate::text::sub_chars(&v, pos, v.len());
                assert(piece@ =~= rest);
                let ghost o0 = out@;
                out.push(crate::text::string_of(piece.as_slice()));
                assert(out@.map_values(|x: String| x@) =~= o0.map_values(|x: String| x@) + seq![piece@]);
                return out;
            },
        }
    }
}


/// `s` with every occurrence of `pat` removed (`str::replace(pat, "")`); an
/// empty `pat` leaves `s` as it is.
pub open spec fn remove_str(s: Seq<char>, pat: Seq<char>) -> Seq<char> {
    if pat.len() == 0 {
        s
    } else {
        crate::text::replace_all(s, pat, Seq::empty())
    }
}

/// `s` with every occurrence of `pat` removed.
pub fn remove_str_exec(s: &str, pat: &str) -> (r: String)
    ensures
        r@ == remove_str(s@, pat@),
{
    if pat.is_empty() {
        crate::text::owned(s)
    } else {
        proof {
            reveal_strlit("");
        }
        assert(""@ =~= Seq::<char>::empty());
        crate::text::replace_exec(s, pat, "")
    }
}

/// The lines of `s` (split at `\n`), each trimmed, rejoined, the whole
/// trimmed.
pub open spec fn trim_lines(s: Seq<char>) -> Seq<char> {
    crate::text::trim(crate::text::join(split_by(s, "\n"@).map_values(|l: Seq<char>| crate::text::trim(l)), "\n"@))
}

/// Every line of `s` trimmed, and the whole trimmed.
pub fn trim_lines_exec(s: &str) -> (r: String)
    ensures
        r@ == trim_lines(s@),
{
    proof {
        reveal_strlit("\n");
    }
    let parts = split_exec(s, "\n");
    let ghost pv = parts@.map_values(|x: String| x@);
    let mut out: Vec<String> = Vec::new();
    let mut i: usize = 0;
    while i < parts.len()
        invariant
            i <= parts.len(),
            pv == parts@.map_values(|x: String| x@),
            out@.map_values(|x: String| x@) == pv.take(i as int).map_values(|l: Seq<char>| crate::text::trim(l)),
        decreases parts.len() - i,
    {
        let ghost o0 = out@;
        out.push(crate::text::trim_exec(parts[i].as_str()));
        assert(pv.take(i + 1) =~= pv.take(i as int).push(pv[i as int]));
        assert(out@.map_values(|x: String| x@) =~= o0.map_values(|x: String| x@).push(out@.last()@));
        assert(pv.take(i + 1).map_values(|l: Seq<char>| crate::text::trim(l)) =~= pv.take(i as int).map_values(
            |l: Seq<char>| crate::text::trim(l),
        ).push(crate::text::trim(pv[i as int])));
        i += 1;
    }
    assert(pv.take(i as int) =~= pv);
    let j = crate::text::join_exec(&out, "\n");
    crate::text::trim_exec(j.as_str())
}

/// The strings of `ls` on which `keep` holds, in order.
pub open spec fn kept_by(ls: Seq<Seq<char>>, keep: spec_fn(Seq<char>) -> bool) -> Seq<Seq<char>>
    decreases ls.len(),
{
    if ls.len() == 0 {
        Seq::empty()
    } else {
        let r = kept_by(ls.drop_last(), keep);
        if keep(ls.last()) {
            r.push(ls.last())
        } else {
            r
        }
    }
}

/// The strings of `ls` on which `f` holds, in order; `sf` is what `f` computes.
pub fn keep_by<F: Fn(&str) -> bool>(ls: Vec<String>, f: F, Ghost(sf): Ghost<spec_fn(Seq<char>) -> bool>) -> (r: Vec<String>)
    requires
        forall|s: &str| f.requires((s,)),
        forall|s: &str, b: bool| f.ensures((s,), b) ==> b == sf(s@),
    ensures
        r@.map_values(|s: String| s@) == kept_by(ls@.map_values(|s: String| s@), sf),
{
    let ghost lv = ls@.map_values(|s: String| s@);
    let mut out: Vec<String> = Vec::new();
    let mut i: usize = 0;
    while i < ls.len()
        invariant
            i <= ls.len(),
            lv == ls@.map_values(|s: String| s@),
            forall|s: &str| f.requires((s,)),
            forall|s: &str, b: bool| f.ensures((s,), b) ==> b == sf(s@),
            out@.map_values(|s: String| s@) == kept_by(lv.take(i as int), sf),
        decreases ls.len() - i,
    {
        assert(lv.take(i + 1).drop_last() =~= lv.take(i as int));
        assert(lv.take(i + 1).last() == ls@[i as int]@);
        if f(ls[i].as_str()) {
            let ghost o0 = out@;
            out.push(crate::text::owned(ls[i].as_str()));
            assert(out@.map_values(|s: String| s@) =~= o0.map_values(|s: String| s@).push(out@.last()@));
        }
        i += 1;
    }
    assert(lv.take(i as int) =~= lv);
    out
}

/// View of texts tagged with an order number.
pub open spec fn keyed_view(v: Seq<(i64, String)>) -> Seq<(i64, Seq<char>)> {
    v.map_values(|p: (i64, String)| (p.0, p.1@))
}

/// The order number of a tagged text.
pub open spec fn first_key() -> spec_fn((i64, Seq<char>)) -> int {
    |p: (i64, Seq<char>)| p.0 as int
}

/// Tagged texts stably sorted by their order numbers (`sort_by_key`).
pub fn sort_keyed(v: Vec<(i64, String)>) -> (r: Vec<(i64, String)>)
    ensures
        keyed_view(r@) == sort_by_key(keyed_view(v@), first_key()),
{
    let ghost all = keyed_view(v@);
    let ghost kf = first_key();
    let mut rest = v;
    let mut out: Vec<(i64, String)> = Vec::new();
    let ghost mut taken: int = 0;
    while rest.len() > 0
        invariant
            0 <= taken <= all.len(),
            kf == first_key(),
            keyed_view(rest@) == all.skip(taken),
            keyed_view(out@) == sort_by_key(all.take(taken), kf),
        decreases rest.len(),
    {
        let c = rest.remove(0);
        assert(all.skip(taken)[0] == (c.0, c.1@));
        assert(all.skip(taken).skip(1) =~= all.skip(taken + 1));
        assert(all.take(taken + 1).drop_last() =~= all.take(taken));
        assert(all.take(taken + 1).last() == (c.0, c.1@));
        let ghost ov = keyed_view(out@);
        let mut p: usize = 0;
        assert(ov.skip(0) =~= ov);
        while p < out.len() && out[p].0 <= c.0
            invariant
                p <= out.len(),
                kf == first_key(),
                ov == keyed_view(out@),
                key_pos(ov, c.0 as int, kf) == p + key_pos(ov.skip(p as int), c.0 as int, kf),
            decreases out.len() - p,
        {
            assert(ov.skip(p as int)[0] == (out@[p as int].0, out@[p as int].1@));
            assert(ov.skip(p as int).skip(1) =~= ov.skip(p + 1));
            p += 1;
        }
        proof {
            if p < out.len() {
                assert(ov.skip(p as int)[0] == (out@[p as int].0, out@[p as int].1@));
            }
        }
        let ghost cv = (c.0, c.1@);
        out.insert(p, c);
        assert(keyed_view(out@) =~= ov.insert(p as int, cv));
        proof {
            taken = taken + 1;
        }
    }
    assert(all.take(taken) =~= all);
    out
}

/// The items of `v` in reverse order.
pub fn reversed<T>(v: Vec<T>) -> (r: Vec<T>)
    ensures
        r@ == v@.reverse(),
{
    let ghost all = v@;
    let mut rest = v;
    let mut out: Vec<T> = Vec::new();
    while rest.len() > 0
        invariant
            rest@ == all.take(rest@.len() as int),
            out@.len() + rest@.len() == all.len(),
            forall|j: int| 0 <= j < out@.len() ==> out@[j] == all[all.len() - 1 - j],
        decreases rest.len(),
    {
        let ghost k = rest@.len();
        let x = rest.pop().unwrap();
        assert(x == all[k - 1]);
        out.push(x);
        assert(rest@ =~= all.take(rest@.len() as int));
    }
    assert(out@ =~= all.reverse());
    out
}

/// The text of the first element matching `heading_sel` without the text
/// of the last element matching `name_sel` (a book's name in a page
/// header), trimmed.
pub open spec fn heading_without(html: Seq<char>, heading_sel: Seq<char>, name_sel: Seq<char>) -> Seq<char> {
    let raw = crate::html::sel_text(html, heading_sel);
    let names = html_select(html, name_sel);
    let name = if names.len() > 0 {
        node_text(names.last())
    } else {
        Seq::empty()
    };
    if name.len() == 0 {
        crate::text::trim(raw)
    } else {
        crate::text::trim(crate::text::replace_all(raw, name, Seq::empty()))
    }
}

/// A heading without a name found elsewhere on the page.
pub fn heading_without_exec(html: &str, heading_sel: &str, name_sel: &str) -> (r: String)
    ensures
        r@ == heading_without(html@, heading_sel@, name_sel@),
{
    let raw = crate::html::select_text(html, heading_sel);
    let names = select_all(html, name_sel);
    let name = if names.len() > 0 {
        element_text(&names[names.len() - 1])
    } else {
        String::new()
    };
    assert(names.len() > 0 ==> nodes_view(names@).last() == names@[names.len() - 1]@);
    if name.as_str().is_empty() {
        crate::text::trim_exec(raw.as_str())
    } else {
        proof {
            reveal_strlit("");
        }
        assert(""@ =~= Seq::<char>::empty());
        let t = crate::text::replace_exec(raw.as_str(), name.as_str(), "");
        crate::text::trim_exec(t.as_str())
    }
}

/// Selections made in each result block of a search answer laid out as
/// book blocks: the title link, the news line and its date.
pub open spec fn block_fields() -> Seq<Seq<char>> {
    seq!["h3 a"@, "div.booknews"@, "div.booknews label.date"@]
}

/// A book block of a search answer for the site `site`: the book id is the
/// link without surrounding `/` and suffix, `/` made `-`; blocks without a
/// link are skipped.
pub open spec fn block_result(site: Seq<char>, it: Seq<Seq<NodeView>>) -> Option<crate::types::SearchResultView> {
    let href = crate::html::group_attr(it, 0, "href"@);
    if href.len() == 0 {
        None
    } else {
        Some(
            crate::types::SearchResultView {
                site,
                book_id: crate::text::replace_all(
                    before_first(trim_end_matches(crate::text::trim_start_matches(href, "/"@), "/"@), "."@),
                    "/"@,
                    "-"@,
                ),
                title: crate::html::group_text(it, 0),
                author: crate::text::trim(crate::text::replace_all(crate::html::group_text(it, 1), "作者："@, Seq::empty())),
                latest_chapter: Seq::empty(),
                update_date: crate::html::group_text(it, 2),
                word_count: Seq::empty(),
            },
        )
    }
}

/// A book block of a search answer.
pub fn block_result_exec(site: &str, it: &Vec<Vec<Node>>) -> (r: Option<crate::types::SearchResult>)
    ensures
        opt_result_view(r) == block_result(site@, crate::html::groups_view(it@)),
{
    let href = crate::html::group_attr_exec(it, 0, "href");
    if href.as_str().is_empty() {
        return None;
    }
    let a = crate::text::trim_start_matches_exec(href.as_str(), "/");
    let b = trim_end_matches_exec(a.as_str(), "/");
    let c = before_first_exec(b.as_str(), ".");
    proof {
        reveal_strlit("/");
        reveal_strlit("作者：");
        reveal_strlit("");
    }
    assert(""@ =~= Seq::<char>::empty());
    let au = crate::html::group_text_exec(it, 1);
    let au1 = crate::text::replace_exec(au.as_str(), "作者：", "");
    let r = crate::types::SearchResult {
        site: crate::text::owned(site),
        book_id: crate::text::replace_exec(c.as_str(), "/", "-"),
        title: crate::html::group_text_exec(it, 0),
        author: crate::text::trim_exec(au1.as_str()),
        latest_chapter: String::new(),
        update_date: crate::html::group_text_exec(it, 2),
        word_count: String::new(),
    };
    assert(r@.latest_chapter =~= Seq::<char>::empty());
    assert(r@.word_count =~= Seq::<char>::empty());
    Some(r)
}

/// What the insertion point of [`sort_by_key`] is: the items before it have
/// a key of at most `k`, the item at it (if any) a greater key.
pub proof fn lemma_key_pos<T>(s: Seq<T>, k: int, key: spec_fn(T) -> int)
    ensures
        0 <= key_pos(s, k, key) <= s.len(),
        forall|i: int| 0 <= i < key_pos(s, k, key) ==> key(#[trigger] s[i]) <= k,
        key_pos(s, k, key) < s.len() ==> key(s[key_pos(s, k, key)]) > k,
    decreases s.len(),
{
    if s.len() > 0 && key(s[0]) <= k {
        lemma_key_pos(s.skip(1), k, key);
        assert forall|i: int| 0 <= i < key_pos(s, k, key) implies key(#[trigger] s[i]) <= k by {
            if i > 0 {
                assert(s[i] == s.skip(1)[i - 1]);
            }
        }
        if key_pos(s, k, key) < s.len() {
            assert(s[key_pos(s, k, key)] == s.skip(1)[key_pos(s.skip(1), k, key)]);
        }
    }
}

/// A stable sort by key gives the same items, in an order where keys never
/// decrease.
pub proof fn lemma_sort_by_key_sorted<T>(s: Seq<T>, key: spec_fn(T) -> int)
    ensures
        sort_by_key(s, key).len() == s.len(),
        sort_by_key(s, key).to_multiset() == s.to_multiset(),
        forall|i: int, j: int|
            0 <= i < j < s.len() ==> key(#[trigger] sort_by_key(s, key)[i]) <= key(#[trigger] sort_by_key(s, key)[j]),
    decreases s.len(),
{
    broadcast use vstd::seq_lib::to_multiset_build, vstd::seq_lib::to_multiset_insert;

    if s.len() > 0 {
        let r = sort_by_key(s.drop_last(), key);
        lemma_sort_by_key_sorted(s.drop_last(), key);
        let x = s.last();
        let k = key(x);
        let p = key_pos(r, k, key);
        lemma_key_pos(r, k, key);
        let out = r.insert(p, x);
        assert(out == sort_by_key(s, key));
        assert(s.drop_last().push(x) =~= s);
        assert(s.drop_last().push(x).to_multiset() =~= s.drop_last().to_multiset().insert(x));
        assert(out.to_multiset() == r.to_multiset().insert(x));
        assert(out.to_multiset() =~= s.to_multiset());
        assert forall|i: int, j: int| 0 <= i < j < out.len() implies key(#[trigger] out[i]) <= key(#[trigger] out[j]) by {
            if j < p {
                assert(out[i] == r[i] && out[j] == r[j]);
            } else if j == p {
                assert(out[i] == r[i]);
            } else if i == p {
                assert(out[j] == r[j - 1]);
                assert(key(r[p]) > k);
                if j - 1 > p {
                    assert(key(r[p]) <= key(r[j - 1]));
                }
            } else if i < p {
                assert(out[i] == r[i] && out[j] == r[j - 1]);
            } else {
                assert(out[i] == r[i - 1] && out[j] == r[j - 1]);
            }
        }
    } else {
        assert(sort_by_key(s, key) =~= s);
    }
}

} // verus!
