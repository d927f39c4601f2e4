//! The search result layout shared by the layout-1 sites: the search form
//! is posted with the keyword as `q`, and results are read from the first
//! result layout that yields any.

use vstd::prelude::*;

use crate::html::{group_attr, group_attr_exec, group_text, group_text_exec, html_select_fields, select_fields, strs_view, NodeView};
use crate::providers::common::{collect, collect_results, items_view, opt_result_view, results_view, take_at_most};
use crate::html::Node;
use crate::text::{after_last, after_last_exec, owned, trim_end_matches, trim_end_matches_exec};
use crate::types::{SearchResult, SearchResultView};

verus! {

/// The result layouts tried, in order.
pub open spec fn mangg_layouts() -> Seq<Seq<char>> {
    seq![
        ".col-12.col-md-6 dl"@,
        ".search-result-list .result-item"@,
        ".novelslist2 li"@,
        ".result-list li"@,
        "table.grid tr"@,
        ".search-list li"@,
        ".list-group-item"@,
    ]
}

/// What is read in each result: title, link, author, latest chapter, date.
pub open spec fn mangg_fields() -> Seq<Seq<char>> {
    seq![
        "dt a, h3 a, a.s2, .s2 a, a:first-of-type"@,
        "dt a[href], h3 a[href], a.s2[href], .s2 a[href], a[href]:first-of-type"@,
        "dd span:nth-of-type(1), .s4, span.author, .author"@,
        "dd span:nth-of-type(2), .s3, span.update"@,
        "dd span:nth-of-type(3), .s5, span.date"@,
    ]
}

/// The book id in a result link: last path segment without `/` or `.html`.
pub open spec fn mangg_book_id(href: Seq<char>) -> Seq<char> {
    after_last(trim_end_matches(trim_end_matches(href, "/"@), ".html"@), "/"@)
}

/// One result, when it has a title and a link.
pub open spec fn mangg_item(site: Seq<char>, item: Seq<Seq<NodeView>>) -> Option<SearchResultView> {
    let title = group_text(item, 0);
    let href = group_attr(item, 1, "href"@);
    if title.len() == 0 || href.len() == 0 {
        None
    } else {
        Some(
            SearchResultView {
                site,
                book_id: mangg_book_id(href),
                title,
                author: group_text(item, 2),
                latest_chapter: group_text(item, 3),
                update_date: group_text(item, 4),
                word_count: Seq::empty(),
            },
        )
    }
}

/// [`mangg_item`] for a site.
pub open spec fn mangg_item_fn(site: Seq<char>) -> spec_fn(Seq<Seq<NodeView>>) -> Option<SearchResultView> {
    |it: Seq<Seq<NodeView>>| mangg_item(site, it)
}

/// The results of the first layout (in order) that yields any; at most
/// `limit` entries of that layout are read.
pub open spec fn mangg_results(html: Seq<char>, site: Seq<char>, limit: nat, layouts: Seq<Seq<char>>) -> Seq<SearchResultView>
    decreases layouts.len(),
{
    if layouts.len() == 0 {
        Seq::empty()
    } else {
        let items = html_select_fields(html, layouts[0], mangg_fields());
        let r = collect(take_at_most(items, limit), mangg_item_fn(site));
        if r.len() > 0 {
            r
        } else {
            mangg_results(html, site, limit, layouts.skip(1))
        }
    }
}

/// One result read from its selections.
fn mangg_item_exec(site: &str, item: &Vec<Vec<crate::html::Node>>) -> (r: Option<SearchResult>)
    ensures
        opt_result_view(r) == mangg_item(site@, crate::html::groups_view(item@)),
{
    let title = group_text_exec(item, 0);
    let href = group_attr_exec(item, 1, "href");
    if title.as_str().is_empty() || href.as_str().is_empty() {
        return None;
    }
    let a = trim_end_matches_exec(href.as_str(), "/");
    let b = trim_end_matches_exec(a.as_str(), ".html");
    let book_id = after_last_exec(b.as_str(), "/");
    Some(SearchResult {
        site: owned(site),
        book_id,
        title,
        author: group_text_exec(item, 2),
        latest_chapter: group_text_exec(item, 3),
        update_date: group_text_exec(item, 4),
        word_count: String::new(),
    })
}

/// Parses a search result page of a layout-1 site.
pub fn mangg_search_results(html: &str, site: &str, limit: usize) -> (r: Vec<SearchResult>)
    ensures
        results_view(r@) == mangg_results(html@, site@, limit as nat, mangg_layouts()),
{
    let layouts: Vec<&str> = vec![
        ".col-12.col-md-6 dl",
        ".search-result-list .result-item",
        ".novelslist2 li",
        ".result-list li",
        "table.grid tr",
        ".search-list li",
        ".list-group-item",
    ];
    let fields: Vec<&str> = vec![
        "dt a, h3 a, a.s2, .s2 a, a:first-of-type",
        "dt a[href], h3 a[href], a.s2[href], .s2 a[href], a[href]:first-of-type",
        "dd span:nth-of-type(1), .s4, span.author, .author",
        "dd span:nth-of-type(2), .s3, span.update",
        "dd span:nth-of-type(3), .s5, span.date",
    ];
    assert(strs_view(fields@) =~= mangg_fields());
    let ghost all = strs_view(layouts@);
    assert(all =~= mangg_layouts());
    assert(all.skip(0) =~= all);
    let mut k: usize = 0;
    while k < layouts.len()
        invariant
            k <= layouts.len(),
            all == strs_view(layouts@),
            strs_view(fields@) == mangg_fields(),
            mangg_results(html@, site@, limit as nat, all) == mangg_results(html@, site@, limit as nat, all.skip(k as int)),
            k <= all.len(),
            all.len() == layouts@.len(),
            all == mangg_layouts(),
        decreases layouts.len() - k,
    {
        assert(all.skip(k as int)[0] == layouts@[k as int]@);
        assert(all.skip(k as int).skip(1) =~= all.skip(k + 1));
        let items = select_fields(html, layouts[k], &fields);
        let ghost iv = items_view(items@);
        assert(iv =~= items@.map_values(|item: Vec<Vec<crate::html::Node>>| crate::html::groups_view(item@)));
        assert(iv == html_select_fields(html@, all.skip(k as int)[0], mangg_fields()));
        let out = collect_results(
            &items,
            limit,
            (|it: &Vec<Vec<Node>>| -> (r: Option<SearchResult>)
                ensures
                    opt_result_view(r) == mangg_item(site@, crate::html::groups_view(it@)),
                { mangg_item_exec(site, it) }),
            Ghost(mangg_item_fn(site@)),
        );
        assert(results_view(out@) == collect(take_at_most(iv, limit as nat), mangg_item_fn(site@)));
        if out.len() > 0 {
            assert(results_view(out@).len() > 0);
            assert(mangg_results(html@, site@, limit as nat, all.skip(k as int)) == results_view(out@));
            return out;
        }
        k += 1;
    }
    Vec::new()
}

} // verus!
