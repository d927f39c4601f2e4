//! Novel downloading library: page-parsing rules for many web-novel sites,
//! ordered chapter delivery, and character-encoding detection.

pub mod text;
pub mod types;
pub mod download;
pub mod charset;
pub mod html;
pub mod markup;
pub mod json;
pub mod providers;
pub mod clock;

use vstd::prelude::*;

use crate::providers::{all_sites, get_all_providers, site_base, site_name, site_search, Site};
use crate::text::{contains, contains_exec, lowercase, owned, str_eq, to_lowercase};
use crate::types::{SearchResult, SearchResultView};

verus! {

/// What is listed of a site: its identifier, its address and whether it
/// has a search.
#[derive(Debug, Clone)]
pub struct ProviderMeta {
    pub name: String,
    pub url: String,
    pub supports_search: bool,
}

/// View of a [`ProviderMeta`].
pub struct ProviderMetaView {
    pub name: Seq<char>,
    pub url: Seq<char>,
    pub supports_search: bool,
}

impl View for ProviderMeta {
    type V = ProviderMetaView;

    open spec fn view(&self) -> ProviderMetaView {
        ProviderMetaView { name: self.name@, url: self.url@, supports_search: self.supports_search }
    }
}

/// What is listed of a site.
pub open spec fn meta_of(s: Site) -> ProviderMetaView {
    ProviderMetaView { name: site_name(s), url: site_base(s), supports_search: site_search(s) }
}

/// The listing of every site, in order: the 83 sites of
/// [`providers::all_sites`] (which names the 31 without page rules here).
pub fn list_providers() -> (r: Vec<ProviderMeta>)
    ensures
        r@.map_values(|m: ProviderMeta| m@) == all_sites().map_values(|s: Site| meta_of(s)),
{
    let sites = get_all_providers();
    let mut out: Vec<ProviderMeta> = Vec::new();
    let mut i: usize = 0;
    while i < sites.len()
        invariant
            i <= sites.len(),
            sites@ == all_sites(),
            out@.map_values(|m: ProviderMeta| m@) == sites@.take(i as int).map_values(|s: Site| meta_of(s)),
        decreases sites.len() - i,
    {
        let s = &sites[i];
        let m = ProviderMeta { name: owned(s.name()), url: owned(s.base_url()), supports_search: s.supports_search() };
        let ghost o0 = out@;
        out.push(m);
        assert(sites@.take(i + 1).map_values(|s: Site| meta_of(s)) =~= sites@.take(i as int).map_values(
            |s: Site| meta_of(s),
        ).push(meta_of(sites@[i as int])));
        assert(out@.map_values(|m: ProviderMeta| m@) =~= o0.map_values(|m: ProviderMeta| m@).push(out@.last()@));
        i += 1;
    }
    assert(sites@.take(i as int) =~= sites@);
    out
}

/// The first of `sites` whose identifier is `name`, if any.
pub open spec fn first_named(sites: Seq<Site>, name: Seq<char>) -> Option<Site>
    decreases sites.len(),
{
    if sites.len() == 0 {
        None
    } else if site_name(sites[0]) == name {
        Some(sites[0])
    } else {
        first_named(sites.skip(1), name)
    }
}

/// The listed site whose identifier is `name` (the first, should several
/// share it); `None` when no site has it.
pub fn find_provider(name: &str) -> (r: Option<Site>)
    ensures
        r == first_named(all_sites(), name@),
{
    let sites = get_all_providers();
    let mut i: usize = 0;
    assert(sites@.skip(0) =~= sites@);
    while i < sites.len()
        invariant
            i <= sites.len(),
            sites@ == all_sites(),
            first_named(all_sites(), name@) == first_named(sites@.skip(i as int), name@),
        decreases sites.len() - i,
    {
        assert(sites@.skip(i as int)[0] == sites@[i as int]);
        if str_eq(sites[i].name(), name) {
            return Some(sites[i]);
        }
        assert(sites@.skip(i as int).skip(1) =~= sites@.skip(i + 1));
        i += 1;
    }
    None
}

/// A site found by name has that name and is listed; a name that some listed
/// site has is always found.
pub proof fn lemma_find_listed(sites: Seq<Site>, name: Seq<char>)
    ensures
        first_named(sites, name) matches Some(s) ==> site_name(s) == name && sites.contains(s),
        (exists|i: int| 0 <= i < sites.len() && site_name(#[trigger] sites[i]) == name) ==> first_named(sites, name) is Some,
    decreases sites.len(),
{
    if sites.len() > 0 {
        lemma_find_listed(sites.skip(1), name);
        match first_named(sites.skip(1), name) {
            Some(s) => {
                assert(sites.skip(1).contains(s));
                let k = choose|k: int| 0 <= k < sites.skip(1).len() && sites.skip(1)[k] == s;
                assert(sites[k + 1] == s);
            },
            None => {},
        }
        if site_name(sites[0]) != name {
            if exists|i: int| 0 <= i < sites.len() && site_name(#[trigger] sites[i]) == name {
                let i = choose|i: int| 0 <= i < sites.len() && site_name(#[trigger] sites[i]) == name;
                assert(i > 0);
                assert(sites.skip(1)[i - 1] == sites[i]);
            }
        }
    }
}

/// Whether a result's title equals the keyword, case aside.
pub open spec fn exact_title(r: SearchResultView, kw: Seq<char>) -> bool {
    lowercase(r.title) == lowercase(kw)
}

/// Whether a result's title contains the keyword, case aside.
pub open spec fn partial_title(r: SearchResultView, kw: Seq<char>) -> bool {
    contains(lowercase(r.title), lowercase(kw))
}

/// The position of the first result on which `p` holds, if any.
pub open spec fn first_where(rs: Seq<SearchResultView>, kw: Seq<char>, exact: bool) -> Option<int>
    decreases rs.len(),
{
    if rs.len() == 0 {
        None
    } else if (if exact {
        exact_title(rs[0], kw)
    } else {
        partial_title(rs[0], kw)
    }) {
        Some(0)
    } else {
        match first_where(rs.skip(1), kw, exact) {
            Some(i) => Some(i + 1),
            None => None,
        }
    }
}

/// The best result for a keyword: the first whose title is the keyword,
/// else the first whose title contains it, else the first; none when there
/// are no results.
pub open spec fn best_index(rs: Seq<SearchResultView>, kw: Seq<char>) -> Option<int> {
    if rs.len() == 0 {
        None
    } else {
        match first_where(rs, kw, true) {
            Some(i) => Some(i),
            None => match first_where(rs, kw, false) {
                Some(i) => Some(i),
                None => Some(0),
            },
        }
    }
}

fn first_where_exec(rs: &Vec<SearchResult>, kw_lower: &str, exact: bool, Ghost(kw): Ghost<Seq<char>>) -> (r: Option<
    usize,
>)
    requires
        kw_lower@ == lowercase(kw),
    ensures
        match r {
            Some(i) => first_where(rs@.map_values(|x: SearchResult| x@), kw, exact) == Some(i as int),
            None => first_where(rs@.map_values(|x: SearchResult| x@), kw, exact) is None,
        },
{
    let ghost rv = rs@.map_values(|x: SearchResult| x@);
    let mut i: usize = 0;
    assert(rv.skip(0) =~= rv);
    while i < rs.len()
        invariant
            i <= rs.len(),
            kw_lower@ == lowercase(kw),
            rv == rs@.map_values(|x: SearchResult| x@),
            forall|j: int| #![auto] 0 <= j < i ==> !(if exact {
                exact_title(rv[j], kw)
            } else {
                partial_title(rv[j], kw)
            }),
            first_where(rv, kw, exact) == (match first_where(rv.skip(i as int), kw, exact) {
                Some(k) => Some(k + i),
                None => None,
            }),
        decreases rs.len() - i,
    {
        assert(rv.skip(i as int)[0] == rv[i as int]);
        let t = to_lowercase(rs[i].title.as_str());
        let hit = if exact {
            str_eq(t.as_str(), kw_lower)
        } else {
            contains_exec(t.as_str(), kw_lower)
        };
        if hit {
            return Some(i);
        }
        assert(rv.skip(i as int).skip(1) =~= rv.skip(i + 1));
        i += 1;
    }
    None
}

/// The position of the best result for a keyword (see [`best_index`]).
pub fn best_match(results: &Vec<SearchResult>, keyword: &str) -> (r: Option<usize>)
    ensures
        match r {
            Some(i) => best_index(results@.map_values(|x: SearchResult| x@), keyword@) == Some(i as int),
            None => best_index(results@.map_values(|x: SearchResult| x@), keyword@) is None,
        },
{
    if results.len() == 0 {
        return None;
    }
    let kw = to_lowercase(keyword);
    match first_where_exec(results, kw.as_str(), true, Ghost(keyword@)) {
        Some(i) => Some(i),
        None => match first_where_exec(results, kw.as_str(), false, Ghost(keyword@)) {
            Some(i) => Some(i),
            None => Some(0),
        },
    }
}

/// `first_where` finds the first result on which its test holds.
proof fn lemma_first_where(rs: Seq<SearchResultView>, kw: Seq<char>, exact: bool)
    ensures
        match first_where(rs, kw, exact) {
            Some(i) => 0 <= i < rs.len() && (if exact {
                lowercase(rs[i].title) == lowercase(kw)
            } else {
                contains(lowercase(rs[i].title), lowercase(kw))
            }) && forall|j: int| 0 <= j < i ==> !(if exact {
                lowercase(#[trigger] rs[j].title) == lowercase(kw)
            } else {
                contains(lowercase(rs[j].title), lowercase(kw))
            }),
            None => forall|j: int| 0 <= j < rs.len() ==> !(if exact {
                lowercase(#[trigger] rs[j].title) == lowercase(kw)
            } else {
                contains(lowercase(rs[j].title), lowercase(kw))
            }),
        },
    decreases rs.len(),
{
    if rs.len() > 0 {
        lemma_first_where(rs.skip(1), kw, exact);
        assert forall|j: int| 1 <= j < rs.len() implies rs[j] == rs.skip(1)[j - 1] by {}
    }
}

/// The best result for a keyword, case aside: none exactly when there are
/// no results; the first result whose title is the keyword when there is
/// one; else the first whose title contains the keyword when there is one;
/// else the first result.
pub proof fn lemma_best_match(rs: Seq<SearchResultView>, kw: Seq<char>)
    ensures
        best_index(rs, kw) is None <==> rs.len() == 0,
        (exists|i: int| 0 <= i < rs.len() && lowercase(#[trigger] rs[i].title) == lowercase(kw)) ==> (
        best_index(rs, kw) matches Some(b) && 0 <= b < rs.len() && lowercase(rs[b].title) == lowercase(kw)
            && forall|j: int| 0 <= j < b ==> lowercase(#[trigger] rs[j].title) != lowercase(kw)),
        (forall|i: int| 0 <= i < rs.len() ==> lowercase(#[trigger] rs[i].title) != lowercase(kw)) && (exists|i: int|
            0 <= i < rs.len() && contains(lowercase(#[trigger] rs[i].title), lowercase(kw))) ==> (
        best_index(rs, kw) matches Some(b) && 0 <= b < rs.len() && contains(lowercase(rs[b].title), lowercase(kw))
            && forall|j: int| 0 <= j < b ==> !contains(lowercase(#[trigger] rs[j].title), lowercase(kw))),
        rs.len() > 0 && (forall|i: int| 0 <= i < rs.len() ==> lowercase(#[trigger] rs[i].title) != lowercase(kw)
            && !contains(lowercase(rs[i].title), lowercase(kw))) ==> best_index(rs, kw) == Some(0int),
{
    lemma_first_where(rs, kw, true);
    lemma_first_where(rs, kw, false);
}

} // verus!
