//! 全本小说网 (quanben5): a JSONP search whose keyword is scrambled with a
//! substitution alphabet and random padding, book pages, chapter pages.

use vstd::prelude::*;

use std::hash::Hasher;

use crate::html::{
    attr_or_empty, attr_or_empty_exec, element_text, first_text, fragment_fields, group_attr, group_attr_exec,
    group_text, group_text_exec, html_first_nested, html_fragment_fields, html_select, nested_view, nodes_view,
    normalize_url, normalized_url, sel_attr, sel_text, select_all, select_attr, select_first_nested, select_text,
    strs_view, Node, NodeView,
};
use crate::json::{get, jget, json_parsed, parse_json, str_or_empty, str_or_empty_exec, Json};
use crate::markup::{clean_content, cleaned};
use crate::providers::common::{
    chapters_view, collect, collect_results, id_by_rule, opt_result_view, paragraphs, paragraphs_exec, results_view,
    take_at_most, url_encode, url_encoded, IdRule,
};
use crate::text::{chars_of, concat, decimal, ends_with, ends_with_exec, owned, starts_with, starts_with_exec, string_of, sub_chars, u64_to_string};
use crate::types::{BookInfo, BookInfoView, Chapter, ChapterInfo, ChapterInfoView, ChapterView, SearchResult, SearchResultView, Volume, VolumeView};

verus! {

/// The quanben5 site.
pub struct Quanben5Provider;

/// Site address.
pub open spec fn qb5_base() -> Seq<char> {
    "https://quanben5.com"@
}

/// The substitution alphabet.
pub open spec fn static_chars() -> Seq<char> {
    "PXhw7UT1B0a9kQDKZsjIASmOezxYG4CHo5Jyfg2b8FLpEvRr3WtVnlqMidu6cN"@
}

/// The first position of `c` in `s`.
pub open spec fn char_pos(s: Seq<char>, c: char) -> Option<int>
    decreases s.len(),
{
    if s.len() == 0 {
        None
    } else if s[0] == c {
        Some(0)
    } else {
        match char_pos(s.skip(1), c) {
            Some(i) => Some(i + 1),
            None => None,
        }
    }
}

/// A character of the alphabet shifted three places on (cyclically);
/// other characters stay.
pub open spec fn scrambled(c: char) -> char {
    match char_pos(static_chars(), c) {
        Some(i) => static_chars()[(i + 3) % 62],
        None => c,
    }
}

/// A character of the alphabet shifted back three places (cyclically, that
/// is 59 on); other characters stay.
pub open spec fn unscrambled(c: char) -> char {
    match char_pos(static_chars(), c) {
        Some(i) => static_chars()[(i + 59) % 62],
        None => c,
    }
}

/// A character that `char_pos` does not find does not occur.
proof fn lemma_char_pos_none(s: Seq<char>, c: char)
    ensures
        char_pos(s, c) is None ==> forall|i: int| 0 <= i < s.len() ==> s[i] != c,
        char_pos(s, c) matches Some(i) ==> 0 <= i < s.len() && s[i] == c,
    decreases s.len(),
{
    if s.len() > 0 && s[0] != c {
        lemma_char_pos_none(s.skip(1), c);
        if char_pos(s, c) is None {
            assert forall|i: int| 0 <= i < s.len() implies s[i] != c by {
                if i > 0 {
                    assert(s[i] == s.skip(1)[i - 1]);
                }
            }
        }
    }
}

/// The place of `c` in the alphabet written out, or -1.
spec fn alpha_index(c: char) -> int {
    if c == 'P' {
        0
    } else if c == 'X' {
        1
    } else if c == 'h' {
        2
    } else if c == 'w' {
        3
    } else if c == '7' {
        4
    } else if c == 'U' {
        5
    } else if c == 'T' {
        6
    } else if c == '1' {
        7
    } else if c == 'B' {
        8
    } else if c == '0' {
        9
    } else if c == 'a' {
        10
    } else if c == '9' {
        11
    } else if c == 'k' {
        12
    } else if c == 'Q' {
        13
    } else if c == 'D' {
        14
    } else if c == 'K' {
        15
    } else if c == 'Z' {
        16
    } else if c == 's' {
        17
    } else if c == 'j' {
        18
    } else if c == 'I' {
        19
    } else if c == 'A' {
        20
    } else if c == 'S' {
        21
    } else if c == 'm' {
        22
    } else if c == 'O' {
        23
    } else if c == 'e' {
        24
    } else if c == 'z' {
        25
    } else if c == 'x' {
        26
    } else if c == 'Y' {
        27
    } else if c == 'G' {
        28
    } else if c == '4' {
        29
    } else if c == 'C' {
        30
    } else if c == 'H' {
        31
    } else if c == 'o' {
        32
    } else if c == '5' {
        33
    } else if c == 'J' {
        34
    } else if c == 'y' {
        35
    } else if c == 'f' {
        36
    } else if c == 'g' {
        37
    } else if c == '2' {
        38
    } else if c == 'b' {
        39
    } else if c == '8' {
        40
    } else if c == 'F' {
        41
    } else if c == 'L' {
        42
    } else if c == 'p' {
        43
    } else if c == 'E' {
        44
    } else if c == 'v' {
        45
    } else if c == 'R' {
        46
    } else if c == 'r' {
        47
    } else if c == '3' {
        48
    } else if c == 'W' {
        49
    } else if c == 't' {
        50
    } else if c == 'V' {
        51
    } else if c == 'n' {
        52
    } else if c == 'l' {
        53
    } else if c == 'q' {
        54
    } else if c == 'M' {
        55
    } else if c == 'i' {
        56
    } else if c == 'd' {
        57
    } else if c == 'u' {
        58
    } else if c == '6' {
        59
    } else if c == 'c' {
        60
    } else if c == 'N' {
        61
    } else {
        -1
    }
}

/// Each letter of the alphabet stands at its own place: no letter repeats.
proof fn lemma_alphabet_distinct()
    ensures
        forall|i: int, j: int|
            #![trigger static_chars()[i], static_chars()[j]]
            0 <= i < 62 && 0 <= j < 62 && static_chars()[i] == static_chars()[j] ==> i == j,
{
    reveal_strlit("PXhw7UT1B0a9kQDKZsjIASmOezxYG4CHo5Jyfg2b8FLpEvRr3WtVnlqMidu6cN");
    assert forall|i: int| 0 <= i < 62 implies alpha_index(#[trigger] static_chars()[i]) == i by {
        if i == 0 {
        } else if i == 1 {
        } else if i == 2 {
        } else if i == 3 {
        } else if i == 4 {
        } else if i == 5 {
        } else if i == 6 {
        } else if i == 7 {
        } else if i == 8 {
        } else if i == 9 {
        } else if i == 10 {
        } else if i == 11 {
        } else if i == 12 {
        } else if i == 13 {
        } else if i == 14 {
        } else if i == 15 {
        } else if i == 16 {
        } else if i == 17 {
        } else if i == 18 {
        } else if i == 19 {
        } else if i == 20 {
        } else if i == 21 {
        } else if i == 22 {
        } else if i == 23 {
        } else if i == 24 {
        } else if i == 25 {
        } else if i == 26 {
        } else if i == 27 {
        } else if i == 28 {
        } else if i == 29 {
        } else if i == 30 {
        } else if i == 31 {
        } else if i == 32 {
        } else if i == 33 {
        } else if i == 34 {
        } else if i == 35 {
        } else if i == 36 {
        } else if i == 37 {
        } else if i == 38 {
        } else if i == 39 {
        } else if i == 40 {
        } else if i == 41 {
        } else if i == 42 {
        } else if i == 43 {
        } else if i == 44 {
        } else if i == 45 {
        } else if i == 46 {
        } else if i == 47 {
        } else if i == 48 {
        } else if i == 49 {
        } else if i == 50 {
        } else if i == 51 {
        } else if i == 52 {
        } else if i == 53 {
        } else if i == 54 {
        } else if i == 55 {
        } else if i == 56 {
        } else if i == 57 {
        } else if i == 58 {
        } else if i == 59 {
        } else if i == 60 {
        } else if i == 61 {
        }
    }
    assert forall|i: int, j: int|
        #![trigger static_chars()[i], static_chars()[j]]
        0 <= i < 62 && 0 <= j < 62 && static_chars()[i] == static_chars()[j] implies i == j by {
        assert(alpha_index(static_chars()[i]) == i);
        assert(alpha_index(static_chars()[j]) == j);
    }
}

/// A character with no equal before it is found where it stands.
proof fn lemma_char_pos_first(s: Seq<char>, j: int)
    requires
        0 <= j < s.len(),
        forall|i: int| 0 <= i < j ==> s[i] != s[j],
    ensures
        char_pos(s, s[j]) == Some(j),
    decreases s.len(),
{
    if j > 0 {
        assert(s[0] != s[j]);
        assert(s.skip(1)[j - 1] == s[j]);
        assert forall|i: int| 0 <= i < j - 1 implies #[trigger] s.skip(1)[i] != s.skip(1)[j - 1] by {
            assert(s.skip(1)[i] == s[i + 1]);
        }
        lemma_char_pos_first(s.skip(1), j - 1);
    }
}

/// Shifting back undoes the shift: every character of a scrambled keyword's
/// middle positions gives back the keyword's character.
pub proof fn lemma_unscramble(c: char)
    ensures
        unscrambled(scrambled(c)) == c,
{
    reveal_strlit("PXhw7UT1B0a9kQDKZsjIASmOezxYG4CHo5Jyfg2b8FLpEvRr3WtVnlqMidu6cN");
    let t = static_chars();
    assert(t.len() == 62);
    lemma_alphabet_distinct();
    lemma_char_pos_none(t, c);
    match char_pos(t, c) {
        Some(i) => {
            let j = (i + 3) % 62;
            assert forall|k: int| 0 <= k < j implies t[k] != t[j] by {
                if t[k] == t[j] {
                    assert(k == j);
                }
            }
            lemma_char_pos_first(t, j);
            assert((j + 59) % 62 == i);
        },
        None => {},
    }
}

/// The scrambled keyword for given padding: each character becomes the
/// padding character at `pad[k].0`, the shifted character, and the padding
/// character at `pad[k].1`.
pub open spec fn scrambled_with(s: Seq<char>, pad: Seq<(usize, usize)>) -> Seq<char>
    decreases s.len(),
{
    if s.len() == 0 || pad.len() < s.len() {
        Seq::empty()
    } else {
        let k = s.len() - 1;
        scrambled_with(s.drop_last(), pad) + seq![
            static_chars()[pad[k].0 as int],
            scrambled(s[k]),
            static_chars()[pad[k].1 as int],
        ]
    }
}

/// A hasher digest brought below 62: as a `usize`, modulo 62.
pub fn below_62(digest: u64) -> (r: usize)
    ensures
        r == (digest as usize) % 62,
        r < 62,
{
    let w: usize = #[verifier::truncate]
    (digest as usize);
    w % 62
}

/// A number below 62: the digest of one zero byte under a freshly seeded
/// hasher, modulo 62. Nothing more is stated of it: it is random.
pub fn rand_small() -> (r: usize)
    ensures
        r < 62,
{
    let s = crate::clock::fresh_random_state();
    let mut h = crate::clock::keyed_hasher(&s);
    h.write(&[0u8]);
    below_62(h.finish())
}

/// The shifted character of `c` (see [`scrambled`]).
fn scramble_char(alpha: &Vec<char>, c: char) -> (r: char)
    requires
        alpha@ == static_chars(),
    ensures
        r == scrambled(c),
{
    let mut i: usize = 0;
    assert(alpha@.skip(0) =~= alpha@);
    while i < alpha.len()
        invariant
            i <= alpha.len(),
            alpha@ == static_chars(),
            char_pos(static_chars(), c) == match char_pos(alpha@.skip(i as int), c) {
                Some(k) => Some(k + i),
                None => None,
            },
        decreases alpha.len() - i,
    {
        assert(alpha@.skip(i as int)[0] == alpha@[i as int]);
        assert(alpha@.skip(i as int).skip(1) =~= alpha@.skip(i + 1));
        if alpha[i] == c {
            proof {
                reveal_strlit("PXhw7UT1B0a9kQDKZsjIASmOezxYG4CHo5Jyfg2b8FLpEvRr3WtVnlqMidu6cN");
            }
            return alpha[(i + 3) % 62];
        }
        i += 1;
    }
    c
}

/// The keyword scrambled with the given padding positions (each below 62).
pub fn scramble_with(s: &str, pad: &Vec<(usize, usize)>) -> (r: String)
    requires
        pad@.len() >= s@.len(),
        forall|k: int| 0 <= k < pad@.len() ==> pad@[k].0 < 62 && pad@[k].1 < 62,
    ensures
        r@ == scrambled_with(s@, pad@),
{
    let alpha = chars_of("PXhw7UT1B0a9kQDKZsjIASmOezxYG4CHo5Jyfg2b8FLpEvRr3WtVnlqMidu6cN");
    proof {
        reveal_strlit("PXhw7UT1B0a9kQDKZsjIASmOezxYG4CHo5Jyfg2b8FLpEvRr3WtVnlqMidu6cN");
    }
    let v = chars_of(s);
    let mut out: Vec<char> = Vec::new();
    let mut i: usize = 0;
    while i < v.len()
        invariant
            i <= v.len(),
            v@ == s@,
            alpha@ == static_chars(),
            alpha@.len() == 62,
            pad@.len() >= s@.len(),
            forall|k: int| 0 <= k < pad@.len() ==> pad@[k].0 < 62 && pad@[k].1 < 62,
            out@ == scrambled_with(v@.take(i as int), pad@),
        decreases v.len() - i,
    {
        assert(v@.take(i + 1).drop_last() =~= v@.take(i as int));
        assert(v@.take(i + 1)[i as int] == v@[i as int]);
        let code = scramble_char(&alpha, v[i]);
        out.push(alpha[pad[i].0]);
        out.push(code);
        out.push(alpha[pad[i].1]);
        i += 1;
    }
    assert(v@.take(i as int) =~= v@);
    string_of(out.as_slice())
}

/// The keyword scrambled with fresh random padding: three characters for
/// each one, the middle one the shifted character, the outer ones from the
/// alphabet.
pub fn custom_base64(s: &str) -> (r: String)
    ensures
        r@.len() == 3 * s@.len(),
        forall|k: int| 0 <= k < s@.len() ==> r@[3 * k + 1] == scrambled(#[trigger] s@[k]),
        forall|k: int| 0 <= k < s@.len() ==> unscrambled(#[trigger] r@[3 * k + 1]) == s@[k],
        forall|k: int| 0 <= k < s@.len() ==> static_chars().contains(#[trigger] r@[3 * k]) && static_chars().contains(
            r@[3 * k + 2],
        ),
{
    let v = chars_of(s);
    let mut pad: Vec<(usize, usize)> = Vec::new();
    let mut i: usize = 0;
    while i < v.len()
        invariant
            i <= v.len(),
            pad@.len() == i,
            forall|k: int| 0 <= k < pad@.len() ==> pad@[k].0 < 62 && pad@[k].1 < 62,
        decreases v.len() - i,
    {
        let n1 = rand_small() % 62;
        let n2 = rand_small() % 62;
        pad.push((n1, n2));
        i += 1;
    }
    let r = scramble_with(s, &pad);
    proof {
        lemma_scrambled_shape(s@, pad@);
        assert forall|k: int| 0 <= k < s@.len() implies unscrambled(#[trigger] r@[3 * k + 1]) == s@[k] by {
            lemma_unscramble(s@[k]);
        }
    }
    r
}

/// The shape of a scrambled keyword.
proof fn lemma_scrambled_shape(s: Seq<char>, pad: Seq<(usize, usize)>)
    requires
        pad.len() >= s.len(),
        forall|k: int| 0 <= k < pad.len() ==> pad[k].0 < 62 && pad[k].1 < 62,
    ensures
        scrambled_with(s, pad).len() == 3 * s.len(),
        forall|k: int| 0 <= k < s.len() ==> scrambled_with(s, pad)[3 * k + 1] == scrambled(#[trigger] s[k]),
        forall|k: int| 0 <= k < s.len() ==> static_chars().contains(#[trigger] scrambled_with(s, pad)[3 * k])
            && static_chars().contains(scrambled_with(s, pad)[3 * k + 2]),
    decreases s.len(),
{
    reveal_strlit("PXhw7UT1B0a9kQDKZsjIASmOezxYG4CHo5Jyfg2b8FLpEvRr3WtVnlqMidu6cN");
    if s.len() > 0 {
        let p = s.drop_last();
        lemma_scrambled_shape(p, pad);
        let k = s.len() - 1;
        let a = static_chars()[pad[k].0 as int];
        let b = static_chars()[pad[k].1 as int];
        let t = seq![a, scrambled(s[k]), b];
        assert(scrambled_with(s, pad) == scrambled_with(p, pad) + t);
        assert forall|j: int| 0 <= j < s.len() implies scrambled_with(s, pad)[3 * j + 1] == scrambled(#[trigger] s[j]) by {
            if j < k {
                assert(p[j] == s[j]);
                assert(scrambled_with(p, pad)[3 * j + 1] == scrambled(p[j]));
            }
        }
        assert forall|j: int| 0 <= j < s.len() implies static_chars().contains(#[trigger] scrambled_with(s, pad)[3 * j])
            && static_chars().contains(scrambled_with(s, pad)[3 * j + 2]) by {
            if j < k {
                assert(p[j] == s[j]);
                assert(static_chars().contains(scrambled_with(p, pad)[3 * j]));
            } else {
                assert(static_chars()[pad[k].0 as int] == a);
                assert(static_chars().contains(a));
                assert(static_chars().contains(b));
            }
        }
    }
}

/// The body of the search answer: within `search(` … `);` when it is so
/// wrapped.
pub open spec fn qb5_body(resp: Seq<char>) -> Seq<char> {
    if starts_with(resp, "search("@) && ends_with(resp, ");"@) {
        resp.subrange(7, resp.len() - 2)
    } else {
        resp
    }
}

/// What is read of each search result.
pub open spec fn qb5_fields() -> Seq<Seq<char>> {
    seq!["h3 a"@, "h3 a span.name"@, "p.info span.author"@]
}

/// One search result: its title link gives the id.
pub open spec fn qb5_result(item: Seq<Seq<NodeView>>) -> Option<SearchResultView> {
    let href = group_attr(item, 0, "href"@);
    if href.len() == 0 {
        None
    } else {
        Some(
            SearchResultView {
                site: "quanben5"@,
                book_id: id_by_rule(IdRule::TrimmedSegment, href),
                title: group_text(item, 1),
                author: group_text(item, 2),
                latest_chapter: Seq::empty(),
                update_date: Seq::empty(),
                word_count: Seq::empty(),
            },
        )
    }
}

/// [`qb5_result`] as a function value.
pub open spec fn qb5_result_fn() -> spec_fn(Seq<Seq<NodeView>>) -> Option<SearchResultView> {
    |item: Seq<Seq<NodeView>>| qb5_result(item)
}

/// The results of a search answer: `None` when its body is not JSON; none
/// when it has no content; else those among the first `limit` entries.
pub open spec fn qb5_results(resp: Seq<char>, limit: nat) -> Option<Seq<SearchResultView>> {
    match json_parsed(qb5_body(resp)) {
        Some(j) => {
            let content = str_or_empty(jget(j, "content"@));
            Some(
                if content.len() == 0 {
                    Seq::empty()
                } else {
                    collect(
                        take_at_most(html_fragment_fields(content, "div.pic_txt_list"@, qb5_fields()), limit),
                        qb5_result_fn(),
                    )
                },
            )
        },
        None => None,
    }
}

/// One item of the chapter list: its first link, titled by the link's
/// first `span`; both must be non-empty.
pub open spec fn qb5_link(first: Option<(NodeView, Seq<NodeView>)>) -> Option<ChapterInfoView> {
    match first {
        Some((a, spans)) => {
            let href = attr_or_empty(a, "href"@);
            let title = first_text(spans);
            if title.len() == 0 || href.len() == 0 {
                None
            } else {
                Some(ChapterInfoView { title, chapter_id: id_by_rule(IdRule::LastSegment, href), url: normalized_url(qb5_base(), href) })
            }
        },
        None => None,
    }
}

/// [`qb5_link`] as a function value.
pub open spec fn qb5_link_fn() -> spec_fn(Option<(NodeView, Seq<NodeView>)>) -> Option<ChapterInfoView> {
    |o: Option<(NodeView, Seq<NodeView>)>| qb5_link(o)
}

/// A quanben5 book page.
pub open spec fn qb5_info(html: Seq<char>) -> BookInfoView {
    let chapters = collect(html_first_nested(html, "ul.list li"@, "a"@, "span"@), qb5_link_fn());
    BookInfoView {
        book_name: sel_text(html, "h3 span"@),
        author: sel_text(html, "p.info span.author"@),
        summary: sel_text(html, "p.description"@),
        cover_url: sel_attr(html, "div.pic img"@, "src"@),
        serial_status: Seq::empty(),
        update_time: Seq::empty(),
        word_count: Seq::empty(),
        volumes: if chapters.len() > 0 {
            seq![VolumeView { volume_name: "正文"@, chapters }]
        } else {
            Seq::empty()
        },
    }
}

fn qb5_result_exec(item: &Vec<Vec<Node>>) -> (r: Option<SearchResult>)
    ensures
        opt_result_view(r) == qb5_result(crate::html::groups_view(item@)),
{
    let href = group_attr_exec(item, 0, "href");
    if href.as_str().is_empty() {
        return None;
    }
    Some(SearchResult {
        site: owned("quanben5"),
        book_id: crate::providers::common::chapter_id_by_rule(IdRule::TrimmedSegment, href.as_str()),
        title: group_text_exec(item, 1),
        author: group_text_exec(item, 2),
        latest_chapter: String::new(),
        update_date: String::new(),
        word_count: String::new(),
    })
}

impl Quanben5Provider {
    /// The site's identifier.
    pub fn name(&self) -> (r: &'static str)
        ensures
            r@ == "quanben5"@,
    {
        "quanben5"
    }

    /// The site's display name (its identifier).
    pub fn display_name(&self) -> (r: &'static str)
        ensures
            r@ == "quanben5"@,
    {
        "quanben5"
    }

    /// The site's address.
    pub fn base_url(&self) -> (r: &'static str)
        ensures
            r@ == qb5_base(),
    {
        "https://quanben5.com"
    }

    /// The site has a search.
    pub fn supports_search(&self) -> (r: bool)
        ensures
            r,
    {
        true
    }

    /// The scrambled form of a keyword sent with a search: the keyword
    /// percent-encoded, then scrambled with fresh random padding.
    pub fn search_scramble(keyword: &str) -> (r: String)
        ensures
            r@.len() == 3 * url_encoded(keyword@).len(),
            forall|k: int|
                0 <= k < url_encoded(keyword@).len() ==> r@[3 * k + 1] == scrambled(#[trigger] url_encoded(keyword@)[k]),
    {
        let enc = url_encode(keyword);
        custom_base64(enc.as_str())
    }

    /// The search request at time `t` (milliseconds) for a keyword, given
    /// the keyword's scrambled form `b_raw` (see [`custom_base64`]).
    pub fn search_url(&self, t: u64, keyword: &str, b_raw: &str) -> (r: String)
        ensures
            r@ == "https://quanben5.com/?c=book&a=search.json&callback=search&t="@ + decimal(t as nat) + "&keywords="@
                + url_encoded(keyword@) + "&b="@ + url_encoded(b_raw@),
    {
        let ts = u64_to_string(t);
        let k = url_encode(keyword);
        let b = url_encode(b_raw);
        let a = concat(concat("https://quanben5.com/?c=book&a=search.json&callback=search&t=", ts.as_str()).as_str(), "&keywords=");
        let c = concat(concat(a.as_str(), k.as_str()).as_str(), "&b=");
        concat(c.as_str(), b.as_str())
    }

    /// The results of a search answer.
    pub fn parse_search(resp: &str, limit: usize) -> (r: Option<Vec<SearchResult>>)
        ensures
            match qb5_results(resp@, limit as nat) {
                Some(v) => r matches Some(x) && results_view(x@) == v,
                None => r is None,
            },
    {
        let body = if starts_with_exec(resp, "search(") && ends_with_exec(resp, ");") {
            let v = chars_of(resp);
            proof {
                reveal_strlit("search(");
                reveal_strlit(");");
            }
            assert(v@.len() >= 9) by {
                let pre = v@.subrange(0, 7);
                assert(pre =~= "search("@);
                let suf = v@.subrange(v@.len() - 2, v@.len() as int);
                assert(suf =~= ");"@);
                assert(suf[0] == ')');
                assert(suf[0] == v@[v@.len() - 2]);
                if v@.len() == 8 {
                    assert(pre[6] == '(');
                    assert(pre[6] == v@[6]);
                } else if v@.len() == 7 {
                    assert(pre[5] == 'h');
                    assert(pre[5] == v@[5]);
                }
            }
            string_of(sub_chars(&v, 7, v.len() - 2).as_slice())
        } else {
            owned(resp)
        };
        match parse_json(body.as_str()) {
            Some(j) => {
                let content = str_or_empty_exec(get(&j, "content"));
                if content.as_str().is_empty() {
                    return Some(Vec::new());
                }
                let fields: Vec<&str> = vec!["h3 a", "h3 a span.name", "p.info span.author"];
                assert(strs_view(fields@) =~= qb5_fields());
                let items = fragment_fields(content.as_str(), "div.pic_txt_list", &fields);
                Some(
                    collect_results(
                        &items,
                        limit,
                        (|it: &Vec<Vec<Node>>| -> (r: Option<SearchResult>)
                            ensures
                                opt_result_view(r) == qb5_result(crate::html::groups_view(it@)),
                            { qb5_result_exec(it) }),
                        Ghost(qb5_result_fn()),
                    ),
                )
            },
            None => None,
        }
    }

    /// The book page: `{base}/n/{id}/xiaoshuo.html`.
    pub fn book_url(&self, book_id: &str) -> (r: String)
        ensures
            r@ == qb5_base() + "/n/"@ + book_id@ + "/xiaoshuo.html"@,
    {
        concat(concat(concat(self.base_url(), "/n/").as_str(), book_id).as_str(), "/xiaoshuo.html")
    }

    /// A chapter page: `{base}/n/{book}/{chapter}.html`.
    pub fn chapter_url(&self, book_id: &str, chapter_id: &str) -> (r: String)
        ensures
            r@ == qb5_base() + "/n/"@ + book_id@ + "/"@ + chapter_id@ + ".html"@,
    {
        let a = concat(concat(concat(self.base_url(), "/n/").as_str(), book_id).as_str(), "/");
        concat(concat(a.as_str(), chapter_id).as_str(), ".html")
    }

    /// Parses a book page.
    pub fn parse_book_info(&self, html: &str) -> (info: BookInfo)
        ensures
            info@ == qb5_info(html@),
    {
        let firsts = select_first_nested(html, "ul.list li", "a", "span");
        let ghost fv = firsts@.map_values(|o: Option<(Node, Vec<Node>)>| nested_view(o));
        let mut chapters: Vec<ChapterInfo> = Vec::new();
        let mut i: usize = 0;
        while i < firsts.len()
            invariant
                i <= firsts.len(),
                fv == firsts@.map_values(|o: Option<(Node, Vec<Node>)>| nested_view(o)),
                chapters_view(chapters@) == collect(fv.take(i as int), qb5_link_fn()),
            decreases firsts.len() - i,
        {
            proof {
                crate::providers::common::lemma_collect_step(fv, qb5_link_fn(), i as int);
            }
            match &firsts[i] {
                Some((a, spans)) => {
                    assert(fv[i as int] == Some((a@, nodes_view(spans@))));
                    let href = attr_or_empty_exec(a, "href");
                    let title = if spans.len() > 0 {
                        element_text(&spans[0])
                    } else {
                        String::new()
                    };
                    if !title.as_str().is_empty() && !href.as_str().is_empty() {
                        let c = ChapterInfo {
                            title,
                            chapter_id: crate::providers::common::chapter_id_by_rule(IdRule::LastSegment, href.as_str()),
                            url: normalize_url("https://quanben5.com", href.as_str()),
                        };
                        let ghost o0 = chapters@;
                        chapters.push(c);
                        assert(chapters_view(chapters@) =~= chapters_view(o0).push(chapters@.last()@));
                    }
                },
                None => {
                    assert(fv[i as int] is None);
                },
            }
            i += 1;
        }
        assert(fv.take(i as int) =~= fv);
        let mut volumes: Vec<Volume> = Vec::new();
        if chapters.len() > 0 {
            volumes.push(Volume { volume_name: owned("正文"), chapters });
        }
        let info = BookInfo {
            book_name: select_text(html, "h3 span"),
            author: select_text(html, "p.info span.author"),
            summary: select_text(html, "p.description"),
            cover_url: select_attr(html, "div.pic img", "src"),
            serial_status: String::new(),
            update_time: String::new(),
            word_count: String::new(),
            volumes,
        };
        assert(info@.volumes =~= qb5_info(html@).volumes);
        assert(info@.serial_status =~= Seq::<char>::empty());
        assert(info@.update_time =~= Seq::<char>::empty());
        assert(info@.word_count =~= Seq::<char>::empty());
        info
    }

    /// Parses a chapter page.
    pub fn parse_chapter(html: &str, chapter_id: &str) -> (ch: Chapter)
        ensures
            ch@ == (ChapterView {
                id: chapter_id@,
                title: sel_text(html@, "h1.title1"@),
                content: cleaned(paragraphs(html_select(html@, "div#content p"@))),
            }),
    {
        let p = paragraphs_exec(html, "div#content p");
        Chapter { id: owned(chapter_id), title: select_text(html, "h1.title1"), content: clean_content(p.as_str()) }
    }
}

} // verus!
