//! Turning an HTML fragment (a chapter body) into plain text.

use vstd::prelude::*;

use crate::text::{
    before_first, chars_of, find_from, first_occurrence_from, join, join_exec,
    lemma_first_occurrence_bounds, occurs_at, occurs_at_exec, starts_with, string_of, sub_chars,
    trim, trim_exec, trim_start,
};

verus! {

// ─── facts about searching in a suffix ─────────────────────────────────────

/// An occurrence in a suffix is an occurrence in the whole, shifted.
pub proof fn lemma_occurs_skip(s: Seq<char>, pat: Seq<char>, i: int, j: int)
    requires
        0 <= i <= s.len(),
        0 <= j,
    ensures
        occurs_at(s.skip(i), pat, j) == occurs_at(s, pat, i + j),
{
    if j + pat.len() <= s.len() - i {
        assert(s.skip(i).subrange(j, j + pat.len()) =~= s.subrange(i + j, i + j + pat.len()));
    }
}

/// The first occurrence in a suffix is the first occurrence in the whole, shifted.
pub proof fn lemma_first_occurrence_skip(s: Seq<char>, pat: Seq<char>, i: int, j: int)
    requires
        0 <= i <= s.len(),
        0 <= j,
    ensures
        first_occurrence_from(s, pat, i + j) matches Some(k) ==> first_occurrence_from(
            s.skip(i),
            pat,
            j,
        ) == Some(k - i),
        first_occurrence_from(s, pat, i + j) is None ==> first_occurrence_from(s.skip(i), pat, j)
            is None,
    decreases s.len() - i - j,
{
    lemma_occurs_skip(s, pat, i, j);
    if j + pat.len() > s.len() - i {
    } else if occurs_at(s, pat, i + j) {
    } else {
        lemma_first_occurrence_skip(s, pat, i, j + 1);
    }
}

// ─── markup to lines ───────────────────────────────────────────────────────

/// ASCII letters lower-cased, everything else kept.
pub open spec fn ascii_lower(s: Seq<char>) -> Seq<char> {
    s.map_values(|c: char| if 'A' <= c && c <= 'Z' {
        ((c as u8) + 32) as char
    } else {
        c
    })
}

/// The name of a tag from the text between `<` and `>`: without a leading
/// `/`, up to the first space or `/`, ASCII-lower-cased.
pub open spec fn tag_name(t: Seq<char>) -> Seq<char> {
    let t1 = if starts_with(t, "/"@) {
        t.skip(1)
    } else {
        t
    };
    ascii_lower(before_first(before_first(t1, " "@), "/"@))
}

/// Tags that end a line: `br`, `p`, `div` (opening or closing).
pub open spec fn is_break_tag(t: Seq<char>) -> bool {
    let n = tag_name(t);
    n == "br"@ || n == "p"@ || n == "div"@
}

/// The named character references that are decoded, with their text.
pub open spec fn entity_at(s: Seq<char>) -> Option<(int, char)> {
    if starts_with(s, "&nbsp;"@) {
        Some((6, ' '))
    } else if starts_with(s, "&amp;"@) {
        Some((5, '&'))
    } else if starts_with(s, "&lt;"@) {
        Some((4, '<'))
    } else if starts_with(s, "&gt;"@) {
        Some((4, '>'))
    } else if starts_with(s, "&quot;"@) {
        Some((6, '"'))
    } else if starts_with(s, "&#39;"@) {
        Some((5, '\''))
    } else {
        None
    }
}

/// Markup rendered as text: tags removed (line-ending ones become `\n`, an
/// unclosed `<` drops the rest), common entities decoded, other text kept.
pub open spec fn render(s: Seq<char>) -> Seq<char>
    decreases s.len(),
{
    if s.len() == 0 {
        Seq::empty()
    } else if s[0] == '<' {
        match first_occurrence_from(s, ">"@, 1) {
            Some(k) => if 1 <= k && k + 1 <= s.len() {
                (if is_break_tag(s.subrange(1, k)) {
                    seq!['\n']
                } else {
                    Seq::empty()
                }) + render(s.skip(k + 1))
            } else {
                Seq::empty()
            },
            None => Seq::empty(),
        }
    } else {
        match entity_at(s) {
            Some((n, c)) => if 0 < n <= s.len() {
                seq![c] + render(s.skip(n))
            } else {
                Seq::empty()
            },
            None => seq![s[0]] + render(s.skip(1)),
        }
    }
}

/// The lines of `s`, split at `\n`.
pub open spec fn lines(s: Seq<char>) -> Seq<Seq<char>>
    decreases s.len(),
{
    match first_occurrence_from(s, "\n"@, 0) {
        Some(k) => if 0 <= k < s.len() {
            seq![s.take(k)] + lines(s.skip(k + 1))
        } else {
            seq![s]
        },
        None => seq![s],
    }
}

/// The lines trimmed, empty ones dropped.
pub open spec fn kept_lines(ls: Seq<Seq<char>>) -> Seq<Seq<char>>
    decreases ls.len(),
{
    if ls.len() == 0 {
        Seq::empty()
    } else {
        (if trim(ls[0]).len() > 0 {
            seq![trim(ls[0])]
        } else {
            Seq::empty()
        }) + kept_lines(ls.skip(1))
    }
}

/// The text of an HTML fragment: rendered, split into lines, lines trimmed,
/// empty lines dropped, rejoined with `\n`.
pub open spec fn spec_html_to_text(html: Seq<char>) -> Seq<char> {
    join(kept_lines(lines(render(html))), "\n"@)
}

/// Whether the tag text `t` (between `<` and `>`) ends a line.
fn is_break_tag_exec(v: &Vec<char>, a: usize, b: usize) -> (r: bool)
    requires
        a <= b <= v@.len(),
    ensures
        r == is_break_tag(v@.subrange(a as int, b as int)),
{
    let ghost t = v@.subrange(a as int, b as int);
    let mut start = a;
    if a < b && v[a] == '/' {
        start = a + 1;
    }
    let ghost t1 = if starts_with(t, "/"@) {
        t.skip(1)
    } else {
        t
    };
    proof {
        reveal_strlit("/");
        if a < b && v@[a as int] == '/' {
            assert(t.subrange(0, 1) =~= "/"@);
            assert(t1 =~= v@.subrange(start as int, b as int));
        } else {
            if t.len() >= 1 {
                assert(t.subrange(0, 1)[0] == t[0]);
            }
            assert(!starts_with(t, "/"@));
            assert(t1 =~= v@.subrange(start as int, b as int));
        }
    }
    let mut end = start;
    while end < b && v[end] != ' ' && v[end] != '/'
        invariant
            start <= end <= b <= v@.len(),
            forall|j: int| start <= j < end ==> v@[j] != ' ' && v@[j] != '/',
        decreases b - end,
    {
        end += 1;
    }
    proof {
        assert(t1 =~= v@.subrange(start as int, b as int));
        lemma_before_first_char(t1, ' ', (end - start) as int);
        assert(t1.take((end - start) as int) =~= v@.subrange(start as int, end as int));
    }
    let name_raw = sub_chars(v, start, end);
    let mut name: Vec<char> = Vec::new();
    let mut i: usize = 0;
    while i < name_raw.len()
        invariant
            i <= name_raw.len(),
            name@ =~= ascii_lower(name_raw@.take(i as int)),
        decreases name_raw.len() - i,
    {
        let c = name_raw[i];
        if 'A' <= c && c <= 'Z' {
            let lc = ((c as u8) + 32) as char;
            name.push(lc);
        } else {
            name.push(c);
        }
        assert(name_raw@.take(i + 1) =~= name_raw@.take(i as int).push(c));
        i += 1;
    }
    assert(name_raw@.take(i as int) =~= name_raw@);
    let s = string_of(name.as_slice());
    let r = crate::text::str_eq(s.as_str(), "br") || crate::text::str_eq(s.as_str(), "p")
        || crate::text::str_eq(s.as_str(), "div");
    r
}

/// A one-character pattern occurs exactly where that character stands.
proof fn lemma_occurs_char(s: Seq<char>, c: char, j: int)
    ensures
        occurs_at(s, seq![c], j) == (0 <= j < s.len() && s[j] == c),
{
    if 0 <= j < s.len() {
        if s[j] == c {
            assert(s.subrange(j, j + 1) =~= seq![c]);
        } else {
            assert(s.subrange(j, j + 1)[0] == s[j]);
        }
    }
}

/// The part before the first `c` is the prefix up to its first position `e`
/// (or all of `s` when `c` does not occur).
proof fn lemma_before_first_at(s: Seq<char>, c: char, e: int)
    requires
        0 <= e <= s.len(),
        forall|j: int| 0 <= j < e ==> s[j] != c,
        e < s.len() ==> s[e] == c,
    ensures
        before_first(s, seq![c]) =~= s.take(e),
{
    crate::text::lemma_first_occurrence_complete(s, seq![c], 0);
    lemma_occurs_char(s, c, e);
    match first_occurrence_from(s, seq![c], 0) {
        Some(k) => {
            lemma_occurs_char(s, c, k);
            if k < e {
            } else if k > e {
            }
            assert(k == e);
        },
        None => {
            assert(e == s.len());
        },
    }
}

/// Cutting at the first space and then at the first slash, when no space or
/// slash occurs before position `e` and one does at `e` (or `e` is the end).
proof fn lemma_before_first_char(t1: Seq<char>, sp: char, e: int)
    requires
        sp == ' ',
        0 <= e <= t1.len(),
        forall|j: int| 0 <= j < e ==> t1[j] != ' ' && t1[j] != '/',
        e < t1.len() ==> t1[e] == ' ' || t1[e] == '/',
    ensures
        before_first(before_first(t1, " "@), "/"@) =~= t1.take(e),
{
    reveal_strlit(" ");
    reveal_strlit("/");
    assert(" "@ =~= seq![' ']);
    assert("/"@ =~= seq!['/']);
    if e < t1.len() && t1[e] == ' ' {
        lemma_before_first_at(t1, ' ', e);
        lemma_before_first_at(t1.take(e), '/', e);
    } else {
        let mut e1: int = e;
        // the first space, at or after e
        let sp_idx = match first_occurrence_from(t1, seq![' '], 0) {
            Some(k) => k,
            None => t1.len() as int,
        };
        crate::text::lemma_first_occurrence_complete(t1, seq![' '], 0);
        lemma_occurs_char(t1, ' ', sp_idx);
        assert forall|j: int| 0 <= j < sp_idx implies t1[j] != ' ' by {
            lemma_occurs_char(t1, ' ', j);
        }
        if sp_idx < t1.len() {
            lemma_first_occurrence_bounds(t1, seq![' '], 0);
        }
        lemma_before_first_at(t1, ' ', sp_idx);
        assert(sp_idx >= e) by {
            if sp_idx < e {
                assert(t1[sp_idx] == ' ');
            }
        }
        let u = t1.take(sp_idx);
        lemma_before_first_at(u, '/', e);
        assert(u.take(e) =~= t1.take(e));
    }
}

/// The entity (if any) that starts at position `i` of `v`.
fn entity_exec(v: &Vec<char>, i: usize) -> (r: Option<(usize, char)>)
    requires
        i <= v@.len(),
    ensures
        match entity_at(v@.skip(i as int)) {
            Some((n, c)) => r == Some((n as usize, c)),
            None => r is None,
        },
        r matches Some((n, c)) ==> 0 < n && i + n <= v@.len(),
{
    proof {
        reveal_strlit("&nbsp;");
        reveal_strlit("&amp;");
        reveal_strlit("&lt;");
        reveal_strlit("&gt;");
        reveal_strlit("&quot;");
        reveal_strlit("&#39;");
    }
    let nbsp = chars_of("&nbsp;");
    let amp = chars_of("&amp;");
    let lt = chars_of("&lt;");
    let gt = chars_of("&gt;");
    let quot = chars_of("&quot;");
    let apos = chars_of("&#39;");
    proof {
        lemma_occurs_skip(v@, nbsp@, i as int, 0);
        lemma_occurs_skip(v@, amp@, i as int, 0);
        lemma_occurs_skip(v@, lt@, i as int, 0);
        lemma_occurs_skip(v@, gt@, i as int, 0);
        lemma_occurs_skip(v@, quot@, i as int, 0);
        lemma_occurs_skip(v@, apos@, i as int, 0);
    }
    if occurs_at_exec(v, &nbsp, i) {
        Some((6, ' '))
    } else if occurs_at_exec(v, &amp, i) {
        Some((5, '&'))
    } else if occurs_at_exec(v, &lt, i) {
        Some((4, '<'))
    } else if occurs_at_exec(v, &gt, i) {
        Some((4, '>'))
    } else if occurs_at_exec(v, &quot, i) {
        Some((6, '"'))
    } else if occurs_at_exec(v, &apos, i) {
        Some((5, '\''))
    } else {
        None
    }
}

/// Markup rendered as text (see [`render`]).
pub fn render_exec(v: &Vec<char>) -> (r: Vec<char>)
    ensures
        r@ == render(v@),
{
    let gt = chars_of(">");
    let mut out: Vec<char> = Vec::new();
    let mut i: usize = 0;
    assert(v@.skip(0) =~= v@);
    assert(out@ + render(v@) =~= render(v@));
    while i < v.len()
        invariant
            i <= v@.len(),
            gt@ == ">"@,
            render(v@) == out@ + render(v@.skip(i as int)),
        decreases v@.len() - i,
    {
        let ghost rest = v@.skip(i as int);
        assert(rest[0] == v@[i as int]);
        if v[i] == '<' {
            proof {
                lemma_first_occurrence_skip(v@, ">"@, i as int, 1);
                lemma_first_occurrence_bounds(v@, ">"@, i + 1);
            }
            match find_from(v, &gt, i + 1) {
                Some(k) => {
                    proof {
                        reveal_strlit(">");
                    }
                    assert(rest.subrange(1, k - i) =~= v@.subrange(i + 1, k as int));
                    assert(rest.skip(k - i + 1) =~= v@.skip(k + 1));
                    let ghost out0 = out@;
                    if is_break_tag_exec(v, i + 1, k) {
                        out.push('\n');
                        assert(out@ =~= out0 + seq!['\n']);
                    } else {
                        assert(out@ =~= out0 + Seq::<char>::empty());
                    }
                    i = k + 1;
                },
                None => {
                    assert(v@.skip(v@.len() as int) =~= Seq::<char>::empty());
                    assert(out@ + Seq::<char>::empty() =~= out@);
                    i = v.len();
                },
            }
        } else {
            match entity_exec(v, i) {
                Some((n, c)) => {
                    assert(rest.skip(n as int) =~= v@.skip(i + n));
                    let ghost out0 = out@;
                    out.push(c);
                    assert(out@ =~= out0 + seq![c]);
                    i = i + n;
                },
                None => {
                    assert(rest.skip(1) =~= v@.skip(i + 1));
                    let ghost out0 = out@;
                    out.push(v[i]);
                    assert(out@ =~= out0 + seq![v@[i as int]]);
                    i = i + 1;
                },
            }
        }
    }
    assert(v@.skip(i as int) =~= Seq::<char>::empty());
    assert(out@ + Seq::<char>::empty() =~= out@);
    out
}

/// View of a list of strings.
pub open spec fn strings_view(v: Seq<String>) -> Seq<Seq<char>> {
    v.map_values(|s: String| s@)
}

/// Kept lines of `[a] + rest`.
proof fn lemma_kept_cons(a: Seq<char>, rest: Seq<Seq<char>>)
    ensures
        kept_lines(seq![a] + rest) == (if trim(a).len() > 0 {
            seq![trim(a)]
        } else {
            Seq::empty()
        }) + kept_lines(rest),
{
    let ls = seq![a] + rest;
    assert(ls[0] == a);
    assert(ls.skip(1) =~= rest);
}

/// The trimmed non-empty lines of `r`.
pub fn kept_lines_exec(r: &Vec<char>) -> (out: Vec<String>)
    ensures
        strings_view(out@) == kept_lines(lines(r@)),
{
    let nl = chars_of("\n");
    let mut parts: Vec<String> = Vec::new();
    let mut pos: usize = 0;
    let mut done = false;
    assert(r@.skip(0) =~= r@);
    assert(strings_view(parts@) + kept_lines(lines(r@)) =~= kept_lines(lines(r@)));
    while !done
        invariant
            pos <= r@.len(),
            nl@ == "\n"@,
            !done ==> kept_lines(lines(r@)) == strings_view(parts@) + kept_lines(
                lines(r@.skip(pos as int)),
            ),
            done ==> kept_lines(lines(r@)) == strings_view(parts@),
        decreases r@.len() - pos + if done {
            0int
        } else {
            1int
        },
    {
        let ghost rest = r@.skip(pos as int);
        proof {
            lemma_first_occurrence_skip(r@, "\n"@, pos as int, 0);
            lemma_first_occurrence_bounds(r@, "\n"@, pos as int);
        }
        match find_from(r, &nl, pos) {
            Some(k) => {
                assert(k < r@.len()) by {
                    reveal_strlit("\n");
                    assert("\n"@.len() == 1);
                    assert(occurs_at(r@, "\n"@, k as int));
                }
                assert(k < r.len());
                let line_chars = sub_chars(r, pos, k);
                assert(rest.take(k - pos) =~= line_chars@);
                assert(rest.skip(k - pos + 1) =~= r@.skip(k + 1));
                proof {
                    lemma_kept_cons(line_chars@, lines(r@.skip(k + 1)));
                }
                let line = string_of(line_chars.as_slice());
                let t = trim_exec(line.as_str());
                let ghost p0 = strings_view(parts@);
                if !t.as_str().is_empty() {
                    parts.push(t);
                    assert(strings_view(parts@) =~= p0 + seq![trim(line_chars@)]);
                } else {
                    assert(strings_view(parts@) =~= p0 + Seq::<Seq<char>>::empty());
                }
                pos = k + 1;
            },
            None => {
                proof {
                    lemma_kept_cons(rest, Seq::empty());
                    assert(seq![rest] + Seq::<Seq<char>>::empty() =~= seq![rest]);
                }
                let line_chars = sub_chars(r, pos, r.len());
                assert(rest =~= line_chars@);
                let line = string_of(line_chars.as_slice());
                let t = trim_exec(line.as_str());
                let ghost p0 = strings_view(parts@);
                if !t.as_str().is_empty() {
                    parts.push(t);
                    assert(strings_view(parts@) =~= p0 + seq![trim(rest)]);
                } else {
                    assert(strings_view(parts@) =~= p0 + Seq::<Seq<char>>::empty());
                }
                done = true;
            },
        }
    }
    parts
}

/// The plain text of an HTML fragment: tags removed with `br`, `p` and `div`
/// ending lines, common entities decoded, lines trimmed, empty lines dropped.
pub fn html_to_text(html: &str) -> (r: String)
    ensures
        r@ == spec_html_to_text(html@),
{
    let v = chars_of(html);
    let rendered = render_exec(&v);
    let parts = kept_lines_exec(&rendered);
    join_exec(&parts, "\n")
}


/// The lines of `s` trimmed, empty ones dropped, joined with `\n`.
pub open spec fn tidy(s: Seq<char>) -> Seq<char> {
    join(kept_lines(lines(s)), "\n"@)
}

/// The non-empty trimmed lines of `s`, joined with `\n`.
pub fn tidy_exec(s: &str) -> (r: String)
    ensures
        r@ == tidy(s@),
{
    let v = chars_of(s);
    let parts = kept_lines_exec(&v);
    join_exec(&parts, "\n")
}


/// The characters of `s` outside `<…>` tags; `inside` tells whether `s`
/// starts within a tag.
pub open spec fn strip_from(s: Seq<char>, inside: bool) -> Seq<char>
    decreases s.len(),
{
    if s.len() == 0 {
        Seq::empty()
    } else if s[0] == '<' {
        strip_from(s.skip(1), true)
    } else if s[0] == '>' {
        strip_from(s.skip(1), false)
    } else if inside {
        strip_from(s.skip(1), true)
    } else {
        seq![s[0]] + strip_from(s.skip(1), false)
    }
}

/// `s` with its tags removed.
pub open spec fn strip_tags(s: Seq<char>) -> Seq<char> {
    strip_from(s, false)
}

/// `s` with everything from each `<` to the next `>` removed.
pub fn strip_html(s: &str) -> (r: String)
    ensures
        r@ == strip_tags(s@),
{
    let v = chars_of(s);
    let mut out: Vec<char> = Vec::new();
    let mut inside = false;
    let mut i: usize = 0;
    assert(v@.skip(0) =~= v@);
    while i < v.len()
        invariant
            i <= v.len(),
            v@ == s@,
            strip_tags(s@) == out@ + strip_from(v@.skip(i as int), inside),
        decreases v.len() - i,
    {
        let c = v[i];
        assert(v@.skip(i as int)[0] == c);
        assert(v@.skip(i as int).skip(1) =~= v@.skip(i + 1));
        if c == '<' {
            inside = true;
        } else if c == '>' {
            inside = false;
        } else if !inside {
            let ghost o = out@;
            out.push(c);
            assert(out@ + strip_from(v@.skip(i + 1), false) =~= o + (seq![c] + strip_from(v@.skip(i + 1), false)));
        }
        i += 1;
    }
    assert(v@.skip(i as int) =~= Seq::<char>::empty());
    assert(out@ + Seq::<char>::empty() =~= out@);
    string_of(out.as_slice())
}


/// A text cleaned up: lines trimmed, empty lines dropped.
pub open spec fn cleaned(s: Seq<char>) -> Seq<char> {
    tidy(s)
}

/// A text cleaned up: lines trimmed, empty lines dropped.
pub fn clean_content(s: &str) -> (r: String)
    ensures
        r@ == cleaned(s@),
{
    tidy_exec(s)
}


// ─── a cleaned text is clean ───────────────────────────────────────────────

/// `s` holds no line break.
pub open spec fn one_line(s: Seq<char>) -> bool {
    forall|i: int| 0 <= i < s.len() ==> #[trigger] s[i] != '\n'
}

/// A line break stands at `i` exactly when `s[i]` is `\n`.
proof fn lemma_nl_at(s: Seq<char>, i: int)
    requires
        0 <= i < s.len(),
    ensures
        occurs_at(s, "\n"@, i) <==> s[i] == '\n',
{
    reveal_strlit("\n");
    if s[i] == '\n' {
        assert(s.subrange(i, i + 1) =~= "\n"@);
    }
    if occurs_at(s, "\n"@, i) {
        assert(s.subrange(i, i + 1)[0] == s[i]);
    }
}

/// The first line break at or after `start` is at `k` when `s[k]` is one and
/// none stands in between.
proof fn lemma_first_nl(s: Seq<char>, start: int, k: int)
    requires
        0 <= start <= k < s.len(),
        s[k] == '\n',
        forall|j: int| start <= j < k ==> s[j] != '\n',
    ensures
        first_occurrence_from(s, "\n"@, start) == Some(k),
    decreases k - start,
{
    reveal_strlit("\n");
    lemma_nl_at(s, start);
    if start < k {
        lemma_first_nl(s, start + 1, k);
    }
}

/// A single line holds no line break to be found.
proof fn lemma_no_nl(s: Seq<char>)
    requires
        one_line(s),
    ensures
        first_occurrence_from(s, "\n"@, 0) is None,
{
    lemma_first_occurrence_bounds(s, "\n"@, 0);
    if let Some(k) = first_occurrence_from(s, "\n"@, 0) {
        reveal_strlit("\n");
        lemma_nl_at(s, k);
    }
}

/// The lines of a text hold no line break.
proof fn lemma_lines_one_line(s: Seq<char>)
    ensures
        forall|i: int| 0 <= i < lines(s).len() ==> one_line(#[trigger] lines(s)[i]),
    decreases s.len(),
{
    reveal_strlit("\n");
    crate::text::lemma_first_occurrence_complete(s, "\n"@, 0);
    match first_occurrence_from(s, "\n"@, 0) {
        Some(k) => {
            if 0 <= k < s.len() {
                assert forall|j: int| 0 <= j < k implies #[trigger] s.take(k)[j] != '\n' by {
                    lemma_nl_at(s, j);
                }
                lemma_lines_one_line(s.skip(k + 1));
                let ls = lines(s);
                assert(ls == seq![s.take(k)] + lines(s.skip(k + 1)));
                assert forall|i: int| 0 <= i < ls.len() implies one_line(#[trigger] ls[i]) by {
                    if i > 0 {
                        assert(ls[i] == lines(s.skip(k + 1))[i - 1]);
                    }
                }
            }
        },
        None => {
            assert forall|j: int| 0 <= j < s.len() implies #[trigger] s[j] != '\n' by {
                lemma_nl_at(s, j);
            }
        },
    }
}

/// What `trim_start` leaves is a suffix of `s`.
proof fn lemma_trim_start_suffix(s: Seq<char>)
    ensures
        trim_start(s).len() <= s.len(),
        trim_start(s) =~= s.skip(s.len() - trim_start(s).len()),
    decreases s.len(),
{
    if s.len() > 0 && crate::text::is_ws(s[0]) {
        lemma_trim_start_suffix(s.skip(1));
    }
}

/// Trimming keeps a single line a single line.
proof fn lemma_trim_one_line(s: Seq<char>)
    requires
        one_line(s),
    ensures
        one_line(trim(s)),
{
    let t = trim_start(s);
    lemma_trim_start_suffix(s);
    crate::text::lemma_trim_end_prefix(t);
    let u = trim(s);
    assert forall|i: int| 0 <= i < u.len() implies #[trigger] u[i] != '\n' by {
        assert(u[i] == t[i]);
        assert(t[i] == s[s.len() - t.len() + i]);
    }
}

/// The kept lines are non-empty, trimmed, and single lines when the lines were.
proof fn lemma_kept_clean(ls: Seq<Seq<char>>)
    requires
        forall|i: int| 0 <= i < ls.len() ==> one_line(#[trigger] ls[i]),
    ensures
        forall|i: int| 0 <= i < kept_lines(ls).len() ==> {
            let e = #[trigger] kept_lines(ls)[i];
            &&& e.len() > 0
            &&& trim(e) == e
            &&& one_line(e)
        },
    decreases ls.len(),
{
    if ls.len() > 0 {
        lemma_kept_clean(ls.skip(1));
        crate::text::lemma_trim_idempotent(ls[0]);
        lemma_trim_one_line(ls[0]);
        let rest = kept_lines(ls.skip(1));
        let k = kept_lines(ls);
        assert forall|i: int| 0 <= i < k.len() implies {
            let e = #[trigger] k[i];
            &&& e.len() > 0
            &&& trim(e) == e
            &&& one_line(e)
        } by {
            if trim(ls[0]).len() > 0 {
                if i > 0 {
                    assert(k[i] == rest[i - 1]);
                }
            } else {
                assert(k[i] == rest[i]);
            }
        }
    }
}

/// Joining puts the first part, the separator, then the rest joined.
proof fn lemma_join_front(parts: Seq<Seq<char>>, sep: Seq<char>)
    requires
        parts.len() >= 2,
    ensures
        join(parts, sep) == parts[0] + sep + join(parts.skip(1), sep),
    decreases parts.len(),
{
    let d = parts.drop_last();
    let t = parts.skip(1);
    assert(join(parts, sep) == join(d, sep) + sep + parts.last());
    if parts.len() == 2 {
        assert(join(d, sep) == d[0]);
        assert(d[0] == parts[0]);
        assert(join(t, sep) == t[0]);
        assert(t[0] == parts.last());
    } else {
        lemma_join_front(d, sep);
        assert(d.skip(1) =~= t.drop_last());
        assert(t.last() == parts.last());
        assert(d[0] == parts[0]);
        assert(join(t, sep) == join(t.drop_last(), sep) + sep + t.last());
        let b = join(d.skip(1), sep);
        assert(parts[0] + sep + b + sep + parts.last() =~= parts[0] + sep + (b + sep + parts.last()));
    }
}

/// Splitting single lines joined by line breaks gives them back.
proof fn lemma_lines_of_join(parts: Seq<Seq<char>>)
    requires
        parts.len() >= 1,
        forall|i: int| 0 <= i < parts.len() ==> one_line(#[trigger] parts[i]),
    ensures
        lines(join(parts, "\n"@)) == parts,
    decreases parts.len(),
{
    reveal_strlit("\n");
    if parts.len() == 1 {
        assert(one_line(parts[0]));
        lemma_no_nl(parts[0]);
        assert(lines(parts[0]) =~= seq![parts[0]]);
    } else {
        lemma_join_front(parts, "\n"@);
        let a = parts[0];
        let rest = join(parts.skip(1), "\n"@);
        let s = a + "\n"@ + rest;
        assert(one_line(a));
        assert(s[a.len() as int] == '\n');
        assert forall|j: int| 0 <= j < a.len() implies s[j] != '\n' by {
            assert(s[j] == a[j]);
        }
        lemma_first_nl(s, 0, a.len() as int);
        assert(s.take(a.len() as int) =~= a);
        assert(s.skip(a.len() as int + 1) =~= rest);
        assert forall|i: int| 0 <= i < parts.skip(1).len() implies one_line(#[trigger] parts.skip(1)[i]) by {
            assert(parts.skip(1)[i] == parts[i + 1]);
        }
        lemma_lines_of_join(parts.skip(1));
        assert(seq![a] + parts.skip(1) =~= parts);
    }
}

/// Clean lines are kept as they are.
proof fn lemma_kept_of_clean(ls: Seq<Seq<char>>)
    requires
        forall|i: int| 0 <= i < ls.len() ==> (#[trigger] ls[i]).len() > 0 && trim(ls[i]) == ls[i],
    ensures
        kept_lines(ls) == ls,
    decreases ls.len(),
{
    if ls.len() > 0 {
        assert forall|i: int| 0 <= i < ls.skip(1).len() implies (#[trigger] ls.skip(1)[i]).len() > 0 && trim(
            ls.skip(1)[i],
        ) == ls.skip(1)[i] by {
            assert(ls.skip(1)[i] == ls[i + 1]);
        }
        lemma_kept_of_clean(ls.skip(1));
        assert(trim(ls[0]) == ls[0]);
        assert(seq![ls[0]] + ls.skip(1) =~= ls);
    }
}

/// Cleaning a cleaned text changes nothing: its lines are already trimmed,
/// and none of them is empty.
pub proof fn lemma_cleaned_idempotent(s: Seq<char>)
    ensures
        cleaned(cleaned(s)) == cleaned(s),
        forall|i: int| 0 <= i < kept_lines(lines(s)).len() ==> {
            let e = #[trigger] kept_lines(lines(s))[i];
            e.len() > 0 && trim(e) == e && one_line(e)
        },
{
    reveal_strlit("\n");
    lemma_lines_one_line(s);
    let k = kept_lines(lines(s));
    lemma_kept_clean(lines(s));
    if k.len() == 0 {
        let e = Seq::<char>::empty();
        assert(cleaned(s) == e);
        assert(first_occurrence_from(e, "\n"@, 0) is None);
        assert(lines(e) =~= seq![e]);
        assert(trim_start(e) == e);
        assert(trim(e) == e);
        assert(kept_lines(seq![e]) =~= kept_lines(seq![e].skip(1)));
        assert(seq![e].skip(1) =~= Seq::<Seq<char>>::empty());
    } else {
        lemma_lines_of_join(k);
        lemma_kept_of_clean(k);
    }
}

/// The text of an HTML fragment is already clean.
pub proof fn lemma_html_text_clean(html: Seq<char>)
    ensures
        cleaned(spec_html_to_text(html)) == spec_html_to_text(html),
{
    lemma_cleaned_idempotent(render(html));
}

// ─── a line break tag between two runs of text ─────────────────────────────

/// Plain text: no markup (`<`), no character reference (`&`), no line break.
pub open spec fn plain_run(s: Seq<char>) -> bool {
    forall|i: int| 0 <= i < s.len() ==> #[trigger] s[i] != '<' && s[i] != '&' && s[i] != '\n'
}

/// Plain text renders as itself, before whatever follows it.
proof fn lemma_render_plain(a: Seq<char>, rest: Seq<char>)
    requires
        plain_run(a),
    ensures
        render(a + rest) == a + render(rest),
    decreases a.len(),
{
    reveal_strlit("&nbsp;");
    reveal_strlit("&amp;");
    reveal_strlit("&lt;");
    reveal_strlit("&gt;");
    reveal_strlit("&quot;");
    reveal_strlit("&#39;");
    if a.len() > 0 {
        let s = a + rest;
        assert(s[0] == a[0]);
        assert(entity_at(s) is None) by {
            assert(!starts_with(s, "&nbsp;"@)) by { if starts_with(s, "&nbsp;"@) { assert(s.subrange(0, 6)[0] == s[0]); } }
            assert(!starts_with(s, "&amp;"@)) by { if starts_with(s, "&amp;"@) { assert(s.subrange(0, 5)[0] == s[0]); } }
            assert(!starts_with(s, "&lt;"@)) by { if starts_with(s, "&lt;"@) { assert(s.subrange(0, 4)[0] == s[0]); } }
            assert(!starts_with(s, "&gt;"@)) by { if starts_with(s, "&gt;"@) { assert(s.subrange(0, 4)[0] == s[0]); } }
            assert(!starts_with(s, "&quot;"@)) by { if starts_with(s, "&quot;"@) { assert(s.subrange(0, 6)[0] == s[0]); } }
            assert(!starts_with(s, "&#39;"@)) by { if starts_with(s, "&#39;"@) { assert(s.subrange(0, 5)[0] == s[0]); } }
        }
        assert(plain_run(a.skip(1))) by {
            assert forall|i: int| 0 <= i < a.skip(1).len() implies #[trigger] a.skip(1)[i] != '<' && a.skip(1)[i] != '&'
                && a.skip(1)[i] != '\n' by {
                assert(a.skip(1)[i] == a[i + 1]);
            }
        }
        lemma_render_plain(a.skip(1), rest);
        assert(s.skip(1) =~= a.skip(1) + rest);
        assert(a =~= seq![a[0]] + a.skip(1));
        assert(seq![s[0]] + (a.skip(1) + render(rest)) =~= a + render(rest));
    } else {
        assert(a + rest =~= rest);
        assert(a + render(rest) =~= render(rest));
    }
}

/// A `<br>` tag renders as a line break.
proof fn lemma_render_br(rest: Seq<char>)
    ensures
        render("<br>"@ + rest) == seq!['\n'] + render(rest),
{
    reveal_strlit("<br>");
    reveal_strlit(">");
    reveal_strlit("br");
    reveal_strlit("/");
    reveal_strlit(" ");
    let s = "<br>"@ + rest;
    assert(s[0] == '<' && s[1] == 'b' && s[2] == 'r' && s[3] == '>');
    assert(!occurs_at(s, ">"@, 1)) by { if occurs_at(s, ">"@, 1) { assert(s.subrange(1, 2)[0] == s[1]); } }
    assert(!occurs_at(s, ">"@, 2)) by { if occurs_at(s, ">"@, 2) { assert(s.subrange(2, 3)[0] == s[2]); } }
    assert(s.subrange(3, 4) =~= ">"@);
    assert(first_occurrence_from(s, ">"@, 3) == Some(3int));
    assert(first_occurrence_from(s, ">"@, 2) == Some(3int));
    assert(first_occurrence_from(s, ">"@, 1) == Some(3int));
    let t = s.subrange(1, 3);
    assert(t =~= "br"@);
    assert(!starts_with(t, "/"@)) by { if starts_with(t, "/"@) { assert(t.subrange(0, 1)[0] == t[0]); } }
    assert(!occurs_at(t, " "@, 0)) by { if occurs_at(t, " "@, 0) { assert(t.subrange(0, 1)[0] == t[0]); } }
    assert(!occurs_at(t, " "@, 1)) by { if occurs_at(t, " "@, 1) { assert(t.subrange(1, 2)[0] == t[1]); } }
    assert(first_occurrence_from(t, " "@, 2) is None);
    assert(first_occurrence_from(t, " "@, 1) is None);
    assert(first_occurrence_from(t, " "@, 0) is None);
    assert(!occurs_at(t, "/"@, 0)) by { if occurs_at(t, "/"@, 0) { assert(t.subrange(0, 1)[0] == t[0]); } }
    assert(!occurs_at(t, "/"@, 1)) by { if occurs_at(t, "/"@, 1) { assert(t.subrange(1, 2)[0] == t[1]); } }
    assert(first_occurrence_from(t, "/"@, 2) is None);
    assert(first_occurrence_from(t, "/"@, 1) is None);
    assert(first_occurrence_from(t, "/"@, 0) is None);
    assert(ascii_lower(t) =~= "br"@);
    assert(tag_name(t) == "br"@);
    assert(s.skip(4) =~= rest);
}

/// Two runs of plain, trimmed, non-empty text with a `<br>` between them
/// come out as two lines: the markup's text is the first run, a line break,
/// and the second run.
pub proof fn lemma_br_breaks_line(a: Seq<char>, b: Seq<char>)
    requires
        a.len() > 0,
        b.len() > 0,
        plain_run(a),
        plain_run(b),
        trim(a) == a,
        trim(b) == b,
    ensures
        spec_html_to_text(a + "<br>"@ + b) == a + "\n"@ + b,
{
    reveal_strlit("\n");
    lemma_render_plain(a, "<br>"@ + b);
    lemma_render_br(b);
    lemma_render_plain(b, Seq::empty());
    assert(b + Seq::<char>::empty() =~= b);
    assert(render(Seq::<char>::empty()) == Seq::<char>::empty());
    assert(a + "<br>"@ + b =~= a + ("<br>"@ + b));
    assert(render(a + "<br>"@ + b) =~= a + "\n"@ + b);
    let parts = seq![a, b];
    assert(parts.drop_last() =~= seq![a]);
    assert(parts.drop_last().len() == 1 && parts.drop_last()[0] == a);
    assert(join(parts.drop_last(), "\n"@) == a);
    assert(parts.last() == b);
    assert(join(parts, "\n"@) == a + "\n"@ + b);
    assert forall|i: int| 0 <= i < parts.len() implies one_line(#[trigger] parts[i]) by {
        let x = parts[i];
        assert forall|j: int| 0 <= j < x.len() implies #[trigger] x[j] != '\n' by {}
    }
    lemma_lines_of_join(parts);
    lemma_kept_of_clean(parts);
}

} // verus!
