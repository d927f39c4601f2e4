//! Character-level string algorithms with their mathematical models.
//!
//! Every function here works on `&str` and returns `String`; the models are
//! spec functions over `Seq<char>`, the view of a string.

use vstd::prelude::*;

verus! {

// ─── conversion between strings and character vectors ──────────────────────

/// The characters of `s`, in order (`str::chars` collected).
#[verifier::external_body]
pub(crate) fn chars_of(s: &str) -> (v: Vec<char>)
    ensures
        v@ == s@,
{
    s.chars().collect()
}

/// The string made of the characters of `v`, in order (`Iterator::collect`).
#[verifier::external_body]
pub(crate) fn string_of(v: &[char]) -> (s: String)
    ensures
        s@ == v@,
{
    v.iter().collect()
}

/// A copy of `s` as an owned string (`str::to_string`).
pub fn owned(s: &str) -> (r: String)
    ensures
        r@ == s@,
{
    s.to_owned()
}

// ─── models ────────────────────────────────────────────────────────────────

/// `pat` occurs in `s` starting at position `i`.
pub open spec fn occurs_at(s: Seq<char>, pat: Seq<char>, i: int) -> bool {
    &&& 0 <= i
    &&& i + pat.len() <= s.len()
    &&& s.subrange(i, i + pat.len()) =~= pat
}

/// `pat` occurs somewhere in `s` (`str::contains`).
pub open spec fn contains(s: Seq<char>, pat: Seq<char>) -> bool {
    exists|i: int| occurs_at(s, pat, i)
}

/// `s` begins with `pat` (`str::starts_with`).
pub open spec fn starts_with(s: Seq<char>, pat: Seq<char>) -> bool {
    occurs_at(s, pat, 0)
}

/// `s` ends with `pat` (`str::ends_with`).
pub open spec fn ends_with(s: Seq<char>, pat: Seq<char>) -> bool {
    occurs_at(s, pat, s.len() - pat.len())
}

/// Position of the first occurrence of `pat` at or after `start`, if any.
pub open spec fn first_occurrence_from(s: Seq<char>, pat: Seq<char>, start: int) -> Option<int>
    decreases s.len() - start,
{
    if start < 0 || start + pat.len() > s.len() {
        None
    } else if occurs_at(s, pat, start) {
        Some(start)
    } else {
        first_occurrence_from(s, pat, start + 1)
    }
}

/// Position of the last occurrence of `pat` that ends at or before `end`, if any.
pub open spec fn last_occurrence_before(s: Seq<char>, pat: Seq<char>, end: int) -> Option<int>
    decreases end,
{
    if end < pat.len() || end > s.len() {
        None
    } else if occurs_at(s, pat, end - pat.len()) {
        Some(end - pat.len())
    } else {
        last_occurrence_before(s, pat, end - 1)
    }
}

/// The part of `s` after the last occurrence of `pat`, or all of `s` when
/// `pat` does not occur (`s.rsplit(pat).next()`).
pub open spec fn after_last(s: Seq<char>, pat: Seq<char>) -> Seq<char> {
    match last_occurrence_before(s, pat, s.len() as int) {
        Some(k) => s.subrange(k + pat.len(), s.len() as int),
        None => s,
    }
}

/// The part of `s` before the first occurrence of `pat`, or all of `s` when
/// `pat` does not occur (`s.split(pat).next()`).
pub open spec fn before_first(s: Seq<char>, pat: Seq<char>) -> Seq<char> {
    match first_occurrence_from(s, pat, 0) {
        Some(k) => s.subrange(0, k),
        None => s,
    }
}

/// `s` with every trailing repetition of `pat` removed (`str::trim_end_matches`).
pub open spec fn trim_end_matches(s: Seq<char>, pat: Seq<char>) -> Seq<char>
    decreases s.len(),
{
    if pat.len() > 0 && ends_with(s, pat) {
        trim_end_matches(s.subrange(0, s.len() - pat.len()), pat)
    } else {
        s
    }
}

/// `s` with every leading repetition of `pat` removed (`str::trim_start_matches`).
pub open spec fn trim_start_matches(s: Seq<char>, pat: Seq<char>) -> Seq<char>
    decreases s.len(),
{
    if pat.len() > 0 && starts_with(s, pat) {
        trim_start_matches(s.skip(pat.len() as int), pat)
    } else {
        s
    }
}

/// Unicode `White_Space`, the property that `char::is_whitespace` tests.
pub open spec fn is_ws(c: char) -> bool {
    ||| ('\u{9}' <= c && c <= '\u{d}')
    ||| c == ' '
    ||| c == '\u{85}'
    ||| c == '\u{a0}'
    ||| c == '\u{1680}'
    ||| ('\u{2000}' <= c && c <= '\u{200a}')
    ||| c == '\u{2028}'
    ||| c == '\u{2029}'
    ||| c == '\u{202f}'
    ||| c == '\u{205f}'
    ||| c == '\u{3000}'
}

/// `s` without leading whitespace.
pub open spec fn trim_start(s: Seq<char>) -> Seq<char>
    decreases s.len(),
{
    if s.len() > 0 && is_ws(s[0]) {
        trim_start(s.skip(1))
    } else {
        s
    }
}

/// `s` without trailing whitespace.
pub open spec fn trim_end(s: Seq<char>) -> Seq<char>
    decreases s.len(),
{
    if s.len() > 0 && is_ws(s.last()) {
        trim_end(s.drop_last())
    } else {
        s
    }
}

/// `s` without leading and trailing whitespace (`str::trim`).
pub open spec fn trim(s: Seq<char>) -> Seq<char> {
    trim_end(trim_start(s))
}

/// Every non-overlapping occurrence of `from`, found left to right, replaced
/// by `to` (`str::replace` with a non-empty pattern).
pub open spec fn replace_all(s: Seq<char>, from: Seq<char>, to: Seq<char>) -> Seq<char>
    decreases s.len(),
{
    if s.len() == 0 {
        s
    } else if from.len() > 0 && starts_with(s, from) {
        to + replace_all(s.skip(from.len() as int), from, to)
    } else {
        seq![s[0]] + replace_all(s.skip(1), from, to)
    }
}

/// The parts joined with `sep` between neighbours (`slice::join`).
pub open spec fn join(parts: Seq<Seq<char>>, sep: Seq<char>) -> Seq<char>
    decreases parts.len(),
{
    if parts.len() == 0 {
        Seq::empty()
    } else if parts.len() == 1 {
        parts[0]
    } else {
        join(parts.drop_last(), sep) + sep + parts.last()
    }
}

/// Unicode lower-casing of a string (`str::to_lowercase`).
pub uninterp spec fn lowercase(s: Seq<char>) -> Seq<char>;

/// `str::to_lowercase`: its result is the Unicode lower-casing of `s`, a
/// function of `s` alone.
#[verifier::external_body]
pub(crate) fn to_lowercase(s: &str) -> (r: String)
    ensures
        r@ == lowercase(s@),
{
    s.to_lowercase()
}

// ─── searching ─────────────────────────────────────────────────────────────

/// The characters of `v` from `a` up to `b`.
pub fn sub_chars(v: &Vec<char>, a: usize, b: usize) -> (r: Vec<char>)
    requires
        a <= b <= v.len(),
    ensures
        r@ == v@.subrange(a as int, b as int),
{
    let mut r: Vec<char> = Vec::new();
    let mut i = a;
    while i < b
        invariant
            a <= i <= b <= v.len(),
            r@ =~= v@.subrange(a as int, i as int),
        decreases b - i,
    {
        r.push(v[i]);
        i += 1;
    }
    r
}

/// A found last occurrence lies inside the searched range.
pub proof fn lemma_last_occurrence_bounds(s: Seq<char>, pat: Seq<char>, end: int)
    ensures
        last_occurrence_before(s, pat, end) matches Some(k) ==> occurs_at(s, pat, k) && k + pat.len() <= end,
    decreases end,
{
    if end < pat.len() || end > s.len() {
    } else if occurs_at(s, pat, end - pat.len()) {
    } else {
        lemma_last_occurrence_bounds(s, pat, end - 1);
    }
}

/// A found first occurrence lies inside the string.
pub proof fn lemma_first_occurrence_bounds(s: Seq<char>, pat: Seq<char>, start: int)
    ensures
        first_occurrence_from(s, pat, start) matches Some(k) ==> occurs_at(s, pat, k) && start <= k,
    decreases s.len() - start,
{
    if start < 0 || start + pat.len() > s.len() {
    } else if occurs_at(s, pat, start) {
    } else {
        lemma_first_occurrence_bounds(s, pat, start + 1);
    }
}

/// Whether `pat` occurs in `s` at position `i`.
pub fn occurs_at_exec(s: &Vec<char>, pat: &Vec<char>, i: usize) -> (r: bool)
    ensures
        r == occurs_at(s@, pat@, i as int),
{
    if i > s.len() || pat.len() > s.len() - i {
        return false;
    }
    let mut j: usize = 0;
    while j < pat.len()
        invariant
            j <= pat.len(),
            i + pat.len() <= s.len(),
            forall|k: int| 0 <= k < j ==> s@[i + k] == pat@[k],
        decreases pat.len() - j,
    {
        if s[i + j] != pat[j] {
            assert(s@.subrange(i as int, i + pat.len())[j as int] != pat@[j as int]);
            return false;
        }
        j += 1;
    }
    assert(s@.subrange(i as int, i + pat@.len()) =~= pat@);
    true
}

/// First occurrence of `pat` at or after `start`.
pub fn find_from(s: &Vec<char>, pat: &Vec<char>, start: usize) -> (r: Option<usize>)
    ensures
        r matches Some(k) ==> first_occurrence_from(s@, pat@, start as int) == Some(k as int),
        r is None ==> first_occurrence_from(s@, pat@, start as int) is None,
    decreases s.len() - start,
{
    if start > s.len() || pat.len() > s.len() - start {
        return None;
    }
    if occurs_at_exec(s, pat, start) {
        Some(start)
    } else {
        find_from(s, pat, start + 1)
    }
}

/// Last occurrence of `pat` ending at or before `end`.
pub fn rfind_before(s: &Vec<char>, pat: &Vec<char>, end: usize) -> (r: Option<usize>)
    ensures
        r matches Some(k) ==> last_occurrence_before(s@, pat@, end as int) == Some(k as int),
        r is None ==> last_occurrence_before(s@, pat@, end as int) is None,
    decreases end,
{
    if end < pat.len() || end > s.len() {
        return None;
    }
    if occurs_at_exec(s, pat, end - pat.len()) {
        Some(end - pat.len())
    } else if end == 0 {
        None
    } else {
        rfind_before(s, pat, end - 1)
    }
}

/// `first_occurrence_from` finds an occurrence exactly when there is one.
pub proof fn lemma_first_occurrence_complete(s: Seq<char>, pat: Seq<char>, start: int)
    requires
        0 <= start,
    ensures
        first_occurrence_from(s, pat, start) matches Some(k) ==> start <= k && occurs_at(s, pat, k)
            && forall|j: int| start <= j < k ==> !occurs_at(s, pat, j),
        first_occurrence_from(s, pat, start) is None ==> forall|j: int|
            start <= j ==> !occurs_at(s, pat, j),
    decreases s.len() - start,
{
    if start + pat.len() > s.len() {
    } else if occurs_at(s, pat, start) {
    } else {
        lemma_first_occurrence_complete(s, pat, start + 1);
    }
}

/// Whether `pat` occurs in `s` (`str::contains`).
pub fn contains_exec(s: &str, pat: &str) -> (r: bool)
    ensures
        r == contains(s@, pat@),
{
    let sv = chars_of(s);
    let pv = chars_of(pat);
    let r = find_from(&sv, &pv, 0);
    proof {
        lemma_first_occurrence_complete(sv@, pv@, 0);
    }
    r.is_some()
}

/// Whether `s` begins with `pat` (`str::starts_with`).
pub fn starts_with_exec(s: &str, pat: &str) -> (r: bool)
    ensures
        r == starts_with(s@, pat@),
{
    let sv = chars_of(s);
    let pv = chars_of(pat);
    occurs_at_exec(&sv, &pv, 0)
}

/// Whether `s` ends with `pat` (`str::ends_with`).
pub fn ends_with_exec(s: &str, pat: &str) -> (r: bool)
    ensures
        r == ends_with(s@, pat@),
{
    let sv = chars_of(s);
    let pv = chars_of(pat);
    if pv.len() > sv.len() {
        return false;
    }
    occurs_at_exec(&sv, &pv, sv.len() - pv.len())
}

/// Whether the two strings hold the same characters.
pub fn str_eq(a: &str, b: &str) -> (r: bool)
    ensures
        r == (a@ == b@),
{
    let av = chars_of(a);
    let bv = chars_of(b);
    if av.len() != bv.len() {
        return false;
    }
    let r = occurs_at_exec(&av, &bv, 0);
    proof {
        if r {
            assert(av@.subrange(0, bv@.len() as int) =~= av@);
        }
    }
    r
}

/// `s.rsplit(pat).next()`: the part after the last occurrence of `pat`.
pub fn after_last_exec(s: &str, pat: &str) -> (r: String)
    ensures
        r@ == after_last(s@, pat@),
{
    let sv = chars_of(s);
    let pv = chars_of(pat);
    match rfind_before(&sv, &pv, sv.len()) {
        Some(k) => {
            proof {
                lemma_last_occurrence_bounds(sv@, pv@, sv.len() as int);
            }
            string_of(sub_chars(&sv, k + pv.len(), sv.len()).as_slice())
        },
        None => owned(s),
    }
}

/// `s.split(pat).next()`: the part before the first occurrence of `pat`.
pub fn before_first_exec(s: &str, pat: &str) -> (r: String)
    ensures
        r@ == before_first(s@, pat@),
{
    let sv = chars_of(s);
    let pv = chars_of(pat);
    match find_from(&sv, &pv, 0) {
        Some(k) => {
            proof {
                lemma_first_occurrence_bounds(sv@, pv@, 0);
            }
            string_of(sub_chars(&sv, 0, k).as_slice())
        },
        None => owned(s),
    }
}

/// `str::trim_end_matches`: removes every trailing repetition of `pat`.
pub fn trim_end_matches_exec(s: &str, pat: &str) -> (r: String)
    ensures
        r@ == trim_end_matches(s@, pat@),
{
    let sv = chars_of(s);
    let pv = chars_of(pat);
    if pv.len() == 0 {
        return owned(s);
    }
    let mut end = sv.len();
    assert(sv@.subrange(0, sv@.len() as int) =~= sv@);
    while end >= pv.len() && occurs_at_exec(&sv, &pv, end - pv.len())
        invariant
            end <= sv.len(),
            pv@.len() > 0,
            trim_end_matches(sv@, pv@) == trim_end_matches(sv@.subrange(0, end as int), pv@),
        decreases end,
    {
        let ghost pre = sv@.subrange(0, end as int);
        assert(pre.subrange(pre.len() - pv@.len(), pre.len() as int) =~= sv@.subrange(
            end - pv@.len(),
            end as int,
        ));
        assert(pre.subrange(0, pre.len() - pv@.len()) =~= sv@.subrange(0, end - pv@.len()));
        end = end - pv.len();
    }
    let ghost pre = sv@.subrange(0, end as int);
    assert(!ends_with(pre, pv@)) by {
        if end >= pv.len() {
            assert(pre.subrange(pre.len() - pv@.len(), pre.len() as int) =~= sv@.subrange(
                end - pv@.len(),
                end as int,
            ));
        }
    }
    string_of(sub_chars(&sv, 0, end).as_slice())
}

/// `str::trim_start_matches`: removes every leading repetition of `pat`.
pub fn trim_start_matches_exec(s: &str, pat: &str) -> (r: String)
    ensures
        r@ == trim_start_matches(s@, pat@),
{
    let sv = chars_of(s);
    let pv = chars_of(pat);
    if pv.len() == 0 {
        return owned(s);
    }
    let mut start: usize = 0;
    assert(sv@.skip(0) =~= sv@);
    while occurs_at_exec(&sv, &pv, start)
        invariant
            start <= sv.len(),
            pv@.len() > 0,
            trim_start_matches(sv@, pv@) == trim_start_matches(sv@.skip(start as int), pv@),
        decreases sv.len() - start,
    {
        let ghost suf = sv@.skip(start as int);
        assert(suf.subrange(0, pv@.len() as int) =~= sv@.subrange(
            start as int,
            start + pv@.len(),
        ));
        assert(suf.skip(pv@.len() as int) =~= sv@.skip(start + pv@.len()));
        start = start + pv.len();
    }
    let ghost suf = sv@.skip(start as int);
    assert(!starts_with(suf, pv@)) by {
        if pv@.len() <= suf.len() {
            assert(suf.subrange(0, pv@.len() as int) =~= sv@.subrange(
                start as int,
                start + pv@.len(),
            ));
        }
    }
    assert(suf =~= sv@.subrange(start as int, sv@.len() as int));
    string_of(sub_chars(&sv, start, sv.len()).as_slice())
}

/// `char::is_whitespace`.
pub fn is_whitespace(c: char) -> (r: bool)
    ensures
        r == is_ws(c),
{
    ('\u{9}' <= c && c <= '\u{d}') || c == ' ' || c == '\u{85}' || c == '\u{a0}' || c
        == '\u{1680}' || ('\u{2000}' <= c && c <= '\u{200a}') || c == '\u{2028}' || c
        == '\u{2029}' || c == '\u{202f}' || c == '\u{205f}' || c == '\u{3000}'
}

/// `str::trim`: removes leading and trailing whitespace.
pub fn trim_exec(s: &str) -> (r: String)
    ensures
        r@ == trim(s@),
{
    let sv = chars_of(s);
    let mut a: usize = 0;
    assert(sv@.skip(0) =~= sv@);
    while a < sv.len() && is_whitespace(sv[a])
        invariant
            a <= sv.len(),
            trim_start(sv@) == trim_start(sv@.skip(a as int)),
        decreases sv.len() - a,
    {
        assert(sv@.skip(a as int).skip(1) =~= sv@.skip(a + 1));
        a += 1;
    }
    assert(trim_start(sv@) =~= sv@.skip(a as int));
    let mut b: usize = sv.len();
    while b > a && is_whitespace(sv[b - 1])
        invariant
            a <= b <= sv.len(),
            trim_start(sv@) =~= sv@.skip(a as int),
            trim(sv@) == trim_end(sv@.subrange(a as int, b as int)),
        decreases b,
    {
        assert(sv@.subrange(a as int, b as int).drop_last() =~= sv@.subrange(
            a as int,
            b - 1,
        ));
        b -= 1;
    }
    assert(sv@.skip(a as int) =~= sv@.subrange(a as int, sv@.len() as int));
    string_of(sub_chars(&sv, a, b).as_slice())
}

/// `str::replace` with a non-empty pattern.
pub fn replace_exec(s: &str, from: &str, to: &str) -> (r: String)
    requires
        from@.len() > 0,
    ensures
        r@ == replace_all(s@, from@, to@),
{
    let sv = chars_of(s);
    let fv = chars_of(from);
    let tv = chars_of(to);
    let mut out: Vec<char> = Vec::new();
    let mut i: usize = 0;
    assert(sv@.skip(0) =~= sv@);
    assert(out@ + replace_all(sv@, fv@, tv@) =~= replace_all(sv@, fv@, tv@));
    while i < sv.len()
        invariant
            i <= sv.len(),
            fv@.len() > 0,
            replace_all(sv@, fv@, tv@) == out@ + replace_all(sv@.skip(i as int), fv@, tv@),
        decreases sv.len() - i,
    {
        let ghost suf = sv@.skip(i as int);
        if occurs_at_exec(&sv, &fv, i) {
            assert(suf.subrange(0, fv@.len() as int) =~= sv@.subrange(i as int, i + fv@.len()));
            assert(suf.skip(fv@.len() as int) =~= sv@.skip(i + fv@.len()));
            let mut j: usize = 0;
            let ghost out0 = out@;
            while j < tv.len()
                invariant
                    j <= tv.len(),
                    out@ =~= out0 + tv@.subrange(0, j as int),
                decreases tv.len() - j,
            {
                out.push(tv[j]);
                j += 1;
            }
            assert(tv@.subrange(0, tv@.len() as int) =~= tv@);
            assert(out@ =~= out0 + tv@);
            i = i + fv.len();
        } else {
            assert(!starts_with(suf, fv@)) by {
                if fv@.len() <= suf.len() {
                    assert(suf.subrange(0, fv@.len() as int) =~= sv@.subrange(
                        i as int,
                        i + fv@.len(),
                    ));
                }
            }
            assert(suf.skip(1) =~= sv@.skip(i + 1));
            assert(suf[0] == sv@[i as int]);
            let ghost out0 = out@;
            out.push(sv[i]);
            assert(out@ =~= out0 + seq![sv@[i as int]]);
            i += 1;
        }
    }
    assert(sv@.skip(i as int) =~= Seq::<char>::empty());
    string_of(out.as_slice())
}

/// The strings joined with `sep` between neighbours (`slice::join`).
pub fn join_exec(parts: &Vec<String>, sep: &str) -> (r: String)
    ensures
        r@ == join(parts@.map_values(|p: String| p@), sep@),
{
    let ghost views = parts@.map_values(|p: String| p@);
    let mut out = String::new();
    let mut i: usize = 0;
    while i < parts.len()
        invariant
            i <= parts.len(),
            views == parts@.map_values(|p: String| p@),
            out@ == join(views.take(i as int), sep@),
        decreases parts.len() - i,
    {
        if i > 0 {
            out.append(sep);
        }
        out.append(parts[i].as_str());
        assert(views.take(i + 1).drop_last() =~= views.take(i as int));
        proof {
            if i == 0 {
                assert(views.take(1) =~= seq![views[0]]);
            }
        }
        i += 1;
    }
    assert(views.take(parts.len() as int) =~= views);
    out
}

/// `a` followed by `b`.
pub fn concat(a: &str, b: &str) -> (r: String)
    ensures
        r@ == a@ + b@,
{
    let mut out = owned(a);
    out.append(b);
    out
}

// ─── numbers ───────────────────────────────────────────────────────────────

/// The decimal digit character for `d < 10`.
pub open spec fn digit_char(d: nat) -> char {
    (48 + d) as char
}

/// The decimal representation of `n`, without leading zeros (`u64::to_string`).
pub open spec fn decimal(n: nat) -> Seq<char>
    decreases n,
{
    if n < 10 {
        seq![digit_char(n)]
    } else {
        decimal(n / 10) + seq![digit_char(n % 10)]
    }
}

fn decimal_chars(n: u64) -> (r: Vec<char>)
    ensures
        r@ == decimal(n as nat),
    decreases n,
{
    let d = (n % 10) as u8;
    let c = (48u8 + d) as char;
    if n < 10 {
        let mut v: Vec<char> = Vec::new();
        v.push(c);
        assert(v@ =~= seq![digit_char(n as nat)]);
        v
    } else {
        let mut v = decimal_chars(n / 10);
        let ghost prev = v@;
        v.push(c);
        assert(v@ =~= prev + seq![digit_char((n % 10) as nat)]);
        v
    }
}

/// The decimal representation of a number.
pub fn u64_to_string(n: u64) -> (r: String)
    ensures
        r@ == decimal(n as nat),
{
    let v = decimal_chars(n);
    string_of(v.as_slice())
}

/// The decimal representation of a number.
pub fn usize_to_string(n: usize) -> (r: String)
    ensures
        r@ == decimal(n as nat),
{
    u64_to_string(n as u64)
}

/// The decimal representation of a signed number: a `-` before the digits of
/// its magnitude when negative.
pub open spec fn signed_decimal(n: int) -> Seq<char> {
    if n < 0 {
        "-"@ + decimal((-n) as nat)
    } else {
        decimal(n as nat)
    }
}

/// The decimal representation of a signed number (`i64::to_string`).
pub fn i64_to_string(n: i64) -> (r: String)
    ensures
        r@ == signed_decimal(n as int),
{
    if n < 0 {
        let m: u64 = if n == i64::MIN {
            9223372036854775808u64
        } else {
            (-n) as u64
        };
        concat("-", u64_to_string(m).as_str())
    } else {
        u64_to_string(n as u64)
    }
}


/// What `trim_start` leaves does not begin with whitespace.
pub proof fn lemma_trim_start_head(s: Seq<char>)
    ensures
        trim_start(s).len() == 0 || !is_ws(trim_start(s)[0]),
    decreases s.len(),
{
    if s.len() > 0 && is_ws(s[0]) {
        lemma_trim_start_head(s.skip(1));
    }
}

/// What `trim_end` leaves is a prefix of `s` that does not end with
/// whitespace.
pub proof fn lemma_trim_end_prefix(s: Seq<char>)
    ensures
        trim_end(s).len() <= s.len(),
        trim_end(s) =~= s.take(trim_end(s).len() as int),
        trim_end(s).len() == 0 || !is_ws(trim_end(s).last()),
    decreases s.len(),
{
    if s.len() > 0 && is_ws(s.last()) {
        lemma_trim_end_prefix(s.drop_last());
        assert(s.drop_last().take(trim_end(s).len() as int) =~= s.take(trim_end(s).len() as int));
    }
}

/// Trimming twice is trimming once.
pub proof fn lemma_trim_idempotent(s: Seq<char>)
    ensures
        trim(trim(s)) == trim(s),
{
    let t = trim_start(s);
    lemma_trim_start_head(s);
    lemma_trim_end_prefix(t);
    let u = trim_end(t);
    if u.len() > 0 {
        assert(u[0] == t[0]);
    }
    assert(trim_start(u) == u);
    assert(trim_end(u) == u);
}


/// Every character is an ASCII digit.
pub open spec fn all_digits(s: Seq<char>) -> bool {
    forall|i: int| 0 <= i < s.len() ==> '0' <= #[trigger] s[i] <= '9'
}

/// The value of a string of decimal digits.
pub open spec fn digits_value(s: Seq<char>) -> int
    decreases s.len(),
{
    if s.len() == 0 {
        0
    } else {
        digits_value(s.drop_last()) * 10 + (s.last() as int - '0' as int)
    }
}

/// The integer written by `s`: an optional `+` or `-`, then at least one
/// digit, nothing else.
pub open spec fn parse_int(s: Seq<char>) -> Option<int> {
    let neg = s.len() > 0 && s[0] == '-';
    let d = if s.len() > 0 && (s[0] == '-' || s[0] == '+') {
        s.skip(1)
    } else {
        s
    };
    if d.len() > 0 && all_digits(d) {
        Some(
            if neg {
                -digits_value(d)
            } else {
                digits_value(d)
            },
        )
    } else {
        None
    }
}

/// `str::parse::<i64>`: the integer written by `s`, if it fits.
pub open spec fn parse_i64(s: Seq<char>) -> Option<i64> {
    match parse_int(s) {
        Some(v) => if i64::MIN <= v <= i64::MAX {
            Some(v as i64)
        } else {
            None
        },
        None => None,
    }
}

proof fn lemma_digits_nonneg(s: Seq<char>)
    requires
        all_digits(s),
    ensures
        digits_value(s) >= 0,
    decreases s.len(),
{
    if s.len() > 0 {
        assert(all_digits(s.drop_last())) by {
            assert forall|i: int| 0 <= i < s.drop_last().len() implies '0' <= #[trigger] s.drop_last()[i] <= '9' by {
                assert(s.drop_last()[i] == s[i]);
            }
        }
        lemma_digits_nonneg(s.drop_last());
        assert('0' <= s[s.len() - 1] <= '9');
    }
}

/// The integer written by `s`, if it fits in an `i64` (`str::parse::<i64>`).
pub fn parse_i64_exec(s: &str) -> (r: Option<i64>)
    ensures
        r == parse_i64(s@),
{
    let v = chars_of(s);
    let neg = v.len() > 0 && v[0] == '-';
    let start: usize = if v.len() > 0 && (v[0] == '-' || v[0] == '+') {
        1
    } else {
        0
    };
    let ghost d = if v@.len() > 0 && (v@[0] == '-' || v@[0] == '+') {
        v@.skip(1)
    } else {
        v@
    };
    assert(d =~= v@.skip(start as int));
    if start >= v.len() {
        return None;
    }
    let limit: u128 = 9223372036854775808;
    let mut acc: u128 = 0;
    let mut over = false;
    let mut i: usize = start;
    assert(d.take(0) =~= Seq::<char>::empty());
    while i < v.len()
        invariant
            start <= i <= v.len(),
            v@ == s@,
            start == (if v@.len() > 0 && (v@[0] == '-' || v@[0] == '+') {
                1usize
            } else {
                0usize
            }),
            d =~= v@.skip(start as int),
            all_digits(d.take(i - start)),
            !over ==> acc as int == digits_value(d.take(i - start)) && acc <= limit,
            over ==> digits_value(d.take(i - start)) > limit,
            limit == 9223372036854775808u128,
        decreases v.len() - i,
    {
        let c = v[i];
        if !('0' <= c && c <= '9') {
            assert(d[i - start] == c);
            assert(!all_digits(d));
            return None;
        }
        let ghost p = d.take(i - start);
        assert(d.take(i + 1 - start) =~= p.push(c));
        assert(d.take(i + 1 - start).drop_last() =~= p);
        proof {
            lemma_digits_nonneg(p);
            assert(all_digits(p.push(c))) by {
                assert forall|k: int| 0 <= k < p.push(c).len() implies '0' <= #[trigger] p.push(c)[k] <= '9' by {
                    if k < p.len() {
                        assert(p.push(c)[k] == p[k]);
                    }
                }
            }
        }
        let dv: u128 = if c == '0' { 0 } else if c == '1' { 1 } else if c == '2' { 2 } else if c == '3' { 3 }
            else if c == '4' { 4 } else if c == '5' { 5 } else if c == '6' { 6 } else if c == '7' { 7 }
            else if c == '8' { 8 } else { 9 };
        assert(dv as int == c as int - '0' as int);
        if !over {
            acc = acc * 10 + dv;
            if acc > limit {
                over = true;
            }
        }
        i += 1;
    }
    assert(d.take(i - start) =~= d);
    if over {
        return None;
    }
    if neg {
        if acc == limit {
            Some(-9223372036854775807i64 - 1)
        } else {
            Some(-(acc as i64))
        }
    } else {
        if acc >= limit {
            None
        } else {
            Some(acc as i64)
        }
    }
}


/// `str::parse::<usize>`: an optional `+`, then at least one digit, the value
/// at most `usize::MAX`.
pub open spec fn parse_usize(s: Seq<char>) -> Option<usize> {
    let d = if s.len() > 0 && s[0] == '+' {
        s.skip(1)
    } else {
        s
    };
    if d.len() > 0 && all_digits(d) && digits_value(d) <= usize::MAX {
        Some(digits_value(d) as usize)
    } else {
        None
    }
}

/// The number written by `s`, if it fits in a `usize` (`str::parse::<usize>`).
pub fn parse_usize_exec(s: &str) -> (r: Option<usize>)
    ensures
        r == parse_usize(s@),
{
    let v = chars_of(s);
    let start: usize = if v.len() > 0 && v[0] == '+' {
        1
    } else {
        0
    };
    let ghost d = if v@.len() > 0 && v@[0] == '+' {
        v@.skip(1)
    } else {
        v@
    };
    assert(d =~= v@.skip(start as int));
    if start >= v.len() {
        return None;
    }
    let limit: u128 = usize::MAX as u128;
    let mut acc: u128 = 0;
    let mut over = false;
    let mut i: usize = start;
    assert(d.take(0) =~= Seq::<char>::empty());
    while i < v.len()
        invariant
            start <= i <= v.len(),
            v@ == s@,
            start == (if v@.len() > 0 && v@[0] == '+' {
                1usize
            } else {
                0usize
            }),
            d =~= v@.skip(start as int),
            all_digits(d.take(i - start)),
            !over ==> acc as int == digits_value(d.take(i - start)) && acc <= limit,
            over ==> digits_value(d.take(i - start)) > limit,
            limit == usize::MAX as u128,
        decreases v.len() - i,
    {
        let c = v[i];
        if !('0' <= c && c <= '9') {
            assert(d[i - start] == c);
            assert(!all_digits(d));
            return None;
        }
        let ghost p = d.take(i - start);
        assert(d.take(i + 1 - start) =~= p.push(c));
        assert(d.take(i + 1 - start).drop_last() =~= p);
        proof {
            lemma_digits_nonneg(p);
            assert(all_digits(p.push(c))) by {
                assert forall|k: int| 0 <= k < p.push(c).len() implies '0' <= #[trigger] p.push(c)[k] <= '9' by {
                    if k < p.len() {
                        assert(p.push(c)[k] == p[k]);
                    }
                }
            }
        }
        let dv: u128 = if c == '0' { 0 } else if c == '1' { 1 } else if c == '2' { 2 } else if c == '3' { 3 }
            else if c == '4' { 4 } else if c == '5' { 5 } else if c == '6' { 6 } else if c == '7' { 7 }
            else if c == '8' { 8 } else { 9 };
        assert(dv as int == c as int - '0' as int);
        if !over {
            acc = acc * 10 + dv;
            if acc > limit {
                over = true;
            }
        }
        i += 1;
    }
    assert(d.take(i - start) =~= d);
    if over {
        None
    } else {
        Some(acc as usize)
    }
}

} // verus!
