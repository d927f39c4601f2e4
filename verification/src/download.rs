//! Download planning: the flat table of contents, and the queue that keeps a
//! fixed number of chapter requests in flight while delivering the chapters
//! strictly in table-of-contents order, whatever order they arrive in.

use vstd::prelude::*;

use crate::text::{chars_of, owned, str_eq, string_of};
use crate::types::{BookInfo, Chapter, DownloadEvent, VolumeView};

verus! {

/// Number of chapter requests a download keeps in flight.
pub const CONCURRENCY: usize = 12;

/// Content recorded for a chapter that could not be fetched, in the text file.
pub const FAILED_MARK: &'static str = "[下载失败]";

// ─── flat table of contents ────────────────────────────────────────────────

/// One chapter of the table of contents with its position in the book.
#[derive(Debug, Clone)]
pub struct FlatChapter {
    pub idx: usize,
    /// Volume name to print before this chapter (first chapter of a named volume).
    pub vol_header: Option<String>,
    pub chapter_id: String,
    pub title: String,
}

/// View of a [`FlatChapter`].
pub struct FlatView {
    pub idx: int,
    pub vol_header: Option<Seq<char>>,
    pub chapter_id: Seq<char>,
    pub title: Seq<char>,
}

/// View of an optional string.
pub open spec fn opt_view(o: Option<String>) -> Option<Seq<char>> {
    match o {
        Some(s) => Some(s@),
        None => None,
    }
}

impl View for FlatChapter {
    type V = FlatView;

    open spec fn view(&self) -> FlatView {
        FlatView {
            idx: self.idx as int,
            vol_header: opt_view(self.vol_header),
            chapter_id: self.chapter_id@,
            title: self.title@,
        }
    }
}

/// Number of chapters in the volumes.
pub open spec fn chapter_count(vols: Seq<VolumeView>) -> nat
    decreases vols.len(),
{
    if vols.len() == 0 {
        0
    } else {
        chapter_count(vols.drop_last()) + vols.last().chapters.len()
    }
}

/// The entries of one volume, numbered from `offset`; only the first carries
/// the volume name, and only when that name is not empty.
pub open spec fn volume_entries(v: VolumeView, offset: int) -> Seq<FlatView> {
    Seq::new(
        v.chapters.len(),
        |j: int|
            FlatView {
                idx: offset + j,
                vol_header: if j == 0 && v.volume_name.len() > 0 {
                    Some(v.volume_name)
                } else {
                    None
                },
                chapter_id: v.chapters[j].chapter_id,
                title: v.chapters[j].title,
            },
    )
}

/// All chapters of all volumes, in order, numbered from 0.
pub open spec fn flat_toc(vols: Seq<VolumeView>) -> Seq<FlatView>
    decreases vols.len(),
{
    if vols.len() == 0 {
        Seq::empty()
    } else {
        flat_toc(vols.drop_last()) + volume_entries(vols.last(), chapter_count(vols.drop_last()) as int)
    }
}

/// The number of entries in the flat list is the number of chapters.
pub proof fn lemma_flat_toc_len(vols: Seq<VolumeView>)
    ensures
        flat_toc(vols).len() == chapter_count(vols),
    decreases vols.len(),
{
    if vols.len() > 0 {
        lemma_flat_toc_len(vols.drop_last());
    }
}

/// Every chapter of every volume, in order, with its index and the header of
/// its volume on the first chapter of each named volume.
pub fn build_flat(book_info: &BookInfo) -> (flat: Vec<FlatChapter>)
    ensures
        flat@.map_values(|f: FlatChapter| f@) == flat_toc(book_info@.volumes),
{
    let ghost vols = book_info@.volumes;
    let mut flat: Vec<FlatChapter> = Vec::new();
    let mut idx: usize = 0;
    let mut vi: usize = 0;
    while vi < book_info.volumes.len()
        invariant
            vi <= book_info.volumes.len(),
            vols == book_info@.volumes,
            flat@.map_values(|f: FlatChapter| f@) == flat_toc(vols.take(vi as int)),
            idx == flat@.len(),
            idx == chapter_count(vols.take(vi as int)),
        decreases book_info.volumes.len() - vi,
    {
        let volume = &book_info.volumes[vi];
        let ghost vol = vols[vi as int];
        assert(vol == volume@);
        let ghost base = flat@.map_values(|f: FlatChapter| f@);
        let ghost offset = idx as int;
        let mut first = true;
        let mut ci: usize = 0;
        while ci < volume.chapters.len()
            invariant
                ci <= volume.chapters.len(),
                vol == volume@,
                flat@.map_values(|f: FlatChapter| f@) =~= base + volume_entries(vol, offset).take(
                    ci as int,
                ),
                idx == flat@.len(),
                idx == offset + ci,
                first == (ci == 0 || vol.volume_name.len() == 0),
            decreases volume.chapters.len() - ci,
        {
            let ch = &volume.chapters[ci];
            let vol_header = if first && !volume.volume_name.as_str().is_empty() {
                first = false;
                Some(volume.volume_name.clone())
            } else {
                None
            };
            let entry = FlatChapter {
                idx,
                vol_header,
                chapter_id: ch.chapter_id.clone(),
                title: ch.title.clone(),
            };
            assert(entry@ == volume_entries(vol, offset)[ci as int]);
            let ghost prev = flat@;
            flat.push(entry);
            assert(flat@.map_values(|f: FlatChapter| f@) =~= prev.map_values(|f: FlatChapter| f@).push(
                volume_entries(vol, offset)[ci as int],
            ));
            assert(volume_entries(vol, offset).take(ci + 1) =~= volume_entries(vol, offset).take(
                ci as int,
            ).push(volume_entries(vol, offset)[ci as int]));
            idx = flat.len();
            ci += 1;
        }
        assert(volume_entries(vol, offset).take(ci as int) =~= volume_entries(vol, offset));
        assert(vols.take(vi + 1).drop_last() =~= vols.take(vi as int));
        assert(vols.take(vi + 1).last() == vol);
        vi += 1;
    }
    assert(vols.take(vi as int) =~= vols);
    flat
}

// ─── ordered delivery ──────────────────────────────────────────────────────

/// How one requested chapter turned out.
#[derive(Debug)]
pub struct Outcome {
    pub vol_header: Option<String>,
    pub title: String,
    /// The chapter text, or the error message when `ok` is false.
    pub content: String,
    pub ok: bool,
}

/// View of an [`Outcome`].
pub struct OutcomeView {
    pub vol_header: Option<Seq<char>>,
    pub title: Seq<char>,
    pub content: Seq<char>,
    pub ok: bool,
}

impl View for Outcome {
    type V = OutcomeView;

    open spec fn view(&self) -> OutcomeView {
        OutcomeView {
            vol_header: opt_view(self.vol_header),
            title: self.title@,
            content: self.content@,
            ok: self.ok,
        }
    }
}

/// A chapter handed out in order: its index and how it turned out.
#[derive(Debug)]
pub struct Delivery {
    pub index: usize,
    pub outcome: Outcome,
}

/// View of a [`Delivery`].
pub struct DeliveryView {
    pub index: int,
    pub outcome: OutcomeView,
}

impl View for Delivery {
    type V = DeliveryView;

    open spec fn view(&self) -> DeliveryView {
        DeliveryView { index: self.index as int, outcome: self.outcome@ }
    }
}

/// View of an optional outcome.
pub open spec fn opt_outcome(o: Option<Outcome>) -> Option<OutcomeView> {
    match o {
        Some(x) => Some(x@),
        None => None,
    }
}

/// The state of a download: which chapters were requested, which arrived but
/// wait for an earlier one, and which were handed out.
pub struct DeliveryQueue {
    total: usize,
    enqueued: usize,
    next_write: usize,
    ready: Vec<Option<Outcome>>,
    downloaded: usize,
    failed: usize,
    completions: Ghost<nat>,
}

/// View of a [`DeliveryQueue`].
pub struct QueueView {
    /// Number of chapters in the book.
    pub total: nat,
    /// Chapters `0..enqueued` have been requested.
    pub enqueued: nat,
    /// Chapters `0..next_write` have been handed out.
    pub next_write: nat,
    /// Outcomes that arrived and wait for an earlier chapter.
    pub ready: Seq<Option<OutcomeView>>,
    pub downloaded: nat,
    pub failed: nat,
    /// Number of outcomes reported so far.
    pub completions: nat,
}

impl View for DeliveryQueue {
    type V = QueueView;

    closed spec fn view(&self) -> QueueView {
        QueueView {
            total: self.total as nat,
            enqueued: self.enqueued as nat,
            next_write: self.next_write as nat,
            ready: self.ready@.map_values(|o: Option<Outcome>| opt_outcome(o)),
            downloaded: self.downloaded as nat,
            failed: self.failed as nat,
            completions: self.completions@,
        }
    }
}

/// The smaller of two numbers.
pub open spec fn min_nat(a: nat, b: nat) -> nat {
    if a <= b {
        a
    } else {
        b
    }
}

/// Number of waiting outcomes among positions `lo..hi`.
pub open spec fn count_ready(r: Seq<Option<OutcomeView>>, lo: int, hi: int) -> nat
    decreases hi - lo,
{
    if hi <= lo {
        0
    } else {
        count_ready(r, lo, hi - 1) + if r[hi - 1] is Some {
            1nat
        } else {
            0nat
        }
    }
}

/// First position at or after `from` with nothing waiting (or the end).
pub open spec fn drain_end(r: Seq<Option<OutcomeView>>, from: int) -> int
    decreases r.len() - from,
{
    if from < 0 || from >= r.len() {
        from
    } else if r[from] is None {
        from
    } else {
        drain_end(r, from + 1)
    }
}

/// Number of successful outcomes among positions `lo..hi`.
pub open spec fn count_ok(r: Seq<Option<OutcomeView>>, lo: int, hi: int) -> nat
    decreases hi - lo,
{
    if hi <= lo {
        0
    } else {
        count_ok(r, lo, hi - 1) + if r[hi - 1] matches Some(o) && o.ok {
            1nat
        } else {
            0nat
        }
    }
}

impl QueueView {
    /// The invariant of a download in progress.
    pub open spec fn wf(self) -> bool {
        &&& self.ready.len() == self.total
        &&& self.next_write <= self.enqueued <= self.total
        &&& self.enqueued == min_nat(self.total, CONCURRENCY as nat + self.completions)
        &&& forall|i: int| 0 <= i < self.next_write ==> self.ready[i] is None
        &&& forall|i: int| self.enqueued <= i < self.total ==> self.ready[i] is None
        &&& self.next_write < self.total ==> self.ready[self.next_write as int] is None
        &&& self.downloaded + self.failed == self.next_write
        &&& self.next_write + count_ready(self.ready, self.next_write as int, self.total as int)
            == self.completions
    }

    /// Chapters requested and not yet reported.
    pub open spec fn in_flight(self) -> int {
        self.enqueued - self.completions
    }
}

/// Counting waiting outcomes over an empty range gives zero, and over a range
/// with nothing waiting too.
pub proof fn lemma_count_ready_none(r: Seq<Option<OutcomeView>>, lo: int, hi: int)
    requires
        forall|i: int| lo <= i < hi ==> r[i] is None,
    ensures
        count_ready(r, lo, hi) == 0,
    decreases hi - lo,
{
    if hi > lo {
        lemma_count_ready_none(r, lo, hi - 1);
    }
}

/// Waiting outcomes in `lo..hi` number at most `hi - lo`, fewer when a slot is free.
pub proof fn lemma_count_ready_bound(r: Seq<Option<OutcomeView>>, lo: int, hi: int, free: int)
    requires
        lo <= hi,
    ensures
        count_ready(r, lo, hi) <= hi - lo,
        lo <= free < hi && r[free] is None ==> count_ready(r, lo, hi) < hi - lo,
    decreases hi - lo,
{
    if hi > lo {
        lemma_count_ready_bound(r, lo, hi - 1, free);
    }
}

/// Filling a free slot inside the range adds one waiting outcome.
pub proof fn lemma_count_ready_fill(r: Seq<Option<OutcomeView>>, lo: int, hi: int, k: int, v: OutcomeView)
    requires
        0 <= lo <= k < hi <= r.len(),
        r[k] is None,
    ensures
        count_ready(r.update(k, Some(v)), lo, hi) == count_ready(r, lo, hi) + 1,
    decreases hi - lo,
{
    let u = r.update(k, Some(v));
    if hi - 1 > k {
        lemma_count_ready_fill(r, lo, hi - 1, k, v);
        assert(u[hi - 1] == r[hi - 1]);
    } else {
        assert forall|i: int| lo <= i < hi - 1 implies r[i] == u[i] by {
            assert(i != k);
        }
        lemma_count_ready_same(r, u, lo, hi - 1);
        assert(u[k] is Some);
    }
}

/// Ranges on which two sequences agree count the same.
pub proof fn lemma_count_ready_same(a: Seq<Option<OutcomeView>>, b: Seq<Option<OutcomeView>>, lo: int, hi: int)
    requires
        forall|i: int| lo <= i < hi ==> a[i] == b[i],
    ensures
        count_ready(a, lo, hi) == count_ready(b, lo, hi),
        count_ok(a, lo, hi) == count_ok(b, lo, hi),
    decreases hi - lo,
{
    if hi > lo {
        lemma_count_ready_same(a, b, lo, hi - 1);
    }
}

/// Counting from one position further on drops that position.
pub proof fn lemma_count_ready_shift(r: Seq<Option<OutcomeView>>, lo: int, hi: int)
    requires
        lo < hi,
    ensures
        count_ready(r, lo, hi) == count_ready(r, lo + 1, hi) + if r[lo] is Some {
            1nat
        } else {
            0nat
        },
        count_ok(r, lo, hi) == count_ok(r, lo + 1, hi) + if r[lo] matches Some(o) && o.ok {
            1nat
        } else {
            0nat
        },
    decreases hi - lo,
{
    reveal_with_fuel(count_ready, 2);
    reveal_with_fuel(count_ok, 2);
    if hi - 1 > lo {
        lemma_count_ready_shift(r, lo, hi - 1);
    }
}

impl DeliveryQueue {
    /// A download of `total` chapters; the first batch of requests is
    /// `0..min(total, CONCURRENCY)`.
    pub fn new(total: usize) -> (q: DeliveryQueue)
        ensures
            q@.wf(),
            q@.total == total,
            q@.next_write == 0,
            q@.completions == 0,
            q@.downloaded == 0,
            q@.failed == 0,
            q@.enqueued == min_nat(total as nat, CONCURRENCY as nat),
    {
        let mut ready: Vec<Option<Outcome>> = Vec::new();
        let mut i: usize = 0;
        while i < total
            invariant
                i <= total,
                ready@.len() == i,
                forall|j: int| 0 <= j < i ==> ready@[j] is None,
            decreases total - i,
        {
            ready.push(None);
            i += 1;
        }
        let enqueued = if total < CONCURRENCY {
            total
        } else {
            CONCURRENCY
        };
        let q = DeliveryQueue {
            total,
            enqueued,
            next_write: 0,
            ready,
            downloaded: 0,
            failed: 0,
            completions: Ghost(0),
        };
        proof {
            lemma_count_ready_none(q@.ready, 0, total as int);
        }
        q
    }

    /// The chapters to request first: `0..enqueued`.
    pub fn initial_requests(&self) -> (r: Vec<usize>)
        requires
            self@.wf(),
        ensures
            r@.len() == self@.enqueued,
            forall|i: int| 0 <= i < r@.len() ==> r@[i] == i,
    {
        let mut r: Vec<usize> = Vec::new();
        let mut i: usize = 0;
        while i < self.enqueued
            invariant
                i <= self.enqueued,
                r@.len() == i,
                forall|j: int| 0 <= j < i ==> r@[j] == j,
            decreases self.enqueued - i,
        {
            r.push(i);
            i += 1;
        }
        r
    }

    /// Number of chapters in the book.
    pub fn total(&self) -> (r: usize)
        ensures
            r == self@.total,
    {
        self.total
    }

    /// Whether every chapter has been handed out.
    pub fn is_finished(&self) -> (r: bool)
        ensures
            r == (self@.next_write == self@.total),
    {
        self.next_write == self.total
    }

    /// The totals reported at the end: `(downloaded, failed)`.
    pub fn counts(&self) -> (r: (usize, usize))
        ensures
            r.0 == self@.downloaded,
            r.1 == self@.failed,
    {
        (self.downloaded, self.failed)
    }

    /// Records the outcome of requested chapter `idx`. Returns the chapters
    /// that can now be handed out, in order, and the next chapter to request
    /// (one per reported outcome while unrequested chapters remain).
    pub fn complete(&mut self, idx: usize, outcome: Outcome) -> (res: (Vec<Delivery>, Option<usize>))
        requires
            old(self)@.wf(),
            old(self)@.next_write <= idx < old(self)@.enqueued,
            old(self)@.ready[idx as int] is None,
        ensures
            final(self)@.wf(),
            final(self)@.total == old(self)@.total,
            final(self)@.completions == old(self)@.completions + 1,
            final(self)@.next_write == drain_end(
                old(self)@.ready.update(idx as int, Some(outcome@)),
                old(self)@.next_write as int,
            ),
            final(self)@.next_write == old(self)@.next_write + res.0@.len(),
            forall|j: int|
                0 <= j < res.0@.len() ==> (#[trigger] res.0@[j])@.index == old(self)@.next_write + j
                    && Some(res.0@[j]@.outcome) == old(self)@.ready.update(
                    idx as int,
                    Some(outcome@),
                )[old(self)@.next_write + j],
            forall|i: int|
                0 <= i < final(self)@.total ==> final(self)@.ready[i] == if old(self)@.next_write <= i
                    < final(self)@.next_write {
                    None
                } else {
                    old(self)@.ready.update(idx as int, Some(outcome@))[i]
                },
            final(self)@.downloaded == old(self)@.downloaded + count_ok(
                old(self)@.ready.update(idx as int, Some(outcome@)),
                old(self)@.next_write as int,
                final(self)@.next_write as int,
            ),
            res.1 == if old(self)@.enqueued < old(self)@.total {
                Some(old(self)@.enqueued as usize)
            } else {
                None::<usize>
            },
    {
        let ghost old_v = self@;
        let ghost outcome_v = outcome@;
        let ghost upd = old_v.ready.update(idx as int, Some(outcome_v));
        let mut slot = Some(outcome);
        self.ready.set_and_swap(idx, &mut slot);
        assert(self@.ready =~= upd);
        proof {
            lemma_count_ready_fill(old_v.ready, old_v.next_write as int, old_v.total as int, idx as int, outcome_v);
        }
        self.completions = Ghost(self.completions@ + 1);
        let mut out: Vec<Delivery> = Vec::new();
        let ghost start = old_v.next_write as int;
        while self.next_write < self.total && self.ready[self.next_write].is_some()
            invariant
                self.total == old_v.total,
                self.ready@.len() == self.total,
                self.enqueued == old_v.enqueued,
                old_v.wf(),
                old_v.next_write <= idx < old_v.enqueued,
                upd == old_v.ready.update(idx as int, Some(outcome_v)),
                upd.len() == self.total,
                start == old_v.next_write,
                self.completions@ == old_v.completions + 1,
                start <= self.next_write <= self.total,
                out@.len() == self.next_write - start,
                drain_end(upd, start) == drain_end(upd, self.next_write as int),
                forall|j: int|
                    0 <= j < out@.len() ==> (#[trigger] out@[j])@.index == start + j && Some(
                        out@[j]@.outcome,
                    ) == upd[start + j],
                forall|i: int|
                    0 <= i < self.total ==> self@.ready[i] == if start <= i < self.next_write {
                        None
                    } else {
                        upd[i]
                    },
                forall|i: int| start <= i < self.next_write ==> upd[i] is Some,
                self.downloaded + self.failed == self.next_write,
                self.downloaded == old_v.downloaded + count_ok(upd, start, self.next_write as int),
                self.next_write + count_ready(self@.ready, self.next_write as int, self.total as int)
                    == self.completions@,
                self.next_write <= self.enqueued,
            decreases self.total - self.next_write,
        {
            let nw = self.next_write;
            let ghost before = self@.ready;
            assert(before[nw as int] is Some);
            assert(upd[nw as int] is Some);
            assert(drain_end(upd, nw as int) == drain_end(upd, nw + 1));
            assert(nw < self.enqueued) by {
                if nw >= self.enqueued {
                    assert(nw != idx);
                    assert(old_v.ready[nw as int] is None);
                }
            }
            let mut taken: Option<Outcome> = None;
            self.ready.set_and_swap(nw, &mut taken);
            assert(self@.ready =~= before.update(nw as int, None));
            let o = taken.unwrap();
            proof {
                assert(before[nw as int] == upd[nw as int]);
                lemma_count_ready_shift(before, nw as int, self.total as int);
                lemma_count_ready_same(before, self@.ready, nw + 1, self.total as int);
                assert(count_ok(upd, start, nw + 1) == count_ok(upd, start, nw as int) + if o.ok {
                    1nat
                } else {
                    0nat
                });
            }
            if o.ok {
                self.downloaded = self.downloaded + 1;
            } else {
                self.failed = self.failed + 1;
            }
            let ghost prev_out = out@;
            out.push(Delivery { index: nw, outcome: o });
            assert(out@ == prev_out.push(out@[prev_out.len() as int]));
            self.next_write = nw + 1;
        }
        proof {
            if self.next_write < self.total {
                assert(self@.ready[self.next_write as int] is None);
            }
            assert(drain_end(upd, self.next_write as int) == self.next_write);
            assert forall|i: int| 0 <= i < self.next_write implies self@.ready[i] is None by {
                if i < start {
                    assert(old_v.ready[i] is None);
                }
            }
        }
        let next_req = if self.enqueued < self.total {
            let r = self.enqueued;
            self.enqueued = self.enqueued + 1;
            Some(r)
        } else {
            None
        };
        (out, next_req)
    }
}

/// Every chapter is handed out exactly once, in order: once as many outcomes
/// were reported as there are chapters, chapters `0..total` have all been
/// delivered, and the totals add up to the number of chapters.
pub proof fn lemma_all_delivered(q: QueueView)
    requires
        q.wf(),
        q.completions == q.total,
    ensures
        q.next_write == q.total,
        q.downloaded + q.failed == q.total,
{
    if q.next_write < q.total {
        lemma_count_ready_bound(q.ready, q.next_write as int, q.total as int, q.next_write as int);
    }
}

/// At most [`CONCURRENCY`] chapters are ever requested and unreported, and
/// while chapters remain unrequested exactly that many are.
pub proof fn lemma_window(q: QueueView)
    requires
        q.wf(),
    ensures
        0 <= q.in_flight() <= CONCURRENCY,
        q.enqueued < q.total ==> q.in_flight() == CONCURRENCY,
{
    lemma_count_ready_bound(q.ready, q.next_write as int, q.total as int, q.next_write as int);
    lemma_count_ready_window(q.ready, q.next_write as int, q.enqueued as int, q.total as int);
}

/// Waiting outcomes all lie below the last requested chapter.
pub proof fn lemma_count_ready_window(r: Seq<Option<OutcomeView>>, lo: int, mid: int, hi: int)
    requires
        lo <= mid <= hi,
        forall|i: int| mid <= i < hi ==> r[i] is None,
    ensures
        count_ready(r, lo, hi) == count_ready(r, lo, mid),
        count_ready(r, lo, mid) <= mid - lo,
    decreases hi - lo,
{
    if hi > mid {
        lemma_count_ready_window(r, lo, mid, hi - 1);
    } else {
        lemma_count_ready_bound(r, lo, mid, lo);
    }
}

// ─── what a finished request becomes ───────────────────────────────────────

/// The outcome reported on a stream: the fetched chapter, titled by the table
/// of contents when the page has no title; or the error message, titled by
/// the table of contents.
pub fn chapter_outcome(vol_header: Option<String>, fallback_title: String, result: Result<Chapter, String>) -> (o: Outcome)
    ensures
        o@.vol_header == opt_view(vol_header),
        match result {
            Ok(ch) => {
                &&& o@.title == if ch.title@.len() == 0 {
                    fallback_title@
                } else {
                    ch.title@
                }
                &&& o@.content == ch.content@
                &&& o@.ok
            },
            Err(e) => o@.title == fallback_title@ && o@.content == e@ && !o@.ok,
        },
{
    match result {
        Ok(ch) => {
            let title = if ch.title.as_str().is_empty() {
                fallback_title
            } else {
                ch.title
            };
            Outcome { vol_header, title, content: ch.content, ok: true }
        },
        Err(e) => Outcome { vol_header, title: fallback_title, content: e, ok: false },
    }
}

/// The outcome written to a text file: a failed request records
/// [`FAILED_MARK`] as its content, and a chapter counts as failed exactly when
/// its content is that mark.
pub fn txt_outcome(vol_header: Option<String>, fallback_title: String, result: Option<Chapter>) -> (o: Outcome)
    ensures
        o@.vol_header == opt_view(vol_header),
        match result {
            Some(ch) => {
                &&& o@.title == if ch.title@.len() == 0 {
                    fallback_title@
                } else {
                    ch.title@
                }
                &&& o@.content == ch.content@
            },
            None => o@.title == fallback_title@ && o@.content == FAILED_MARK@,
        },
        o@.ok == (o@.content != FAILED_MARK@),
{
    let (title, content) = match result {
        Some(ch) => {
            let t = if ch.title.as_str().is_empty() {
                fallback_title
            } else {
                ch.title
            };
            (t, ch.content)
        },
        None => (fallback_title, owned(FAILED_MARK)),
    };
    let ok = !str_eq(content.as_str(), FAILED_MARK);
    Outcome { vol_header, title, content, ok }
}

/// The stream event of a delivered chapter: `Chapter` when it was fetched,
/// `ChapterError` (without volume) when it was not.
pub fn delivery_event(d: Delivery) -> (ev: DownloadEvent)
    ensures
        d.outcome.ok ==> (ev matches DownloadEvent::Chapter { index, volume, title, content } && index
            == d.index && opt_view(volume) == d.outcome@.vol_header && title@ == d.outcome.title@
            && content@ == d.outcome.content@),
        !d.outcome.ok ==> (ev matches DownloadEvent::ChapterError { index, title, error } && index
            == d.index && title@ == d.outcome.title@ && error@ == d.outcome.content@),
{
    let Delivery { index, outcome } = d;
    if outcome.ok {
        DownloadEvent::Chapter {
            index,
            volume: outcome.vol_header,
            title: outcome.title,
            content: outcome.content,
        }
    } else {
        DownloadEvent::ChapterError { index, title: outcome.title, error: outcome.content }
    }
}

/// The first stream event: the book's title, author, summary and chapter count.
pub fn book_event(info: &BookInfo, total: usize) -> (ev: DownloadEvent)
    ensures
        ev matches DownloadEvent::BookInfo { title, author, summary, total: t } && title@
            == info.book_name@ && author@ == info.author@ && summary@ == info.summary@ && t == total,
{
    DownloadEvent::BookInfo {
        title: info.book_name.clone(),
        author: info.author.clone(),
        summary: info.summary.clone(),
        total,
    }
}

/// The last stream event: how many chapters were fetched and how many failed.
pub fn done_event(q: &DeliveryQueue) -> (ev: DownloadEvent)
    ensures
        ev matches DownloadEvent::Done { downloaded, failed } && downloaded == q@.downloaded
            && failed == q@.failed,
{
    let (downloaded, failed) = q.counts();
    DownloadEvent::Done { downloaded, failed }
}

// ─── text file ─────────────────────────────────────────────────────────────

/// The head of the text file: `《title》`, the author line, the summary.
pub open spec fn spec_txt_header(name: Seq<char>, author: Seq<char>, summary: Seq<char>) -> Seq<char> {
    "《"@ + name + "》\n作者："@ + author + "\n\n"@ + summary + "\n\n"@
}

/// The head of the text file.
pub fn txt_header(info: &BookInfo) -> (r: String)
    ensures
        r@ == spec_txt_header(info.book_name@, info.author@, info.summary@),
{
    let mut r = owned("《");
    r.append(info.book_name.as_str());
    r.append("》\n作者：");
    r.append(info.author.as_str());
    r.append("\n\n");
    r.append(info.summary.as_str());
    r.append("\n\n");
    r
}

/// The text-file block of a delivered chapter: the volume header if any, the
/// title, and the content (or the failure mark).
pub open spec fn spec_txt_block(o: OutcomeView) -> Seq<char> {
    let head = match o.vol_header {
        Some(h) => "\n\n"@ + h + "\n\n"@,
        None => Seq::empty(),
    };
    if o.content == FAILED_MARK@ {
        head + o.title + "\n\n"@ + FAILED_MARK@ + "\n\n"@
    } else {
        head + o.title + "\n\n"@ + o.content + "\n\n"@
    }
}

/// The text-file block of a delivered chapter.
pub fn txt_block(d: &Delivery) -> (r: String)
    ensures
        r@ == spec_txt_block(d.outcome@),
{
    let mut r = String::new();
    match &d.outcome.vol_header {
        Some(h) => {
            r.append("\n\n");
            r.append(h.as_str());
            r.append("\n\n");
        },
        None => {},
    }
    r.append(d.outcome.title.as_str());
    r.append("\n\n");
    if str_eq(d.outcome.content.as_str(), FAILED_MARK) {
        r.append(FAILED_MARK);
    } else {
        r.append(d.outcome.content.as_str());
    }
    r.append("\n\n");
    r
}

/// Characters that cannot stand in a file name and become `_`.
pub open spec fn is_unsafe_file_char(c: char) -> bool {
    c == '/' || c == '\\' || c == ':' || c == '*' || c == '?' || c == '"' || c == '<' || c == '>'
        || c == '|'
}

/// The book name with every unsafe character replaced by `_`, then `.txt`.
pub open spec fn spec_output_name(name: Seq<char>) -> Seq<char> {
    name.map_values(|c: char| if is_unsafe_file_char(c) {
        '_'
    } else {
        c
    }) + ".txt"@
}

/// Whatever the book is called, its file name holds no character that is
/// unsafe in a file name, keeps every safe character in place, and ends in
/// `.txt`.
pub proof fn lemma_output_name_safe(name: Seq<char>)
    ensures
        spec_output_name(name).len() == name.len() + 4,
        forall|i: int| 0 <= i < spec_output_name(name).len() ==> !is_unsafe_file_char(#[trigger] spec_output_name(name)[i]),
        forall|i: int| 0 <= i < name.len() && !is_unsafe_file_char(name[i]) ==> #[trigger] spec_output_name(name)[i] == name[i],
        spec_output_name(name).skip(name.len() as int) == ".txt"@,
{
    reveal_strlit(".txt");
    let m = name.map_values(|c: char| if is_unsafe_file_char(c) {
        '_'
    } else {
        c
    });
    assert(spec_output_name(name).skip(name.len() as int) =~= ".txt"@);
    assert forall|i: int| 0 <= i < spec_output_name(name).len() implies !is_unsafe_file_char(
        #[trigger] spec_output_name(name)[i],
    ) by {
        if i < name.len() {
            assert(spec_output_name(name)[i] == m[i]);
        } else {
            assert(spec_output_name(name)[i] == ".txt"@[i - name.len()]);
        }
    }
}

/// The default name of the text file for a book.
pub fn output_file_name(book_name: &str) -> (r: String)
    ensures
        r@ == spec_output_name(book_name@),
{
    let v = chars_of(book_name);
    let mut out: Vec<char> = Vec::new();
    let mut i: usize = 0;
    while i < v.len()
        invariant
            i <= v.len(),
            out@ =~= v@.take(i as int).map_values(|c: char| if is_unsafe_file_char(c) {
                '_'
            } else {
                c
            }),
        decreases v.len() - i,
    {
        let c = v[i];
        let safe = c == '/' || c == '\\' || c == ':' || c == '*' || c == '?' || c == '"' || c
            == '<' || c == '>' || c == '|';
        if safe {
            out.push('_');
        } else {
            out.push(c);
        }
        assert(v@.take(i + 1) =~= v@.take(i as int).push(c));
        i += 1;
    }
    assert(v@.take(i as int) =~= v@);
    let mut r = string_of(out.as_slice());
    r.append(".txt");
    r
}

} // verus!
