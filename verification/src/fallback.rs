//! The sequential mirror-fallback state machine of a run.
//!
//! A run walks an ordered mirror list from the front. Each mirror is
//! attempted at most once; a failed attempt is recorded and the run moves to
//! the next mirror; the first full download ends the run successfully; a run
//! that spends every mirror ends exhausted, carrying one failure per mirror,
//! in attempt order. The mirror list is never reordered and no failure halts
//! the loop early.

use vstd::prelude::*;

use crate::errors::DownloadError;
use crate::mirror::Mirror;

verus! {

/// How a run ended: the first successful attempt, or exhaustion with the
/// full per-mirror failure history, in attempt order.
pub enum RunResult {
    /// `mirror_index` is the position, in the ordered mirror list, of the
    /// mirror whose attempt completed; `bytes` is its full byte count.
    Succeeded { mirror_index: usize, bytes: u64 },
    /// One failure per mirror, in the order the mirrors were attempted.
    AllMirrorsExhausted { failures: Vec<DownloadError> },
}

/// The abstract state of a fallback run: the ordered mirrors, the failures
/// recorded so far (one per attempted mirror, in order), and the byte count
/// of the successful attempt, once there is one.
pub struct RunModel {
    pub mirrors: Seq<Mirror>,
    pub failures: Seq<DownloadError>,
    pub success: Option<u64>,
}

impl RunModel {
    /// The position of the mirror the next attempt will use; every mirror
    /// before it has failed.
    pub open spec fn next_index(self) -> int {
        self.failures.len() as int
    }

    /// At most one attempt per mirror, and a success only at an existing
    /// mirror.
    pub open spec fn wf(self) -> bool {
        &&& self.failures.len() <= self.mirrors.len()
        &&& (self.success is Some ==> self.failures.len() < self.mirrors.len())
    }

    /// The run is over: an attempt succeeded, or every mirror failed.
    pub open spec fn done(self) -> bool {
        self.success is Some || self.failures.len() == self.mirrors.len()
    }
}

/// A fresh run over an ordered mirror list: nothing attempted yet.
pub open spec fn run_init(ms: Seq<Mirror>) -> RunModel {
    RunModel { mirrors: ms, failures: Seq::empty(), success: None }
}

/// One failed attempt: the reason is appended and the run moves to the next
/// mirror.
pub open spec fn run_fail(m: RunModel, reason: DownloadError) -> RunModel {
    RunModel { failures: m.failures.push(reason), ..m }
}

/// One successful attempt: the run ends with its byte count.
pub open spec fn run_succeed(m: RunModel, bytes: u64) -> RunModel {
    RunModel { success: Some(bytes), ..m }
}

/// A run under a sequence of per-mirror failures, applied in order.
pub open spec fn apply_failures(m: RunModel, es: Seq<DownloadError>) -> RunModel
    decreases es.len(),
{
    if es.len() == 0 {
        m
    } else {
        apply_failures(run_fail(m, es[0]), es.drop_first())
    }
}

proof fn lemma_apply_failures(m: RunModel, es: Seq<DownloadError>)
    ensures
        apply_failures(m, es).mirrors == m.mirrors,
        apply_failures(m, es).failures == m.failures + es,
        apply_failures(m, es).success == m.success,
    decreases es.len(),
{
    if es.len() == 0 {
        assert(m.failures + es =~= m.failures);
    } else {
        lemma_apply_failures(run_fail(m, es[0]), es.drop_first());
        assert(m.failures.push(es[0]) + es.drop_first() =~= m.failures + es);
    }
}

/// Exhaustion law: a run over mirrors `ms` in which every attempt fails,
/// with reasons `es`, tries the mirrors one after another in list order —
/// after `j` failures the next attempt is at mirror `j` — and ends
/// exhausted, not successful, with exactly one recorded failure per mirror:
/// the reasons `es`, in attempt order.
pub proof fn lemma_all_failures_exhaust(ms: Seq<Mirror>, es: Seq<DownloadError>)
    requires
        es.len() == ms.len(),
    ensures
        ({
            let end = apply_failures(run_init(ms), es);
            &&& end.wf()
            &&& end.done()
            &&& end.success is None
            &&& end.mirrors == ms
            &&& end.failures == es
        }),
        forall|j: int|
            0 <= j <= es.len() ==> #[trigger] apply_failures(
                run_init(ms),
                es.take(j),
            ).next_index() == j,
{
    lemma_apply_failures(run_init(ms), es);
    assert(Seq::<DownloadError>::empty() + es =~= es);
    assert forall|j: int| 0 <= j <= es.len() implies #[trigger] apply_failures(
        run_init(ms),
        es.take(j),
    ).next_index() == j by {
        lemma_apply_failures(run_init(ms), es.take(j));
        assert(Seq::<DownloadError>::empty() + es.take(j) =~= es.take(j));
    }
}

/// Fallback law: a run over mirrors `ms` whose first `es.len()` attempts
/// fail, with reasons `es`, and whose next attempt succeeds with `bytes`,
/// tries exactly `es.len() + 1` mirrors in list order — after `j` failures
/// the next attempt is at mirror `j`, so the successful attempt is at mirror
/// `es.len()` — and ends successfully with the failures `es`, in attempt
/// order.
pub proof fn lemma_fallback_success(ms: Seq<Mirror>, es: Seq<DownloadError>, bytes: u64)
    requires
        es.len() < ms.len(),
    ensures
        ({
            let before = apply_failures(run_init(ms), es);
            let end = run_succeed(before, bytes);
            &&& before.wf()
            &&& !before.done()
            &&& before.next_index() == es.len()
            &&& end.wf()
            &&& end.done()
            &&& end.success == Some(bytes)
            &&& end.mirrors == ms
            &&& end.failures == es
        }),
        forall|j: int|
            0 <= j <= es.len() ==> #[trigger] apply_failures(
                run_init(ms),
                es.take(j),
            ).next_index() == j,
{
    lemma_apply_failures(run_init(ms), es);
    assert(Seq::<DownloadError>::empty() + es =~= es);
    assert forall|j: int| 0 <= j <= es.len() implies #[trigger] apply_failures(
        run_init(ms),
        es.take(j),
    ).next_index() == j by {
        lemma_apply_failures(run_init(ms), es.take(j));
        assert(Seq::<DownloadError>::empty() + es.take(j) =~= es.take(j));
    }
}

/// The run state the orchestrator owns: the ordered mirror list, the
/// failures recorded so far and the successful byte count, if any. Each
/// transition follows the model above.
pub struct FallbackRun {
    pub mirrors: Vec<Mirror>,
    pub failures: Vec<DownloadError>,
    pub success: Option<u64>,
}

impl View for FallbackRun {
    type V = RunModel;

    open spec fn view(&self) -> RunModel {
        RunModel { mirrors: self.mirrors@, failures: self.failures@, success: self.success }
    }
}

impl FallbackRun {
    pub open spec fn wf(&self) -> bool {
        self@.wf()
    }

    /// Start a run over an ordered mirror list.
    pub fn new(mirrors: Vec<Mirror>) -> (r: FallbackRun)
        ensures
            r@ == run_init(mirrors@),
            r.wf(),
    {
        let failures: Vec<DownloadError> = Vec::new();
        proof {
            assert(failures@ =~= Seq::<DownloadError>::empty());
        }
        FallbackRun { mirrors, failures, success: None }
    }

    /// The mirror the next attempt must use: the first one not yet
    /// attempted, or `None` when every mirror is spent.
    pub fn current_mirror(&self) -> (r: Option<&Mirror>)
        requires
            self.wf(),
            self@.success is None,
        ensures
            match r {
                Some(m) => self@.next_index() < self@.mirrors.len() && *m
                    == self@.mirrors[self@.next_index()],
                None => self@.next_index() == self@.mirrors.len(),
            },
    {
        if self.failures.len() < self.mirrors.len() {
            Some(&self.mirrors[self.failures.len()])
        } else {
            None
        }
    }

    /// Record the current mirror's failure and move to the next mirror.
    pub fn record_failure(&mut self, reason: DownloadError)
        requires
            old(self).wf(),
            old(self)@.success is None,
            old(self)@.next_index() < old(self)@.mirrors.len(),
        ensures
            final(self)@ == run_fail(old(self)@, reason),
            final(self).wf(),
    {
        self.failures.push(reason);
    }

    /// Record the current mirror's success: the run is over.
    pub fn record_success(&mut self, bytes: u64)
        requires
            old(self).wf(),
            old(self)@.success is None,
            old(self)@.next_index() < old(self)@.mirrors.len(),
        ensures
            final(self)@ == run_succeed(old(self)@, bytes),
            final(self).wf(),
            final(self)@.done(),
    {
        self.success = Some(bytes);
    }

    /// Whether the run is over: a success was recorded, or every mirror has
    /// failed.
    pub fn is_done(&self) -> (r: bool)
        ensures
            r == self@.done(),
    {
        match self.success {
            Some(_) => true,
            None => self.failures.len() == self.mirrors.len(),
        }
    }

    /// How many mirrors have been attempted and failed so far.
    pub fn failure_count(&self) -> (r: usize)
        ensures
            r == self@.failures.len(),
    {
        self.failures.len()
    }

    /// Close the run. A recorded success yields `Succeeded` with the byte
    /// count and the position of the mirror that delivered it; otherwise
    /// every mirror failed and the result carries the full failure history,
    /// one entry per mirror, in attempt order.
    pub fn into_result(self) -> (r: RunResult)
        requires
            self.wf(),
            self@.done(),
        ensures
            r is Succeeded <==> self@.success is Some,
            match r {
                RunResult::Succeeded { mirror_index, bytes } => self@.success == Some(bytes)
                    && mirror_index == self@.next_index(),
                RunResult::AllMirrorsExhausted { failures } => self@.success is None && failures@
                    == self@.failures && failures@.len() == self@.mirrors.len(),
            },
    {
        match self.success {
            Some(bytes) => RunResult::Succeeded { mirror_index: self.failures.len(), bytes },
            None => RunResult::AllMirrorsExhausted { failures: self.failures },
        }
    }
}

} // verus!
