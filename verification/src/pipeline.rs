//! A complete, deterministic run of the pipeline against an injected
//! transport: every record is handed to a ready worker, driven through the
//! retry state machine by its script of service events, and the results are
//! drained by the sink, which stops only after every worker's terminate
//! marker. The run keeps an event log, and its contract states the pipeline's
//! laws over that log: a readiness signal precedes every assignment, each
//! record is assigned exactly once and in source order, every worker's
//! terminate marker is counted before the sink reports done, and the sink
//! collects exactly the completed records' results.

use vstd::prelude::*;

use crate::dispatcher::Dispatcher;
use crate::dispatcher::ReadinessToken;
use crate::sink::OutboundMessage;
use crate::sink::ResultSink;
use crate::types::AnimeMetadata;
use crate::types::AnimeSummary;
use crate::types::AnimeSummaryView;
use crate::worker::RecordOutcome;
use crate::worker::ScriptVerdict;
use crate::worker::ServiceEvent;
use crate::worker::process_record;
use crate::worker::script_outcome;

verus! {

/// One observable step of a run.
#[derive(Debug, PartialEq)]
pub enum PipelineEvent {
    /// A worker put its readiness token on the shared readiness channel.
    Ready { worker: usize },
    /// The dispatcher handed the record with this id to this worker.
    Assign { worker: usize, id: i32 },
    /// The worker forwarded one enriched result for this record.
    Emit { worker: usize, id: i32 },
    /// The worker dropped this record: no result, now or ever.
    Abandon { worker: usize, id: i32 },
    /// The worker forwarded the terminate marker to the sink.
    TerminateSent { worker: usize },
}

/// Everything a run leaves behind.
pub struct PipelineRun {
    pub log: Vec<PipelineEvent>,
    pub sink: ResultSink,
}

/// 1 when the event is this worker's readiness signal.
pub open spec fn ready_inc(e: PipelineEvent, w: int) -> nat {
    if e matches PipelineEvent::Ready { worker } && worker == w {
        1nat
    } else {
        0nat
    }
}

/// 1 when the event assigns a record to this worker.
pub open spec fn assign_inc(e: PipelineEvent, w: int) -> nat {
    if e matches PipelineEvent::Assign { worker, .. } && worker == w {
        1nat
    } else {
        0nat
    }
}

/// 1 when the event is this worker's terminate marker.
pub open spec fn terminate_inc(e: PipelineEvent, w: int) -> nat {
    if e matches PipelineEvent::TerminateSent { worker } && worker == w {
        1nat
    } else {
        0nat
    }
}

/// How many readiness signals of worker `w` the log holds.
pub open spec fn count_ready(log: Seq<PipelineEvent>, w: int) -> nat
    decreases log.len(),
{
    if log.len() == 0 {
        0nat
    } else {
        count_ready(log.drop_last(), w) + ready_inc(log.last(), w)
    }
}

/// How many assignments to worker `w` the log holds.
pub open spec fn count_assign(log: Seq<PipelineEvent>, w: int) -> nat
    decreases log.len(),
{
    if log.len() == 0 {
        0nat
    } else {
        count_assign(log.drop_last(), w) + assign_inc(log.last(), w)
    }
}

/// How many terminate markers of worker `w` the log holds.
pub open spec fn count_terminate(log: Seq<PipelineEvent>, w: int) -> nat
    decreases log.len(),
{
    if log.len() == 0 {
        0nat
    } else {
        count_terminate(log.drop_last(), w) + terminate_inc(log.last(), w)
    }
}

/// No worker has been assigned more records than it asked for.
pub open spec fn readiness_covers_assignments(log: Seq<PipelineEvent>) -> bool {
    forall|w: int| #[trigger] count_assign(log, w) <= count_ready(log, w)
}

/// At every instant of the run — in every prefix of the log — each worker's
/// assignments are covered by its earlier readiness signals: a worker never
/// receives a record before it has asked for one.
pub open spec fn readiness_precedes_assignment(log: Seq<PipelineEvent>) -> bool {
    forall|j: int|
        0 <= j <= log.len() ==> readiness_covers_assignments(#[trigger] log.take(j))
}

/// No log has an assignment after a terminate marker: the dispatcher hands
/// the pool its terminate markers only once the whole batch is out.
pub open spec fn assignments_precede_termination(log: Seq<PipelineEvent>) -> bool {
    forall|i: int, j: int|
        (0 <= i < j < log.len() && ((#[trigger] log[i]) matches PipelineEvent::TerminateSent {
            ..
        })) ==> !((#[trigger] log[j]) matches PipelineEvent::Assign { .. })
}

/// A log without terminate markers trivially orders them after everything.
pub open spec fn no_terminate_marker(log: Seq<PipelineEvent>) -> bool {
    forall|i: int|
        0 <= i < log.len() ==> !((#[trigger] log[i]) matches PipelineEvent::TerminateSent { .. })
}

/// The ids the dispatcher handed out, in log order.
pub open spec fn assigned_ids(log: Seq<PipelineEvent>) -> Seq<i32>
    decreases log.len(),
{
    if log.len() == 0 {
        Seq::empty()
    } else {
        let prefix = assigned_ids(log.drop_last());
        match log.last() {
            PipelineEvent::Assign { id, .. } => prefix.push(id),
            _ => prefix,
        }
    }
}

/// The ids of a batch, in source order.
pub open spec fn record_ids(records: Seq<AnimeMetadata>) -> Seq<i32> {
    records.map_values(|m: AnimeMetadata| m.id)
}

/// The collected results, up to views.
pub open spec fn collected_views(collected: Seq<AnimeSummary>) -> Seq<AnimeSummaryView> {
    collected.map_values(|s: AnimeSummary| s@)
}

/// The results the scripts owe: one per record whose script settles on a
/// parsed success, carrying that record's id and that script's summary, in
/// source order.
pub open spec fn completed_views(
    records: Seq<AnimeMetadata>,
    scripts: Seq<Seq<ServiceEvent>>,
) -> Seq<AnimeSummaryView>
    decreases records.len(),
{
    if records.len() == 0 {
        Seq::empty()
    } else {
        let prefix = completed_views(records.drop_last(), scripts.drop_last());
        match script_outcome(scripts.last(), 0) {
            ScriptVerdict::Completed(g) => prefix.push(
                AnimeSummaryView {
                    id: records.last().id as int,
                    generated_summary: g@,
                },
            ),
            _ => prefix,
        }
    }
}

/// The per-record scripts as sequences.
pub open spec fn script_seqs(scripts: Seq<Vec<ServiceEvent>>) -> Seq<Seq<ServiceEvent>> {
    scripts.map_values(|v: Vec<ServiceEvent>| v@)
}

/// Appending an event extends the log's counts by the event's own
/// contribution and leaves every existing prefix as it was.
proof fn lemma_log_push(log: Seq<PipelineEvent>, e: PipelineEvent)
    ensures
        log.push(e).drop_last() == log,
        log.push(e).last() == e,
        forall|j: int| 0 <= j <= log.len() ==> #[trigger] log.push(e).take(j) == log.take(j),
        log.push(e).take(log.len() as int + 1) == log.push(e),
{
    assert(log.push(e).drop_last() =~= log);
    assert forall|j: int| 0 <= j <= log.len() implies #[trigger] log.push(e).take(j) == log.take(
        j,
    ) by {
        assert(log.push(e).take(j) =~= log.take(j));
    }
    assert(log.push(e).take(log.len() as int + 1) =~= log.push(e));
}

/// A log whose prefixes all respect the readiness discipline still does after
/// an event that keeps the whole log respecting it.
proof fn lemma_prefixes_extend(log: Seq<PipelineEvent>, e: PipelineEvent)
    requires
        readiness_precedes_assignment(log),
        readiness_covers_assignments(log.push(e)),
    ensures
        readiness_precedes_assignment(log.push(e)),
{
    lemma_log_push(log, e);
    assert forall|j: int|
        0 <= j <= log.push(e).len() implies readiness_covers_assignments(
        #[trigger] log.push(e).take(j),
    ) by {
        if j <= log.len() {
            assert(log.push(e).take(j) == log.take(j));
        } else {
            assert(log.push(e).take(j) == log.push(e));
        }
    }
}

/// How many times this id occurs in a sequence of ids.
pub open spec fn count_id(ids: Seq<i32>, x: i32) -> nat
    decreases ids.len(),
{
    if ids.len() == 0 {
        0nat
    } else {
        count_id(ids.drop_last(), x) + (if ids.last() == x {
            1nat
        } else {
            0nat
        })
    }
}

/// How many assignments of the record with this id the log holds.
pub open spec fn count_assigns_of_id(log: Seq<PipelineEvent>, x: i32) -> nat
    decreases log.len(),
{
    if log.len() == 0 {
        0nat
    } else {
        count_assigns_of_id(log.drop_last(), x) + (if log.last() matches PipelineEvent::Assign {
            id,
            ..
        } && id == x {
            1nat
        } else {
            0nat
        })
    }
}

/// Counting assignments of an id in the log is counting that id among the
/// assigned ids.
proof fn lemma_assign_count_is_id_count(log: Seq<PipelineEvent>, x: i32)
    ensures
        count_assigns_of_id(log, x) == count_id(assigned_ids(log), x),
    decreases log.len(),
{
    if log.len() > 0 {
        lemma_assign_count_is_id_count(log.drop_last(), x);
        match log.last() {
            PipelineEvent::Assign { id, .. } => {
                assert(assigned_ids(log) == assigned_ids(log.drop_last()).push(id));
                assert(assigned_ids(log).drop_last() =~= assigned_ids(log.drop_last()));
            },
            _ => {
                assert(assigned_ids(log) == assigned_ids(log.drop_last()));
            },
        }
    }
}

/// An id that occurs nowhere in a sequence counts zero times.
proof fn lemma_count_id_absent(ids: Seq<i32>, x: i32)
    requires
        forall|i: int| 0 <= i < ids.len() ==> ids[i] != x,
    ensures
        count_id(ids, x) == 0,
    decreases ids.len(),
{
    if ids.len() > 0 {
        lemma_count_id_absent(ids.drop_last(), x);
    }
}

/// In a sequence of pairwise-distinct ids, every id counts at most once.
proof fn lemma_count_id_distinct(ids: Seq<i32>, x: i32)
    requires
        forall|i: int, j: int| 0 <= i < j < ids.len() ==> ids[i] != ids[j],
    ensures
        count_id(ids, x) <= 1,
    decreases ids.len(),
{
    if ids.len() > 0 {
        let prefix = ids.drop_last();
        if ids.last() == x {
            assert(forall|i: int| 0 <= i < prefix.len() ==> prefix[i] != x);
            lemma_count_id_absent(prefix, x);
        } else {
            lemma_count_id_distinct(prefix, x);
        }
    }
}

/// Law: across a full run over a batch of pairwise-distinct ids, each record
/// is handed to a worker at most once — the log of a run never assigns one id
/// twice, to the same worker or to different ones.
pub proof fn lemma_at_most_once_assignment(
    log: Seq<PipelineEvent>,
    records: Seq<AnimeMetadata>,
    x: i32,
)
    requires
        assigned_ids(log) == record_ids(records),
        forall|i: int, j: int|
            0 <= i < j < records.len() ==> records[i].id != records[j].id,
    ensures
        count_assigns_of_id(log, x) <= 1,
{
    lemma_assign_count_is_id_count(log, x);
    assert forall|i: int, j: int|
        0 <= i < j < record_ids(records).len() implies record_ids(records)[i] != record_ids(
        records,
    )[j] by {
        assert(records[i].id != records[j].id);
    }
    lemma_count_id_distinct(record_ids(records), x);
}

/// Runs the whole pipeline against an injected transport: `scripts[k]` is the
/// sequence of service events record `k`'s enrichment calls come back with.
/// The run completes (so every script must settle), and its contract is the
/// pipeline's law book: a readiness signal precedes every assignment, in
/// every prefix of the log; the dispatcher hands out exactly the batch's ids,
/// in source order, and none of them after any terminate marker; the sink is
/// done, having counted one terminate marker from every worker of the pool;
/// and the sink collected exactly the results the scripts owe, each under its
/// own record's id.
pub fn run_pipeline(records: Vec<AnimeMetadata>, scripts: &Vec<Vec<ServiceEvent>>, pool_size: usize) -> (r: PipelineRun)
    requires
        pool_size >= 1,
        scripts@.len() == records@.len(),
        forall|k: int|
            0 <= k < scripts@.len() ==> !((#[trigger] script_outcome(scripts@[k]@, 0)) is Stalled),
    ensures
        readiness_precedes_assignment(r.log@),
        assignments_precede_termination(r.log@),
        assigned_ids(r.log@) == record_ids(records@),
        r.sink.pool_size == pool_size,
        r.sink.done(),
        forall|w: int| 0 <= w < pool_size ==> #[trigger] count_terminate(r.log@, w) == 1,
        forall|w: int| !(0 <= w < pool_size) ==> #[trigger] count_terminate(r.log@, w) == 0,
        collected_views(r.sink.collected@) == completed_views(records@, script_seqs(scripts@)),
{
    let num_records = records.len();
    let mut dispatcher = Dispatcher::new(records);
    let mut sink = ResultSink::new(pool_size);
    let mut log: Vec<PipelineEvent> = Vec::new();

    proof {
        assert(log@.take(0) =~= log@);
        assert(records@.take(0) =~= Seq::<AnimeMetadata>::empty());
        assert(script_seqs(scripts@).take(0) =~= Seq::<Seq<ServiceEvent>>::empty());
        assert(record_ids(records@.take(0)) =~= Seq::<i32>::empty());
        assert(collected_views(sink.collected@) =~= Seq::<AnimeSummaryView>::empty());
        assert(completed_views(records@.take(0), script_seqs(scripts@).take(0)) =~= Seq::<
            AnimeSummaryView,
        >::empty());
    }
    // Every worker begins idle and asks for its first assignment.
    let mut w0: usize = 0;
    while w0 < pool_size
        invariant
            w0 <= pool_size,
            sink.pool_size == pool_size,
            sink.terminated == 0,
            sink.wf(),
            collected_views(sink.collected@) == Seq::<AnimeSummaryView>::empty(),
            dispatcher.wf(),
            dispatcher.served == 0,
            forall|w: int|
                0 <= w < w0 ==> #[trigger] count_ready(log@, w) == count_assign(log@, w) + 1,
            forall|w: int| !(0 <= w < w0) ==> #[trigger] count_ready(log@, w) == 0,
            forall|w: int| #[trigger] count_assign(log@, w) == 0,
            forall|w: int| #[trigger] count_terminate(log@, w) == 0,
            no_terminate_marker(log@),
            readiness_precedes_assignment(log@),
            assigned_ids(log@) == Seq::<i32>::empty(),
        decreases pool_size - w0,
    {
        let ghost prev = log@;
        let ghost e = PipelineEvent::Ready { worker: w0 as usize };
        log.push(PipelineEvent::Ready { worker: w0 });
        proof {
            lemma_log_push(prev, e);
            assert(log@ == prev.push(e));
            assert(forall|w: int| #[trigger] count_assign(log@, w) == count_assign(prev, w));
            assert(forall|w: int| #[trigger] count_ready(log@, w) == count_ready(prev, w)
                + ready_inc(e, w));
            assert(forall|w: int| #[trigger] count_terminate(log@, w) == count_terminate(prev, w));
            lemma_prefixes_extend(prev, e);
        }
        w0 = w0 + 1;
    }
    // Hand out the batch, one record per readiness token, and drive each
    // record through the retry state machine.
    let mut k: usize = 0;
    while k < num_records
        invariant
            k <= num_records,
            num_records == scripts@.len(),
            pool_size >= 1,
            dispatcher.wf(),
            dispatcher.served == k,
            dispatcher.records@.len() == num_records,
            dispatcher.records@ == records@,
            sink.pool_size == pool_size,
            sink.terminated == 0,
            sink.wf(),
            forall|kk: int|
                0 <= kk < scripts@.len() ==> !((#[trigger] script_outcome(
                    scripts@[kk]@,
                    0,
                )) is Stalled),
            forall|w: int|
                0 <= w < pool_size ==> #[trigger] count_ready(log@, w) == count_assign(log@, w)
                    + 1,
            forall|w: int| !(0 <= w < pool_size) ==> #[trigger] count_ready(log@, w) == 0,
            forall|w: int| !(0 <= w < pool_size) ==> #[trigger] count_assign(log@, w) == 0,
            forall|w: int| #[trigger] count_terminate(log@, w) == 0,
            no_terminate_marker(log@),
            readiness_precedes_assignment(log@),
            assigned_ids(log@) == record_ids(records@.take(k as int)),
            collected_views(sink.collected@) == completed_views(
                records@.take(k as int),
                script_seqs(scripts@).take(k as int),
            ),
        decreases num_records - k,
    {
        let wi: usize = k % pool_size;
        proof {
            assert(wi < pool_size);
        }
        let token = ReadinessToken { worker_index: wi };
        let dispatched = dispatcher.dispatch(token);
        let (w, m) = match dispatched {
            Some(p) => p,
            None => vstd::pervasive::unreached(),
        };
        let rid: i32 = m.id;
        proof {
            assert(m@.id == records@[k as int]@.id);
            assert(rid == records@[k as int].id);
        }
        let ghost prev1 = log@;
        let ghost e1 = PipelineEvent::Assign { worker: wi as usize, id: rid };
        log.push(PipelineEvent::Assign { worker: wi, id: rid });
        proof {
            lemma_log_push(prev1, e1);
            assert(log@ == prev1.push(e1));
            assert(forall|w2: int| #[trigger] count_ready(log@, w2) == count_ready(prev1, w2));
            assert(forall|w2: int| #[trigger] count_assign(log@, w2) == count_assign(prev1, w2)
                + assign_inc(e1, w2));
            assert(forall|w2: int| #[trigger] count_terminate(log@, w2) == count_terminate(
                prev1,
                w2,
            ));
            assert forall|w2: int| #[trigger] count_assign(log@, w2) <= count_ready(log@, w2) by {
                assert(count_assign(prev1, w2) <= count_ready(prev1, w2));
            }
            lemma_prefixes_extend(prev1, e1);
            assert(assigned_ids(log@) == assigned_ids(prev1).push(rid));
            assert(records@.take(k as int + 1).drop_last() =~= records@.take(k as int));
            assert(record_ids(records@.take(k as int + 1)) =~= record_ids(
                records@.take(k as int),
            ).push(records@[k as int].id));
        }
        let step = process_record(m, &scripts[k]);
        let ghost kth_outcome = script_outcome(scripts@[k as int]@, 0);
        match step.0 {
            RecordOutcome::Completed(s) => {
                proof {
                    assert(kth_outcome matches ScriptVerdict::Completed(g) && s.id == rid
                        && s.generated_summary@ == g@);
                }
                let ghost prev2 = log@;
                let ghost e2 = PipelineEvent::Emit { worker: wi as usize, id: s.id };
                log.push(PipelineEvent::Emit { worker: wi, id: s.id });
                proof {
                    lemma_log_push(prev2, e2);
                    assert(log@ == prev2.push(e2));
                    assert(forall|w2: int| #[trigger] count_ready(log@, w2) == count_ready(
                        prev2,
                        w2,
                    ));
                    assert(forall|w2: int| #[trigger] count_assign(log@, w2) == count_assign(
                        prev2,
                        w2,
                    ));
                    assert(forall|w2: int| #[trigger] count_terminate(log@, w2) == count_terminate(
                        prev2,
                        w2,
                    ));
                    lemma_prefixes_extend(prev2, e2);
                    assert(assigned_ids(log@) == assigned_ids(prev2));
                }
                let ghost prev_collected = sink.collected@;
                sink.accept(OutboundMessage::Result(s));
                proof {
                    assert(sink.collected@ == prev_collected.push(s));
                    assert(collected_views(prev_collected.push(s)) =~= collected_views(
                        prev_collected,
                    ).push(s@));
                    let recs1 = records@.take(k as int + 1);
                    let scr1 = script_seqs(scripts@).take(k as int + 1);
                    assert(recs1.drop_last() =~= records@.take(k as int));
                    assert(scr1.drop_last() =~= script_seqs(scripts@).take(k as int));
                    assert(recs1.last() == records@[k as int]);
                    assert(scr1.last() == scripts@[k as int]@);
                    let g = kth_outcome->Completed_0;
                    assert(s@ =~= AnimeSummaryView {
                        id: records@[k as int].id as int,
                        generated_summary: g@,
                    });
                    assert(collected_views(sink.collected@) == completed_views(recs1, scr1));
                }
            },
            RecordOutcome::Abandoned => {
                proof {
                    assert(kth_outcome is Abandoned);
                }
                let ghost prev2 = log@;
                let ghost e2 = PipelineEvent::Abandon { worker: wi as usize, id: rid };
                log.push(PipelineEvent::Abandon { worker: wi, id: rid });
                proof {
                    lemma_log_push(prev2, e2);
                    assert(log@ == prev2.push(e2));
                    assert(forall|w2: int| #[trigger] count_ready(log@, w2) == count_ready(
                        prev2,
                        w2,
                    ));
                    assert(forall|w2: int| #[trigger] count_assign(log@, w2) == count_assign(
                        prev2,
                        w2,
                    ));
                    assert(forall|w2: int| #[trigger] count_terminate(log@, w2) == count_terminate(
                        prev2,
                        w2,
                    ));
                    lemma_prefixes_extend(prev2, e2);
                    assert(assigned_ids(log@) == assigned_ids(prev2));
                    let recs1 = records@.take(k as int + 1);
                    let scr1 = script_seqs(scripts@).take(k as int + 1);
                    assert(recs1.drop_last() =~= records@.take(k as int));
                    assert(scr1.drop_last() =~= script_seqs(scripts@).take(k as int));
                    assert(scr1.last() == scripts@[k as int]@);
                    assert(collected_views(sink.collected@) == completed_views(recs1, scr1));
                }
            },
            RecordOutcome::Stalled => {
                proof {
                    assert(!(kth_outcome is Stalled));
                    assert(false);
                }
            },
        }
        // The worker is idle again and asks for its next assignment.
        let ghost prev3 = log@;
        let ghost e3 = PipelineEvent::Ready { worker: wi as usize };
        log.push(PipelineEvent::Ready { worker: wi });
        proof {
            lemma_log_push(prev3, e3);
            assert(log@ == prev3.push(e3));
            assert(forall|w2: int| #[trigger] count_ready(log@, w2) == count_ready(prev3, w2)
                + ready_inc(e3, w2));
            assert(forall|w2: int| #[trigger] count_assign(log@, w2) == count_assign(prev3, w2));
            assert(forall|w2: int| #[trigger] count_terminate(log@, w2) == count_terminate(
                prev3,
                w2,
            ));
            lemma_prefixes_extend(prev3, e3);
            assert(assigned_ids(log@) == assigned_ids(prev3));
        }
        k = k + 1;
    }
    proof {
        assert(records@.take(num_records as int) =~= records@);
        assert(script_seqs(scripts@).take(num_records as int) =~= script_seqs(scripts@));
        assert(assignments_precede_termination(log@));
    }
    // The source is exhausted: the dispatcher terminates every worker, and
    // each forwards the marker downstream, where the sink counts it.
    let mut w1: usize = 0;
    while w1 < pool_size
        invariant
            w1 <= pool_size,
            pool_size >= 1,
            sink.pool_size == pool_size,
            sink.terminated == w1,
            sink.wf(),
            collected_views(sink.collected@) == completed_views(records@, script_seqs(scripts@)),
            forall|w: int|
                0 <= w < pool_size ==> #[trigger] count_ready(log@, w) == count_assign(log@, w)
                    + 1,
            forall|w: int| !(0 <= w < pool_size) ==> #[trigger] count_ready(log@, w) == 0,
            forall|w: int| !(0 <= w < pool_size) ==> #[trigger] count_assign(log@, w) == 0,
            forall|w: int| 0 <= w < w1 ==> #[trigger] count_terminate(log@, w) == 1,
            forall|w: int| !(0 <= w < w1) ==> #[trigger] count_terminate(log@, w) == 0,
            readiness_precedes_assignment(log@),
            assignments_precede_termination(log@),
            assigned_ids(log@) == record_ids(records@),
        decreases pool_size - w1,
    {
        let ghost prev4 = log@;
        let ghost e4 = PipelineEvent::TerminateSent { worker: w1 as usize };
        log.push(PipelineEvent::TerminateSent { worker: w1 });
        proof {
            lemma_log_push(prev4, e4);
            assert(log@ == prev4.push(e4));
            assert(forall|w2: int| #[trigger] count_ready(log@, w2) == count_ready(prev4, w2));
            assert(forall|w2: int| #[trigger] count_assign(log@, w2) == count_assign(prev4, w2));
            assert(forall|w2: int| #[trigger] count_terminate(log@, w2) == count_terminate(
                prev4,
                w2,
            ) + terminate_inc(e4, w2));
            lemma_prefixes_extend(prev4, e4);
            assert forall|i: int, j: int|
                (0 <= i < j < log@.len() && ((#[trigger] log@[i]) matches
                    PipelineEvent::TerminateSent { .. })) implies !((#[trigger] log@[j]) matches
                PipelineEvent::Assign { .. }) by {
                if j < prev4.len() {
                    assert(log@[i] == prev4[i] && log@[j] == prev4[j]);
                } else {
                    assert(log@[j] == e4);
                }
            }
            assert(assigned_ids(log@) == assigned_ids(prev4));
        }
        sink.accept(OutboundMessage::Terminate);
        w1 = w1 + 1;
    }
    PipelineRun { log, sink }
}

} // verus!
