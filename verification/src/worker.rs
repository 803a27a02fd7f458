//! The enrichment worker's state machine: one record at a time, a bounded
//! budget of failed attempts, unbounded rate-limit waits, and abandonment on
//! an unparseable response. The transition functions are pure; the driving
//! loop performs the channel receives, service calls and sleeps that the
//! actions ask for.

use vstd::prelude::*;

use crate::types::AnimeGeneratedSummary;
use crate::types::AnimeMetadata;
use crate::types::AnimeSummary;
use crate::types::clone_generated_summary;

verus! {

/// How many non-rate-limit attempts a record gets before it is abandoned.
pub const MAX_ATTEMPTS: u32 = 3;

/// Seconds to wait after a non-success response, and the rate-limit wait when
/// the response names none.
pub const DEFAULT_BACKOFF_SECS: u64 = 10;

/// Where a worker stands between two channel operations.
#[derive(Debug, PartialEq)]
pub enum WorkerPhase {
    /// Between records: the worker owes the dispatcher a readiness token.
    Idle,
    /// The token is out; the next inbound message decides what happens.
    AwaitingAssignment,
    /// One record is being enriched; `attempt` failed attempts so far.
    Calling { record: AnimeMetadata, attempt: u32 },
    /// A terminate marker arrived; the worker performs no further sends.
    Stopped,
}

/// What a worker can find on its private inbound channel.
#[derive(Debug, PartialEq)]
pub enum InboundMessage {
    Record(AnimeMetadata),
    Terminate,
}

/// The worker-visible classification of one enrichment service call.
#[derive(Debug, PartialEq)]
pub enum ServiceEvent {
    /// HTTP 429; the seconds from the retry-after header, if one was present
    /// and parseable.
    RateLimited { retry_after_secs: Option<u64> },
    /// Any other non-success status or connection error.
    Failed,
    /// Success, and the body held a well-formed generated summary.
    Parsed(AnimeGeneratedSummary),
    /// Success, but the body could not be parsed into the expected shape.
    Unparseable,
}

/// What the driving loop must do after a transition.
#[derive(Debug, PartialEq)]
pub enum WorkerAction {
    /// Send this worker's readiness token to the dispatcher.
    SignalReadiness,
    /// Call the enrichment service for the record now held.
    IssueRequest,
    /// Sleep this many seconds, then call the service again.
    Backoff { secs: u64 },
    /// Forward one enriched result on the shared outbound channel.
    EmitResult(AnimeSummary),
    /// Forward the terminate marker on the shared outbound channel, then stop.
    ForwardTerminate,
    /// Drop the record: it produces no result, and the worker takes the next.
    AbandonRecord,
    /// Sleep this many seconds as after any failure, then drop the record:
    /// the failure that exhausts the budget still incurs its backoff.
    BackoffThenAbandon { secs: u64 },
}

/// The rate-limit wait: the header's seconds, or the default when absent.
pub open spec fn rate_limit_wait(retry_after_secs: Option<u64>) -> u64 {
    match retry_after_secs {
        Some(secs) => secs,
        None => DEFAULT_BACKOFF_SECS,
    }
}

/// A worker in `Idle` emits its readiness token and waits for an assignment.
pub fn begin_cycle(phase: WorkerPhase) -> (r: (WorkerPhase, WorkerAction))
    requires
        phase is Idle,
    ensures
        r.0 is AwaitingAssignment,
        r.1 is SignalReadiness,
{
    (WorkerPhase::AwaitingAssignment, WorkerAction::SignalReadiness)
}

/// A worker that asked for work reacts to the inbound message: a record opens
/// a fresh call cycle with an untouched attempt budget; the terminate marker
/// is forwarded downstream and stops the worker for good.
pub fn accept_assignment(phase: WorkerPhase, msg: InboundMessage) -> (r: (
    WorkerPhase,
    WorkerAction,
))
    requires
        phase is AwaitingAssignment,
    ensures
        msg is Terminate ==> r.0 is Stopped && r.1 is ForwardTerminate,
        msg matches InboundMessage::Record(m) ==> {
            &&& r.0 matches WorkerPhase::Calling { record, attempt } && record == m && attempt
                == 0
            &&& r.1 is IssueRequest
        },
{
    match msg {
        InboundMessage::Record(m) => (
            WorkerPhase::Calling { record: m, attempt: 0 },
            WorkerAction::IssueRequest,
        ),
        InboundMessage::Terminate => (WorkerPhase::Stopped, WorkerAction::ForwardTerminate),
    }
}

/// The heart of the retry protocol. A rate limit costs only a wait, never
/// budget; any other failure costs one attempt, and the third abandons the
/// record; an unparseable success abandons at once; a parsed success emits
/// exactly one result carrying the record's id.
pub fn handle_service_event(phase: WorkerPhase, event: ServiceEvent) -> (r: (
    WorkerPhase,
    WorkerAction,
))
    requires
        phase matches WorkerPhase::Calling { record, attempt } && attempt < MAX_ATTEMPTS,
    ensures
        ({
            let record = phase->record;
            let attempt = phase->attempt;
            &&& (event matches ServiceEvent::RateLimited { retry_after_secs } ==> {
                &&& r.0 matches WorkerPhase::Calling { record: r2, attempt: a2 } && r2 == record
                    && a2 == attempt
                &&& r.1 matches WorkerAction::Backoff { secs } && secs == rate_limit_wait(
                    retry_after_secs,
                )
            })
            &&& (event is Failed && attempt + 1 < MAX_ATTEMPTS ==> {
                &&& r.0 matches WorkerPhase::Calling { record: r2, attempt: a2 } && r2 == record
                    && a2 == attempt + 1
                &&& r.1 matches WorkerAction::Backoff { secs } && secs == DEFAULT_BACKOFF_SECS
            })
            &&& (event is Failed && attempt + 1 == MAX_ATTEMPTS ==> {
                &&& r.0 is Idle
                &&& r.1 matches WorkerAction::BackoffThenAbandon { secs } && secs
                    == DEFAULT_BACKOFF_SECS
            })
            &&& (event is Unparseable ==> r.0 is Idle && r.1 is AbandonRecord)
            &&& (event matches ServiceEvent::Parsed(g) ==> {
                &&& r.0 is Idle
                &&& r.1 matches WorkerAction::EmitResult(s) && s.id == record.id
                    && s.generated_summary == g
            })
        }),
{
    match phase {
        WorkerPhase::Calling { record, attempt } => match event {
            ServiceEvent::RateLimited { retry_after_secs } => {
                let secs: u64 = match retry_after_secs {
                    Some(secs) => secs,
                    None => DEFAULT_BACKOFF_SECS,
                };
                (WorkerPhase::Calling { record, attempt }, WorkerAction::Backoff { secs })
            },
            ServiceEvent::Failed => {
                if attempt + 1 == MAX_ATTEMPTS {
                    (
                        WorkerPhase::Idle,
                        WorkerAction::BackoffThenAbandon { secs: DEFAULT_BACKOFF_SECS },
                    )
                } else {
                    (
                        WorkerPhase::Calling { record, attempt: attempt + 1 },
                        WorkerAction::Backoff { secs: DEFAULT_BACKOFF_SECS },
                    )
                }
            },
            ServiceEvent::Parsed(g) => {
                let id: i32 = record.id;
                (
                    WorkerPhase::Idle,
                    WorkerAction::EmitResult(AnimeSummary { id, generated_summary: g }),
                )
            },
            ServiceEvent::Unparseable => (WorkerPhase::Idle, WorkerAction::AbandonRecord),
        },
        _ => (WorkerPhase::Stopped, WorkerAction::AbandonRecord),
    }
}

/// How one record's enrichment ends.
#[derive(Debug, PartialEq)]
pub enum RecordOutcome {
    /// The service answered and the answer parsed: one result to forward.
    Completed(AnimeSummary),
    /// The budget ran out or the answer did not parse: no result, ever.
    Abandoned,
    /// The worker is still waiting on the service (it never abandons a record
    /// for being rate-limited alone).
    Stalled,
}

/// What a service-event script settles on, independent of which record it
/// answers for.
pub enum ScriptVerdict {
    /// The first parsed success completes the record with this summary.
    Completed(AnimeGeneratedSummary),
    /// The budget ran out or a success did not parse.
    Abandoned,
    /// The script ran out while the worker was still waiting.
    Stalled,
}

/// The verdict a service-event script settles on, starting from `attempt`
/// failed attempts: the first parsed success completes, an unparseable
/// success abandons, rate limits only postpone, and the failure that exhausts
/// the budget abandons. A script that runs out first leaves the worker
/// waiting.
pub open spec fn script_outcome(script: Seq<ServiceEvent>, attempt: nat) -> ScriptVerdict
    decreases script.len(),
{
    if script.len() == 0 {
        ScriptVerdict::Stalled
    } else {
        match script[0] {
            ServiceEvent::Parsed(g) => ScriptVerdict::Completed(g),
            ServiceEvent::Unparseable => ScriptVerdict::Abandoned,
            ServiceEvent::RateLimited { .. } => script_outcome(script.drop_first(), attempt),
            ServiceEvent::Failed => {
                if attempt + 1 >= MAX_ATTEMPTS {
                    ScriptVerdict::Abandoned
                } else {
                    script_outcome(script.drop_first(), attempt + 1)
                }
            },
        }
    }
}

/// How many service calls the script costs before it settles (all of them,
/// when it never settles).
pub open spec fn script_calls(script: Seq<ServiceEvent>, attempt: nat) -> nat
    decreases script.len(),
{
    if script.len() == 0 {
        0
    } else {
        match script[0] {
            ServiceEvent::Parsed(_) => 1,
            ServiceEvent::Unparseable => 1,
            ServiceEvent::RateLimited { .. } => 1 + script_calls(script.drop_first(), attempt),
            ServiceEvent::Failed => {
                if attempt + 1 >= MAX_ATTEMPTS {
                    1
                } else {
                    1 + script_calls(script.drop_first(), attempt + 1)
                }
            },
        }
    }
}

/// How many of the consumed events count against the retry budget.
pub open spec fn script_failures(script: Seq<ServiceEvent>, attempt: nat) -> nat
    decreases script.len(),
{
    if script.len() == 0 {
        0
    } else {
        match script[0] {
            ServiceEvent::Parsed(_) => 0,
            ServiceEvent::Unparseable => 0,
            ServiceEvent::RateLimited { .. } => script_failures(script.drop_first(), attempt),
            ServiceEvent::Failed => {
                if attempt + 1 >= MAX_ATTEMPTS {
                    1
                } else {
                    1 + script_failures(script.drop_first(), attempt + 1)
                }
            },
        }
    }
}

/// Same variant and same content, up to views.
pub open spec fn event_matches(a: ServiceEvent, b: ServiceEvent) -> bool {
    match (a, b) {
        (
            ServiceEvent::RateLimited { retry_after_secs: x },
            ServiceEvent::RateLimited { retry_after_secs: y },
        ) => x == y,
        (ServiceEvent::Failed, ServiceEvent::Failed) => true,
        (ServiceEvent::Parsed(g1), ServiceEvent::Parsed(g2)) => g1@ == g2@,
        (ServiceEvent::Unparseable, ServiceEvent::Unparseable) => true,
        _ => false,
    }
}

/// Clones a service event, keeping its content.
pub fn clone_service_event(e: &ServiceEvent) -> (r: ServiceEvent)
    ensures
        event_matches(r, *e),
{
    match e {
        ServiceEvent::RateLimited { retry_after_secs } => ServiceEvent::RateLimited {
            retry_after_secs: *retry_after_secs,
        },
        ServiceEvent::Failed => ServiceEvent::Failed,
        ServiceEvent::Parsed(g) => ServiceEvent::Parsed(clone_generated_summary(g)),
        ServiceEvent::Unparseable => ServiceEvent::Unparseable,
    }
}

/// Drives one record through the retry state machine against a script of
/// service events (the injected transport), and reports how the record ended
/// together with how many service calls it took. The result is exactly what
/// `script_outcome` settles on, with the emitted result carrying the record's
/// id and the parsed summary.
pub fn process_record(record: AnimeMetadata, script: &Vec<ServiceEvent>) -> (r: (
    RecordOutcome,
    usize,
))
    ensures
        r.1 == script_calls(script@, 0),
        script_outcome(script@, 0) matches ScriptVerdict::Completed(g) ==> r.0 matches
            RecordOutcome::Completed(s) && s.id == record.id && s.generated_summary@ == g@,
        script_outcome(script@, 0) is Abandoned ==> r.0 is Abandoned,
        script_outcome(script@, 0) is Stalled ==> r.0 is Stalled,
{
    let mut phase = WorkerPhase::Calling { record, attempt: 0 };
    let mut i: usize = 0;
    proof {
        assert(script@.skip(0) =~= script@);
    }
    loop
        invariant_except_break
            i <= script@.len(),
            phase matches WorkerPhase::Calling { record: r2, attempt: a } && r2 == record && a
                < MAX_ATTEMPTS && script_outcome(script@.skip(i as int), a as nat)
                == script_outcome(script@, 0) && i + script_calls(
                script@.skip(i as int),
                a as nat,
            ) == script_calls(script@, 0),
        ensures
            script_outcome(script@, 0) is Stalled,
            i == script_calls(script@, 0),
        decreases script@.len() - i,
    {
        proof {
            assert(script@.skip(i as int).len() == script@.len() - i);
        }
        if i == script.len() {
            break ;
        }
        let event = clone_service_event(&script[i]);
        proof {
            assert(script@.skip(i as int)[0] == script@[i as int]);
            assert(script@.skip(i as int).drop_first() =~= script@.skip(i + 1 as int));
        }
        let stepped = handle_service_event(phase, event);
        phase = stepped.0;
        let action = stepped.1;
        i = i + 1;
        match action {
            WorkerAction::EmitResult(s) => {
                return (RecordOutcome::Completed(s), i);
            },
            WorkerAction::AbandonRecord => {
                return (RecordOutcome::Abandoned, i);
            },
            WorkerAction::BackoffThenAbandon { .. } => {
                return (RecordOutcome::Abandoned, i);
            },
            _ => {},
        }
    }
    (RecordOutcome::Stalled, i)
}

/// Law: a worker that is only ever rate-limited never abandons or completes
/// its record and never spends any of its retry budget, however long the rate
/// limiting lasts — every such call is consumed as a wait.
pub proof fn lemma_rate_limited_never_abandons(script: Seq<ServiceEvent>, attempt: nat)
    requires
        forall|k: int|
            0 <= k < script.len() ==> (#[trigger] script[k]) matches
                ServiceEvent::RateLimited { .. },
    ensures
        script_outcome(script, attempt) is Stalled,
        script_failures(script, attempt) == 0,
        script_calls(script, attempt) == script.len(),
    decreases script.len(),
{
    if script.len() > 0 {
        assert(script[0] matches ServiceEvent::RateLimited { .. });
        assert(forall|k: int|
            0 <= k < script.drop_first().len() ==> (#[trigger] script.drop_first()[k]) matches
                ServiceEvent::RateLimited { .. });
        lemma_rate_limited_never_abandons(script.drop_first(), attempt);
    }
}

/// Law: a service that keeps failing costs the record exactly the remaining
/// retry budget — the worker abandons it after the budget's last attempt and
/// emits nothing for it.
pub proof fn lemma_failures_exhaust_budget(script: Seq<ServiceEvent>, attempt: nat)
    requires
        attempt < MAX_ATTEMPTS,
        script.len() + attempt >= MAX_ATTEMPTS,
        forall|k: int| 0 <= k < script.len() ==> (#[trigger] script[k]) is Failed,
    ensures
        script_outcome(script, attempt) is Abandoned,
        script_calls(script, attempt) == MAX_ATTEMPTS - attempt,
        script_failures(script, attempt) == MAX_ATTEMPTS - attempt,
    decreases script.len(),
{
    assert(script[0] is Failed);
    if attempt + 1 < MAX_ATTEMPTS {
        assert(forall|k: int|
            0 <= k < script.drop_first().len() ==> (#[trigger] script.drop_first()[k]) is Failed);
        lemma_failures_exhaust_budget(script.drop_first(), attempt + 1);
    }
}

/// Law: a success whose body does not parse abandons the record after that
/// one call — a parse failure is never retried and never costs budget.
pub proof fn lemma_parse_failure_not_retried(script: Seq<ServiceEvent>, attempt: nat)
    requires
        script.len() > 0,
        script[0] is Unparseable,
    ensures
        script_outcome(script, attempt) is Abandoned,
        script_calls(script, attempt) == 1,
        script_failures(script, attempt) == 0,
{
}

/// Law: a parsed success settles the record at once, with exactly that
/// summary and exactly one call.
pub proof fn lemma_parsed_success_completes(script: Seq<ServiceEvent>, attempt: nat)
    requires
        script.len() > 0,
        script[0] matches ServiceEvent::Parsed { .. },
    ensures
        script_outcome(script, attempt) matches ScriptVerdict::Completed(g)
            && ServiceEvent::Parsed(g) == script[0],
        script_calls(script, attempt) == 1,
        script_failures(script, attempt) == 0,
{
}

} // verus!
