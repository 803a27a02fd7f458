use lam::types::AnimeGeneratedSummary;
use lam::types::AnimeMetadata;
use lam::types::Title;
use lam::worker::begin_cycle;
use lam::worker::accept_assignment;
use lam::worker::handle_service_event;
use lam::worker::process_record;
use lam::worker::InboundMessage;
use lam::worker::RecordOutcome;
use lam::worker::ServiceEvent;
use lam::worker::WorkerAction;
use lam::worker::WorkerPhase;

fn record(id: i32) -> AnimeMetadata {
    AnimeMetadata {
        id,
        title: Title { romaji: Some(String::from("romaji name")), english: None },
        season: Some(String::from("WINTER")),
        season_year: 2020,
        description: Some(String::from("a description")),
        popularity: Some(10),
        mean_score: Some(70),
        genres: Some(vec![String::from("Action")]),
    }
}

fn generated(text: &str) -> AnimeGeneratedSummary {
    AnimeGeneratedSummary {
        summary: String::from(text),
        generated_genres: vec![String::from("Action")],
        generated_themes: vec![String::from("Friendship")],
    }
}

#[test]
fn idle_worker_signals_readiness() {
    let (phase, action) = begin_cycle(WorkerPhase::Idle);
    assert_eq!(phase, WorkerPhase::AwaitingAssignment);
    assert_eq!(action, WorkerAction::SignalReadiness);
}

#[test]
fn assignment_opens_call_cycle_with_zero_attempts() {
    let (phase, action) = accept_assignment(
        WorkerPhase::AwaitingAssignment,
        InboundMessage::Record(record(7)),
    );
    assert!(matches!(phase, WorkerPhase::Calling { attempt: 0, .. }));
    assert_eq!(action, WorkerAction::IssueRequest);
}

#[test]
fn terminate_stops_worker_and_forwards_marker() {
    let (phase, action) = accept_assignment(
        WorkerPhase::AwaitingAssignment,
        InboundMessage::Terminate,
    );
    assert_eq!(phase, WorkerPhase::Stopped);
    assert_eq!(action, WorkerAction::ForwardTerminate);
}

#[test]
fn rate_limit_keeps_attempt_and_waits_header_seconds() {
    let phase = WorkerPhase::Calling { record: record(1), attempt: 2 };
    let (next, action) = handle_service_event(
        phase,
        ServiceEvent::RateLimited { retry_after_secs: Some(1) },
    );
    assert!(matches!(next, WorkerPhase::Calling { attempt: 2, .. }));
    assert_eq!(action, WorkerAction::Backoff { secs: 1 });
}

#[test]
fn rate_limit_without_header_waits_default_ten_seconds() {
    let phase = WorkerPhase::Calling { record: record(1), attempt: 0 };
    let (next, action) = handle_service_event(
        phase,
        ServiceEvent::RateLimited { retry_after_secs: None },
    );
    assert!(matches!(next, WorkerPhase::Calling { attempt: 0, .. }));
    assert_eq!(action, WorkerAction::Backoff { secs: 10 });
}

#[test]
fn failure_costs_one_attempt_and_waits_ten_seconds() {
    let phase = WorkerPhase::Calling { record: record(1), attempt: 0 };
    let (next, action) = handle_service_event(phase, ServiceEvent::Failed);
    assert!(matches!(next, WorkerPhase::Calling { attempt: 1, .. }));
    assert_eq!(action, WorkerAction::Backoff { secs: 10 });
}

#[test]
fn third_failure_abandons_record_after_its_backoff() {
    let phase = WorkerPhase::Calling { record: record(1), attempt: 2 };
    let (next, action) = handle_service_event(phase, ServiceEvent::Failed);
    assert_eq!(next, WorkerPhase::Idle);
    assert_eq!(action, WorkerAction::BackoffThenAbandon { secs: 10 });
}

#[test]
fn parsed_success_emits_result_with_record_id() {
    let phase = WorkerPhase::Calling { record: record(42), attempt: 1 };
    let (next, action) = handle_service_event(phase, ServiceEvent::Parsed(generated("two sentences")));
    assert_eq!(next, WorkerPhase::Idle);
    match action {
        WorkerAction::EmitResult(s) => {
            assert_eq!(s.id, 42);
            assert_eq!(s.generated_summary.summary, "two sentences");
        },
        other => panic!("expected a result, got {:?}", other),
    }
}

#[test]
fn unparseable_success_abandons_without_retry() {
    let phase = WorkerPhase::Calling { record: record(1), attempt: 0 };
    let (next, action) = handle_service_event(phase, ServiceEvent::Unparseable);
    assert_eq!(next, WorkerPhase::Idle);
    assert_eq!(action, WorkerAction::AbandonRecord);
}

#[test]
fn endless_rate_limits_never_abandon_or_spend_budget() {
    // A service that always answers 429 with retry-after: 1 — the worker
    // keeps retrying and never abandons, however many answers come.
    let script: Vec<ServiceEvent> = (0..50)
        .map(|_| ServiceEvent::RateLimited { retry_after_secs: Some(1) })
        .collect();
    let (outcome, calls) = process_record(record(5), &script);
    assert_eq!(outcome, RecordOutcome::Stalled);
    assert_eq!(calls, 50);
}

#[test]
fn persistent_failures_abandon_after_exactly_three_attempts() {
    let script = vec![
        ServiceEvent::Failed,
        ServiceEvent::Failed,
        ServiceEvent::Failed,
        ServiceEvent::Failed,
        ServiceEvent::Failed,
    ];
    let (outcome, calls) = process_record(record(5), &script);
    assert_eq!(outcome, RecordOutcome::Abandoned);
    assert_eq!(calls, 3);
}

#[test]
fn rate_limits_do_not_count_against_the_budget() {
    // Two failures, a long run of rate limits, then a third failure: only the
    // failures spend budget, so the record is abandoned on the fifth call.
    let script = vec![
        ServiceEvent::Failed,
        ServiceEvent::Failed,
        ServiceEvent::RateLimited { retry_after_secs: Some(1) },
        ServiceEvent::RateLimited { retry_after_secs: None },
        ServiceEvent::Failed,
    ];
    let (outcome, calls) = process_record(record(5), &script);
    assert_eq!(outcome, RecordOutcome::Abandoned);
    assert_eq!(calls, 5);
}

#[test]
fn malformed_body_abandons_after_exactly_one_attempt() {
    let script = vec![ServiceEvent::Unparseable, ServiceEvent::Failed, ServiceEvent::Failed];
    let (outcome, calls) = process_record(record(5), &script);
    assert_eq!(outcome, RecordOutcome::Abandoned);
    assert_eq!(calls, 1);
}

#[test]
fn success_after_retries_completes_with_summary() {
    let script = vec![
        ServiceEvent::RateLimited { retry_after_secs: Some(2) },
        ServiceEvent::Failed,
        ServiceEvent::Parsed(generated("made it")),
    ];
    let (outcome, calls) = process_record(record(9), &script);
    assert_eq!(calls, 3);
    match outcome {
        RecordOutcome::Completed(s) => {
            assert_eq!(s.id, 9);
            assert_eq!(s.generated_summary.summary, "made it");
        },
        other => panic!("expected completion, got {:?}", other),
    }
}
