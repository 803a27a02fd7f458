use lam::pipeline::run_pipeline;
use lam::pipeline::PipelineEvent;
use lam::types::AnimeGeneratedSummary;
use lam::types::AnimeMetadata;
use lam::types::Title;
use lam::worker::ServiceEvent;

fn record(id: i32) -> AnimeMetadata {
    AnimeMetadata {
        id,
        title: Title { romaji: None, english: Some(format!("title {}", id)) },
        season: None,
        season_year: 2021,
        description: Some(String::from("something to enrich")),
        popularity: None,
        mean_score: None,
        genres: Some(vec![String::from("Drama")]),
    }
}

fn generated(text: &str) -> AnimeGeneratedSummary {
    AnimeGeneratedSummary {
        summary: String::from(text),
        generated_genres: vec![String::from("Drama")],
        generated_themes: vec![String::from("Growth")],
    }
}

fn success(text: &str) -> Vec<ServiceEvent> {
    vec![ServiceEvent::Parsed(generated(text))]
}

#[test]
fn drain_completes_only_after_every_worker_terminates() {
    // Ten records over three workers: after the run, the sink has counted a
    // terminate marker from each of the three workers, and only then is done.
    let records: Vec<AnimeMetadata> = (1..=10).map(record).collect();
    let scripts: Vec<Vec<ServiceEvent>> = (1..=10).map(|k| success(&format!("s{}", k))).collect();
    let run = run_pipeline(records, &scripts, 3);
    assert!(run.sink.is_done());
    assert_eq!(run.sink.terminated, 3);
    for w in 0..3usize {
        let markers = run
            .log
            .iter()
            .filter(|e| matches!(e, PipelineEvent::TerminateSent { worker } if *worker == w))
            .count();
        assert_eq!(markers, 1);
    }
    // The sink was not done after the first marker alone: the markers of all
    // three workers stand in the log.
    let all_markers = run
        .log
        .iter()
        .filter(|e| matches!(e, PipelineEvent::TerminateSent { .. }))
        .count();
    assert_eq!(all_markers, 3);
}

#[test]
fn every_record_is_assigned_exactly_once() {
    let records: Vec<AnimeMetadata> = (1..=10).map(record).collect();
    let scripts: Vec<Vec<ServiceEvent>> = (1..=10).map(|k| success(&format!("s{}", k))).collect();
    let run = run_pipeline(records, &scripts, 3);
    let mut assigned: Vec<i32> = Vec::new();
    for e in run.log.iter() {
        if let PipelineEvent::Assign { id, .. } = e {
            assigned.push(*id);
        }
    }
    let expected: Vec<i32> = (1..=10).collect();
    assert_eq!(assigned, expected);
}

#[test]
fn readiness_always_precedes_assignment() {
    let records: Vec<AnimeMetadata> = (1..=10).map(record).collect();
    let scripts: Vec<Vec<ServiceEvent>> = (1..=10).map(|k| success(&format!("s{}", k))).collect();
    let run = run_pipeline(records, &scripts, 3);
    let mut ready = [0usize; 3];
    let mut assigned = [0usize; 3];
    for e in run.log.iter() {
        match e {
            PipelineEvent::Ready { worker } => ready[*worker] += 1,
            PipelineEvent::Assign { worker, .. } => {
                assigned[*worker] += 1;
                // In every prefix the assignments never outrun the readiness
                // signals.
                assert!(assigned[*worker] <= ready[*worker]);
            },
            _ => {},
        }
    }
}

#[test]
fn sink_collects_exactly_the_completed_results() {
    // Two records enriched successfully: the persisted set is exactly the two
    // results, each under its own id, whatever the completion order.
    let records = vec![record(1), record(2)];
    let scripts = vec![success("first summary"), success("second summary")];
    let run = run_pipeline(records, &scripts, 2);
    assert!(run.sink.is_done());
    let mut seen: Vec<(i32, String)> = run
        .sink
        .collected
        .iter()
        .map(|s| (s.id, s.generated_summary.summary.clone()))
        .collect();
    seen.sort();
    assert_eq!(
        seen,
        vec![(1, String::from("first summary")), (2, String::from("second summary"))]
    );
}

#[test]
fn abandoned_records_leave_no_result() {
    // The middle record's service keeps failing; only its neighbours are
    // persisted, and the failing record appears as abandoned in the log.
    let records = vec![record(1), record(2), record(3)];
    let scripts = vec![
        success("one"),
        vec![ServiceEvent::Failed, ServiceEvent::Failed, ServiceEvent::Failed],
        success("three"),
    ];
    let run = run_pipeline(records, &scripts, 2);
    let ids: Vec<i32> = run.sink.collected.iter().map(|s| s.id).collect();
    assert_eq!(ids, vec![1, 3]);
    let abandoned = run
        .log
        .iter()
        .any(|e| matches!(e, PipelineEvent::Abandon { id: 2, .. }));
    assert!(abandoned);
}

#[test]
fn single_worker_pool_drains_in_order() {
    let records = vec![record(4), record(5)];
    let scripts = vec![success("a"), success("b")];
    let run = run_pipeline(records, &scripts, 1);
    assert!(run.sink.is_done());
    assert_eq!(run.sink.terminated, 1);
    let ids: Vec<i32> = run.sink.collected.iter().map(|s| s.id).collect();
    assert_eq!(ids, vec![4, 5]);
}
