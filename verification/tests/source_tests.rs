use lam::source::clone_metadata_batch;
use lam::source::filter_eligible;
use lam::source::is_eligible;
use lam::source::plan_years;
use lam::source::row_to_metadata;
use lam::source::rows_to_metadata;
use lam::source::MetadataSource;
use lam::source::SourceYield;
use lam::types::AnimeMetadata;
use lam::types::AnimeMetadataRow;
use lam::types::Title;

fn row(id: i32, genres: Option<&str>) -> AnimeMetadataRow {
    AnimeMetadataRow {
        id,
        english_title: Some(format!("e{}", id)),
        romaji_title: Some(format!("r{}", id)),
        season: Some(String::from("FALL")),
        season_year: 2010,
        description: Some(String::from("described")),
        popularity: Some(5),
        mean_score: Some(60),
        genres: genres.map(String::from),
    }
}

fn record(id: i32, description: Option<&str>, genres: Option<Vec<&str>>) -> AnimeMetadata {
    AnimeMetadata {
        id,
        title: Title { romaji: None, english: Some(format!("t{}", id)) },
        season: None,
        season_year: 2010,
        description: description.map(String::from),
        popularity: None,
        mean_score: None,
        genres: genres.map(|gs| gs.into_iter().map(String::from).collect()),
    }
}

#[test]
fn row_decodes_with_genres_split() {
    let m = row_to_metadata(row(3, Some("Action,Sci-Fi")));
    assert_eq!(m.id, 3);
    assert_eq!(m.title.english.as_deref(), Some("e3"));
    assert_eq!(m.title.romaji.as_deref(), Some("r3"));
    assert_eq!(m.genres, Some(vec![String::from("Action"), String::from("Sci-Fi")]));
}

#[test]
fn row_without_genres_decodes_to_none() {
    let m = row_to_metadata(row(4, None));
    assert_eq!(m.genres, None);
}

#[test]
fn rows_decode_in_order() {
    let rows = vec![row(1, Some("A")), row(2, Some("B,C"))];
    let ms = rows_to_metadata(rows);
    assert_eq!(ms.len(), 2);
    assert_eq!(ms[0].id, 1);
    assert_eq!(ms[1].id, 2);
    assert_eq!(ms[1].genres, Some(vec![String::from("B"), String::from("C")]));
}

#[test]
fn eligibility_requires_a_nonempty_description() {
    let done: Vec<i32> = vec![];
    assert!(is_eligible(&record(1, Some("words"), None), &done));
    assert!(!is_eligible(&record(1, Some(""), None), &done));
    assert!(!is_eligible(&record(1, None, None), &done));
}

#[test]
fn eligibility_excludes_the_category_token() {
    let done: Vec<i32> = vec![];
    assert!(!is_eligible(&record(1, Some("words"), Some(vec!["Action", "Hentai"])), &done));
    assert!(is_eligible(&record(1, Some("words"), Some(vec!["Action", "Drama"])), &done));
}

#[test]
fn eligibility_excludes_already_enriched_ids() {
    let done: Vec<i32> = vec![7, 9];
    assert!(!is_eligible(&record(7, Some("words"), None), &done));
    assert!(is_eligible(&record(8, Some("words"), None), &done));
}

#[test]
fn filter_keeps_only_eligible_records_in_order() {
    let done: Vec<i32> = vec![3];
    let batch = vec![
        record(1, Some("ok"), None),
        record(2, None, None),
        record(3, Some("ok"), None),
        record(4, Some("ok"), Some(vec!["hen"])),
        record(5, Some("ok"), Some(vec!["Drama"])),
    ];
    let kept = filter_eligible(batch, &done);
    let ids: Vec<i32> = kept.iter().map(|m| m.id).collect();
    assert_eq!(ids, vec![1, 5]);
}

#[test]
fn years_are_planned_ascending_and_inclusive() {
    assert_eq!(plan_years(2000, 2003), vec![2000, 2001, 2002, 2003]);
    assert_eq!(plan_years(1999, 1999), vec![1999]);
}

#[test]
fn source_skips_empty_partitions() {
    let batches = vec![
        vec![],
        vec![record(1, Some("ok"), None)],
        vec![],
        vec![record(2, Some("ok"), None)],
    ];
    let mut source = MetadataSource::new(batches);
    match source.next_batch() {
        SourceYield::Batch(b) => assert_eq!(b[0].id, 1),
        SourceYield::End => panic!("expected a batch"),
    }
    match source.next_batch() {
        SourceYield::Batch(b) => assert_eq!(b[0].id, 2),
        SourceYield::End => panic!("expected a batch"),
    }
    assert_eq!(source.next_batch(), SourceYield::End);
}

#[test]
fn source_never_emits_after_end() {
    let mut source = MetadataSource::new(vec![vec![]]);
    assert_eq!(source.next_batch(), SourceYield::End);
    assert_eq!(source.next_batch(), SourceYield::End);
    assert_eq!(source.next_batch(), SourceYield::End);
}

#[test]
fn batch_clone_keeps_contents() {
    let batch = vec![record(1, Some("ok"), Some(vec!["A"])), record(2, Some("ok"), None)];
    let copy = clone_metadata_batch(&batch);
    assert_eq!(copy, batch);
}
