//! The metadata source: rows come off the store partition by partition
//! (ascending year, so reruns are deterministic), are decoded into records,
//! and pass the exclusion filters — a record the pipeline cannot meaningfully
//! enrich (no description, already enriched, excluded category token in a
//! genre) never enters it. The source signals the end of the partition space
//! exactly once and never yields a batch after it.

use vstd::prelude::*;

use crate::text::contains_excluded_token;
use crate::text::has_excluded_token;
use crate::text::split_commas;
use crate::text::split_commas_spec;
use crate::types::AnimeMetadata;
use crate::types::AnimeMetadataRow;
use crate::types::AnimeMetadataRowView;
use crate::types::AnimeMetadataView;
use crate::types::TitleView;
use crate::types::Title;

verus! {

/// How a store row decodes into a record: the two titles fold into one name
/// pair, and the comma-joined genres column splits into the genre list.
pub open spec fn metadata_of_row(row: AnimeMetadataRowView) -> AnimeMetadataView {
    AnimeMetadataView {
        id: row.id,
        title: TitleView { romaji: row.romaji_title, english: row.english_title },
        season: row.season,
        season_year: row.season_year,
        description: row.description,
        popularity: row.popularity,
        mean_score: row.mean_score,
        genres: match row.genres {
            Some(g) => Some(split_commas_spec(g)),
            None => None,
        },
    }
}

/// Decodes one store row into a record.
pub fn row_to_metadata(row: AnimeMetadataRow) -> (r: AnimeMetadata)
    ensures
        r@ == metadata_of_row(row@),
{
    let genres: Option<Vec<String>> = match row.genres {
        Some(g) => Some(split_commas(g.as_str())),
        None => None,
    };
    let r = AnimeMetadata {
        id: row.id,
        title: Title { romaji: row.romaji_title, english: row.english_title },
        season: row.season,
        season_year: row.season_year,
        description: row.description,
        popularity: row.popularity,
        mean_score: row.mean_score,
        genres,
    };
    proof {
        assert(r@ =~~= metadata_of_row(row@));
    }
    r
}

/// Decodes a partition's rows, keeping their order.
pub fn rows_to_metadata(rows: Vec<AnimeMetadataRow>) -> (r: Vec<AnimeMetadata>)
    ensures
        r@.len() == rows@.len(),
        forall|j: int| 0 <= j < rows@.len() ==> (#[trigger] r@[j])@ == metadata_of_row(rows@[j]@),
{
    let ghost original = rows@;
    let mut rows = rows;
    let mut out: Vec<AnimeMetadata> = Vec::new();
    proof {
        assert(original.skip(0) =~= original);
    }
    while rows.len() > 0
        invariant
            out@.len() + rows@.len() == original.len(),
            rows@ == original.skip(out@.len() as int),
            forall|j: int|
                0 <= j < out@.len() ==> (#[trigger] out@[j])@ == metadata_of_row(original[j]@),
        decreases rows@.len(),
    {
        let ghost k = out@.len() as int;
        let row = rows.remove(0);
        proof {
            assert(row == original.skip(k)[0]);
            assert(row == original[k]);
            assert(original.skip(k).remove(0) =~= original.skip(k + 1));
        }
        let m = row_to_metadata(row);
        out.push(m);
    }
    out
}

/// The source's exclusion filter: a record enters the pipeline only when it
/// has a non-empty description, none of its genres holds the excluded
/// category token, and it is not among the already-enriched ids.
pub open spec fn eligible_spec(m: AnimeMetadata, done_ids: Seq<i32>) -> bool {
    &&& m.description matches Some(d) && d@.len() > 0
    &&& (m.genres matches Some(gs) ==> forall|j: int|
        0 <= j < gs@.len() ==> !contains_excluded_token((#[trigger] gs@[j])@))
    &&& !done_ids.contains(m.id)
}

/// Tests one record against the exclusion filter.
#[verifier::loop_isolation(false)]
pub fn is_eligible(m: &AnimeMetadata, done_ids: &Vec<i32>) -> (r: bool)
    ensures
        r == eligible_spec(*m, done_ids@),
{
    let described = match &m.description {
        Some(d) => !d.as_str().is_empty(),
        None => false,
    };
    if !described {
        return false;
    }
    match &m.genres {
        Some(gs) => {
            let mut j: usize = 0;
            while j < gs.len()
                invariant
                    j <= gs@.len(),
                    forall|i: int|
                        0 <= i < j ==> !contains_excluded_token((#[trigger] gs@[i])@),
                decreases gs@.len() - j,
            {
                if has_excluded_token(gs[j].as_str()) {
                    return false;
                }
                j = j + 1;
            }
        },
        None => {},
    }
    let mut i: usize = 0;
    while i < done_ids.len()
        invariant
            i <= done_ids@.len(),
            forall|j: int| 0 <= j < i ==> done_ids@[j] != m.id,
        decreases done_ids@.len() - i,
    {
        if done_ids[i] == m.id {
            assert(done_ids@.contains(m.id));
            return false;
        }
        i = i + 1;
    }
    assert(!done_ids@.contains(m.id));
    true
}

/// The records of a batch that pass the exclusion filter, in order.
pub open spec fn eligible_of(batch: Seq<AnimeMetadata>, done_ids: Seq<i32>) -> Seq<AnimeMetadata>
    decreases batch.len(),
{
    if batch.len() == 0 {
        Seq::empty()
    } else {
        let prefix = eligible_of(batch.drop_last(), done_ids);
        if eligible_spec(batch.last(), done_ids) {
            prefix.push(batch.last())
        } else {
            prefix
        }
    }
}

/// Applies the exclusion filter to a batch, keeping the order.
#[verifier::loop_isolation(false)]
pub fn filter_eligible(batch: Vec<AnimeMetadata>, done_ids: &Vec<i32>) -> (r: Vec<AnimeMetadata>)
    ensures
        r@ == eligible_of(batch@, done_ids@),
{
    let ghost original = batch@;
    let mut batch = batch;
    let total: usize = batch.len();
    let mut out: Vec<AnimeMetadata> = Vec::new();
    proof {
        assert(original.take(0) =~= Seq::<AnimeMetadata>::empty());
        assert(out@ =~= eligible_of(original.take(0), done_ids@));
    }
    let mut k: usize = 0;
    while batch.len() > 0
        invariant
            total == original.len(),
            k + batch@.len() == original.len(),
            batch@ == original.skip(k as int),
            out@ == eligible_of(original.take(k as int), done_ids@),
        decreases batch@.len(),
    {
        let m = batch.remove(0);
        proof {
            assert(m == original.skip(k as int)[0]);
            assert(m == original[k as int]);
            assert(original.skip(k as int).remove(0) =~= original.skip(k as int + 1));
            assert(original.take(k as int + 1).drop_last() =~= original.take(k as int));
            assert(original.take(k as int + 1).last() == original[k as int]);
        }
        if is_eligible(&m, done_ids) {
            out.push(m);
        }
        k = k + 1;
    }
    proof {
        assert(original.take(original.len() as int) =~= original);
    }
    out
}

/// The ascending partition keys of the range, one per year: the deterministic
/// traversal order of the partition space.
pub fn plan_years(min_year: i32, max_year: i32) -> (r: Vec<i32>)
    requires
        min_year <= max_year,
        max_year - min_year < usize::MAX,
    ensures
        r@.len() == max_year - min_year + 1,
        forall|j: int| 0 <= j < r@.len() ==> r@[j] == min_year + j,
{
    let mut out: Vec<i32> = Vec::new();
    let mut y: i32 = min_year;
    loop
        invariant
            min_year <= y <= max_year + 1,
            y <= i32::MAX || y == max_year + 1,
            out@.len() == y - min_year,
            forall|j: int| 0 <= j < out@.len() ==> out@[j] == min_year + j,
        ensures
            y == max_year + 1,
            out@.len() == max_year - min_year + 1,
            forall|j: int| 0 <= j < out@.len() ==> out@[j] == min_year + j,
        decreases max_year + 1 - y,
    {
        if y > max_year {
            break ;
        }
        out.push(y);
        if y == max_year {
            proof {
                assert(out@.len() == max_year - min_year + 1);
            }
            return out;
        }
        y = y + 1;
    }
    out
}

/// What one pull from the source yields.
#[derive(Debug, PartialEq)]
pub enum SourceYield {
    /// The next non-empty batch of eligible records.
    Batch(Vec<AnimeMetadata>),
    /// The partition space is exhausted; nothing follows, ever.
    End,
}

/// The index of the first non-empty batch at or after `i`.
pub open spec fn first_nonempty(batches: Seq<Vec<AnimeMetadata>>, i: int) -> int
    recommends
        0 <= i <= batches.len(),
    decreases batches.len() - i,
{
    if i < 0 || i >= batches.len() {
        batches.len() as int
    } else if batches[i]@.len() > 0 {
        i
    } else {
        first_nonempty(batches, i + 1)
    }
}

/// The source over a fixed partition space: batches stand in ascending
/// partition-key order, and `served` marks how far the traversal has come.
pub struct MetadataSource {
    pub batches: Vec<Vec<AnimeMetadata>>,
    pub served: usize,
    pub ended: bool,
}

impl MetadataSource {
    pub open spec fn wf(self) -> bool {
        self.served <= self.batches.len()
    }

    pub fn new(batches: Vec<Vec<AnimeMetadata>>) -> (s: MetadataSource)
        ensures
            s.batches == batches,
            s.served == 0,
            !s.ended,
            s.wf(),
    {
        MetadataSource { batches, served: 0, ended: false }
    }

    /// Pulls the next batch: an empty partition is skipped, not an error; the
    /// first pull past the last non-empty partition yields the end marker;
    /// and once the end is signalled, every later pull yields it again — the
    /// source never emits a batch after its end.
    #[verifier::loop_isolation(false)]
    pub fn next_batch(&mut self) -> (r: SourceYield)
        requires
            old(self).wf(),
        ensures
            final(self).wf(),
            final(self).batches == old(self).batches,
            old(self).ended ==> r is End && final(self).ended,
            !old(self).ended ==> {
                let fi = first_nonempty(old(self).batches@, old(self).served as int);
                &&& (fi == old(self).batches@.len() ==> r is End && final(self).ended)
                &&& (fi < old(self).batches@.len() ==> {
                    &&& r matches SourceYield::Batch(b) && batch_views(b@) == batch_views(
                        old(self).batches@[fi]@,
                    )
                    &&& !final(self).ended
                    &&& final(self).served == fi + 1
                })
            },
    {
        if self.ended {
            return SourceYield::End;
        }
        while self.served < self.batches.len()
            invariant
                self.wf(),
                !self.ended,
                first_nonempty(self.batches@, self.served as int) == first_nonempty(
                    old(self).batches@,
                    old(self).served as int,
                ),
                self.batches == old(self).batches,
            decreases self.batches@.len() - self.served,
        {
            if self.batches[self.served].len() > 0 {
                let b = clone_metadata_batch(&self.batches[self.served]);
                proof {
                    assert(first_nonempty(self.batches@, self.served as int)
                        == self.served as int);
                }
                self.served = self.served + 1;
                return SourceYield::Batch(b);
            }
            proof {
                assert(first_nonempty(self.batches@, self.served as int) == first_nonempty(
                    self.batches@,
                    self.served as int + 1,
                ));
            }
            self.served = self.served + 1;
        }
        proof {
            assert(first_nonempty(self.batches@, self.served as int)
                == self.batches@.len() as int);
        }
        self.ended = true;
        SourceYield::End
    }
}

/// A batch of records, up to views.
pub open spec fn batch_views(batch: Seq<AnimeMetadata>) -> Seq<AnimeMetadataView> {
    batch.map_values(|m: AnimeMetadata| m@)
}

/// Clones a batch of records, keeping their order and content.
pub fn clone_metadata_batch(batch: &Vec<AnimeMetadata>) -> (r: Vec<AnimeMetadata>)
    ensures
        batch_views(r@) == batch_views(batch@),
{
    let mut out: Vec<AnimeMetadata> = Vec::new();
    let mut i: usize = 0;
    while i < batch.len()
        invariant
            i <= batch@.len(),
            out@.len() == i,
            forall|j: int| 0 <= j < i ==> (#[trigger] out@[j])@ == batch@[j]@,
        decreases batch@.len() - i,
    {
        let m = crate::types::clone_metadata(&batch[i]);
        out.push(m);
        i = i + 1;
    }
    proof {
        assert(batch_views(out@) =~= batch_views(batch@));
    }
    out
}

} // verus!
