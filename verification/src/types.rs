//! The record types that flow through the pipeline, their mathematical views,
//! and clone helpers whose contracts preserve those views.

use vstd::prelude::*;

verus! {

/// The two name variants a record may carry.
#[derive(Debug, PartialEq)]
pub struct Title {
    pub romaji: Option<String>,
    pub english: Option<String>,
}

/// One input record as read from the metadata store. Immutable once read.
#[derive(Debug, PartialEq)]
pub struct AnimeMetadata {
    pub id: i32,
    pub title: Title,
    pub season: Option<String>,
    pub season_year: i32,
    pub description: Option<String>,
    pub popularity: Option<i32>,
    pub mean_score: Option<i32>,
    pub genres: Option<Vec<String>>,
}

/// One row of the metadata table, before the comma-joined genres column is
/// split into a list.
#[derive(Debug, PartialEq)]
pub struct AnimeMetadataRow {
    pub id: i32,
    pub english_title: Option<String>,
    pub romaji_title: Option<String>,
    pub season: Option<String>,
    pub season_year: i32,
    pub description: Option<String>,
    pub popularity: Option<i32>,
    pub mean_score: Option<i32>,
    pub genres: Option<String>,
}

/// What the enrichment service produces for one record.
#[derive(Debug, PartialEq)]
pub struct AnimeGeneratedSummary {
    pub summary: String,
    pub generated_genres: Vec<String>,
    pub generated_themes: Vec<String>,
}

/// An enriched result: the generated summary tied back to its record id.
#[derive(Debug, PartialEq)]
pub struct AnimeSummary {
    pub id: i32,
    pub generated_summary: AnimeGeneratedSummary,
}

#[verifier::ext_equal]
pub struct TitleView {
    pub romaji: Option<Seq<char>>,
    pub english: Option<Seq<char>>,
}

#[verifier::ext_equal]
pub struct AnimeMetadataView {
    pub id: int,
    pub title: TitleView,
    pub season: Option<Seq<char>>,
    pub season_year: int,
    pub description: Option<Seq<char>>,
    pub popularity: Option<i32>,
    pub mean_score: Option<i32>,
    pub genres: Option<Seq<Seq<char>>>,
}

#[verifier::ext_equal]
pub struct AnimeMetadataRowView {
    pub id: int,
    pub english_title: Option<Seq<char>>,
    pub romaji_title: Option<Seq<char>>,
    pub season: Option<Seq<char>>,
    pub season_year: int,
    pub description: Option<Seq<char>>,
    pub popularity: Option<i32>,
    pub mean_score: Option<i32>,
    pub genres: Option<Seq<char>>,
}

#[verifier::ext_equal]
pub struct AnimeGeneratedSummaryView {
    pub summary: Seq<char>,
    pub generated_genres: Seq<Seq<char>>,
    pub generated_themes: Seq<Seq<char>>,
}

#[verifier::ext_equal]
pub struct AnimeSummaryView {
    pub id: int,
    pub generated_summary: AnimeGeneratedSummaryView,
}

impl View for Title {
    type V = TitleView;

    open spec fn view(&self) -> TitleView {
        TitleView { romaji: self.romaji.deep_view(), english: self.english.deep_view() }
    }
}

impl View for AnimeMetadata {
    type V = AnimeMetadataView;

    open spec fn view(&self) -> AnimeMetadataView {
        AnimeMetadataView {
            id: self.id as int,
            title: self.title@,
            season: self.season.deep_view(),
            season_year: self.season_year as int,
            description: self.description.deep_view(),
            popularity: self.popularity.deep_view(),
            mean_score: self.mean_score.deep_view(),
            genres: self.genres.deep_view(),
        }
    }
}

impl View for AnimeMetadataRow {
    type V = AnimeMetadataRowView;

    open spec fn view(&self) -> AnimeMetadataRowView {
        AnimeMetadataRowView {
            id: self.id as int,
            english_title: self.english_title.deep_view(),
            romaji_title: self.romaji_title.deep_view(),
            season: self.season.deep_view(),
            season_year: self.season_year as int,
            description: self.description.deep_view(),
            popularity: self.popularity.deep_view(),
            mean_score: self.mean_score.deep_view(),
            genres: self.genres.deep_view(),
        }
    }
}

impl View for AnimeGeneratedSummary {
    type V = AnimeGeneratedSummaryView;

    open spec fn view(&self) -> AnimeGeneratedSummaryView {
        AnimeGeneratedSummaryView {
            summary: self.summary@,
            generated_genres: self.generated_genres.deep_view(),
            generated_themes: self.generated_themes.deep_view(),
        }
    }
}

impl View for AnimeSummary {
    type V = AnimeSummaryView;

    open spec fn view(&self) -> AnimeSummaryView {
        AnimeSummaryView { id: self.id as int, generated_summary: self.generated_summary@ }
    }
}

/// Clones a list of strings, keeping its contents.
pub fn clone_string_vec(v: &Vec<String>) -> (r: Vec<String>)
    ensures
        r.deep_view() == v.deep_view(),
{
    let mut out: Vec<String> = Vec::new();
    let mut i: usize = 0;
    while i < v.len()
        invariant
            i <= v.len(),
            out@.len() == i,
            forall|j: int| 0 <= j < i ==> out@[j]@ == v@[j]@,
        decreases v.len() - i,
    {
        let c = v[i].clone();
        out.push(c);
        i = i + 1;
    }
    proof {
        assert forall|j: int| 0 <= j < out.deep_view().len() implies out.deep_view()[j]
            == v.deep_view()[j] by {
            assert(out@[j]@ == v@[j]@);
        }
        assert(out.deep_view() =~= v.deep_view());
    }
    out
}

/// Clones an optional string, keeping its content.
pub fn clone_option_string(s: &Option<String>) -> (r: Option<String>)
    ensures
        r.deep_view() == s.deep_view(),
{
    match s {
        Some(x) => Some(x.clone()),
        None => None,
    }
}

/// Clones a record, keeping its view.
pub fn clone_metadata(m: &AnimeMetadata) -> (r: AnimeMetadata)
    ensures
        r@ == m@,
        r.id == m.id,
{
    let genres: Option<Vec<String>> = match &m.genres {
        Some(g) => Some(clone_string_vec(g)),
        None => None,
    };
    AnimeMetadata {
        id: m.id,
        title: Title {
            romaji: clone_option_string(&m.title.romaji),
            english: clone_option_string(&m.title.english),
        },
        season: clone_option_string(&m.season),
        season_year: m.season_year,
        description: clone_option_string(&m.description),
        popularity: m.popularity,
        mean_score: m.mean_score,
        genres,
    }
}

/// Clones a generated summary, keeping its view.
pub fn clone_generated_summary(g: &AnimeGeneratedSummary) -> (r: AnimeGeneratedSummary)
    ensures
        r@ == g@,
{
    AnimeGeneratedSummary {
        summary: g.summary.clone(),
        generated_genres: clone_string_vec(&g.generated_genres),
        generated_themes: clone_string_vec(&g.generated_themes),
    }
}

} // verus!
