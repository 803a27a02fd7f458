//! Parsing the enrichment service's answers. A success body is a JSON
//! document whose nested `choices[0].message.content` text is itself a
//! JSON-encoded object holding the summary, themes and genres; anything that
//! does not fit that shape abandons the record, with no retry. Parsing JSON
//! is serde_json's work and is deterministic — a function of the text alone —
//! so each trusted call's result is given a name, and the public functions'
//! contracts are exact over those names.

use vstd::prelude::*;

use crate::text::parse_seconds;
use crate::text::parse_seconds_spec;
use crate::types::AnimeGeneratedSummary;
use crate::types::AnimeGeneratedSummaryView;
use crate::types::AnimeSummary;
use crate::worker::ServiceEvent;

verus! {

/// The generated text a success body carries at `choices[0].message.content`:
/// that string member when the body is a JSON document holding one, and
/// nothing otherwise. A function of the body text alone, since serde_json
/// parses deterministically.
pub uninterp spec fn content_of(body: Seq<char>) -> Option<Seq<char>>;

/// The summary, themes and genres a content text yields: the three members
/// when the text is a JSON object of exactly that shape, and nothing
/// otherwise. A function of the text alone.
pub uninterp spec fn generated_summary_of(content: Seq<char>) -> Option<AnimeGeneratedSummaryView>;

/// What a success body yields end to end: the parse of its nested content
/// text, when both steps succeed.
pub open spec fn enrichment_of(body: Seq<char>) -> Option<AnimeGeneratedSummaryView> {
    match content_of(body) {
        Some(c) => generated_summary_of(c),
        None => None,
    }
}

/// Relies on serde_json::from_str::<Value> and Value::get / Value::as_str:
/// the `choices[0].message.content` string of the JSON document, or nothing
/// when the text is not valid JSON or lacks that string member. The result
/// depends on the body text alone.
#[verifier::external_body]
fn extract_content(body: &str) -> (r: Option<String>)
    ensures
        r.deep_view() == content_of(body@),
{
    let v: serde_json::Value = serde_json::from_str(body).ok()?;
    let c = v.get("choices")?.get(0)?.get("message")?.get("content")?.as_str()?;
    Some(c.to_owned())
}

/// Relies on serde_json::from_str::<Value> and Value::get / Value::as_str /
/// Value::as_array: the `summary` string and the `themes` and `genres` string
/// lists of the JSON object, or nothing when the text is not a JSON object
/// with those members of those kinds — a missing or mistyped member fails the
/// whole parse. The result depends on the content text alone.
#[verifier::external_body]
fn parse_summary_object(content: &str) -> (r: Option<AnimeGeneratedSummary>)
    ensures
        r matches Some(g) ==> generated_summary_of(content@) == Some(g@),
        r is None ==> generated_summary_of(content@) is None,
{
    let v: serde_json::Value = serde_json::from_str(content).ok()?;
    let summary = v.get("summary")?.as_str()?.to_owned();
    let themes: Vec<String> = v.get("themes")?.as_array()?.iter().map(
        |t| t.as_str().map(str::to_owned),
    ).collect::<Option<_>>()?;
    let genres: Vec<String> = v.get("genres")?.as_array()?.iter().map(
        |t| t.as_str().map(str::to_owned),
    ).collect::<Option<_>>()?;
    Some(AnimeGeneratedSummary { summary, generated_genres: genres, generated_themes: themes })
}

/// Ties a generated summary back to its record: the result carries exactly
/// the record's id and exactly this summary.
pub fn build_summary(anime_id: i32, g: AnimeGeneratedSummary) -> (r: AnimeSummary)
    ensures
        r.id == anime_id,
        r.generated_summary == g,
{
    AnimeSummary { id: anime_id, generated_summary: g }
}

/// Parses one success response body for the record with this id: the
/// enriched result exactly when the body's nested content parses into the
/// expected shape, carrying the record's own id and exactly that parse;
/// nothing — the record is abandoned — otherwise.
pub fn parse_response(body: &str, anime_id: i32) -> (r: Option<AnimeSummary>)
    ensures
        r matches Some(s) ==> s.id == anime_id && enrichment_of(body@) == Some(
            s.generated_summary@,
        ),
        r is None <==> enrichment_of(body@) is None,
{
    let content = match extract_content(body) {
        Some(c) => c,
        None => {
            return None;
        },
    };
    match parse_summary_object(content.as_str()) {
        Some(g) => Some(build_summary(anime_id, g)),
        None => None,
    }
}

/// Classifies one answer from the enrichment service into the worker's
/// service event, as the retry protocol reads it: 429 is a rate limit
/// carrying the retry-after header's seconds (when present and parseable);
/// any other non-success status is a failure that costs budget; a success is
/// the body's parse exactly when the body yields one, and an unparseable
/// body, which abandons the record, exactly when it does not.
pub fn classify_response(status: u32, retry_after: Option<&str>, body: &str) -> (e: ServiceEvent)
    ensures
        status == 429 ==> ({
            &&& e matches ServiceEvent::RateLimited { retry_after_secs }
            &&& retry_after_secs == match retry_after {
                Some(h) => parse_seconds_spec(h@),
                None => None::<u64>,
            }
        }),
        status != 429 && status != 200 ==> e is Failed,
        status == 200 ==> ({
            &&& (e matches ServiceEvent::Parsed(g) ==> enrichment_of(body@) == Some(g@))
            &&& (e is Unparseable <==> enrichment_of(body@) is None)
            &&& (e matches ServiceEvent::Parsed { .. } || e is Unparseable)
        }),
{
    if status == 429 {
        let secs = match retry_after {
            Some(h) => parse_seconds(h),
            None => None,
        };
        ServiceEvent::RateLimited { retry_after_secs: secs }
    } else if status != 200 {
        ServiceEvent::Failed
    } else {
        let content = match extract_content(body) {
            Some(c) => c,
            None => {
                return ServiceEvent::Unparseable;
            },
        };
        match parse_summary_object(content.as_str()) {
            Some(g) => ServiceEvent::Parsed(g),
            None => ServiceEvent::Unparseable,
        }
    }
}

} // verus!
