//! Data model of the enrichment pipeline: dependency references, per-item
//! lookup outcomes, and the enriched result record.

use vstd::prelude::*;

verus! {

/// One entry of the dependency inventory, as reported by the build tool.
/// Names are unique within a batch; the pair is immutable once constructed.
#[derive(Clone, Debug, PartialEq, Eq)]
pub struct DependencyRef {
    pub name: String,
    pub version: String,
}

/// The enriched record for one dependency. `repository` is `None` when
/// resolution failed or the registry has no repository metadata.
/// `security_score` holds the decimal text of the score as the scorecard
/// service returned it; it is `None` when no repository was available, the
/// scorecard lookup failed, or the service had no score — the three cases
/// are intentionally indistinguishable here.
#[derive(Clone, Debug, PartialEq, Eq)]
pub struct EnrichmentResult {
    pub name: String,
    pub version: String,
    pub repository: Option<String>,
    pub security_score: Option<String>,
}

/// Why a single lookup failed.
#[derive(Clone, Debug, PartialEq, Eq)]
pub enum LookupCause {
    /// The transport could not reach the upstream service; the detail text
    /// comes from the transport layer.
    Transport(String),
    /// The upstream service answered with a status outside the success range.
    HttpStatus(u16),
    /// The response body did not match the expected JSON shape.
    Parse,
}

/// A failed lookup, carrying the subject it was about (a dependency name for
/// the resolver, a repository URL for the scorer) for diagnostics. Such an
/// error never aborts a batch: the orchestrator turns it into absent fields.
#[derive(Clone, Debug, PartialEq, Eq)]
pub struct LookupError {
    pub subject: String,
    pub cause: LookupCause,
}

/// Outcome of resolving one dependency name to a repository URL.
#[derive(Clone, Debug, PartialEq, Eq)]
pub enum ResolveOutcome {
    /// The registry knows a repository URL for the name.
    Found(String),
    /// The registry answered, but has no repository metadata for the name.
    NotFound,
    /// The lookup itself failed.
    Failed(LookupError),
}

/// Outcome of querying the security score of one repository URL.
#[derive(Clone, Debug, PartialEq, Eq)]
pub enum ScoreOutcome {
    /// The scorecard service returned a numeric score; the string is its
    /// decimal text.
    Scored(String),
    /// The scorecard service answered, but has no score for the repository.
    NoScore,
    /// The lookup itself failed.
    Failed(LookupError),
}

/// The view of an optional string: `None`, or the character sequence.
pub open spec fn opt_view(o: Option<String>) -> Option<Seq<char>> {
    match o {
        Some(s) => Some(s@),
        None => None,
    }
}

/// The resolve outcome as `Result` values of the resolver deliver it:
/// `Ok(Some(url))` is `Found(url)`, `Ok(None)` is `NotFound`, and an error
/// is `Failed` with that error.
pub open spec fn outcome_of_resolution(r: Result<Option<String>, LookupError>) -> ResolveOutcome {
    match r {
        Ok(Some(url)) => ResolveOutcome::Found(url),
        Ok(None) => ResolveOutcome::NotFound,
        Err(e) => ResolveOutcome::Failed(e),
    }
}

/// The score outcome as `Result` values of the scorer deliver it.
pub open spec fn outcome_of_scoring(r: Result<Option<String>, LookupError>) -> ScoreOutcome {
    match r {
        Ok(Some(score)) => ScoreOutcome::Scored(score),
        Ok(None) => ScoreOutcome::NoScore,
        Err(e) => ScoreOutcome::Failed(e),
    }
}

/// Turns the resolver's `Result` into the explicit outcome the orchestrator
/// consumes by exhaustive matching.
pub fn resolve_outcome_of(r: Result<Option<String>, LookupError>) -> (o: ResolveOutcome)
    ensures
        o == outcome_of_resolution(r),
{
    match r {
        Ok(Some(url)) => ResolveOutcome::Found(url),
        Ok(None) => ResolveOutcome::NotFound,
        Err(e) => ResolveOutcome::Failed(e),
    }
}

/// Turns the scorer's `Result` into the explicit outcome the orchestrator
/// consumes by exhaustive matching.
pub fn score_outcome_of(r: Result<Option<String>, LookupError>) -> (o: ScoreOutcome)
    ensures
        o == outcome_of_scoring(r),
{
    match r {
        Ok(Some(score)) => ScoreOutcome::Scored(score),
        Ok(None) => ScoreOutcome::NoScore,
        Err(e) => ScoreOutcome::Failed(e),
    }
}

} // verus!
