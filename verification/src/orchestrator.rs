//! The enrichment orchestrator. Per item the pipeline walks a small state
//! machine: resolving the repository leads either to scoring (when a URL was
//! found) or straight to the finished record; scoring always leads to the
//! finished record, whether or not it succeeded. A batch is aggregated in
//! input order, one record per dependency, and never fails as a whole.

use vstd::prelude::*;
use crate::model::{DependencyRef, EnrichmentResult, ResolveOutcome, ScoreOutcome, opt_view};

verus! {

/// What the orchestrator does after resolution: query the scorecard service
/// for a found repository URL, or skip scoring.
#[derive(Clone, Debug, PartialEq, Eq)]
pub enum ScorePlan {
    Query(String),
    Skip,
}

/// How the plan relates to the resolve outcome: the scorer is queried
/// exactly when resolution found a repository URL, and with that URL.
pub open spec fn plan_matches(resolved: ResolveOutcome, p: ScorePlan) -> bool {
    match resolved {
        ResolveOutcome::Found(url) => p matches ScorePlan::Query(q) && q@ == url@,
        ResolveOutcome::NotFound => p is Skip,
        ResolveOutcome::Failed(_) => p is Skip,
    }
}

/// Decides whether the scorer is invoked for an item. Scoring strictly
/// follows resolution: only a `Found` outcome yields a query, carrying the
/// URL that was found; after `NotFound` or a failed resolution the scorer is
/// never invoked.
pub fn plan_after_resolve(resolved: &ResolveOutcome) -> (p: ScorePlan)
    ensures
        plan_matches(*resolved, p),
{
    match resolved {
        ResolveOutcome::Found(url) => ScorePlan::Query(url.clone()),
        ResolveOutcome::NotFound => ScorePlan::Skip,
        ResolveOutcome::Failed(_) => ScorePlan::Skip,
    }
}

/// Both lookup outcomes of one item. `scored` is present exactly when
/// resolution found a repository URL: scoring strictly follows resolution
/// and is skipped otherwise.
#[derive(Clone, Debug, PartialEq, Eq)]
pub struct ItemLookup {
    pub resolved: ResolveOutcome,
    pub scored: Option<ScoreOutcome>,
}

/// The reachable states of one item's pipeline: a score outcome exists
/// exactly when resolution found a repository URL.
pub open spec fn wf_item(l: ItemLookup) -> bool {
    (l.scored is Some) <==> (l.resolved is Found)
}

/// The repository field a record gets from its resolve outcome: the URL when
/// one was found, absent when the registry had none or resolution failed.
pub open spec fn spec_repository(resolved: ResolveOutcome) -> Option<Seq<char>> {
    match resolved {
        ResolveOutcome::Found(url) => Some(url@),
        ResolveOutcome::NotFound => None,
        ResolveOutcome::Failed(_) => None,
    }
}

/// The score field a record gets: the score's decimal text when the scorer
/// was invoked and returned one, absent when scoring was skipped, failed, or
/// the service had no score.
pub open spec fn spec_score(scored: Option<ScoreOutcome>) -> Option<Seq<char>> {
    match scored {
        Some(ScoreOutcome::Scored(s)) => Some(s@),
        Some(ScoreOutcome::NoScore) => None,
        Some(ScoreOutcome::Failed(_)) => None,
        None => None,
    }
}

/// How the finished record of one item relates to its inputs: name and
/// version are the dependency's own, and the two optional fields are
/// determined by the lookup outcomes.
pub open spec fn finished_item(
    dep: DependencyRef,
    l: ItemLookup,
    r: EnrichmentResult,
) -> bool {
    &&& r.name@ == dep.name@
    &&& r.version@ == dep.version@
    &&& opt_view(r.repository) == spec_repository(l.resolved)
    &&& opt_view(r.security_score) == spec_score(l.scored)
}

/// Builds the finished record of one item from its lookup outcomes. A failed
/// lookup is not propagated: it degrades to an absent field.
pub fn finish_item(dep: &DependencyRef, l: &ItemLookup) -> (r: EnrichmentResult)
    requires
        wf_item(*l),
    ensures
        finished_item(*dep, *l, r),
{
    let repository: Option<String> = match &l.resolved {
        ResolveOutcome::Found(url) => Some(url.clone()),
        ResolveOutcome::NotFound => None,
        ResolveOutcome::Failed(_) => None,
    };
    let security_score: Option<String> = match &l.scored {
        Some(ScoreOutcome::Scored(s)) => Some(s.clone()),
        Some(ScoreOutcome::NoScore) => None,
        Some(ScoreOutcome::Failed(_)) => None,
        None => None,
    };
    EnrichmentResult {
        name: dep.name.clone(),
        version: dep.version.clone(),
        repository,
        security_score,
    }
}

/// How a whole aggregated batch relates to its inputs: one record per input
/// dependency, in input order.
pub open spec fn finished_batch(
    deps: Seq<DependencyRef>,
    ls: Seq<ItemLookup>,
    rs: Seq<EnrichmentResult>,
) -> bool {
    &&& rs.len() == deps.len()
    &&& forall|i: int| 0 <= i < deps.len() ==> #[trigger] finished_item(deps[i], ls[i], rs[i])
}

/// Aggregates the per-item lookup outcomes into the ordered result batch:
/// exactly one record per input dependency, in input order, regardless of
/// the order in which the concurrent lookups completed.
pub fn collect_results(deps: &Vec<DependencyRef>, lookups: &Vec<ItemLookup>) -> (out: Vec<
    EnrichmentResult,
>)
    requires
        lookups@.len() == deps@.len(),
        forall|i: int| 0 <= i < deps@.len() ==> #[trigger] wf_item(lookups@[i]),
    ensures
        finished_batch(deps@, lookups@, out@),
{
    let mut out: Vec<EnrichmentResult> = Vec::new();
    let mut i: usize = 0;
    while i < deps.len()
        invariant
            i <= deps@.len(),
            lookups@.len() == deps@.len(),
            forall|j: int| 0 <= j < deps@.len() ==> #[trigger] wf_item(lookups@[j]),
            out@.len() == i,
            forall|j: int| 0 <= j < i ==> #[trigger] finished_item(deps@[j], lookups@[j], out@[j]),
        decreases deps@.len() - i,
    {
        let r = finish_item(&deps[i], &lookups[i]);
        out.push(r);
        i += 1;
    }
    out
}

} // verus!
