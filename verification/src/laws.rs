//! The guarantees of the enrichment pipeline, stated and proved once over
//! the specifications the executable functions carry.

use vstd::prelude::*;
use crate::model::{DependencyRef, EnrichmentResult, LookupError, ResolveOutcome, ScoreOutcome,
    opt_view};
use crate::orchestrator::{ItemLookup, ScorePlan, finished_batch, finished_item, plan_matches};

verus! {

/// Order preservation: an aggregated batch holds exactly one record per
/// input dependency, and the record at each position carries that
/// position's name and version.
pub proof fn lemma_batch_preserves_order(
    deps: Seq<DependencyRef>,
    ls: Seq<ItemLookup>,
    rs: Seq<EnrichmentResult>,
)
    requires
        finished_batch(deps, ls, rs),
    ensures
        rs.len() == deps.len(),
        forall|i: int| 0 <= i < deps.len() ==> #[trigger] rs[i].name@ == deps[i].name@,
        forall|i: int| 0 <= i < deps.len() ==> #[trigger] rs[i].version@ == deps[i].version@,
{
    assert forall|i: int| 0 <= i < deps.len() implies #[trigger] rs[i].name@ == deps[i].name@ by {
        assert(finished_item(deps[i], ls[i], rs[i]));
    }
    assert forall|i: int|
        0 <= i < deps.len() implies #[trigger] rs[i].version@ == deps[i].version@ by {
        assert(finished_item(deps[i], ls[i], rs[i]));
    }
}

/// If resolution found a repository URL and the scoring call then failed,
/// the item's record keeps the URL and carries no score.
pub proof fn lemma_score_failure_keeps_repository(
    dep: DependencyRef,
    url: String,
    failure: LookupError,
    record: EnrichmentResult,
)
    requires
        finished_item(
            dep,
            ItemLookup {
                resolved: ResolveOutcome::Found(url),
                scored: Some(ScoreOutcome::Failed(failure)),
            },
            record,
        ),
    ensures
        record.repository matches Some(u) && u@ == url@,
        record.security_score is None,
{
}

/// If resolution found no repository metadata, the scorer is never invoked:
/// the plan that follows such an outcome is to skip scoring.
pub proof fn lemma_not_found_skips_scorer(resolved: ResolveOutcome, plan: ScorePlan)
    requires
        resolved is NotFound,
        plan_matches(resolved, plan),
    ensures
        plan is Skip,
{
}

/// If resolution failed, the scorer is never invoked and the item's record
/// carries neither repository nor score.
pub proof fn lemma_failed_resolution_yields_bare_record(
    dep: DependencyRef,
    failure: LookupError,
    plan: ScorePlan,
    record: EnrichmentResult,
)
    requires
        plan_matches(ResolveOutcome::Failed(failure), plan),
        finished_item(
            dep,
            ItemLookup { resolved: ResolveOutcome::Failed(failure), scored: None },
            record,
        ),
    ensures
        plan is Skip,
        record.repository is None,
        record.security_score is None,
{
}

/// Enrichment of one item is deterministic: two records produced from the
/// same dependency and the same lookup outcomes agree on every field.
pub proof fn lemma_item_deterministic(
    dep: DependencyRef,
    l: ItemLookup,
    r1: EnrichmentResult,
    r2: EnrichmentResult,
)
    requires
        finished_item(dep, l, r1),
        finished_item(dep, l, r2),
    ensures
        r1.name@ == r2.name@,
        r1.version@ == r2.version@,
        opt_view(r1.repository) == opt_view(r2.repository),
        opt_view(r1.security_score) == opt_view(r2.security_score),
{
}

/// Enrichment of a batch is deterministic: two aggregations of the same
/// dependencies and the same lookup outcomes agree, record by record, on
/// every field.
pub proof fn lemma_batch_deterministic(
    deps: Seq<DependencyRef>,
    ls: Seq<ItemLookup>,
    rs1: Seq<EnrichmentResult>,
    rs2: Seq<EnrichmentResult>,
)
    requires
        finished_batch(deps, ls, rs1),
        finished_batch(deps, ls, rs2),
    ensures
        rs1.len() == rs2.len(),
        forall|i: int|
            0 <= i < deps.len() ==> #[trigger] rs1[i].name@ == rs2[i].name@
                && rs1[i].version@ == rs2[i].version@
                && opt_view(rs1[i].repository) == opt_view(rs2[i].repository)
                && opt_view(rs1[i].security_score) == opt_view(rs2[i].security_score),
{
    assert forall|i: int| 0 <= i < deps.len() implies #[trigger] rs1[i].name@ == rs2[i].name@
        && rs1[i].version@ == rs2[i].version@
        && opt_view(rs1[i].repository) == opt_view(rs2[i].repository)
        && opt_view(rs1[i].security_score) == opt_view(rs2[i].security_score) by {
        assert(finished_item(deps[i], ls[i], rs1[i]));
        assert(finished_item(deps[i], ls[i], rs2[i]));
        lemma_item_deterministic(deps[i], ls[i], rs1[i], rs2[i]);
    }
}

} // verus!
