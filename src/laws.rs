//! What holds of every run of a repository's pipeline.

use vstd::prelude::*;
use crate::config::{Config, Repo};
use crate::lock::{lemma_pin_then_lookup, with_commit, Entries, Lock};
use crate::pipeline::{plan_for, at, initial, next, reset_args, ActionView, EventView, Merge, PipelineView, Plan, Stage};

verus! {

/// What holds in every reachable state: at most two builds are handed
/// out, at most one without a parent; the merge stages and the retry occur
/// only with a parent; without a parent nothing is ever merged; with a
/// parent, no build comes before the merge was tried.
pub open spec fn inv(p: Plan, s: PipelineView) -> bool {
    &&& s.builds <= 2
    &&& match s.stage {
        Stage::ListRemotes | Stage::AddRemote | Stage::FetchNew | Stage::Track | Stage::Fetch
        | Stage::Checkout | Stage::ResetBase | Stage::ReadBase => s.builds == 0 && s.merged
            == Merge::Unmerged,
        Stage::FetchParent | Stage::MergeParent | Stage::KeepDocument | Stage::StageDocument
        | Stage::ContinueMerge | Stage::AbortMerge | Stage::ResetConflicted => s.builds == 0
            && p.parent is Some,
        Stage::Build => s.builds == 1,
        Stage::ResetForRetry => s.builds == 1 && p.parent is Some,
        Stage::Rebuild => s.builds == 2 && p.parent is Some,
        Stage::Done => true,
        _ => 1 <= s.builds,
    }
    &&& p.parent is None ==> s.merged == Merge::Unmerged && s.builds <= 1
    &&& p.parent is Some && s.builds >= 1 ==> s.merged != Merge::Unmerged
}

/// The state after handing the events `evs` to a pipeline in state `s`.
pub open spec fn run(p: Plan, s: PipelineView, evs: Seq<EventView>) -> PipelineView
    decreases evs.len(),
{
    if evs.len() == 0 {
        s
    } else {
        run(p, next(p, s, evs[0]).0, evs.drop_first())
    }
}

/// Every step keeps the invariant, and a pipeline only finishes after at
/// least one build.
#[verifier::rlimit(40)]
pub proof fn lemma_step_keeps_inv(p: Plan, s: PipelineView, ev: EventView)
    requires
        inv(p, s),
    ensures
        inv(p, next(p, s, ev).0),
        next(p, s, ev).1 is Finish ==> 1 <= s.builds,
{
}

/// Every state reached from the start satisfies the invariant.
pub proof fn lemma_run_keeps_inv(p: Plan, s: PipelineView, evs: Seq<EventView>)
    requires
        inv(p, s),
    ensures
        inv(p, run(p, s, evs)),
    decreases evs.len(),
{
    if evs.len() > 0 {
        lemma_step_keeps_inv(p, s, evs[0]);
        lemma_run_keeps_inv(p, next(p, s, evs[0]).0, evs.drop_first());
    }
}

/// Without a parent, whatever the events, nothing is merged and the tests
/// are built at most once; when the pipeline finishes it has built exactly
/// once and reports `Unmerged`.
pub proof fn lemma_no_parent(p: Plan, evs: Seq<EventView>, ev: EventView)
    requires
        p.parent is None,
    ensures
        run(p, initial(), evs).merged == Merge::Unmerged,
        run(p, initial(), evs).builds <= 1,
        next(p, run(p, initial(), evs), ev).1 is Finish ==> run(p, initial(), evs).builds == 1
            && next(p, run(p, initial(), evs), ev).1->Finish_0.merged == Merge::Unmerged,
{
    lemma_run_keeps_inv(p, initial(), evs);
    lemma_step_keeps_inv(p, run(p, initial(), evs), ev);
}

/// With or without a parent, whatever the events, at most two builds are
/// handed out: the first and a single retry.
pub proof fn lemma_at_most_two_builds(p: Plan, evs: Seq<EventView>)
    ensures
        run(p, initial(), evs).builds <= 2,
{
    lemma_run_keeps_inv(p, initial(), evs);
}

/// With a parent, integration is always attempted before building: from
/// the first build on, the outcome is `Merged` or `Conflicted`.
pub proof fn lemma_parent_merges_first(p: Plan, evs: Seq<EventView>)
    requires
        p.parent is Some,
        run(p, initial(), evs).builds >= 1,
    ensures
        run(p, initial(), evs).merged != Merge::Unmerged,
{
    lemma_run_keeps_inv(p, initial(), evs);
}

/// The retry: a failed build with a parent resets to the base commit;
/// after that reset the build is handed out once more; a failure of that
/// second build ends building with `built` false and no further build.
pub proof fn lemma_single_retry(p: Plan, s: PipelineView, ev: EventView)
    ensures
        s.stage == Stage::Build && ev is Failed && p.parent is Some ==> next(p, s, ev) == (
            at(s, Stage::ResetForRetry),
            ActionView::Git(reset_args(s.base_hash)),
        ),
        s.stage == Stage::ResetForRetry && ev is Succeeded ==> next(p, s, ev).1 is Build,
        s.stage == Stage::Rebuild && ev is Failed ==> !next(p, s, ev).0.built
            && next(p, s, ev).0.stage == Stage::ReadFinal
            && next(p, s, ev).0.builds == s.builds,
{
}

/// A clean merge goes straight to the build, reporting `Merged`, without
/// touching the document directory.
pub proof fn lemma_clean_merge(p: Plan, s: PipelineView, out: Seq<char>)
    requires
        s.stage == Stage::MergeParent,
    ensures
        next(p, s, EventView::Succeeded(out)).0.merged == Merge::Merged,
        next(p, s, EventView::Succeeded(out)).1 == ActionView::Build,
{
}

/// A conflicting merge keeps the local document directory, stages it and
/// continues the merge; if that goes through, the result is `Merged`.
pub proof fn lemma_document_override(p: Plan, s: PipelineView, d: Seq<char>, out: Seq<char>)
    ensures
        s.stage == Stage::MergeParent ==> next(p, s, EventView::Failed(d)).1 == ActionView::Git(
            seq!["checkout"@, "--ours"@, "document"@],
        ),
        s.stage == Stage::KeepDocument ==> next(p, s, EventView::Succeeded(out)).1
            == ActionView::Git(seq!["add"@, "document"@]),
        s.stage == Stage::StageDocument ==> next(p, s, EventView::Succeeded(out)).1
            == ActionView::Git(seq!["-c"@, "core.editor=true"@, "merge"@, "--continue"@]),
        s.stage == Stage::ContinueMerge ==> next(p, s, EventView::Succeeded(out)).0.merged
            == Merge::Merged,
{
}

/// `Conflicted` is reported only after the merge was aborted and the
/// working copy reset to the base commit: the state becomes `Conflicted`
/// only when that reset succeeded, and the reset is handed out only after
/// the abort succeeded.
pub proof fn lemma_conflict_restores_base(p: Plan, s: PipelineView, ev: EventView)
    ensures
        next(p, s, ev).0.merged == Merge::Conflicted && s.merged != Merge::Conflicted ==> s.stage
            == Stage::ResetConflicted && ev is Succeeded,
        next(p, s, ev).0.stage == Stage::ResetConflicted ==> s.stage == Stage::AbortMerge
            && ev is Succeeded && next(p, s, ev).1 == ActionView::Git(reset_args(s.base_hash)),
        next(p, s, ev).0.stage == Stage::AbortMerge ==> next(p, s, ev).1 == ActionView::Git(
            seq!["merge"@, "--abort"@],
        ),
{
}

/// A commit pinned for a repository is where the next run resets it: a
/// plan made from a lock store in which `hash` was last recorded for the
/// repository resets the repository to `hash`.
pub proof fn lemma_pin_is_reset_target(
    plan: Plan,
    repo: Repo,
    config: Config,
    lock: Lock,
    earlier: Entries,
    hash: Seq<char>,
    s: PipelineView,
    out: Seq<char>,
)
    requires
        plan_for(plan, repo, config, lock),
        lock@ == with_commit(earlier, repo.name@, hash),
        s.stage == Stage::Checkout,
    ensures
        next(plan, s, EventView::Succeeded(out)).1 == ActionView::Git(seq!["reset"@, hash, "--hard"@]),
{
    lemma_pin_then_lookup(earlier, repo.name@, hash);
}

} // verus!
