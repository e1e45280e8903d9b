//! The per-repository integration pipeline as a state machine. The caller
//! performs each action (a git command in the repository's clone, a build
//! of the generated tests, a listing of a directory, copies, a file write)
//! and hands back what came of it; the pipeline decides what comes next.
//! Syncing, the merge with the parent and its conflict policy, the single
//! build retry, change detection, file selection and the copy plan are all
//! decided here.

use vstd::prelude::*;
use crate::changes::{accept_list, build_accept_list, changed_names, changed_tests, extend_strings};
use crate::config::{Config, Repo};
use crate::lock::{lookup, Lock};
use crate::select::{patterns_compile, selected_paths, Selector};
use crate::text::{lines, split_lines, str_eq, trim, trimmed, views};

verus! {

/// How the parent was integrated.
#[derive(PartialEq, Eq, Structural, Clone, Copy, Debug)]
pub enum Merge {
    /// No parent is configured.
    Unmerged,
    /// The parent merged cleanly, or after keeping the local document
    /// directory.
    Merged,
    /// The merge was abandoned and the working copy reset to the base.
    Conflicted,
}

/// An output category.
#[derive(PartialEq, Eq, Structural, Clone, Copy, Debug)]
pub enum Category {
    /// Source tests.
    Wast,
    /// Generated web-platform tests.
    Wpt,
    /// Generated script tests.
    Js,
}

/// Where the pipeline stands: what the last action handed out was.
#[derive(PartialEq, Eq, Structural, Clone, Copy, Debug)]
pub enum Stage {
    ListRemotes,
    AddRemote,
    FetchNew,
    Track,
    Fetch,
    Checkout,
    ResetBase,
    ReadBase,
    FetchParent,
    MergeParent,
    KeepDocument,
    StageDocument,
    ContinueMerge,
    AbortMerge,
    ResetConflicted,
    Build,
    ResetForRetry,
    Rebuild,
    ReadFinal,
    DiffChanges,
    FindChanges,
    ListCategory(Category),
    CopyCategory(Category),
    WriteHarness,
    WriteDirectives,
    Done,
}

/// What a repository's pipeline reports when it completes.
pub struct Status {
    pub commit_base_hash: String,
    pub commit_final_message: String,
    pub merged: Merge,
    pub built: bool,
}

/// Why a pipeline stopped early.
pub enum PipelineError {
    /// An action that may not fail failed; the text says how.
    Failed(String),
    /// An accept or reject pattern is not a valid regular expression.
    InvalidPatterns,
    /// The event does not answer the action last handed out.
    Unexpected,
}

/// One file to copy, from the clone to the output root.
pub struct CopyItem {
    pub from: String,
    pub to: String,
}

/// What the caller does next.
pub enum Action {
    /// Run git with these arguments in the clone.
    Git(Vec<String>),
    /// Remove the stale `js` and `wpt` directories of the clone, then run the
    /// test generator.
    Build,
    /// List every file under this directory of the clone, as paths that
    /// start with it.
    List(String),
    /// Copy these files, creating directories as needed.
    Copy(Vec<CopyItem>),
    /// Write this text to this path under the output root.
    Write(String, String),
    /// The pipeline completed.
    Finish(Status),
    /// The pipeline stopped.
    Abort(PipelineError),
}

/// What came of the last action.
pub enum Event {
    /// It succeeded, with this output.
    Succeeded(String),
    /// It failed, for this reason.
    Failed(String),
    /// A listing, for a `List` action.
    Listed(Vec<String>),
}

pub struct StatusView {
    pub base_hash: Seq<char>,
    pub final_message: Seq<char>,
    pub merged: Merge,
    pub built: bool,
}

pub enum ErrorView {
    Failed(Seq<char>),
    InvalidPatterns,
    Unexpected,
}

pub enum ActionView {
    Git(Seq<Seq<char>>),
    Build,
    List(Seq<char>),
    Copy(Seq<(Seq<char>, Seq<char>)>),
    Write(Seq<char>, Seq<char>),
    Finish(StatusView),
    Abort(ErrorView),
}

pub enum EventView {
    Succeeded(Seq<char>),
    Failed(Seq<char>),
    Listed(Seq<Seq<char>>),
}

impl View for Status {
    type V = StatusView;

    open spec fn view(&self) -> StatusView {
        StatusView {
            base_hash: self.commit_base_hash@,
            final_message: self.commit_final_message@,
            merged: self.merged,
            built: self.built,
        }
    }
}

impl View for PipelineError {
    type V = ErrorView;

    open spec fn view(&self) -> ErrorView {
        match self {
            PipelineError::Failed(d) => ErrorView::Failed(d@),
            PipelineError::InvalidPatterns => ErrorView::InvalidPatterns,
            PipelineError::Unexpected => ErrorView::Unexpected,
        }
    }
}

pub open spec fn copy_views(v: Seq<CopyItem>) -> Seq<(Seq<char>, Seq<char>)> {
    v.map_values(|c: CopyItem| (c.from@, c.to@))
}

impl View for Action {
    type V = ActionView;

    open spec fn view(&self) -> ActionView {
        match self {
            Action::Git(a) => ActionView::Git(views(a@)),
            Action::Build => ActionView::Build,
            Action::List(d) => ActionView::List(d@),
            Action::Copy(v) => ActionView::Copy(copy_views(v@)),
            Action::Write(p, t) => ActionView::Write(p@, t@),
            Action::Finish(s) => ActionView::Finish(s@),
            Action::Abort(e) => ActionView::Abort(e@),
        }
    }
}

impl View for Event {
    type V = EventView;

    open spec fn view(&self) -> EventView {
        match self {
            Event::Succeeded(o) => EventView::Succeeded(o@),
            Event::Failed(d) => EventView::Failed(d@),
            Event::Listed(v) => EventView::Listed(views(v@)),
        }
    }
}

pub open spec fn opt_view(o: Option<String>) -> Option<Seq<char>> {
    match o {
        Some(s) => Some(s@),
        None => None,
    }
}

pub open spec fn or_empty(o: Option<String>) -> Seq<char> {
    match o {
        Some(s) => s@,
        None => Seq::empty(),
    }
}

/// What a repository's pipeline works from, fixed when it starts.
pub struct Plan {
    pub name: String,
    pub url: String,
    pub parent: Option<String>,
    /// The base commit pinned in the lock store, if any.
    pub pinned: Option<String>,
    /// Explicitly included tests, the repository's then the global ones.
    pub accept_extra: Vec<String>,
    /// Excluded tests, the global ones then the repository's.
    pub reject: Vec<String>,
    pub skip_wast: bool,
    pub skip_wpt: bool,
    pub skip_js: bool,
    pub harness_directive: Option<String>,
    /// The global directive followed by the repository's.
    pub directives: String,
}

/// The changing part of a pipeline.
pub struct PipelineView {
    pub stage: Stage,
    pub base_hash: Seq<char>,
    pub merged: Merge,
    pub built: bool,
    pub final_message: Seq<char>,
    pub patterns: Option<(Seq<Seq<char>>, Seq<Seq<char>>)>,
    /// How many builds were handed out.
    pub builds: nat,
}

/// The pipeline of one repository.
pub struct Pipeline {
    plan: Plan,
    stage: Stage,
    base_hash: String,
    merged: Merge,
    built: bool,
    final_message: String,
    selector: Option<Selector>,
    builds: Ghost<nat>,
}

impl View for Pipeline {
    type V = PipelineView;

    closed spec fn view(&self) -> PipelineView {
        PipelineView {
            stage: self.stage,
            base_hash: self.base_hash@,
            merged: self.merged,
            built: self.built,
            final_message: self.final_message@,
            patterns: match self.selector {
                Some(s) => Some((s.accept_patterns(), s.reject_patterns())),
                None => None,
            },
            builds: self.builds@,
        }
    }
}

/// The branch that tracks the repository's upstream.
pub open spec fn upstream(p: Plan) -> Seq<char> {
    p.name@ + "/master"@
}

/// The revision the repository is reset to: its pinned commit, if any,
/// else the upstream tip.
pub open spec fn base_treeish(p: Plan) -> Seq<char> {
    match p.pinned {
        Some(c) => c@,
        None => upstream(p),
    }
}

/// The message of the merge commit.
pub open spec fn merge_message(p: Plan, hash: Seq<char>, parent: Seq<char>) -> Seq<char> {
    "Merging "@ + p.name@ + ":"@ + hash + " with "@ + parent
}

/// Whether a category is copied: source tests unless skipped, generated
/// ones only after a successful build and unless skipped.
pub open spec fn enabled(p: Plan, built: bool, c: Category) -> bool {
    match c {
        Category::Wast => !p.skip_wast,
        Category::Wpt => built && !p.skip_wpt,
        Category::Js => built && !p.skip_js,
    }
}

/// The directory of the clone that a category is copied from.
pub open spec fn source_dir(c: Category) -> Seq<char> {
    match c {
        Category::Wast => "test/core"@,
        Category::Wpt => "wpt"@,
        Category::Js => "js"@,
    }
}

/// The name of a category in the output tree.
pub open spec fn label(c: Category) -> Seq<char> {
    match c {
        Category::Wast => "wast"@,
        Category::Wpt => "wpt"@,
        Category::Js => "js"@,
    }
}

/// Where a file of a category goes: `tests/<category>/<repo>/<path>`.
pub open spec fn out_path(p: Plan, c: Category, path: Seq<char>) -> Seq<char> {
    "tests/"@ + label(c) + "/"@ + p.name@ + "/"@ + path
}

/// The copies for the selected paths of a category.
pub open spec fn copy_plan(p: Plan, c: Category, ps: Seq<Seq<char>>) -> Seq<(Seq<char>, Seq<char>)> {
    ps.map_values(|q: Seq<char>| (q, out_path(p, c, q)))
}

pub open spec fn harness_path(p: Plan) -> Seq<char> {
    "tests/js/"@ + p.name@ + "/harness/directives.txt"@
}

pub open spec fn directives_path(p: Plan) -> Seq<char> {
    "tests/js/"@ + p.name@ + "/directives.txt"@
}

pub open spec fn reset_args(hash: Seq<char>) -> Seq<Seq<char>> {
    seq!["reset"@, hash, "--hard"@]
}

pub open spec fn status_of(s: PipelineView) -> StatusView {
    StatusView {
        base_hash: s.base_hash,
        final_message: s.final_message,
        merged: s.merged,
        built: s.built,
    }
}

pub open spec fn at(s: PipelineView, st: Stage) -> PipelineView {
    PipelineView { stage: st, ..s }
}

pub open spec fn go_git(s: PipelineView, st: Stage, args: Seq<Seq<char>>) -> (PipelineView, ActionView) {
    (at(s, st), ActionView::Git(args))
}

pub open spec fn go_abort(s: PipelineView, e: ErrorView) -> (PipelineView, ActionView) {
    (at(s, Stage::Done), ActionView::Abort(e))
}

pub open spec fn go_finish(s: PipelineView) -> (PipelineView, ActionView) {
    (at(s, Stage::Done), ActionView::Finish(status_of(s)))
}

pub open spec fn go_build(s: PipelineView, st: Stage) -> (PipelineView, ActionView) {
    (PipelineView { stage: st, builds: s.builds + 1, ..s }, ActionView::Build)
}

pub open spec fn go_read_final(s: PipelineView, built: bool) -> (PipelineView, ActionView) {
    (
        PipelineView { stage: Stage::ReadFinal, built: built, ..s },
        ActionView::Git(seq!["log"@, "--oneline"@, "-n"@, "1"@]),
    )
}

/// Moves to the first enabled category at or after position `from`
/// (source tests, web-platform tests, script tests), or finishes.
pub open spec fn go_category(p: Plan, s: PipelineView, from: int) -> (PipelineView, ActionView) {
    if from <= 0 && enabled(p, s.built, Category::Wast) {
        (at(s, Stage::ListCategory(Category::Wast)), ActionView::List(source_dir(Category::Wast)))
    } else if from <= 1 && enabled(p, s.built, Category::Wpt) {
        (at(s, Stage::ListCategory(Category::Wpt)), ActionView::List(source_dir(Category::Wpt)))
    } else if from <= 2 && enabled(p, s.built, Category::Js) {
        (at(s, Stage::ListCategory(Category::Js)), ActionView::List(source_dir(Category::Js)))
    } else {
        go_finish(s)
    }
}

pub open spec fn go_directives(p: Plan, s: PipelineView) -> (PipelineView, ActionView) {
    if p.directives@.len() > 0 {
        (at(s, Stage::WriteDirectives), ActionView::Write(directives_path(p), p.directives@))
    } else {
        go_finish(s)
    }
}

pub open spec fn go_harness(p: Plan, s: PipelineView) -> (PipelineView, ActionView) {
    match p.harness_directive {
        Some(h) => (at(s, Stage::WriteHarness), ActionView::Write(harness_path(p), h@)),
        None => go_directives(p, s),
    }
}

/// After the copies of a category: the next category, or, after the
/// script tests, the directive files.
pub open spec fn go_after_copy(p: Plan, s: PipelineView, c: Category) -> (PipelineView, ActionView) {
    match c {
        Category::Wast => go_category(p, s, 1),
        Category::Wpt => go_category(p, s, 2),
        Category::Js => go_harness(p, s),
    }
}

/// With the changed paths known: compile the patterns and start copying.
pub open spec fn go_changes(p: Plan, s: PipelineView, paths: Seq<Seq<char>>) -> (PipelineView, ActionView) {
    let acc = accept_list(changed_names(paths), views(p.accept_extra@));
    let rej = views(p.reject@);
    if patterns_compile(acc) && patterns_compile(rej) {
        go_category(p, PipelineView { patterns: Some((acc, rej)), ..s }, 0)
    } else {
        go_abort(s, ErrorView::InvalidPatterns)
    }
}

/// A step of a stage that runs a git command which may not fail.
pub open spec fn on_git(
    s: PipelineView,
    ev: EventView,
    then: (PipelineView, ActionView),
) -> (PipelineView, ActionView) {
    match ev {
        EventView::Succeeded(_) => then,
        EventView::Failed(d) => go_abort(s, ErrorView::Failed(d)),
        EventView::Listed(_) => go_abort(s, ErrorView::Unexpected),
    }
}

/// A step of a merge stage whose failure leads to abandoning the merge.
pub open spec fn on_merge_step(
    s: PipelineView,
    ev: EventView,
    then: (PipelineView, ActionView),
) -> (PipelineView, ActionView) {
    match ev {
        EventView::Succeeded(_) => then,
        EventView::Failed(_) => go_git(s, Stage::AbortMerge, seq!["merge"@, "--abort"@]),
        EventView::Listed(_) => go_abort(s, ErrorView::Unexpected),
    }
}

/// The output of a git command, or empty.
pub open spec fn output(ev: EventView) -> Seq<char> {
    match ev {
        EventView::Succeeded(o) => o,
        _ => Seq::empty(),
    }
}

/// Where the pipeline goes from state `s` on event `ev`, and what it asks
/// for next.
pub open spec fn next(p: Plan, s: PipelineView, ev: EventView) -> (PipelineView, ActionView) {
    let name = p.name@;
    match s.stage {
        Stage::ListRemotes => on_git(s, ev,
            if split_lines(output(ev)).contains(name) {
                go_git(s, Stage::Fetch, seq!["fetch"@, name])
            } else {
                go_git(s, Stage::AddRemote, seq!["remote"@, "add"@, name, p.url@])
            }),
        Stage::AddRemote => on_git(s, ev, go_git(s, Stage::FetchNew, seq!["fetch"@, name])),
        Stage::FetchNew => on_git(s, ev,
            go_git(s, Stage::Track, seq!["branch"@, "--track"@, name, upstream(p)])),
        Stage::Track => on_git(s, ev, go_git(s, Stage::Fetch, seq!["fetch"@, name])),
        Stage::Fetch => on_git(s, ev, go_git(s, Stage::Checkout, seq!["checkout"@, name])),
        Stage::Checkout => on_git(s, ev,
            go_git(s, Stage::ResetBase, seq!["reset"@, base_treeish(p), "--hard"@])),
        Stage::ResetBase => on_git(s, ev,
            go_git(s, Stage::ReadBase, seq!["log"@, "--pretty=%h"@, "-n"@, "1"@])),
        Stage::ReadBase => {
            let t = PipelineView { base_hash: trimmed(output(ev)), ..s };
            on_git(s, ev,
                match p.parent {
                    Some(q) => go_git(t, Stage::FetchParent, seq!["fetch"@, q@]),
                    None => go_build(PipelineView { merged: Merge::Unmerged, ..t }, Stage::Build),
                })
        },
        Stage::FetchParent => on_git(s, ev,
            go_git(s, Stage::MergeParent, seq![
                "merge"@,
                "-q"@,
                or_empty(p.parent),
                "-m"@,
                merge_message(p, s.base_hash, or_empty(p.parent)),
            ])),
        Stage::MergeParent => match ev {
            EventView::Succeeded(_) => go_build(PipelineView { merged: Merge::Merged, ..s }, Stage::Build),
            EventView::Failed(_) => go_git(s, Stage::KeepDocument, seq!["checkout"@, "--ours"@, "document"@]),
            EventView::Listed(_) => go_abort(s, ErrorView::Unexpected),
        },
        Stage::KeepDocument => on_merge_step(s, ev,
            go_git(s, Stage::StageDocument, seq!["add"@, "document"@])),
        Stage::StageDocument => on_merge_step(s, ev,
            go_git(s, Stage::ContinueMerge, seq!["-c"@, "core.editor=true"@, "merge"@, "--continue"@])),
        Stage::ContinueMerge => on_merge_step(s, ev,
            go_build(PipelineView { merged: Merge::Merged, ..s }, Stage::Build)),
        Stage::AbortMerge => on_git(s, ev,
            go_git(s, Stage::ResetConflicted, reset_args(s.base_hash))),
        Stage::ResetConflicted => on_git(s, ev,
            go_build(PipelineView { merged: Merge::Conflicted, ..s }, Stage::Build)),
        Stage::Build => match ev {
            EventView::Succeeded(_) => go_read_final(s, true),
            EventView::Failed(_) => if p.parent is Some {
                go_git(s, Stage::ResetForRetry, reset_args(s.base_hash))
            } else {
                go_read_final(s, false)
            },
            EventView::Listed(_) => go_abort(s, ErrorView::Unexpected),
        },
        Stage::ResetForRetry => on_git(s, ev, go_build(s, Stage::Rebuild)),
        Stage::Rebuild => match ev {
            EventView::Succeeded(_) => go_read_final(s, true),
            EventView::Failed(_) => go_read_final(s, false),
            EventView::Listed(_) => go_abort(s, ErrorView::Unexpected),
        },
        Stage::ReadFinal => {
            let t = PipelineView { final_message: output(ev), ..s };
            on_git(s, ev,
                match p.parent {
                    Some(q) => go_git(t, Stage::DiffChanges,
                        seq!["diff"@, "--name-only"@, name, q@, "test/core"@]),
                    None => (at(t, Stage::FindChanges), ActionView::List("test/core"@)),
                })
        },
        Stage::DiffChanges => on_git(s, ev, go_changes(p, s, split_lines(output(ev)))),
        Stage::FindChanges => match ev {
            EventView::Listed(ps) => go_changes(p, s, ps),
            EventView::Failed(d) => go_abort(s, ErrorView::Failed(d)),
            EventView::Succeeded(_) => go_abort(s, ErrorView::Unexpected),
        },
        Stage::ListCategory(c) => match ev {
            EventView::Listed(ps) => match s.patterns {
                Some(pats) => (
                    at(s, Stage::CopyCategory(c)),
                    ActionView::Copy(copy_plan(p, c, selected_paths(pats.0, pats.1, ps))),
                ),
                None => go_abort(s, ErrorView::Unexpected),
            },
            EventView::Failed(d) => go_abort(s, ErrorView::Failed(d)),
            EventView::Succeeded(_) => go_abort(s, ErrorView::Unexpected),
        },
        Stage::CopyCategory(c) => on_git(s, ev, go_after_copy(p, s, c)),
        Stage::WriteHarness => on_git(s, ev, go_directives(p, s)),
        Stage::WriteDirectives => on_git(s, ev, go_finish(s)),
        Stage::Done => go_abort(s, ErrorView::Unexpected),
    }
}

/// The state where a pipeline starts, and its first action: listing the
/// remotes.
pub open spec fn initial() -> PipelineView {
    PipelineView {
        stage: Stage::ListRemotes,
        base_hash: Seq::empty(),
        merged: Merge::Unmerged,
        built: false,
        final_message: Seq::empty(),
        patterns: None,
        builds: 0,
    }
}

fn args1(a: &str) -> (r: Vec<String>)
    ensures
        views(r@) == seq![a@],
{
    let mut r: Vec<String> = Vec::new();
    r.push(a.to_owned());
    assert(views(r@) =~= seq![a@]);
    r
}

fn args2(a: &str, b: &str) -> (r: Vec<String>)
    ensures
        views(r@) == seq![a@, b@],
{
    let mut r: Vec<String> = Vec::new();
    r.push(a.to_owned());
    r.push(b.to_owned());
    assert(views(r@) =~= seq![a@, b@]);
    r
}

fn args3(a: &str, b: &str, c: &str) -> (r: Vec<String>)
    ensures
        views(r@) == seq![a@, b@, c@],
{
    let mut r: Vec<String> = Vec::new();
    r.push(a.to_owned());
    r.push(b.to_owned());
    r.push(c.to_owned());
    assert(views(r@) =~= seq![a@, b@, c@]);
    r
}

fn args4(a: &str, b: &str, c: &str, d: &str) -> (r: Vec<String>)
    ensures
        views(r@) == seq![a@, b@, c@, d@],
{
    let mut r: Vec<String> = Vec::new();
    r.push(a.to_owned());
    r.push(b.to_owned());
    r.push(c.to_owned());
    r.push(d.to_owned());
    assert(views(r@) =~= seq![a@, b@, c@, d@]);
    r
}

fn args5(a: &str, b: &str, c: &str, d: &str, e: &str) -> (r: Vec<String>)
    ensures
        views(r@) == seq![a@, b@, c@, d@, e@],
{
    let mut r: Vec<String> = Vec::new();
    r.push(a.to_owned());
    r.push(b.to_owned());
    r.push(c.to_owned());
    r.push(d.to_owned());
    r.push(e.to_owned());
    assert(views(r@) =~= seq![a@, b@, c@, d@, e@]);
    r
}

fn clone_opt(o: &Option<String>) -> (r: Option<String>)
    ensures
        opt_view(r) == opt_view(*o),
{
    match o {
        Some(s) => Some(s.clone()),
        None => None,
    }
}

fn text_or_empty(o: &Option<String>) -> (r: &str)
    ensures
        r@ == or_empty(*o),
{
    match o {
        Some(s) => s.as_str(),
        None => {
            proof {
                reveal_strlit("");
            }
            assert(""@ =~= Seq::<char>::empty());
            ""
        },
    }
}

fn label_str(c: Category) -> (r: &'static str)
    ensures
        r@ == label(c),
{
    match c {
        Category::Wast => "wast",
        Category::Wpt => "wpt",
        Category::Js => "js",
    }
}

fn source_str(c: Category) -> (r: &'static str)
    ensures
        r@ == source_dir(c),
{
    match c {
        Category::Wast => "test/core",
        Category::Wpt => "wpt",
        Category::Js => "js",
    }
}

/// Whether some string of `v` equals `x`.
fn contains_str(v: &Vec<String>, x: &str) -> (r: bool)
    ensures
        r == views(v@).contains(x@),
{
    let mut i: usize = 0;
    while i < v.len()
        invariant
            i <= v@.len(),
            forall|j: int| 0 <= j < i ==> views(v@)[j] != x@,
        decreases v@.len() - i,
    {
        if str_eq(v[i].as_str(), x) {
            assert(views(v@)[i as int] == x@);
            return true;
        }
        i = i + 1;
    }
    false
}

/// `plan` is what `repo` asks for under `config`, with the pin of `lock`.
pub open spec fn plan_for(plan: Plan, repo: Repo, config: Config, lock: Lock) -> bool {
    &&& plan.name@ == repo.name@
    &&& plan.url@ == repo.url@
    &&& opt_view(plan.parent) == opt_view(repo.parent)
    &&& opt_view(plan.pinned) == lookup(lock@, repo.name@)
    &&& views(plan.accept_extra@) == views(repo.included_tests@) + views(config.included_tests@)
    &&& views(plan.reject@) == views(config.excluded_tests@) + views(repo.excluded_tests@)
    &&& plan.skip_wast == repo.skip_wast
    &&& plan.skip_wpt == repo.skip_wpt
    &&& plan.skip_js == repo.skip_js
    &&& opt_view(plan.harness_directive) == opt_view(config.harness_directive)
    &&& plan.directives@ == or_empty(config.directive) + or_empty(repo.directive)
}

impl Plan {
    /// The plan for `repo` under `config`, pinned by `lock`.
    pub fn new(repo: &Repo, config: &Config, lock: &Lock) -> (r: Plan)
        ensures
            plan_for(r, *repo, *config, *lock),
    {
        let pinned = match lock.find_commit(repo.name.as_str()) {
            Some(c) => Some(c.to_owned()),
            None => None,
        };
        let mut accept_extra: Vec<String> = Vec::new();
        extend_strings(&mut accept_extra, &repo.included_tests);
        extend_strings(&mut accept_extra, &config.included_tests);
        let mut reject: Vec<String> = Vec::new();
        extend_strings(&mut reject, &config.excluded_tests);
        extend_strings(&mut reject, &repo.excluded_tests);
        let mut directives = text_or_empty(&config.directive).to_owned();
        directives.append(text_or_empty(&repo.directive));
        Plan {
            name: repo.name.clone(),
            url: repo.url.clone(),
            parent: clone_opt(&repo.parent),
            pinned,
            accept_extra,
            reject,
            skip_wast: repo.skip_wast,
            skip_wpt: repo.skip_wpt,
            skip_js: repo.skip_js,
            harness_directive: clone_opt(&config.harness_directive),
            directives,
        }
    }
}

impl Pipeline {
    /// What the pipeline works from.
    pub closed spec fn the_plan(&self) -> Plan {
        self.plan
    }

    /// A pipeline for `plan`, and its first action: listing the remotes.
    pub fn start(plan: Plan) -> (r: (Pipeline, Action))
        ensures
            r.0.the_plan() == plan,
            r.0@ == initial(),
            r.1@ == ActionView::Git(seq!["remote"@]),
    {
        let p = Pipeline {
            plan,
            stage: Stage::ListRemotes,
            base_hash: String::new(),
            merged: Merge::Unmerged,
            built: false,
            final_message: String::new(),
            selector: None,
            builds: Ghost(0),
        };
        (p, Action::Git(args1("remote")))
    }

    /// Where the pipeline stands.
    pub fn stage(&self) -> (r: Stage)
        ensures
            r == self@.stage,
    {
        self.stage
    }

    fn go_git(&mut self, st: Stage, args: Vec<String>) -> (r: Action)
        ensures
            final(self).plan == old(self).plan,
            (final(self)@, r@) == go_git(old(self)@, st, views(args@)),
    {
        self.stage = st;
        Action::Git(args)
    }

    fn go_abort(&mut self, e: PipelineError) -> (r: Action)
        ensures
            final(self).plan == old(self).plan,
            (final(self)@, r@) == go_abort(old(self)@, e@),
    {
        self.stage = Stage::Done;
        Action::Abort(e)
    }

    fn go_finish(&mut self) -> (r: Action)
        ensures
            final(self).plan == old(self).plan,
            (final(self)@, r@) == go_finish(old(self)@),
    {
        self.stage = Stage::Done;
        Action::Finish(Status {
            commit_base_hash: self.base_hash.clone(),
            commit_final_message: self.final_message.clone(),
            merged: self.merged,
            built: self.built,
        })
    }

    fn go_build(&mut self, st: Stage) -> (r: Action)
        ensures
            final(self).plan == old(self).plan,
            (final(self)@, r@) == go_build(old(self)@, st),
    {
        self.stage = st;
        self.builds = Ghost(self.builds@ + 1);
        Action::Build
    }

    fn go_read_final(&mut self, built: bool) -> (r: Action)
        ensures
            final(self).plan == old(self).plan,
            (final(self)@, r@) == go_read_final(old(self)@, built),
    {
        self.stage = Stage::ReadFinal;
        self.built = built;
        Action::Git(args4("log", "--oneline", "-n", "1"))
    }

    fn go_list(&mut self, c: Category) -> (r: Action)
        ensures
            final(self).plan == old(self).plan,
            final(self)@ == at(old(self)@, Stage::ListCategory(c)),
            r@ == ActionView::List(source_dir(c)),
    {
        self.stage = Stage::ListCategory(c);
        Action::List(source_str(c).to_owned())
    }

    fn go_category(&mut self, from: u8) -> (r: Action)
        ensures
            final(self).plan == old(self).plan,
            (final(self)@, r@) == go_category(old(self).plan, old(self)@, from as int),
    {
        if from <= 0 && !self.plan.skip_wast {
            self.go_list(Category::Wast)
        } else if from <= 1 && self.built && !self.plan.skip_wpt {
            self.go_list(Category::Wpt)
        } else if from <= 2 && self.built && !self.plan.skip_js {
            self.go_list(Category::Js)
        } else {
            self.go_finish()
        }
    }

    fn go_directives(&mut self) -> (r: Action)
        ensures
            final(self).plan == old(self).plan,
            (final(self)@, r@) == go_directives(old(self).plan, old(self)@),
    {
        if self.plan.directives.as_str().unicode_len() > 0 {
            let mut path = "tests/js/".to_owned();
            path.append(self.plan.name.as_str());
            path.append("/directives.txt");
            self.stage = Stage::WriteDirectives;
            Action::Write(path, self.plan.directives.clone())
        } else {
            self.go_finish()
        }
    }

    fn go_harness(&mut self) -> (r: Action)
        ensures
            final(self).plan == old(self).plan,
            (final(self)@, r@) == go_harness(old(self).plan, old(self)@),
    {
        match &self.plan.harness_directive {
            Some(h) => {
                let text = h.clone();
                let mut path = "tests/js/".to_owned();
                path.append(self.plan.name.as_str());
                path.append("/harness/directives.txt");
                self.stage = Stage::WriteHarness;
                Action::Write(path, text)
            },
            None => self.go_directives(),
        }
    }

    fn go_after_copy(&mut self, c: Category) -> (r: Action)
        ensures
            final(self).plan == old(self).plan,
            (final(self)@, r@) == go_after_copy(old(self).plan, old(self)@, c),
    {
        match c {
            Category::Wast => self.go_category(1),
            Category::Wpt => self.go_category(2),
            Category::Js => self.go_harness(),
        }
    }

    fn go_changes(&mut self, paths: &Vec<String>) -> (r: Action)
        ensures
            final(self).plan == old(self).plan,
            (final(self)@, r@) == go_changes(old(self).plan, old(self)@, views(paths@)),
    {
        let changed = changed_tests(paths);
        let acc = build_accept_list(&changed, &self.plan.accept_extra);
        match Selector::new(&acc, &self.plan.reject) {
            Some(sel) => {
                self.selector = Some(sel);
                self.go_category(0)
            },
            None => self.go_abort(PipelineError::InvalidPatterns),
        }
    }

    /// Where a file of category `c` goes in the output tree.
    fn out_path(&self, c: Category, path: &str) -> (r: String)
        ensures
            r@ == out_path(self.plan, c, path@),
    {
        let mut r = "tests/".to_owned();
        r.append(label_str(c));
        r.append("/");
        r.append(self.plan.name.as_str());
        r.append("/");
        r.append(path);
        r
    }

    fn copies(&self, c: Category, chosen: &Vec<String>) -> (r: Vec<CopyItem>)
        ensures
            copy_views(r@) == copy_plan(self.plan, c, views(chosen@)),
    {
        let mut r: Vec<CopyItem> = Vec::new();
        let mut i: usize = 0;
        while i < chosen.len()
            invariant
                i <= chosen@.len(),
                copy_views(r@) == copy_plan(self.plan, c, views(chosen@).take(i as int)),
            decreases chosen@.len() - i,
        {
            let item = CopyItem { from: chosen[i].clone(), to: self.out_path(c, chosen[i].as_str()) };
            proof {
                assert(copy_views(r@.push(item)) =~= copy_views(r@).push((item.from@, item.to@)));
                assert(copy_plan(self.plan, c, views(chosen@).take(i + 1)) =~= copy_plan(
                    self.plan,
                    c,
                    views(chosen@).take(i as int),
                ).push((item.from@, item.to@)));
            }
            r.push(item);
            i = i + 1;
        }
        assert(views(chosen@).take(i as int) =~= views(chosen@));
        r
    }

    /// The branch that tracks the upstream: `<name>/master`.
    fn upstream(&self) -> (r: String)
        ensures
            r@ == upstream(self.plan),
    {
        let mut r = self.plan.name.clone();
        r.append("/master");
        r
    }

    fn merge_message(&self, parent: &str) -> (r: String)
        ensures
            r@ == merge_message(self.plan, self.base_hash@, parent@),
    {
        let mut r = "Merging ".to_owned();
        r.append(self.plan.name.as_str());
        r.append(":");
        r.append(self.base_hash.as_str());
        r.append(" with ");
        r.append(parent);
        r
    }

    /// Takes the outcome of the last action and returns the next action.
    pub fn step(&mut self, ev: Event) -> (r: Action)
        ensures
            final(self).the_plan() == old(self).the_plan(),
            (final(self)@, r@) == next(old(self).the_plan(), old(self)@, ev@),
    {
        match ev {
            Event::Succeeded(out) => self.on_success(out),
            Event::Failed(d) => self.on_failure(d),
            Event::Listed(ps) => self.on_listing(ps),
        }
    }

    fn on_success(&mut self, out: String) -> (r: Action)
        ensures
            final(self).plan == old(self).plan,
            (final(self)@, r@) == next(old(self).plan, old(self)@, EventView::Succeeded(out@)),
    {
        match self.stage {
            Stage::ListRemotes => {
                let ls = lines(out.as_str());
                if contains_str(&ls, self.plan.name.as_str()) {
                    let a = args2("fetch", self.plan.name.as_str());
                    self.go_git(Stage::Fetch, a)
                } else {
                    let a = args4("remote", "add", self.plan.name.as_str(), self.plan.url.as_str());
                    self.go_git(Stage::AddRemote, a)
                }
            },
            Stage::AddRemote => {
                let a = args2("fetch", self.plan.name.as_str());
                self.go_git(Stage::FetchNew, a)
            },
            Stage::FetchNew => {
                let up = self.upstream();
                let a = args4("branch", "--track", self.plan.name.as_str(), up.as_str());
                self.go_git(Stage::Track, a)
            },
            Stage::Track => {
                let a = args2("fetch", self.plan.name.as_str());
                self.go_git(Stage::Fetch, a)
            },
            Stage::Fetch => {
                let a = args2("checkout", self.plan.name.as_str());
                self.go_git(Stage::Checkout, a)
            },
            Stage::Checkout => {
                let base = match &self.plan.pinned {
                    Some(c) => c.clone(),
                    None => self.upstream(),
                };
                let a = args3("reset", base.as_str(), "--hard");
                self.go_git(Stage::ResetBase, a)
            },
            Stage::ResetBase => {
                let a = args4("log", "--pretty=%h", "-n", "1");
                self.go_git(Stage::ReadBase, a)
            },
            Stage::ReadBase => {
                self.base_hash = trim(out.as_str());
                match &self.plan.parent {
                    Some(q) => {
                        let a = args2("fetch", q.as_str());
                        self.go_git(Stage::FetchParent, a)
                    },
                    None => {
                        self.merged = Merge::Unmerged;
                        self.go_build(Stage::Build)
                    },
                }
            },
            Stage::FetchParent => {
                let q = text_or_empty(&self.plan.parent);
                let m = self.merge_message(q);
                let a = args5("merge", "-q", q, "-m", m.as_str());
                self.go_git(Stage::MergeParent, a)
            },
            Stage::MergeParent => {
                self.merged = Merge::Merged;
                self.go_build(Stage::Build)
            },
            Stage::KeepDocument => {
                let a = args2("add", "document");
                self.go_git(Stage::StageDocument, a)
            },
            Stage::StageDocument => {
                let a = args4("-c", "core.editor=true", "merge", "--continue");
                self.go_git(Stage::ContinueMerge, a)
            },
            Stage::ContinueMerge => {
                self.merged = Merge::Merged;
                self.go_build(Stage::Build)
            },
            Stage::AbortMerge => {
                let a = args3("reset", self.base_hash.as_str(), "--hard");
                self.go_git(Stage::ResetConflicted, a)
            },
            Stage::ResetConflicted => {
                self.merged = Merge::Conflicted;
                self.go_build(Stage::Build)
            },
            Stage::Build => self.go_read_final(true),
            Stage::ResetForRetry => self.go_build(Stage::Rebuild),
            Stage::Rebuild => self.go_read_final(true),
            Stage::ReadFinal => {
                self.final_message = out;
                match &self.plan.parent {
                    Some(q) => {
                        let a = args5("diff", "--name-only", self.plan.name.as_str(), q.as_str(), "test/core");
                        self.go_git(Stage::DiffChanges, a)
                    },
                    None => {
                        self.stage = Stage::FindChanges;
                        Action::List("test/core".to_owned())
                    },
                }
            },
            Stage::DiffChanges => {
                let ps = lines(out.as_str());
                self.go_changes(&ps)
            },
            Stage::FindChanges => self.go_abort(PipelineError::Unexpected),
            Stage::ListCategory(_) => self.go_abort(PipelineError::Unexpected),
            Stage::CopyCategory(c) => self.go_after_copy(c),
            Stage::WriteHarness => self.go_directives(),
            Stage::WriteDirectives => self.go_finish(),
            Stage::Done => self.go_abort(PipelineError::Unexpected),
        }
    }

    fn on_failure(&mut self, d: String) -> (r: Action)
        ensures
            final(self).plan == old(self).plan,
            (final(self)@, r@) == next(old(self).plan, old(self)@, EventView::Failed(d@)),
    {
        match self.stage {
            Stage::MergeParent => {
                let a = args3("checkout", "--ours", "document");
                self.go_git(Stage::KeepDocument, a)
            },
            Stage::KeepDocument | Stage::StageDocument | Stage::ContinueMerge => {
                let a = args2("merge", "--abort");
                self.go_git(Stage::AbortMerge, a)
            },
            Stage::Build => {
                if self.plan.parent.is_some() {
                    let a = args3("reset", self.base_hash.as_str(), "--hard");
                    self.go_git(Stage::ResetForRetry, a)
                } else {
                    self.go_read_final(false)
                }
            },
            Stage::Rebuild => self.go_read_final(false),
            Stage::Done => self.go_abort(PipelineError::Unexpected),
            _ => self.go_abort(PipelineError::Failed(d)),
        }
    }

    fn on_listing(&mut self, ps: Vec<String>) -> (r: Action)
        ensures
            final(self).plan == old(self).plan,
            (final(self)@, r@) == next(old(self).plan, old(self)@, EventView::Listed(views(ps@))),
    {
        match self.stage {
            Stage::FindChanges => self.go_changes(&ps),
            Stage::ListCategory(c) => match &self.selector {
                Some(sel) => {
                    let chosen = sel.select(&ps);
                    let items = self.copies(c, &chosen);
                    self.stage = Stage::CopyCategory(c);
                    Action::Copy(items)
                },
                None => self.go_abort(PipelineError::Unexpected),
            },
            _ => self.go_abort(PipelineError::Unexpected),
        }
    }
}

} // verus!
