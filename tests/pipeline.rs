use testsuite_sync::config::{Config, Repo};
use testsuite_sync::lock::Lock;
use testsuite_sync::pipeline::{Action, Event, Merge, Pipeline, Plan, Stage};

fn ok(s: &str) -> Event {
    Event::Succeeded(s.to_string())
}

fn fail() -> Event {
    Event::Failed("exit status 1".to_string())
}

fn listed(ps: &[&str]) -> Event {
    Event::Listed(ps.iter().map(|p| p.to_string()).collect())
}

fn git_args(a: &Action) -> Vec<String> {
    match a {
        Action::Git(v) => v.clone(),
        _ => panic!("expected a git command"),
    }
}

fn expect_git(a: &Action, want: &[&str]) {
    assert_eq!(git_args(a), want.iter().map(|s| s.to_string()).collect::<Vec<_>>());
}

fn copies(a: &Action) -> Vec<(String, String)> {
    match a {
        Action::Copy(v) => v.iter().map(|c| (c.from.clone(), c.to.clone())).collect(),
        _ => panic!("expected copies"),
    }
}

/// Runs a fresh pipeline through syncing, answering `git remote` with
/// `remotes` and the base hash query with `hash`.
fn synced(repo: &Repo, config: &Config, lock: &Lock, remotes: &str, hash: &str) -> (Pipeline, Action) {
    let (mut p, a) = Pipeline::start(Plan::new(repo, config, lock));
    expect_git(&a, &["remote"]);
    let mut a = p.step(ok(remotes));
    if remotes.lines().any(|l| l == repo.name) {
        expect_git(&a, &["fetch", &repo.name]);
    } else {
        expect_git(&a, &["remote", "add", &repo.name, &repo.url]);
        a = p.step(ok(""));
        expect_git(&a, &["fetch", &repo.name]);
        a = p.step(ok(""));
        expect_git(&a, &["branch", "--track", &repo.name, &format!("{}/master", repo.name)]);
        a = p.step(ok(""));
        expect_git(&a, &["fetch", &repo.name]);
    }
    a = p.step(ok(""));
    expect_git(&a, &["checkout", &repo.name]);
    a = p.step(ok(""));
    assert_eq!(git_args(&a)[0], "reset");
    a = p.step(ok(""));
    expect_git(&a, &["log", "--pretty=%h", "-n", "1"]);
    let a = p.step(ok(hash));
    (p, a)
}

#[test]
fn root_repository_copies_all_but_excluded() {
    let mut config = Config::new();
    config.excluded_tests.push("skip_me".to_string());
    let repo = Repo::new("A", "https://example.org/a.git");
    let lock = Lock::new();
    let (mut p, a) = synced(&repo, &config, &lock, "", "abc1234\n");
    assert!(matches!(a, Action::Build));
    let a = p.step(ok(""));
    expect_git(&a, &["log", "--oneline", "-n", "1"]);
    let a = p.step(ok("abc1234 Initial\n"));
    assert!(matches!(&a, Action::List(d) if d == "test/core"));
    let files = ["test/core/foo.wast", "test/core/skip_me.wast"];
    let a = p.step(listed(&files));
    assert!(matches!(&a, Action::List(d) if d == "test/core"));
    let a = p.step(listed(&files));
    assert_eq!(
        copies(&a),
        vec![("test/core/foo.wast".to_string(), "tests/wast/A/test/core/foo.wast".to_string())]
    );
    let a = p.step(ok(""));
    assert!(matches!(&a, Action::List(d) if d == "wpt"));
    let a = p.step(listed(&[]));
    assert!(copies(&a).is_empty());
    let a = p.step(ok(""));
    assert!(matches!(&a, Action::List(d) if d == "js"));
    let a = p.step(listed(&["js/harness/sync_index.js", "js/foo.wast.js"]));
    assert_eq!(
        copies(&a),
        vec![
            ("js/harness/sync_index.js".to_string(), "tests/js/A/js/harness/sync_index.js".to_string()),
            ("js/foo.wast.js".to_string(), "tests/js/A/js/foo.wast.js".to_string()),
        ]
    );
    let a = p.step(ok(""));
    match a {
        Action::Finish(s) => {
            assert_eq!(s.commit_base_hash, "abc1234");
            assert_eq!(s.commit_final_message, "abc1234 Initial\n");
            assert_eq!(s.merged, Merge::Unmerged);
            assert!(s.built);
        }
        _ => panic!("expected the pipeline to finish"),
    }
    assert_eq!(p.stage(), Stage::Done);
}

#[test]
fn child_repository_copies_only_changed_tests() {
    let config = Config::new();
    let mut repo = Repo::new("B", "https://example.org/b.git");
    repo.parent = Some("A".to_string());
    repo.skip_wpt = true;
    repo.skip_js = true;
    let lock = Lock::new();
    let (mut p, a) = synced(&repo, &config, &lock, "A\nB\n", "def5678");
    expect_git(&a, &["fetch", "A"]);
    let a = p.step(ok(""));
    expect_git(&a, &["merge", "-q", "A", "-m", "Merging B:def5678 with A"]);
    let a = p.step(ok(""));
    assert!(matches!(a, Action::Build));
    let a = p.step(ok(""));
    expect_git(&a, &["log", "--oneline", "-n", "1"]);
    let a = p.step(ok("0123abc Merge\n"));
    expect_git(&a, &["diff", "--name-only", "B", "A", "test/core"]);
    let a = p.step(ok("test/core/bar.wast\n"));
    assert!(matches!(&a, Action::List(d) if d == "test/core"));
    let a = p.step(listed(&["test/core/bar.wast", "test/core/foo.wast"]));
    assert_eq!(
        copies(&a),
        vec![("test/core/bar.wast".to_string(), "tests/wast/B/test/core/bar.wast".to_string())]
    );
    match p.step(ok("")) {
        Action::Finish(s) => {
            assert_eq!(s.merged, Merge::Merged);
            assert!(s.built);
        }
        _ => panic!("expected the pipeline to finish"),
    }
}

#[test]
fn root_build_failure_is_not_retried() {
    let config = Config::new();
    let repo = Repo::new("A", "u");
    let (mut p, a) = synced(&repo, &config, &Lock::new(), "A\n", "aaa");
    assert!(matches!(a, Action::Build));
    let a = p.step(fail());
    expect_git(&a, &["log", "--oneline", "-n", "1"]);
    let a = p.step(ok("aaa msg"));
    assert!(matches!(&a, Action::List(d) if d == "test/core"));
    let a = p.step(listed(&["test/core/x.wast"]));
    assert!(matches!(&a, Action::List(d) if d == "test/core"));
    let a = p.step(listed(&["test/core/x.wast"]));
    assert_eq!(copies(&a).len(), 1);
    // generated categories are skipped after a failed build
    match p.step(ok("")) {
        Action::Finish(s) => {
            assert!(!s.built);
            assert_eq!(s.merged, Merge::Unmerged);
        }
        _ => panic!("expected the pipeline to finish"),
    }
}

#[test]
fn child_build_is_retried_once_on_the_base() {
    let config = Config::new();
    let mut repo = Repo::new("B", "u");
    repo.parent = Some("A".to_string());
    let (mut p, a) = synced(&repo, &config, &Lock::new(), "B\n", "bbb");
    expect_git(&a, &["fetch", "A"]);
    p.step(ok(""));
    let a = p.step(ok(""));
    assert!(matches!(a, Action::Build));
    let a = p.step(fail());
    expect_git(&a, &["reset", "bbb", "--hard"]);
    let a = p.step(ok(""));
    assert!(matches!(a, Action::Build));
    let a = p.step(fail());
    expect_git(&a, &["log", "--oneline", "-n", "1"]);
    let a = p.step(ok("bbb msg"));
    expect_git(&a, &["diff", "--name-only", "B", "A", "test/core"]);
    let a = p.step(ok(""));
    let a = p.step(match a {
        Action::List(_) => listed(&[]),
        _ => panic!("expected a listing"),
    });
    assert!(copies(&a).is_empty());
    match p.step(ok("")) {
        Action::Finish(s) => {
            assert!(!s.built);
            assert_eq!(s.merged, Merge::Merged);
        }
        _ => panic!("expected the pipeline to finish"),
    }
}

#[test]
fn conflict_keeps_document_then_abandons_merge() {
    let config = Config::new();
    let mut repo = Repo::new("B", "u");
    repo.parent = Some("A".to_string());
    let (mut p, _) = synced(&repo, &config, &Lock::new(), "B\n", "ccc");
    p.step(ok(""));
    let a = p.step(fail());
    expect_git(&a, &["checkout", "--ours", "document"]);
    let a = p.step(ok(""));
    expect_git(&a, &["add", "document"]);
    let a = p.step(ok(""));
    expect_git(&a, &["-c", "core.editor=true", "merge", "--continue"]);
    let a = p.step(fail());
    expect_git(&a, &["merge", "--abort"]);
    let a = p.step(ok(""));
    expect_git(&a, &["reset", "ccc", "--hard"]);
    let a = p.step(ok(""));
    assert!(matches!(a, Action::Build));
    p.step(ok(""));
    p.step(ok("ccc msg"));
    let a = p.step(ok(""));
    let a = p.step(match a {
        Action::List(_) => listed(&[]),
        _ => panic!("expected a listing"),
    });
    let _ = copies(&a);
    let a = p.step(ok(""));
    let a = p.step(match a {
        Action::List(_) => listed(&[]),
        _ => panic!("expected a listing"),
    });
    let _ = copies(&a);
    let a = p.step(ok(""));
    let a = p.step(match a {
        Action::List(_) => listed(&[]),
        _ => panic!("expected a listing"),
    });
    let _ = copies(&a);
    match p.step(ok("")) {
        Action::Finish(s) => assert_eq!(s.merged, Merge::Conflicted),
        _ => panic!("expected the pipeline to finish"),
    }
}

#[test]
fn document_override_that_succeeds_is_merged() {
    let mut repo = Repo::new("B", "u");
    repo.parent = Some("A".to_string());
    let (mut p, _) = synced(&repo, &Config::new(), &Lock::new(), "B\n", "ddd");
    p.step(ok(""));
    p.step(fail());
    p.step(ok(""));
    p.step(ok(""));
    let a = p.step(ok(""));
    assert!(matches!(a, Action::Build));
}

#[test]
fn pinned_commit_is_the_reset_target() {
    let repo = Repo::new("A", "u");
    let mut lock = Lock::new();
    lock.set_commit("A", "1234567");
    let (mut p, _) = Pipeline::start(Plan::new(&repo, &Config::new(), &lock));
    p.step(ok("A\n"));
    p.step(ok(""));
    let a = p.step(ok(""));
    expect_git(&a, &["reset", "1234567", "--hard"]);
}

#[test]
fn unpinned_repository_resets_to_upstream() {
    let repo = Repo::new("A", "u");
    let (mut p, _) = Pipeline::start(Plan::new(&repo, &Config::new(), &Lock::new()));
    p.step(ok("A\r\n"));
    p.step(ok(""));
    let a = p.step(ok(""));
    expect_git(&a, &["reset", "A/master", "--hard"]);
}

#[test]
fn sync_failure_aborts() {
    let repo = Repo::new("A", "u");
    let (mut p, _) = Pipeline::start(Plan::new(&repo, &Config::new(), &Lock::new()));
    match p.step(Event::Failed("no git".to_string())) {
        Action::Abort(testsuite_sync::pipeline::PipelineError::Failed(d)) => assert_eq!(d, "no git"),
        _ => panic!("expected an abort"),
    }
    assert!(matches!(p.step(ok("")), Action::Abort(testsuite_sync::pipeline::PipelineError::Unexpected)));
}

#[test]
fn listing_where_a_command_was_expected_is_unexpected() {
    let repo = Repo::new("A", "u");
    let (mut p, _) = Pipeline::start(Plan::new(&repo, &Config::new(), &Lock::new()));
    assert!(matches!(
        p.step(listed(&[])),
        Action::Abort(testsuite_sync::pipeline::PipelineError::Unexpected)
    ));
}

#[test]
fn invalid_pattern_aborts() {
    let mut config = Config::new();
    config.excluded_tests.push("(".to_string());
    let repo = Repo::new("A", "u");
    let (mut p, _) = synced(&repo, &config, &Lock::new(), "A\n", "eee");
    p.step(ok(""));
    p.step(ok("eee msg"));
    assert!(matches!(
        p.step(listed(&["test/core/a.wast"])),
        Action::Abort(testsuite_sync::pipeline::PipelineError::InvalidPatterns)
    ));
}

#[test]
fn directives_are_written_after_script_tests() {
    let mut config = Config::new();
    config.harness_directive = Some("harness!".to_string());
    config.directive = Some("global;".to_string());
    let mut repo = Repo::new("A", "u");
    repo.directive = Some("local;".to_string());
    repo.skip_wast = true;
    repo.skip_wpt = true;
    let (mut p, _) = synced(&repo, &config, &Lock::new(), "A\n", "fff");
    p.step(ok(""));
    p.step(ok("fff msg"));
    let a = p.step(listed(&[]));
    assert!(matches!(&a, Action::List(d) if d == "js"));
    p.step(listed(&["js/a.js"]));
    match p.step(ok("")) {
        Action::Write(path, text) => {
            assert_eq!(path, "tests/js/A/harness/directives.txt");
            assert_eq!(text, "harness!");
        }
        _ => panic!("expected the harness directive"),
    }
    match p.step(ok("")) {
        Action::Write(path, text) => {
            assert_eq!(path, "tests/js/A/directives.txt");
            assert_eq!(text, "global;local;");
        }
        _ => panic!("expected the directives"),
    }
    assert!(matches!(p.step(ok("")), Action::Finish(_)));
}

#[test]
fn included_tests_are_selected() {
    let mut config = Config::new();
    config.included_tests.push("extra_global".to_string());
    let mut repo = Repo::new("B", "u");
    repo.parent = Some("A".to_string());
    repo.included_tests.push("extra_local".to_string());
    repo.skip_wpt = true;
    repo.skip_js = true;
    let (mut p, _) = synced(&repo, &config, &Lock::new(), "B\n", "ggg");
    p.step(ok(""));
    p.step(ok(""));
    p.step(ok(""));
    p.step(ok("ggg msg"));
    p.step(ok(""));
    let a = p.step(listed(&[
        "test/core/extra_local.wast",
        "test/core/extra_global.wast",
        "test/core/harness/h.js",
        "test/core/other.wast",
    ]));
    let got: Vec<String> = copies(&a).into_iter().map(|c| c.0).collect();
    assert_eq!(
        got,
        vec!["test/core/extra_local.wast", "test/core/extra_global.wast", "test/core/harness/h.js"]
    );
}
