use testsuite_sync::changes::changed_tests;
use testsuite_sync::config::{Config, Repo};
use testsuite_sync::lock::Lock;
use testsuite_sync::select::Selector;
use testsuite_sync::text::{file_name, has_extension, lines, str_eq, trim};

fn strings(v: &[&str]) -> Vec<String> {
    v.iter().map(|s| s.to_string()).collect()
}

#[test]
fn lock_pins_and_updates() {
    let mut lock = Lock::new();
    assert_eq!(lock.find_commit("A"), None);
    lock.set_commit("A", "aaa");
    lock.set_commit("B", "bbb");
    assert_eq!(lock.find_commit("A"), Some("aaa"));
    lock.set_commit("A", "ccc");
    assert_eq!(lock.find_commit("A"), Some("ccc"));
    assert_eq!(lock.find_commit("B"), Some("bbb"));
    assert_eq!(lock.repos.len(), 2);
}

#[test]
fn config_finds_repo_for_update() {
    let mut config = Config::new();
    config.repos.push(Repo::new("A", "a"));
    config.repos.push(Repo::new("B", "b"));
    config.find_repo_mut("B").unwrap().skip_js = true;
    assert!(config.repos[1].skip_js);
    assert!(!config.repos[0].skip_js);
    assert!(config.find_repo_mut("C").is_none());
}

#[test]
fn reject_pattern_wins_over_accept() {
    let sel = Selector::new(&strings(&["foo"]), &strings(&["foo"])).unwrap();
    assert!(!sel.is_selected("test/core/foo.wast"));
}

#[test]
fn unaccepted_path_is_not_selected() {
    let sel = Selector::new(&strings(&["bar"]), &Vec::new()).unwrap();
    assert!(!sel.is_selected("test/core/foo.wast"));
    assert!(sel.is_selected("test/core/bar.wast"));
}

#[test]
fn patterns_match_anywhere() {
    let sel = Selector::new(&strings(&["a.c$"]), &Vec::new()).unwrap();
    assert!(sel.is_selected("xx/abc"));
    assert!(!sel.is_selected("abcd"));
    let chosen = sel.select(&strings(&["abc", "abcd", "a-c"]));
    assert_eq!(chosen, strings(&["abc", "a-c"]));
}

#[test]
fn invalid_pattern_is_refused() {
    assert!(Selector::new(&strings(&["["]), &Vec::new()).is_none());
    assert!(Selector::new(&Vec::new(), &strings(&["a("])).is_none());
}

#[test]
fn change_set_keeps_test_files_by_base_name() {
    let got = changed_tests(&strings(&[
        "test/core/a.wast",
        "test/core/sub/b.wast",
        "test/core/c.txt",
        "test/core/.wast",
        "test/core/d.wast.bak",
    ]));
    assert_eq!(got, strings(&["a.wast", "b.wast"]));
}

#[test]
fn text_helpers() {
    assert_eq!(lines("a\nb\r\n\nc"), strings(&["a", "b", "", "c"]));
    assert_eq!(lines("a\n"), strings(&["a"]));
    assert!(lines("").is_empty());
    assert_eq!(trim("  abc1234\n"), "abc1234");
    assert_eq!(trim(" \t "), "");
    assert_eq!(file_name("x/y/z.wast"), "z.wast");
    assert_eq!(file_name("plain"), "plain");
    assert!(has_extension("x/y.wast", "wast"));
    assert!(!has_extension("x.y/z", "y/z"));
    assert!(!has_extension(".wast", "wast"));
    assert!(str_eq("héllo", "héllo"));
    assert!(!str_eq("a", "ab"));
}
