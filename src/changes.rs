//! Change-set detection: which source test files count as changed, by base
//! name, and the pattern lists built from them.

use vstd::prelude::*;
use crate::text::{base_name, extension, file_name, has_extension, views};

verus! {

/// A source test file: its extension is `wast`.
pub open spec fn is_test_file(p: Seq<char>) -> bool {
    extension(p) == Some("wast"@)
}

/// The base names of the test files among `ps`, in their order.
pub open spec fn changed_names(ps: Seq<Seq<char>>) -> Seq<Seq<char>>
    decreases ps.len(),
{
    if ps.len() == 0 {
        Seq::empty()
    } else {
        let r = changed_names(ps.drop_last());
        if is_test_file(ps.last()) {
            r.push(base_name(ps.last()))
        } else {
            r
        }
    }
}

/// The base names of the test files among the listed paths: every file of
/// the source tree for a repository without a parent, or the paths that
/// differ from the parent for one with a parent.
pub fn changed_tests(paths: &Vec<String>) -> (r: Vec<String>)
    ensures
        views(r@) == changed_names(views(paths@)),
{
    let mut r: Vec<String> = Vec::new();
    let mut i: usize = 0;
    while i < paths.len()
        invariant
            i <= paths@.len(),
            views(r@) == changed_names(views(paths@).take(i as int)),
        decreases paths@.len() - i,
    {
        proof {
            assert(views(paths@).take(i + 1).drop_last() =~= views(paths@).take(i as int));
        }
        if has_extension(paths[i].as_str(), "wast") {
            let b = file_name(paths[i].as_str());
            proof {
                assert(views(r@.push(b)) =~= views(r@).push(b@));
            }
            r.push(b);
        }
        i = i + 1;
    }
    assert(views(paths@).take(i as int) =~= views(paths@));
    r
}

/// A name is in the change set exactly when some listed path is a test
/// file with that base name.
pub proof fn lemma_changed_members(ps: Seq<Seq<char>>, x: Seq<char>)
    ensures
        changed_names(ps).contains(x) <==> exists|i: int|
            0 <= i < ps.len() && is_test_file(#[trigger] ps[i]) && base_name(ps[i]) == x,
    decreases ps.len(),
{
    if ps.len() > 0 {
        let q = ps.drop_last();
        lemma_changed_members(q, x);
        if changed_names(ps).contains(x) {
            if changed_names(q).contains(x) {
                let i = choose|i: int| 0 <= i < q.len() && is_test_file(#[trigger] q[i]) && base_name(q[i]) == x;
                assert(ps[i] == q[i]);
            } else {
                assert(ps[ps.len() - 1] == ps.last());
            }
        }
        if exists|i: int| 0 <= i < ps.len() && is_test_file(#[trigger] ps[i]) && base_name(ps[i]) == x {
            let i = choose|i: int| 0 <= i < ps.len() && is_test_file(#[trigger] ps[i]) && base_name(ps[i]) == x;
            if i < ps.len() - 1 {
                assert(q[i] == ps[i]);
                assert(changed_names(q).contains(x));
                let k = choose|k: int| 0 <= k < changed_names(q).len() && changed_names(q)[k] == x;
                if is_test_file(ps.last()) {
                    assert(changed_names(ps)[k] == x);
                }
            } else {
                assert(changed_names(ps).last() == x);
            }
        }
    }
}

/// Appends clones of `src` to `dst`.
pub fn extend_strings(dst: &mut Vec<String>, src: &Vec<String>)
    ensures
        views(final(dst)@) == views(old(dst)@) + views(src@),
{
    let mut i: usize = 0;
    while i < src.len()
        invariant
            i <= src@.len(),
            views(dst@) == views(old(dst)@) + views(src@).take(i as int),
        decreases src@.len() - i,
    {
        let s = src[i].clone();
        proof {
            assert(views(dst@.push(s)) =~= views(dst@).push(s@));
            assert(views(src@).take(i + 1) =~= views(src@).take(i as int).push(s@));
        }
        dst.push(s);
        i = i + 1;
    }
    assert(views(src@).take(i as int) =~= views(src@));
}

/// The accept patterns: the changed names, the harness directory, then
/// the explicitly included tests.
pub open spec fn accept_list(changed: Seq<Seq<char>>, extra: Seq<Seq<char>>) -> Seq<Seq<char>> {
    changed.push("harness/"@) + extra
}

pub fn build_accept_list(changed: &Vec<String>, extra: &Vec<String>) -> (r: Vec<String>)
    ensures
        views(r@) == accept_list(views(changed@), views(extra@)),
{
    let mut r: Vec<String> = Vec::new();
    extend_strings(&mut r, changed);
    let h = "harness/".to_owned();
    proof {
        assert(views(r@.push(h)) =~= views(r@).push(h@));
    }
    r.push(h);
    extend_strings(&mut r, extra);
    assert(views(r@) =~= accept_list(views(changed@), views(extra@)));
    r
}

} // verus!
