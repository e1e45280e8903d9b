//! File selection: a candidate path is copied when it matches one of the
//! accept patterns and none of the reject patterns. Patterns are regular
//! expressions matched anywhere in the path, as the `regex` crate matches.

use vstd::prelude::*;
use crate::text::views;
use regex::RegexSet;

verus! {

#[verifier::external_type_specification]
#[verifier::external_body]
pub struct ExRegexSet(regex::RegexSet);

#[verifier::external_type_specification]
#[verifier::external_body]
pub struct ExRegexError(regex::Error);

/// The patterns a compiled regex set holds, in the order they were given.
pub uninterp spec fn set_patterns(s: regex::RegexSet) -> Seq<Seq<char>>;

/// Whether the `regex` crate accepts every one of these patterns.
pub uninterp spec fn patterns_compile(p: Seq<Seq<char>>) -> bool;

/// Whether the regular expression `p` matches somewhere in `t`.
pub uninterp spec fn pattern_matches(p: Seq<char>, t: Seq<char>) -> bool;

/// Some pattern of `ps` matches somewhere in `t`.
pub open spec fn any_matches(ps: Seq<Seq<char>>, t: Seq<char>) -> bool {
    exists|i: int| 0 <= i < ps.len() && #[trigger] pattern_matches(ps[i], t)
}

/// `t` is selected: some accept pattern matches it and no reject
/// pattern does.
pub open spec fn selects(accept: Seq<Seq<char>>, reject: Seq<Seq<char>>, t: Seq<char>) -> bool {
    any_matches(accept, t) && !any_matches(reject, t)
}

/// The selected paths of `ps`, in their order.
pub open spec fn selected_paths(
    accept: Seq<Seq<char>>,
    reject: Seq<Seq<char>>,
    ps: Seq<Seq<char>>,
) -> Seq<Seq<char>>
    decreases ps.len(),
{
    if ps.len() == 0 {
        Seq::empty()
    } else {
        let r = selected_paths(accept, reject, ps.drop_last());
        if selects(accept, reject, ps.last()) {
            r.push(ps.last())
        } else {
            r
        }
    }
}

/// Relies on regex::RegexSet::new: it fails exactly when some pattern is
/// not accepted (a matter of the patterns alone, under the default
/// settings), and the set keeps the patterns in the order given.
#[verifier::external_body]
fn compile_set(patterns: &Vec<String>) -> (r: Result<RegexSet, regex::Error>)
    ensures
        r is Ok <==> patterns_compile(views(patterns@)),
        r is Ok ==> set_patterns(r->Ok_0) == views(patterns@),
{
    RegexSet::new(patterns)
}

/// Relies on regex::RegexSet::is_match: true exactly when one of the
/// set's patterns matches somewhere in the text.
#[verifier::external_body]
fn set_is_match(s: &RegexSet, t: &str) -> (r: bool)
    ensures
        r == (exists|i: int| 0 <= i < set_patterns(*s).len() && #[trigger] pattern_matches(set_patterns(*s)[i], t@)),
{
    s.is_match(t)
}

/// Compiled accept and reject patterns.
pub struct Selector {
    accept: RegexSet,
    reject: RegexSet,
}

impl Selector {
    pub closed spec fn accept_patterns(&self) -> Seq<Seq<char>> {
        set_patterns(self.accept)
    }

    pub closed spec fn reject_patterns(&self) -> Seq<Seq<char>> {
        set_patterns(self.reject)
    }

    /// Compiles the two pattern lists; `None` when a pattern is not a valid
    /// regular expression.
    pub fn new(accept: &Vec<String>, reject: &Vec<String>) -> (r: Option<Selector>)
        ensures
            r is Some <==> patterns_compile(views(accept@)) && patterns_compile(views(reject@)),
            r matches Some(s) ==> s.accept_patterns() == views(accept@)
                && s.reject_patterns() == views(reject@),
    {
        match compile_set(accept) {
            Ok(i) => match compile_set(reject) {
                Ok(e) => Some(Selector { accept: i, reject: e }),
                Err(_) => None,
            },
            Err(_) => None,
        }
    }

    /// Whether `path` is selected.
    pub fn is_selected(&self, path: &str) -> (r: bool)
        ensures
            r == selects(self.accept_patterns(), self.reject_patterns(), path@),
    {
        set_is_match(&self.accept, path) && !set_is_match(&self.reject, path)
    }

    /// The selected paths among `paths`, in their order.
    pub fn select(&self, paths: &Vec<String>) -> (r: Vec<String>)
        ensures
            views(r@) == selected_paths(
                self.accept_patterns(),
                self.reject_patterns(),
                views(paths@),
            ),
    {
        let mut r: Vec<String> = Vec::new();
        let mut i: usize = 0;
        while i < paths.len()
            invariant
                i <= paths@.len(),
                views(r@) == selected_paths(
                    self.accept_patterns(),
                    self.reject_patterns(),
                    views(paths@).take(i as int),
                ),
            decreases paths@.len() - i,
        {
            proof {
                assert(views(paths@).take(i + 1).drop_last() =~= views(paths@).take(i as int));
            }
            if self.is_selected(paths[i].as_str()) {
                let p = paths[i].clone();
                proof {
                    assert(views(r@.push(p)) =~= views(r@).push(p@));
                }
                r.push(p);
            }
            i = i + 1;
        }
        assert(views(paths@).take(i as int) =~= views(paths@));
        r
    }
}

/// Rejection wins: a path that some reject pattern matches is never
/// selected, whatever accept patterns match it.
pub proof fn lemma_reject_wins(accept: Seq<Seq<char>>, reject: Seq<Seq<char>>, t: Seq<char>, i: int)
    requires
        0 <= i < reject.len(),
        pattern_matches(reject[i], t),
    ensures
        !selects(accept, reject, t),
{
}

/// A path that no accept pattern matches is never selected, even where
/// there are no reject patterns at all.
pub proof fn lemma_accept_needed(accept: Seq<Seq<char>>, reject: Seq<Seq<char>>, t: Seq<char>)
    requires
        forall|j: int| 0 <= j < accept.len() ==> !(#[trigger] pattern_matches(accept[j], t)),
    ensures
        !selects(accept, reject, t),
{
}

} // verus!
