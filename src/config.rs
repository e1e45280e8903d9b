//! The configuration: global settings and the repositories, in processing
//! order.

use vstd::prelude::*;
use crate::text::str_eq;

verus! {

/// One proposal repository.
pub struct Repo {
    pub name: String,
    pub url: String,
    pub parent: Option<String>,
    pub directive: Option<String>,
    pub included_tests: Vec<String>,
    pub excluded_tests: Vec<String>,
    pub skip_wast: bool,
    pub skip_wpt: bool,
    pub skip_js: bool,
}

/// Global settings and the repositories.
pub struct Config {
    pub harness_directive: Option<String>,
    pub directive: Option<String>,
    pub included_tests: Vec<String>,
    pub excluded_tests: Vec<String>,
    pub repos: Vec<Repo>,
}

impl Repo {
    /// A repository with the given name and URL and every other setting at
    /// its default: no parent, no directive, no patterns, no category
    /// skipped.
    pub fn new(name: &str, url: &str) -> (r: Repo)
        ensures
            r.name@ == name@,
            r.url@ == url@,
            r.parent is None,
            r.directive is None,
            r.included_tests@.len() == 0,
            r.excluded_tests@.len() == 0,
            !r.skip_wast && !r.skip_wpt && !r.skip_js,
    {
        Repo {
            name: name.to_owned(),
            url: url.to_owned(),
            parent: None,
            directive: None,
            included_tests: Vec::new(),
            excluded_tests: Vec::new(),
            skip_wast: false,
            skip_wpt: false,
            skip_js: false,
        }
    }
}

impl Config {
    /// A configuration with no global settings and no repositories.
    pub fn new() -> (r: Config)
        ensures
            r.harness_directive is None,
            r.directive is None,
            r.included_tests@.len() == 0,
            r.excluded_tests@.len() == 0,
            r.repos@.len() == 0,
    {
        Config {
            harness_directive: None,
            directive: None,
            included_tests: Vec::new(),
            excluded_tests: Vec::new(),
            repos: Vec::new(),
        }
    }

    /// The first repository named `name`, for update in place.
    pub fn find_repo_mut(&mut self, name: &str) -> (r: Option<&mut Repo>)
        ensures
            match r {
                Some(repo) => exists|i: int|
                    0 <= i < old(self).repos@.len()
                    && old(self).repos@[i].name@ == name@
                    && (forall|j: int| 0 <= j < i ==> #[trigger] old(self).repos@[j].name@ != name@)
                    && *repo == old(self).repos@[i]
                    && final(self).repos@ == old(self).repos@.update(i, *final(repo))
                    && final(self).harness_directive == old(self).harness_directive
                    && final(self).directive == old(self).directive
                    && final(self).included_tests == old(self).included_tests
                    && final(self).excluded_tests == old(self).excluded_tests,
                None => (forall|j: int| 0 <= j < old(self).repos@.len()
                    ==> #[trigger] old(self).repos@[j].name@ != name@)
                    && *final(self) == *old(self),
            },
    {
        let mut i: usize = 0;
        while i < self.repos.len()
            invariant
                i <= self.repos@.len(),
                *self == *old(self),
                forall|j: int| 0 <= j < i ==> #[trigger] self.repos@[j].name@ != name@,
            decreases self.repos@.len() - i,
        {
            if str_eq(self.repos[i].name.as_str(), name) {
                return Some(&mut self.repos[i]);
            }
            i = i + 1;
        }
        None
    }
}

} // verus!
