//! The lock store: for each repository, the base commit that was used last,
//! so that later runs reset to the same revision.

use vstd::prelude::*;
use crate::text::str_eq;

verus! {

/// One pinned repository: its name and its base commit.
pub struct LockRepo {
    pub name: String,
    pub commit: String,
}

/// The lock store, in the order in which its entries were recorded.
pub struct Lock {
    pub repos: Vec<LockRepo>,
}

/// The entries of a lock store as `(name, commit)` pairs.
pub type Entries = Seq<(Seq<char>, Seq<char>)>;

/// `i` is the first entry recorded under `name`.
pub open spec fn is_first(e: Entries, name: Seq<char>, i: int) -> bool {
    &&& 0 <= i < e.len()
    &&& e[i].0 == name
    &&& forall|j: int| 0 <= j < i ==> #[trigger] e[j].0 != name
}

/// The commit pinned for `name`: that of the first entry under that name.
pub open spec fn lookup(e: Entries, name: Seq<char>) -> Option<Seq<char>> {
    if exists|i: int| is_first(e, name, i) {
        Some(e[choose|i: int| is_first(e, name, i)].1)
    } else {
        None
    }
}

/// The entries after pinning `name` to `commit`: the first entry under
/// that name takes the new commit, or a new entry is appended.
pub open spec fn with_commit(e: Entries, name: Seq<char>, commit: Seq<char>) -> Entries {
    if exists|i: int| is_first(e, name, i) {
        e.update(choose|i: int| is_first(e, name, i), (name, commit))
    } else {
        e.push((name, commit))
    }
}

/// There is at most one first entry under a name.
pub proof fn lemma_first_unique(e: Entries, name: Seq<char>, i: int, k: int)
    requires
        is_first(e, name, i),
        is_first(e, name, k),
    ensures
        i == k,
{
    if i < k {
        assert(e[i].0 != name);
    } else if k < i {
        assert(e[k].0 != name);
    }
}

/// An entry under `name` means a first entry under `name`.
pub proof fn lemma_has_first(e: Entries, name: Seq<char>, i: int)
    requires
        0 <= i < e.len(),
        e[i].0 == name,
    ensures
        exists|k: int| is_first(e, name, k),
    decreases i,
{
    if forall|j: int| 0 <= j < i ==> #[trigger] e[j].0 != name {
        assert(is_first(e, name, i));
    } else {
        let j = choose|j: int| 0 <= j < i && #[trigger] e[j].0 == name;
        lemma_has_first(e, name, j);
    }
}

impl LockRepo {
    pub open spec fn entry(&self) -> (Seq<char>, Seq<char>) {
        (self.name@, self.commit@)
    }
}

impl View for Lock {
    type V = Entries;

    open spec fn view(&self) -> Entries {
        self.repos@.map_values(|r: LockRepo| r.entry())
    }
}

impl Lock {
    /// An empty lock store: nothing is pinned.
    pub fn new() -> (r: Lock)
        ensures
            r@ == Seq::<(Seq<char>, Seq<char>)>::empty(),
    {
        let r = Lock { repos: Vec::new() };
        assert(r@ =~= Seq::<(Seq<char>, Seq<char>)>::empty());
        r
    }

    /// Position of the first entry under `name`, if any.
    fn position(&self, name: &str) -> (r: Option<usize>)
        ensures
            match r {
                Some(i) => is_first(self@, name@, i as int),
                None => forall|j: int| 0 <= j < self@.len() ==> #[trigger] self@[j].0 != name@,
            },
    {
        let mut i: usize = 0;
        while i < self.repos.len()
            invariant
                i <= self.repos@.len(),
                forall|j: int| 0 <= j < i ==> #[trigger] self@[j].0 != name@,
            decreases self.repos@.len() - i,
        {
            if str_eq(self.repos[i].name.as_str(), name) {
                return Some(i);
            }
            i = i + 1;
        }
        None
    }

    /// The commit pinned for `name`, if any.
    pub fn find_commit(&self, name: &str) -> (r: Option<&str>)
        ensures
            match r {
                Some(c) => lookup(self@, name@) == Some(c@),
                None => lookup(self@, name@) is None,
            },
    {
        match self.position(name) {
            Some(i) => {
                proof {
                    let k = choose|k: int| is_first(self@, name@, k);
                    lemma_first_unique(self@, name@, i as int, k);
                }
                Some(self.repos[i].commit.as_str())
            },
            None => None,
        }
    }

    /// Pins `name` to `commit`, replacing the commit of its first entry or
    /// appending a new entry.
    pub fn set_commit(&mut self, name: &str, commit: &str)
        ensures
            final(self)@ == with_commit(old(self)@, name@, commit@),
    {
        match self.position(name) {
            Some(i) => {
                proof {
                    let k = choose|k: int| is_first(old(self)@, name@, k);
                    lemma_first_unique(old(self)@, name@, i as int, k);
                }
                self.repos[i].commit = commit.to_owned();
                assert(self@ =~= with_commit(old(self)@, name@, commit@));
            },
            None => {
                self.repos.push(LockRepo { name: name.to_owned(), commit: commit.to_owned() });
                assert(self@ =~= with_commit(old(self)@, name@, commit@));
            },
        }
    }
}

/// After pinning `name` to `commit`, looking `name` up gives `commit`: a
/// later run resolves the pinned base commit again.
pub proof fn lemma_pin_then_lookup(e: Entries, name: Seq<char>, commit: Seq<char>)
    ensures
        lookup(with_commit(e, name, commit), name) == Some(commit),
{
    let e2 = with_commit(e, name, commit);
    let i = if exists|i: int| is_first(e, name, i) {
        choose|i: int| is_first(e, name, i)
    } else {
        assert forall|j: int| 0 <= j < e.len() implies #[trigger] e2[j].0 != name by {
            if e[j].0 == name {
                lemma_has_first(e, name, j);
            }
        }
        e.len() as int
    };
    assert(is_first(e2, name, i));
    let k = choose|k: int| is_first(e2, name, k);
    lemma_first_unique(e2, name, i, k);
}

/// Pinning `name` leaves what every other name looks up unchanged.
pub proof fn lemma_pin_keeps_others(e: Entries, name: Seq<char>, commit: Seq<char>, other: Seq<char>)
    requires
        other != name,
    ensures
        lookup(with_commit(e, name, commit), other) == lookup(e, other),
{
    let e2 = with_commit(e, name, commit);
    if exists|m: int| is_first(e, other, m) {
        let m = choose|m: int| is_first(e, other, m);
        assert(is_first(e2, other, m));
        let m2 = choose|m2: int| is_first(e2, other, m2);
        lemma_first_unique(e2, other, m, m2);
    } else if exists|m: int| is_first(e2, other, m) {
        let m = choose|m: int| is_first(e2, other, m);
        assert forall|j: int| 0 <= j < m implies #[trigger] e[j].0 != other by {
            assert(e2[j].0 != other);
        }
        assert(is_first(e, other, m));
    }
}

} // verus!
