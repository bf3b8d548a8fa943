//! The bounded table of concurrently tracked paths of one connection.
//!
//! Invariants: the table never holds more than `MAX_TRACKED_PATHS` entries,
//! identities are distinct, and exactly one entry is the active path.

use vstd::prelude::*;
use crate::addr::PathIdentity;
use crate::path::{Path, PathState};

verus! {

/// How many non-retired paths one connection tracks at most.
pub const MAX_TRACKED_PATHS: usize = 4;

/// The bounded mapping from path identity to tracked path.
pub struct PathTable {
    pub paths: Vec<Path>,
    /// Index of the single active path.
    pub active: usize,
}

impl PathTable {
    /// No two entries share an identity.
    pub open spec fn spec_identities_distinct(self) -> bool {
        forall|i: int, j: int|
            0 <= i < j < self.paths@.len()
                ==> self.paths@[i].identity != self.paths@[j].identity
    }

    pub open spec fn spec_wf(self) -> bool {
        &&& 1 <= self.paths@.len() <= MAX_TRACKED_PATHS
        &&& forall|i: int| 0 <= i < self.paths@.len() ==> self.paths@[i].spec_wf()
        &&& self.spec_identities_distinct()
        &&& self.active < self.paths@.len()
        &&& self.paths@[self.active as int].is_active
        &&& forall|i: int|
            0 <= i < self.paths@.len() && i != self.active ==> !self.paths@[i].is_active
    }

    /// Whether some entry carries this identity.
    pub open spec fn spec_contains_identity(self, id: PathIdentity) -> bool {
        exists|i: int| 0 <= i < self.paths@.len() && self.paths@[i].identity == id
    }

    /// Whether entry `i` may be evicted to admit a replacement path: it is not
    /// the active path and is either abandoned or validated (a still-validating
    /// path is never forced out).
    pub open spec fn spec_is_eviction_candidate(self, i: int) -> bool {
        &&& 0 <= i < self.paths@.len()
        &&& i != self.active
        &&& (self.paths@[i].state is Abandoned || self.paths@[i].state is Validated)
    }

    pub open spec fn spec_has_eviction_candidate(self) -> bool {
        exists|i: int| self.spec_is_eviction_candidate(i)
    }

    /// A table holding exactly the connection's initial path, which is active.
    pub fn new(initial: Path) -> (r: PathTable)
        requires
            initial.spec_wf(),
            initial.is_active,
        ensures
            r.spec_wf(),
            r.paths@ =~= seq![initial],
            r.active == 0,
    {
        let mut paths: Vec<Path> = Vec::new();
        paths.push(initial);
        PathTable { paths, active: 0 }
    }

    /// Find the entry carrying this identity, if any.
    pub fn lookup(&self, id: PathIdentity) -> (r: Option<usize>)
        ensures
            match r {
                Some(i) => i < self.paths@.len() && self.paths@[i as int].identity == id,
                None => !self.spec_contains_identity(id),
            },
    {
        let mut i: usize = 0;
        while i < self.paths.len()
            invariant
                i <= self.paths@.len(),
                forall|j: int| 0 <= j < i ==> self.paths@[j].identity != id,
            decreases self.paths@.len() - i,
        {
            if self.paths[i].identity == id {
                return Some(i);
            }
            i += 1;
        }
        None
    }

    /// The active path.
    pub fn active_path(&self) -> (r: &Path)
        requires
            self.spec_wf(),
        ensures
            *r == self.paths@[self.active as int],
    {
        &self.paths[self.active]
    }

    /// Choose the entry to evict when the table is full: an abandoned entry if
    /// one exists, else the least-recently-active validated non-active entry;
    /// ties go to the oldest activity. `None` when nothing is eligible.
    pub fn find_eviction_candidate(&self) -> (r: Option<usize>)
        requires
            self.spec_wf(),
        ensures
            match r {
                Some(i) => {
                    &&& self.spec_is_eviction_candidate(i as int)
                    &&& (exists|j: int|
                        self.spec_is_eviction_candidate(j) && self.paths@[j].state is Abandoned)
                        ==> self.paths@[i as int].state is Abandoned
                    &&& forall|j: int|
                        self.spec_is_eviction_candidate(j)
                            && self.paths@[j].state == self.paths@[i as int].state
                            ==> self.paths@[i as int].last_activity <= self.paths@[j].last_activity
                },
                None => !self.spec_has_eviction_candidate(),
            },
    {
        let mut abandoned: Option<usize> = None;
        let mut validated: Option<usize> = None;
        let mut i: usize = 0;
        while i < self.paths.len()
            invariant
                self.spec_wf(),
                i <= self.paths@.len(),
                match abandoned {
                    Some(a) => {
                        &&& self.spec_is_eviction_candidate(a as int)
                        &&& self.paths@[a as int].state is Abandoned
                        &&& forall|j: int|
                            0 <= j < i && self.spec_is_eviction_candidate(j)
                                && self.paths@[j].state is Abandoned
                                ==> self.paths@[a as int].last_activity
                                    <= self.paths@[j].last_activity
                    },
                    None => forall|j: int|
                        0 <= j < i ==> !(self.spec_is_eviction_candidate(j)
                            && self.paths@[j].state is Abandoned),
                },
                match validated {
                    Some(v) => {
                        &&& self.spec_is_eviction_candidate(v as int)
                        &&& self.paths@[v as int].state is Validated
                        &&& forall|j: int|
                            0 <= j < i && self.spec_is_eviction_candidate(j)
                                && self.paths@[j].state is Validated
                                ==> self.paths@[v as int].last_activity
                                    <= self.paths@[j].last_activity
                    },
                    None => forall|j: int|
                        0 <= j < i ==> !(self.spec_is_eviction_candidate(j)
                            && self.paths@[j].state is Validated),
                },
            decreases self.paths@.len() - i,
        {
            if i != self.active {
                let p = &self.paths[i];
                if matches!(p.state, PathState::Abandoned) {
                    abandoned = match abandoned {
                        Some(a) => {
                            if p.last_activity < self.paths[a].last_activity {
                                Some(i)
                            } else {
                                Some(a)
                            }
                        },
                        None => Some(i),
                    };
                } else if matches!(p.state, PathState::Validated) {
                    validated = match validated {
                        Some(v) => {
                            if p.last_activity < self.paths[v].last_activity {
                                Some(i)
                            } else {
                                Some(v)
                            }
                        },
                        None => Some(i),
                    };
                }
            }
            i += 1;
        }
        match abandoned {
            Some(a) => Some(a),
            None => match validated {
                Some(v) => Some(v),
                None => {
                    assert(!self.spec_has_eviction_candidate()) by {
                        assert forall|j: int| !self.spec_is_eviction_candidate(j) by {
                            if self.spec_is_eviction_candidate(j) {
                                assert(!(self.spec_is_eviction_candidate(j)
                                    && self.paths@[j].state is Abandoned));
                                assert(!(self.spec_is_eviction_candidate(j)
                                    && self.paths@[j].state is Validated));
                            }
                        }
                    }
                    None
                },
            },
        }
    }

    /// Remove the non-active entry at `i`; the active index is adjusted so it
    /// keeps naming the same path.
    pub fn remove_at(&mut self, i: usize)
        requires
            old(self).spec_wf(),
            i < old(self).paths@.len(),
            i != old(self).active,
        ensures
            final(self).spec_wf(),
            final(self).paths@ =~= old(self).paths@.remove(i as int),
            final(self).paths@[final(self).active as int]
                == old(self).paths@[old(self).active as int],
            forall|id: PathIdentity|
                final(self).spec_contains_identity(id)
                    == (old(self).spec_contains_identity(id)
                        && id != old(self).paths@[i as int].identity),
    {
        self.paths.remove(i);
        if i < self.active {
            self.active = self.active - 1;
        }
        proof {
            assert forall|id: PathIdentity|
                self.spec_contains_identity(id)
                    == (old(self).spec_contains_identity(id)
                        && id != old(self).paths@[i as int].identity) by {
                let n = old(self).paths@.len();
                if old(self).spec_contains_identity(id) && id != old(self).paths@[i as int].identity {
                    let w = choose|k: int|
                        0 <= k < n && old(self).paths@[k].identity == id;
                    if w < i {
                        assert(self.paths@[w].identity == id);
                    } else {
                        assert(w != i);
                        assert(self.paths@[w - 1].identity == id);
                    }
                }
                if self.spec_contains_identity(id) {
                    let w = choose|k: int|
                        0 <= k < self.paths@.len() && self.paths@[k].identity == id;
                    if w < i {
                        assert(old(self).paths@[w].identity == id);
                    } else {
                        assert(old(self).paths@[w + 1].identity == id);
                    }
                }
            }
        }
    }

    /// Remove the entry carrying this identity, if one exists and it is not
    /// the active path (the active path is never removed; activity moves
    /// only by promotion). Returns whether an entry was removed.
    pub fn remove(&mut self, id: PathIdentity) -> (removed: bool)
        requires
            old(self).spec_wf(),
        ensures
            final(self).spec_wf(),
            removed == (old(self).spec_contains_identity(id)
                && id != old(self).paths@[old(self).active as int].identity),
            removed ==> !final(self).spec_contains_identity(id)
                && final(self).paths@.len() == old(self).paths@.len() - 1
                && (forall|other: PathIdentity|
                    other != id ==> final(self).spec_contains_identity(other)
                        == old(self).spec_contains_identity(other)),
            !removed ==> *final(self) == *old(self),
    {
        match self.lookup(id) {
            Some(i) => {
                if i == self.active {
                    proof {
                        assert(old(self).paths@[old(self).active as int].identity == id);
                    }
                    false
                } else {
                    proof {
                        assert(old(self).spec_contains_identity(id));
                        assert(id != old(self).paths@[old(self).active as int].identity);
                    }
                    self.remove_at(i);
                    true
                }
            },
            None => false,
        }
    }

    /// Append a new, non-active path under a fresh identity.
    pub fn insert_new(&mut self, p: Path)
        requires
            old(self).spec_wf(),
            old(self).paths@.len() < MAX_TRACKED_PATHS,
            p.spec_wf(),
            !p.is_active,
            !old(self).spec_contains_identity(p.identity),
        ensures
            final(self).spec_wf(),
            final(self).paths@ =~= old(self).paths@.push(p),
            final(self).active == old(self).active,
    {
        self.paths.push(p);
    }

    /// Promote the validated path at `i` to active: the previous active entry
    /// is cleared in the same step, so no state with zero or two active paths
    /// is ever observable.
    pub fn promote(&mut self, i: usize)
        requires
            old(self).spec_wf(),
            i < old(self).paths@.len(),
            old(self).paths@[i as int].state is Validated,
        ensures
            final(self).spec_wf(),
            final(self).active == i,
            final(self).paths@.len() == old(self).paths@.len(),
            final(self).paths@[i as int]
                == (Path { is_active: true, ..old(self).paths@[i as int] }),
            forall|j: int|
                0 <= j < old(self).paths@.len() && j != i && j != old(self).active
                    ==> final(self).paths@[j] == old(self).paths@[j],
            i != old(self).active
                ==> final(self).paths@[old(self).active as int]
                    == (Path { is_active: false, ..old(self).paths@[old(self).active as int] }),
            forall|j: int|
                0 <= j < old(self).paths@.len()
                    ==> final(self).paths@[j].identity == old(self).paths@[j].identity,
    {
        let prev = self.active;
        self.paths[prev].is_active = false;
        self.paths[i].is_active = true;
        self.active = i;
    }
}

} // verus!
