//! The output paths of the exports that are under way: no two exports may
//! write to the same path at the same time.

use vstd::prelude::*;
use crate::engine::texts;
use crate::words::same_text;

verus! {

/// The output paths that are taken. Each is held once.
pub struct OutputLocks {
    held: Vec<String>,
}

impl OutputLocks {
    /// The paths that are taken.
    pub closed spec fn paths(&self) -> Set<Seq<char>> {
        Set::new(|p: Seq<char>| texts(self.held@).contains(p))
    }

    /// Each path that is taken is held once.
    pub closed spec fn wf(&self) -> bool {
        texts(self.held@).no_duplicates()
    }

    /// No path is taken.
    pub fn new() -> (locks: OutputLocks)
        ensures
            locks.wf(),
            locks.paths() == Set::<Seq<char>>::empty(),
    {
        let locks = OutputLocks { held: Vec::new() };
        assert(locks.paths() =~= Set::<Seq<char>>::empty());
        locks
    }

    fn position(&self, path: &str) -> (r: Option<usize>)
        ensures
            match r {
                Some(i) => i < self.held@.len() && texts(self.held@)[i as int] == path@,
                None => !texts(self.held@).contains(path@),
            },
    {
        let mut i: usize = 0;
        while i < self.held.len()
            invariant
                i <= self.held.len(),
                forall|k: int| 0 <= k < i ==> texts(self.held@)[k] != path@,
            decreases self.held.len() - i,
        {
            if same_text(self.held[i].as_str(), path) {
                return Some(i);
            }
            i += 1;
        }
        None
    }

    /// Whether `path` is taken.
    pub fn is_held(&self, path: &str) -> (r: bool)
        ensures
            r == self.paths().contains(path@),
    {
        self.position(path).is_some()
    }

    /// Takes `path` for an export, unless it is taken already: then nothing
    /// changes and the answer is no.
    pub fn try_acquire(&mut self, path: &str) -> (taken: bool)
        requires
            old(self).wf(),
        ensures
            final(self).wf(),
            taken == !old(self).paths().contains(path@),
            final(self).paths() == old(self).paths().insert(path@),
    {
        if self.position(path).is_some() {
            assert(self.paths() =~= self.paths().insert(path@));
            return false;
        }
        let ghost before = texts(self.held@);
        self.held.push(path.to_owned());
        proof {
            assert(texts(self.held@) =~= before.push(path@));
            assert forall|p: Seq<char>| self.paths().contains(p) == old(self).paths().insert(
                path@,
            ).contains(p) by {
                if before.push(path@).contains(p) {
                    let k = choose|k: int|
                        0 <= k < before.push(path@).len() && before.push(path@)[k] == p;
                    if k < before.len() {
                        assert(before[k] == p);
                    }
                }
                if before.contains(p) {
                    let k = choose|k: int| 0 <= k < before.len() && before[k] == p;
                    assert(before.push(path@)[k] == p);
                }
                if p == path@ {
                    assert(before.push(path@)[before.len() as int] == p);
                }
            }
            assert(self.paths() =~= old(self).paths().insert(path@));
        }
        true
    }

    /// Gives `path` back when its export is over. Says whether it was
    /// taken.
    pub fn release(&mut self, path: &str) -> (was_held: bool)
        requires
            old(self).wf(),
        ensures
            final(self).wf(),
            was_held == old(self).paths().contains(path@),
            final(self).paths() == old(self).paths().remove(path@),
    {
        let ghost before = texts(self.held@);
        match self.position(path) {
            None => {
                assert(self.paths() =~= self.paths().remove(path@));
                false
            },
            Some(i) => {
                let _ = self.held.remove(i);
                proof {
                    let after = texts(self.held@);
                    assert(after =~= before.remove(i as int));
                    assert forall|p: Seq<char>| self.paths().contains(p) == old(
                        self,
                    ).paths().remove(path@).contains(p) by {
                        if after.contains(p) {
                            let k = choose|k: int| 0 <= k < after.len() && after[k] == p;
                            if k < i {
                                assert(before[k] == p);
                            } else {
                                assert(before[k + 1] == p);
                            }
                        }
                        if before.contains(p) && p != path@ {
                            let k = choose|k: int| 0 <= k < before.len() && before[k] == p;
                            if k < i {
                                assert(after[k] == p);
                            } else {
                                assert(after[k - 1] == p);
                            }
                        }
                    }
                    assert(self.paths() =~= old(self).paths().remove(path@));
                }
                true
            },
        }
    }
}

} // verus!
