//! A set of file descriptors, as a caller hands it to a readiness wait.

use vstd::prelude::*;

verus! {

/// A finite set of file descriptors.
#[derive(Debug)]
pub struct FdSet {
    fds: Vec<i32>,
}

impl View for FdSet {
    type V = Set<i32>;

    closed spec fn view(&self) -> Set<i32> {
        self.fds@.to_set()
    }
}

impl FdSet {
    /// The empty set.
    pub fn new() -> (set: FdSet)
        ensures
            set@ == Set::<i32>::empty(),
    {
        let set = FdSet { fds: Vec::new() };
        assert(set.fds@.to_set() =~= Set::<i32>::empty());
        set
    }

    /// Tells whether `fd` is in the set.
    pub fn is_set(&self, fd: i32) -> (found: bool)
        ensures
            found == self@.contains(fd),
    {
        let mut i: usize = 0;
        while i < self.fds.len()
            invariant
                i <= self.fds.len(),
                forall|k: int| 0 <= k < i ==> self.fds@[k] != fd,
            decreases self.fds.len() - i,
        {
            if self.fds[i] == fd {
                assert(self.fds@.contains(fd));
                return true;
            }
            i += 1;
        }
        assert(!self.fds@.contains(fd));
        false
    }

    /// Puts `fd` into the set.
    pub fn set(&mut self, fd: i32)
        ensures
            final(self)@ == old(self)@.insert(fd),
    {
        if !self.is_set(fd) {
            self.fds.push(fd);
            assert(self.fds@.to_set() =~= old(self).fds@.to_set().insert(fd)) by {
                assert forall|x: i32| self.fds@.contains(x) <==> (old(self).fds@.contains(x) || x
                    == fd) by {
                    if old(self).fds@.contains(x) {
                        let k = choose|k: int| 0 <= k < old(self).fds@.len() && old(self).fds@[k] == x;
                        assert(self.fds@[k] == x);
                    }
                    if x == fd {
                        assert(self.fds@[self.fds@.len() - 1] == x);
                    }
                }
            }
        } else {
            assert(self.fds@.to_set() =~= self.fds@.to_set().insert(fd));
        }
    }
}

impl Clone for FdSet {
    /// A copy that holds the same descriptors.
    fn clone(&self) -> (copy: FdSet)
        ensures
            copy@ == self@,
    {
        let mut fds: Vec<i32> = Vec::new();
        let mut i: usize = 0;
        while i < self.fds.len()
            invariant
                i <= self.fds.len(),
                fds@ == self.fds@.subrange(0, i as int),
            decreases self.fds.len() - i,
        {
            fds.push(self.fds[i]);
            assert(fds@ =~= self.fds@.subrange(0, i + 1));
            i += 1;
        }
        assert(fds@ =~= self.fds@);
        FdSet { fds }
    }
}

} // verus!
