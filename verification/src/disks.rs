//! The disks found on the system, and the errors met while listing them.
use std::collections::VecDeque;
use vstd::prelude::*;

verus! {

/// Disks we've discovered (`T`), and the errors (`E`) met while listing
/// them, which are handed out once each in the order they were met.
pub struct DiskList<T, E> {
    disks: Vec<T>,
    errors: VecDeque<E>,
}

impl<T, E> DiskList<T, E> {
    /// The errors not handed out yet, oldest first.
    pub closed spec fn pending_errors(&self) -> Seq<E> {
        self.errors@
    }

    /// The disks discovered.
    pub closed spec fn disk_list(&self) -> Seq<T> {
        self.disks@
    }

    /// A list of `disks`, with the errors met while listing them, oldest
    /// first.
    pub fn new(disks: Vec<T>, errors: Vec<E>) -> (l: Self)
        ensures
            l.disk_list() == disks@,
            l.pending_errors() == errors@,
    {
        let mut q: VecDeque<E> = VecDeque::new();
        let mut errors = errors;
        let ghost all = errors@;
        assert(errors@ + q@ =~= all);
        while errors.len() > 0
            invariant
                errors@ + q@ == all,
            decreases errors.len(),
        {
            let ghost before = errors@;
            let ghost qb = q@;
            let e = errors.pop().unwrap();
            q.push_front(e);
            assert(q@ == seq![e] + qb);
            assert(errors@ + q@ =~= before + qb);
        }
        DiskList { disks, errors: q }
    }

    /// The disks discovered.
    pub fn disks(&self) -> (d: &[T])
        ensures
            d@ == self.disk_list(),
    {
        self.disks.as_slice()
    }

    /// Hands out the oldest error not handed out yet.
    pub fn next_error(&mut self) -> (e: Option<E>)
        ensures
            old(self).pending_errors().len() == 0 ==> e is None && final(self).pending_errors()
                == old(self).pending_errors(),
            old(self).pending_errors().len() > 0 ==> e == Some(old(self).pending_errors()[0])
                && final(self).pending_errors() == old(self).pending_errors().drop_first(),
            final(self).disk_list() == old(self).disk_list(),
    {
        self.errors.pop_front()
    }
}

} // verus!
