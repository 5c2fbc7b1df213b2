use vstd::prelude::*;

verus! {

/// Hands out element identifiers in allocation order, each one once.
#[derive(Clone, Copy, Debug, PartialEq, Eq)]
pub struct IdCounter {
    /// The identifier that the next allocation returns; `None` once every
    /// `usize` has been handed out.
    pub next: Option<usize>,
}

impl IdCounter {
    /// The identifiers handed out so far: every one below `next`, or every
    /// `usize` once the range is used up.
    pub open spec fn issued(self) -> Set<int> {
        match self.next {
            Some(n) => Set::new(|i: int| 0 <= i < n),
            None => Set::new(|i: int| 0 <= i <= usize::MAX),
        }
    }

    /// What the next allocation returns: `None` once the range is used up.
    pub open spec fn issue(self) -> Option<usize> {
        self.next
    }

    /// The counter after one allocation.
    pub open spec fn advanced(self) -> IdCounter {
        match self.next {
            Some(n) => if n < usize::MAX {
                IdCounter { next: Some((n + 1) as usize) }
            } else {
                IdCounter { next: None }
            },
            None => self,
        }
    }

    /// A counter that has handed out nothing yet.
    pub fn new() -> (r: IdCounter)
        ensures
            r.next == Some(0usize),
            r.issued() == Set::<int>::empty(),
    {
        let r = IdCounter { next: Some(0) };
        assert(r.issued() =~= Set::<int>::empty());
        r
    }

    /// Hands out the next identifier: greater than every one handed out
    /// before, and never handed out again. The last one is `usize::MAX`.
    pub fn allocate(&mut self) -> (r: Option<usize>)
        ensures
            r == old(self).issue(),
            *final(self) == old(self).advanced(),
            old(self).next is Some <==> r is Some,
            r matches Some(id) ==> {
                &&& forall|j: int| old(self).issued().contains(j) ==> j < id
                &&& !old(self).issued().contains(id as int)
                &&& final(self).issued() == old(self).issued().insert(id as int)
            },
    {
        match self.next {
            Some(id) => {
                if id < usize::MAX {
                    self.next = Some(id + 1);
                } else {
                    self.next = None;
                }
                assert(self.issued() =~= old(self).issued().insert(id as int));
                Some(id)
            },
            None => None,
        }
    }
}

/// Of two allocations made one after the other on a counter, the second
/// returns the identifier right after the first whenever both succeed.
pub proof fn lemma_ids_increase(c: IdCounter)
    requires
        c.issue() is Some,
        c.advanced().issue() is Some,
    ensures
        c.advanced().issue().unwrap() == c.issue().unwrap() + 1,
{
}

/// The counter after `n` allocations.
pub open spec fn advanced_by(c: IdCounter, n: nat) -> IdCounter
    decreases n,
{
    if n == 0 {
        c
    } else {
        advanced_by(c, (n - 1) as nat).advanced()
    }
}

/// After `m < n` successful allocations, the identifier that allocation `m`
/// returns is below the one that allocation `n` returns.
pub proof fn lemma_ids_unique(c: IdCounter, m: nat, n: nat)
    requires
        m < n,
        advanced_by(c, n).issue() is Some,
    ensures
        advanced_by(c, m).issue() is Some,
        advanced_by(c, m).issue().unwrap() < advanced_by(c, n).issue().unwrap(),
{
    lemma_positions_grow(c, n);
}

/// While the counter has identifiers left, each allocation moves it on by one.
proof fn lemma_positions_grow(c: IdCounter, n: nat)
    requires
        advanced_by(c, n).next is Some,
    ensures
        c.next is Some,
        forall|k: nat| k <= n ==> #[trigger] advanced_by(c, k).next == Some(
            (c.next.unwrap() + k) as usize,
        ),
        c.next.unwrap() + n <= usize::MAX,
    decreases n,
{
    if n > 0 {
        let p = advanced_by(c, (n - 1) as nat);
        assert(advanced_by(c, n) == p.advanced());
        assert(p.next is Some);
        lemma_positions_grow(c, (n - 1) as nat);
        assert forall|k: nat| k <= n implies #[trigger] advanced_by(c, k).next == Some(
            (c.next.unwrap() + k) as usize,
        ) by {
            if k < n {
            }
        }
    }
}

} // verus!
