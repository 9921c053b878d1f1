use vstd::prelude::*;

verus! {

/// Issues integer identities, counting up from 1. No value is issued twice.
pub struct NextId {
    next: i64,
}

impl View for NextId {
    type V = int;

    /// The value that is issued next.
    closed spec fn view(&self) -> int {
        self.next as int
    }
}

impl NextId {
    /// An allocator that has issued nothing yet.
    pub fn new() -> (res: Self)
        ensures
            res@ == 1,
    {
        NextId { next: 1 }
    }

    /// Whether a value is left to issue.
    pub fn has_next(&self) -> (res: bool)
        ensures
            res == (self@ < i64::MAX),
    {
        self.next < i64::MAX
    }

    /// The value that `next_id` would issue.
    pub fn peek(&self) -> (res: i64)
        ensures
            res == self@,
    {
        self.next
    }

    /// Issues the next value.
    pub fn next_id(&mut self) -> (res: i64)
        requires
            old(self)@ < i64::MAX,
        ensures
            res == old(self)@,
            final(self)@ == old(self)@ + 1,
    {
        let next = self.next;
        self.next = next + 1;
        next
    }
}

} // verus!
