//! The snake body: an ordered sequence of grid cells, tail first, head last.

use vstd::prelude::*;

use crate::grid::Cell;

verus! {

/// The snake body. Index 0 is the tail (oldest cell); the last index is the
/// head (most recently added cell). Non-empty at all times during play.
pub struct Snake {
    body: Vec<Cell>,
}

impl View for Snake {
    type V = Seq<Cell>;

    closed spec fn view(&self) -> Seq<Cell> {
        self.body@
    }
}

/// Some non-head cell of the body occupies the same position as the head.
pub open spec fn self_overlap(body: Seq<Cell>) -> bool {
    exists|i: int| 0 <= i < body.len() - 1 && body[i] == body.last()
}

impl Snake {
    /// The body is never empty once play has begun.
    pub open spec fn wf(self) -> bool {
        self@.len() >= 1
    }

    /// The head cell: the last element of the body.
    pub open spec fn head_spec(self) -> Cell {
        self@.last()
    }

    /// A snake of a single cell at the given origin.
    pub fn new(origin: Cell) -> (s: Snake)
        ensures
            s@ =~= seq![origin],
            s.wf(),
    {
        let mut body: Vec<Cell> = Vec::new();
        body.push(origin);
        Snake { body }
    }

    pub fn len(&self) -> (n: usize)
        ensures
            n == self@.len(),
    {
        self.body.len()
    }

    pub fn head(&self) -> (c: Cell)
        requires
            self.wf(),
        ensures
            c == self.head_spec(),
    {
        self.body[self.body.len() - 1]
    }

    /// The cell at a given index, tail first.
    pub fn cell_at(&self, i: usize) -> (c: Cell)
        requires
            i < self@.len(),
        ensures
            c == self@[i as int],
    {
        self.body[i]
    }

    /// All cells of the body, tail first, for the renderer to draw.
    pub fn cells(&self) -> (v: &Vec<Cell>)
        ensures
            v@ == self@,
    {
        &self.body
    }

    /// True iff some non-head cell equals the head: the head has re-entered
    /// the body.
    pub fn hits_self(&self) -> (r: bool)
        requires
            self.wf(),
        ensures
            r == self_overlap(self@),
    {
        let head = self.head();
        let mut i: usize = 0;
        while i < self.body.len() - 1
            invariant
                self.wf(),
                head == self.head_spec(),
                0 <= i <= self@.len() - 1,
                forall|j: int| 0 <= j < i ==> self@[j] != self@.last(),
            decreases self@.len() - 1 - i,
        {
            if crate::grid::cells_equal(&self.body[i], &head) {
                return true;
            }
            i = i + 1;
        }
        false
    }

    /// Advance one step: append the new head; unless the snake just grew,
    /// drop the tail, keeping the length constant.
    pub fn advance(&mut self, new_head: Cell, grew: bool)
        requires
            old(self).wf(),
        ensures
            final(self).wf(),
            final(self).head_spec() == new_head,
            grew ==> final(self)@ == old(self)@.push(new_head),
            !grew ==> final(self)@ == old(self)@.subrange(1, old(self)@.len() as int).push(new_head),
            grew ==> final(self)@.len() == old(self)@.len() + 1,
            !grew ==> final(self)@.len() == old(self)@.len(),
    {
        let ghost before = self@;
        self.body.push(new_head);
        if !grew {
            self.body.remove(0);
            proof {
                assert(self@ =~= before.subrange(1, before.len() as int).push(new_head));
            }
        }
    }
}

} // verus!
