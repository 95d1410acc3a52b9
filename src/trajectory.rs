use vstd::prelude::*;

use crate::state::TwoBodyState;

verus! {

/// The positions of both bodies after each completed step, kept as one column
/// per tracked scalar: `x1`, `y1`, `x2`, `y2`.
pub struct Trajectory<T> {
    x1: Vec<T>,
    y1: Vec<T>,
    x2: Vec<T>,
    y2: Vec<T>,
}

impl<T> View for Trajectory<T> {
    type V = Seq<(T, T, T, T)>;

    /// One `(x1, y1, x2, y2)` record per completed step, oldest first.
    closed spec fn view(&self) -> Seq<(T, T, T, T)> {
        Seq::new(self.x1@.len(), |i: int| (self.x1@[i], self.y1@[i], self.x2@[i], self.y2@[i]))
    }
}

impl<T: Copy> Trajectory<T> {
    /// The four columns have one entry per completed step each.
    pub closed spec fn wf(&self) -> bool {
        &&& self.y1@.len() == self.x1@.len()
        &&& self.x2@.len() == self.x1@.len()
        &&& self.y2@.len() == self.x1@.len()
    }

    /// A trajectory with no steps recorded.
    pub fn new() -> (r: Trajectory<T>)
        ensures
            r.wf(),
            r@ == Seq::<(T, T, T, T)>::empty(),
    {
        let r = Trajectory { x1: Vec::new(), y1: Vec::new(), x2: Vec::new(), y2: Vec::new() };
        assert(r@ =~= Seq::<(T, T, T, T)>::empty());
        r
    }

    /// Appends the positions of `s` as the record of one more step.
    pub fn record(&mut self, s: &TwoBodyState<T>)
        requires
            old(self).wf(),
        ensures
            final(self).wf(),
            final(self)@ == old(self)@.push((s.x1, s.y1, s.x2, s.y2)),
    {
        self.x1.push(s.x1);
        self.y1.push(s.y1);
        self.x2.push(s.x2);
        self.y2.push(s.y2);
        assert(self@ =~= old(self)@.push((s.x1, s.y1, s.x2, s.y2)));
    }

    /// The number of steps recorded.
    pub fn len(&self) -> (r: usize)
        requires
            self.wf(),
        ensures
            r == self@.len(),
    {
        self.x1.len()
    }

    /// The column of body 1's x positions.
    pub fn x1(&self) -> (r: &Vec<T>)
        requires
            self.wf(),
        ensures
            r@.len() == self@.len(),
            forall|i: int| 0 <= i < r@.len() ==> #[trigger] r@[i] == self@[i].0,
    {
        &self.x1
    }

    /// The column of body 1's y positions.
    pub fn y1(&self) -> (r: &Vec<T>)
        requires
            self.wf(),
        ensures
            r@.len() == self@.len(),
            forall|i: int| 0 <= i < r@.len() ==> #[trigger] r@[i] == self@[i].1,
    {
        &self.y1
    }

    /// The column of body 2's x positions.
    pub fn x2(&self) -> (r: &Vec<T>)
        requires
            self.wf(),
        ensures
            r@.len() == self@.len(),
            forall|i: int| 0 <= i < r@.len() ==> #[trigger] r@[i] == self@[i].2,
    {
        &self.x2
    }

    /// The column of body 2's y positions.
    pub fn y2(&self) -> (r: &Vec<T>)
        requires
            self.wf(),
        ensures
            r@.len() == self@.len(),
            forall|i: int| 0 <= i < r@.len() ==> #[trigger] r@[i] == self@[i].3,
    {
        &self.y2
    }
}

} // verus!
