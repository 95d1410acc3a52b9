use vstd::prelude::*;

verus! {

/// Positions and velocities of two point masses in a plane at one instant.
#[derive(Clone, Copy)]
pub struct TwoBodyState<T> {
    pub x1: T,
    pub y1: T,
    pub vx1: T,
    pub vy1: T,
    pub x2: T,
    pub y2: T,
    pub vx2: T,
    pub vy2: T,
}

/// Rate of change of a `TwoBodyState`: velocities in the position slots and
/// accelerations in the velocity slots.
#[derive(Clone, Copy)]
pub struct DerivativeState<T> {
    pub vx1: T,
    pub vy1: T,
    pub ax1: T,
    pub ay1: T,
    pub vx2: T,
    pub vy2: T,
    pub ax2: T,
    pub ay2: T,
}

impl<T> View for TwoBodyState<T> {
    type V = Seq<T>;

    /// The eight components, body 1 before body 2, position before velocity.
    open spec fn view(&self) -> Seq<T> {
        seq![self.x1, self.y1, self.vx1, self.vy1, self.x2, self.y2, self.vx2, self.vy2]
    }
}

impl<T> View for DerivativeState<T> {
    type V = Seq<T>;

    /// The eight components, in the same slot order as a `TwoBodyState`.
    open spec fn view(&self) -> Seq<T> {
        seq![self.vx1, self.vy1, self.ax1, self.ay1, self.vx2, self.vy2, self.ax2, self.ay2]
    }
}


impl<T: Copy> TwoBodyState<T> {
    /// Multiplies every component by `k`, computing `times(c, k)` for each
    /// component `c` in turn.
    pub fn scale_with<F: Fn(T, T) -> T>(&self, k: T, times: F) -> (r: TwoBodyState<T>)
        requires
            forall|a: T, b: T| times.requires((a, b)),
        ensures
            forall|i: int| 0 <= i < 8 ==> times.ensures((self@[i], k), #[trigger] r@[i]),
    {
        let r = TwoBodyState {
            x1: times(self.x1, k),
            y1: times(self.y1, k),
            vx1: times(self.vx1, k),
            vy1: times(self.vy1, k),
            x2: times(self.x2, k),
            y2: times(self.y2, k),
            vx2: times(self.vx2, k),
            vy2: times(self.vy2, k),
        };
        assert forall|i: int| 0 <= i < 8 implies times.ensures((self@[i], k), #[trigger] r@[i]) by {
            if i == 0 {} else if i == 1 {} else if i == 2 {} else if i == 3 {}
            else if i == 4 {} else if i == 5 {} else if i == 6 {} else {}
        }
        r
    }

    /// Adds `other` component by component, computing `plus(a, b)` for each
    /// pair of matching slots.
    pub fn add_with<F: Fn(T, T) -> T>(&self, other: &TwoBodyState<T>, plus: F) -> (r: TwoBodyState<T>)
        requires
            forall|a: T, b: T| plus.requires((a, b)),
        ensures
            forall|i: int| 0 <= i < 8 ==> plus.ensures((self@[i], other@[i]), #[trigger] r@[i]),
    {
        let r = TwoBodyState {
            x1: plus(self.x1, other.x1),
            y1: plus(self.y1, other.y1),
            vx1: plus(self.vx1, other.vx1),
            vy1: plus(self.vy1, other.vy1),
            x2: plus(self.x2, other.x2),
            y2: plus(self.y2, other.y2),
            vx2: plus(self.vx2, other.vx2),
            vy2: plus(self.vy2, other.vy2),
        };
        assert forall|i: int| 0 <= i < 8 implies plus.ensures((self@[i], other@[i]), #[trigger] r@[i]) by {
            if i == 0 {} else if i == 1 {} else if i == 2 {} else if i == 3 {}
            else if i == 4 {} else if i == 5 {} else if i == 6 {} else {}
        }
        r
    }
}

impl<T: Copy> DerivativeState<T> {
    /// Multiplies every component by `k`, computing `times(c, k)` for each
    /// component `c` in turn.
    pub fn scale_with<F: Fn(T, T) -> T>(&self, k: T, times: F) -> (r: DerivativeState<T>)
        requires
            forall|a: T, b: T| times.requires((a, b)),
        ensures
            forall|i: int| 0 <= i < 8 ==> times.ensures((self@[i], k), #[trigger] r@[i]),
    {
        let r = DerivativeState {
            vx1: times(self.vx1, k),
            vy1: times(self.vy1, k),
            ax1: times(self.ax1, k),
            ay1: times(self.ay1, k),
            vx2: times(self.vx2, k),
            vy2: times(self.vy2, k),
            ax2: times(self.ax2, k),
            ay2: times(self.ay2, k),
        };
        assert forall|i: int| 0 <= i < 8 implies times.ensures((self@[i], k), #[trigger] r@[i]) by {
            if i == 0 {} else if i == 1 {} else if i == 2 {} else if i == 3 {}
            else if i == 4 {} else if i == 5 {} else if i == 6 {} else {}
        }
        r
    }
    /// Reinterprets a rate of change as a state-shaped delta, slot for slot.
    pub fn to_twobodystate(&self) -> (r: TwoBodyState<T>)
        ensures
            r@ == self@,
    {
        let r = TwoBodyState {
            x1: self.vx1,
            y1: self.vy1,
            vx1: self.ax1,
            vy1: self.ay1,
            x2: self.vx2,
            y2: self.vy2,
            vx2: self.ax2,
            vy2: self.ay2,
        };
        assert(r@ =~= self@);
        r
    }
}

} // verus!
