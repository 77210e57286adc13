//! The lane-vector numeric capability used by the wide filters, and a portable
//! lane vector built on any `FP` type.
use vstd::prelude::*;

use crate::units::FP;

verus! {

/// A vector of `width()` lanes of an `FP` type, with lane-wise arithmetic.
pub trait WIDE: Sized + Copy {
    /// The scalar type of one lane.
    type Lane: FP;

    /// The number of lanes.
    spec fn width() -> nat;

    /// Lane `i` of `self`.
    spec fn lane(self, i: int) -> Self::Lane;

    /// The vector with every lane zero.
    fn zero() -> (r: Self)
        ensures
            forall|i: int| 0 <= i < Self::width() ==> #[trigger] r.lane(i) == <Self::Lane as FP>::N0,
    ;

    /// The vector with every lane `a`.
    fn from_w(a: Self::Lane) -> (r: Self)
        ensures
            forall|i: int| 0 <= i < Self::width() ==> #[trigger] r.lane(i) == a,
    ;

    fn add(self, rhs: Self) -> (r: Self)
        ensures
            forall|i: int|
                0 <= i < Self::width() ==> #[trigger] r.lane(i) == <Self::Lane as FP>::spec_add(
                    self.lane(i),
                    rhs.lane(i),
                ),
    ;

    fn sub(self, rhs: Self) -> (r: Self)
        ensures
            forall|i: int|
                0 <= i < Self::width() ==> #[trigger] r.lane(i) == <Self::Lane as FP>::spec_sub(
                    self.lane(i),
                    rhs.lane(i),
                ),
    ;

    fn mul(self, rhs: Self) -> (r: Self)
        ensures
            forall|i: int|
                0 <= i < Self::width() ==> #[trigger] r.lane(i) == <Self::Lane as FP>::spec_mul(
                    self.lane(i),
                    rhs.lane(i),
                ),
    ;
}

/// `N` lanes of `T`, each computed with `T`'s own operations.
#[derive(Copy, Clone, Debug)]
pub struct Lanes<T, const N: usize> {
    pub lanes: [T; N],
}

impl<T: FP, const N: usize> WIDE for Lanes<T, N> {
    type Lane = T;

    open spec fn width() -> nat {
        N as nat
    }

    open spec fn lane(self, i: int) -> T {
        self.lanes@[i]
    }

    fn zero() -> (r: Self) {
        Lanes { lanes: vstd::array::array_fill_for_copy_types(T::N0) }
    }

    fn from_w(a: T) -> (r: Self) {
        Lanes { lanes: vstd::array::array_fill_for_copy_types(a) }
    }

    fn add(self, rhs: Self) -> (r: Self) {
        let mut out = self.lanes;
        let mut i: usize = 0;
        while i < N
            invariant
                i <= N,
                out@.len() == N,
                forall|j: int| 0 <= j < i ==> out@[j] == T::spec_add(self.lanes@[j], rhs.lanes@[j]),
            decreases N - i,
        {
            let v = self.lanes[i].add(rhs.lanes[i]);
            out.set(i, v);
            i += 1;
        }
        Lanes { lanes: out }
    }

    fn sub(self, rhs: Self) -> (r: Self) {
        let mut out = self.lanes;
        let mut i: usize = 0;
        while i < N
            invariant
                i <= N,
                out@.len() == N,
                forall|j: int| 0 <= j < i ==> out@[j] == T::spec_sub(self.lanes@[j], rhs.lanes@[j]),
            decreases N - i,
        {
            let v = self.lanes[i].sub(rhs.lanes[i]);
            out.set(i, v);
            i += 1;
        }
        Lanes { lanes: out }
    }

    fn mul(self, rhs: Self) -> (r: Self) {
        let mut out = self.lanes;
        let mut i: usize = 0;
        while i < N
            invariant
                i <= N,
                out@.len() == N,
                forall|j: int| 0 <= j < i ==> out@[j] == T::spec_mul(self.lanes@[j], rhs.lanes@[j]),
            decreases N - i,
        {
            let v = self.lanes[i].mul(rhs.lanes[i]);
            out.set(i, v);
            i += 1;
        }
        Lanes { lanes: out }
    }
}

} // verus!
