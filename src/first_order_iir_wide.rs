//! First-order state-variable filters over lane vectors: each lane runs the
//! scalar recurrence of `first_order_iir` with its own coefficients and state.
use vstd::prelude::*;

use crate::first_order_iir::{iir1_output, iir1_step, IIR1Coefficients};
use crate::units::FP;
use crate::wide_units::WIDE;

verus! {

#[derive(Copy, Clone, Debug)]
pub struct WideIIR1Coefficients<T: WIDE> {
    pub a: T,
    pub g: T,
    pub a1: T,
    pub m0: T,
    pub m1: T,
}

/// The scalar coefficient set held in lane `i` of `c`.
pub open spec fn lane_coefficients<T: WIDE>(c: WideIIR1Coefficients<T>, i: int) -> IIR1Coefficients<T::Lane> {
    IIR1Coefficients { a: c.a.lane(i), g: c.g.lane(i), a1: c.a1.lane(i), m0: c.m0.lane(i), m1: c.m1.lane(i) }
}

impl<T: WIDE> WideIIR1Coefficients<T> {
    /// Broadcasts one scalar coefficient set into every lane.
    pub fn from(coeffs: IIR1Coefficients<T::Lane>) -> (r: WideIIR1Coefficients<T>)
        ensures
            forall|i: int| 0 <= i < T::width() ==> #[trigger] lane_coefficients(r, i) == coeffs,
    {
        let a = T::from_w(coeffs.a);
        let g = T::from_w(coeffs.g);
        let a1 = T::from_w(coeffs.a1);
        let m0 = T::from_w(coeffs.m0);
        let m1 = T::from_w(coeffs.m1);
        WideIIR1Coefficients { a, g, a1, m0, m1 }
    }
}

#[derive(Copy, Clone, Debug)]
pub struct WideIIR1<T: WIDE> {
    ic1eq: T,
    pub coeffs: WideIIR1Coefficients<T>,
}

impl<T: WIDE> WideIIR1<T> {
    /// The integrator states, one per lane.
    pub closed spec fn state(self) -> T {
        self.ic1eq
    }

    /// The coefficient sets in use, one per lane.
    pub closed spec fn coefficients(self) -> WideIIR1Coefficients<T> {
        self.coeffs
    }

    pub fn new(coefficients: WideIIR1Coefficients<T>) -> (r: Self)
        ensures
            r.coefficients() == coefficients,
            forall|i: int| 0 <= i < T::width() ==> #[trigger] r.state().lane(i) == <T::Lane as FP>::N0,
    {
        WideIIR1 { ic1eq: T::zero(), coeffs: coefficients }
    }

    /// One step on every lane at once; lane `i` steps exactly as a scalar
    /// filter with lane `i`'s coefficients and state would.
    pub fn process(&mut self, input_sample: T) -> (r: T)
        ensures
            final(self).coefficients() == old(self).coefficients(),
            forall|i: int|
                0 <= i < T::width() ==> #[trigger] r.lane(i) == iir1_output(
                    lane_coefficients(old(self).coefficients(), i),
                    old(self).state().lane(i),
                    input_sample.lane(i),
                ),
            forall|i: int|
                0 <= i < T::width() ==> #[trigger] final(self).state().lane(i) == iir1_step(
                    old(self).coefficients().a1.lane(i),
                    old(self).state().lane(i),
                    input_sample.lane(i),
                ).1,
    {
        let v1 = self.coeffs.a1.mul(input_sample.sub(self.ic1eq));
        let v2 = v1.add(self.ic1eq);
        self.ic1eq = v2.add(v1);

        self.coeffs.m0.mul(input_sample).add(self.coeffs.m1.mul(v2))
    }

    /// Advances the state like `process` and returns the raw lowpass branch of
    /// every lane.
    pub fn process_partial(&mut self, input_sample: T) -> (r: T)
        ensures
            final(self).coefficients() == old(self).coefficients(),
            forall|i: int|
                0 <= i < T::width() ==> #[trigger] r.lane(i) == iir1_step(
                    old(self).coefficients().a1.lane(i),
                    old(self).state().lane(i),
                    input_sample.lane(i),
                ).0,
            forall|i: int|
                0 <= i < T::width() ==> #[trigger] final(self).state().lane(i) == iir1_step(
                    old(self).coefficients().a1.lane(i),
                    old(self).state().lane(i),
                    input_sample.lane(i),
                ).1,
    {
        let v1 = self.coeffs.a1.mul(input_sample.sub(self.ic1eq));
        let v2 = v1.add(self.ic1eq);
        self.ic1eq = v2.add(v1);

        v2
    }

    /// Replaces the coefficients and keeps the integrator state.
    pub fn update_coefficients(&mut self, new_coefficients: WideIIR1Coefficients<T>)
        ensures
            final(self).coefficients() == new_coefficients,
            final(self).state() == old(self).state(),
    {
        self.coeffs = new_coefficients;
    }
}

/// The outputs and the final state of a scalar section with coefficients `c`
/// run over `xs` from integrator state `ic`.
pub open spec fn iir1_run<S: FP>(c: IIR1Coefficients<S>, ic: S, xs: Seq<S>) -> (Seq<S>, S)
    decreases xs.len(),
{
    if xs.len() == 0 {
        (Seq::empty(), ic)
    } else {
        let prev = iir1_run(c, ic, xs.drop_last());
        (prev.0.push(iir1_output(c, prev.1, xs.last())), iir1_step(c.a1, prev.1, xs.last()).1)
    }
}

/// Lane `i` of every vector in `xs`.
pub open spec fn lane_seq<T: WIDE>(xs: Seq<T>, i: int) -> Seq<T::Lane> {
    Seq::new(xs.len(), |n: int| xs[n].lane(i))
}

/// `ys` and `states` are what a wide filter with coefficients `c` produces on
/// inputs `xs`, step by step as `process` does, from state `states[0]`.
pub open spec fn is_wide_run<T: WIDE>(
    c: WideIIR1Coefficients<T>,
    xs: Seq<T>,
    ys: Seq<T>,
    states: Seq<T>,
) -> bool {
    &&& ys.len() == xs.len()
    &&& states.len() == xs.len() + 1
    &&& forall|n: int, i: int|
        0 <= n < xs.len() && 0 <= i < T::width() ==> #[trigger] ys[n].lane(i) == iir1_output(
            lane_coefficients(c, i),
            states[n].lane(i),
            xs[n].lane(i),
        )
    &&& forall|n: int, i: int|
        0 <= n < xs.len() && 0 <= i < T::width() ==> #[trigger] states[n + 1].lane(i) == iir1_step(
            c.a1.lane(i),
            states[n].lane(i),
            xs[n].lane(i),
        ).1
}

/// Running lane-packed filters over a sequence of inputs gives, in every lane,
/// exactly the outputs and final state of the scalar filter with that lane's
/// coefficients run alone over that lane's inputs.
pub proof fn lemma_wide_run_matches_scalar_lanes<T: WIDE>(
    c: WideIIR1Coefficients<T>,
    xs: Seq<T>,
    ys: Seq<T>,
    states: Seq<T>,
    i: int,
)
    requires
        is_wide_run(c, xs, ys, states),
        0 <= i < T::width(),
    ensures
        iir1_run(lane_coefficients(c, i), states[0].lane(i), lane_seq(xs, i)) == (
        lane_seq(ys, i),
        states[xs.len() as int].lane(i),
        ),
    decreases xs.len(),
{
    let n = xs.len() as int;
    if n == 0 {
        assert(lane_seq(ys, i) =~= Seq::empty());
    } else {
        let xs0 = xs.drop_last();
        let ys0 = ys.drop_last();
        let states0 = states.drop_last();
        assert forall|m: int, j: int| 0 <= m < xs0.len() && 0 <= j < T::width() implies #[trigger] ys0[m].lane(j) == iir1_output(
            lane_coefficients(c, j),
            states0[m].lane(j),
            xs0[m].lane(j),
        ) && states0[m + 1].lane(j) == iir1_step(c.a1.lane(j), states0[m].lane(j), xs0[m].lane(j)).1 by {
            assert(ys[m].lane(j) == iir1_output(lane_coefficients(c, j), states[m].lane(j), xs[m].lane(j)));
            assert(states[m + 1].lane(j) == iir1_step(c.a1.lane(j), states[m].lane(j), xs[m].lane(j)).1);
        }
        lemma_wide_run_matches_scalar_lanes(c, xs0, ys0, states0, i);
        assert(lane_seq(xs, i).drop_last() =~= lane_seq(xs0, i));
        assert(ys[n - 1].lane(i) == iir1_output(lane_coefficients(c, i), states[n - 1].lane(i), xs[n - 1].lane(i)));
        assert(states[n].lane(i) == iir1_step(c.a1.lane(i), states[n - 1].lane(i), xs[n - 1].lane(i)).1);
        assert(lane_seq(ys, i) =~= lane_seq(ys0, i).push(ys[n - 1].lane(i)));
    }
}

} // verus!
