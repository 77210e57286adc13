//! Second-order (biquad) state-variable filter sections: coefficient design for
//! the eight classical responses, the per-sample recurrence, and the frequency
//! response.
use vstd::prelude::*;

use num_complex::Complex;

use crate::first_order_iir::{iir1_set, one_pole_g};
use crate::units::{
    c_add, c_div, clamp_to_nyquist, complex_add, complex_div, r_add, r_mul, r_sub, real_add, real_mul, real_sub,
    ZSample, FP,
};

verus! {

/// Why a validated coefficient design was refused.
#[derive(Copy, Clone, Debug, PartialEq, Eq, Structural)]
pub enum Errors {
    OutsideNyquist,
    NegativeQ,
    NegativeFrequency,
}

/// The response of a second-order section; the shelves and the bell carry
/// their gain in decibels.
#[derive(Clone, Copy, Debug)]
pub enum IIR2Type<DBGain> {
    LowPass,
    HighPass,
    BandPass,
    Notch,
    AllPass,
    LowShelf(DBGain),
    HighShelf(DBGain),
    PeakingEQ(DBGain),
}

#[derive(Copy, Clone, Debug)]
pub struct IIR2Coefficients<T> {
    pub a: T,
    pub g: T,
    pub gpow2: T,
    pub k: T,
    pub a1: T,
    pub a2: T,
    pub a3: T,
    pub m0: T,
    pub m1: T,
    pub m2: T,
    pub fs: T,
}

/// The linear amplitude `a = 10^(gain_db/40)` of a shelf or bell; 1 otherwise.
pub open spec fn response_gain<T: FP>(filter: IIR2Type<T>) -> T {
    match filter {
        IIR2Type::LowShelf(db) => T::spec_powf(T::N10, T::spec_div(db, T::N40)),
        IIR2Type::HighShelf(db) => T::spec_powf(T::N10, T::spec_div(db, T::N40)),
        IIR2Type::PeakingEQ(db) => T::spec_powf(T::N10, T::spec_div(db, T::N40)),
        _ => T::N1,
    }
}

/// The prewarped frequency `tan(π·f0/fs)`, moved by `sqrt(a)` for the shelves.
pub open spec fn response_g<T: FP>(filter: IIR2Type<T>, f0: T, fs: T, a: T) -> T {
    let base = T::spec_tan(T::spec_div(T::spec_mul(T::PI, f0), fs));
    match filter {
        IIR2Type::LowShelf(_) => T::spec_div(base, T::spec_sqrt(a)),
        IIR2Type::HighShelf(_) => T::spec_mul(base, T::spec_sqrt(a)),
        _ => base,
    }
}

/// The damping `k = 1/Q`; `1/(Q·a)` for the bell.
pub open spec fn response_k<T: FP>(filter: IIR2Type<T>, q: T, a: T) -> T {
    match filter {
        IIR2Type::PeakingEQ(_) => T::spec_div(T::N1, T::spec_mul(q, a)),
        _ => T::spec_div(T::N1, q),
    }
}

/// The mixing coefficients `(m0, m1, m2)` that select the response.
pub open spec fn response_mix<T: FP>(filter: IIR2Type<T>, a: T, k: T) -> (T, T, T) {
    match filter {
        IIR2Type::LowPass => (T::N0, T::N0, T::N1),
        IIR2Type::HighPass => (T::N1, T::spec_neg(k), T::spec_neg(T::N1)),
        IIR2Type::BandPass => (T::N0, T::N1, T::N0),
        IIR2Type::Notch => (T::N1, T::spec_neg(k), T::N0),
        IIR2Type::AllPass => (T::N1, T::spec_mul(T::spec_neg(T::N2), k), T::N0),
        IIR2Type::LowShelf(_) => (
            T::N1,
            T::spec_mul(k, T::spec_sub(a, T::N1)),
            T::spec_sub(T::spec_mul(a, a), T::N1),
        ),
        IIR2Type::HighShelf(_) => (
            T::spec_mul(a, a),
            T::spec_mul(T::spec_mul(k, T::spec_sub(T::N1, a)), a),
            T::spec_sub(T::N1, T::spec_mul(a, a)),
        ),
        IIR2Type::PeakingEQ(_) => (
            T::N1,
            T::spec_mul(k, T::spec_sub(T::spec_mul(a, a), T::N1)),
            T::N0,
        ),
    }
}

/// The coefficient set of response `filter` at cutoff `f0`, quality `q` and
/// sample rate `fs`.
pub open spec fn iir2_coefficients<T: FP>(filter: IIR2Type<T>, f0: T, q: T, fs: T) -> IIR2Coefficients<T> {
    let a = response_gain(filter);
    let g = response_g(filter, f0, fs, a);
    let k = response_k(filter, q, a);
    let a1 = T::spec_div(T::N1, T::spec_add(T::N1, T::spec_mul(g, T::spec_add(g, k))));
    let a2 = T::spec_mul(g, a1);
    let a3 = T::spec_mul(g, a2);
    let mix = response_mix(filter, a, k);
    IIR2Coefficients {
        a,
        g,
        gpow2: T::spec_mul(g, g),
        k,
        a1,
        a2,
        a3,
        m0: mix.0,
        m1: mix.1,
        m2: mix.2,
        fs,
    }
}

/// The transfer function of `c` at the point `z` (with its powers).
pub open spec fn iir2_response<T: FP>(c: IIR2Coefficients<T>, z: ZSample<T>) -> Complex<T> {
    let gk = T::spec_mul(c.g, c.k);
    let denominator = c_add(
        r_add(
            T::spec_add(T::spec_add(c.gpow2, gk), T::N1),
            r_mul(T::spec_mul(T::N2, T::spec_sub(c.gpow2, T::N1)), z.pow1),
        ),
        r_mul(T::spec_add(T::spec_sub(c.gpow2, gk), T::N1), z.pow2),
    );
    let numerator = c_add(
        r_mul(T::spec_mul(c.m1, c.g), r_sub(T::N1, z.pow2)),
        r_mul(
            T::spec_mul(c.m2, c.gpow2),
            c_add(r_add(T::N1, r_mul(T::N2, z.pow1)), z.pow2),
        ),
    );
    r_add(c.m0, c_div(numerator, denominator))
}

impl<T: FP> IIR2Coefficients<T> {
    /// Use `norm()` of the result for amplitude and `arg()` for phase; phases of
    /// cascaded sections add.
    pub fn get_bode_sample(self, z: ZSample<T>) -> (r: Complex<T>)
        ensures
            r == iir2_response(self, z),
    {
        let gk = self.g.mul(self.k);
        let denominator = complex_add(
            real_add(
                self.gpow2.add(gk).add(T::N1),
                real_mul(T::N2.mul(self.gpow2.sub(T::N1)), z.pow1),
            ),
            real_mul(self.gpow2.sub(gk).add(T::N1), z.pow2),
        );
        let numerator = complex_add(
            real_mul(self.m1.mul(self.g), real_sub(T::N1, z.pow2)),
            real_mul(
                self.m2.mul(self.gpow2),
                complex_add(real_add(T::N1, real_mul(T::N2, z.pow1)), z.pow2),
            ),
        );
        real_add(self.m0, complex_div(numerator, denominator))
    }

    /// The coefficient formulas shared by every entry point.
    fn design(filter: IIR2Type<T>, fs: T, f0: T, q_value: T) -> (r: IIR2Coefficients<T>)
        ensures
            r == iir2_coefficients(filter, f0, q_value, fs),
    {
        let a = match filter {
            IIR2Type::LowShelf(db_gain) => T::N10.powf(db_gain.div(T::N40)),
            IIR2Type::HighShelf(db_gain) => T::N10.powf(db_gain.div(T::N40)),
            IIR2Type::PeakingEQ(db_gain) => T::N10.powf(db_gain.div(T::N40)),
            _ => T::N1,
        };
        let base = T::PI.mul(f0).div(fs).tan();
        let g = match filter {
            IIR2Type::LowShelf(_) => base.div(a.sqrt()),
            IIR2Type::HighShelf(_) => base.mul(a.sqrt()),
            _ => base,
        };
        let k = match filter {
            IIR2Type::PeakingEQ(_) => T::N1.div(q_value.mul(a)),
            _ => T::N1.div(q_value),
        };
        let a1 = T::N1.div(T::N1.add(g.mul(g.add(k))));
        let a2 = g.mul(a1);
        let a3 = g.mul(a2);
        let (m0, m1, m2) = match filter {
            IIR2Type::LowPass => (T::N0, T::N0, T::N1),
            IIR2Type::HighPass => (T::N1, k.neg(), T::N1.neg()),
            IIR2Type::BandPass => (T::N0, T::N1, T::N0),
            IIR2Type::Notch => (T::N1, k.neg(), T::N0),
            IIR2Type::AllPass => (T::N1, T::N2.neg().mul(k), T::N0),
            IIR2Type::LowShelf(_) => (T::N1, k.mul(a.sub(T::N1)), a.mul(a).sub(T::N1)),
            IIR2Type::HighShelf(_) => (a.mul(a), k.mul(T::N1.sub(a)).mul(a), T::N1.sub(a.mul(a))),
            IIR2Type::PeakingEQ(_) => (T::N1, k.mul(a.mul(a).sub(T::N1)), T::N0),
        };
        IIR2Coefficients { a, g, gpow2: g.mul(g), k, a1, a2, a3, m0, m1, m2, fs }
    }

    /// Validated design: refuses a cutoff at or above Nyquist, a negative Q and
    /// a negative cutoff, checked in that order.
    pub fn from_params(filter: IIR2Type<T>, fs: T, f0: T, q_value: T) -> (r: Result<
        IIR2Coefficients<T>,
        Errors,
    >)
        ensures
            !T::spec_lt(T::spec_mul(T::N2, f0), fs) ==> r == Err::<IIR2Coefficients<T>, Errors>(
                Errors::OutsideNyquist,
            ),
            T::spec_lt(T::spec_mul(T::N2, f0), fs) && T::spec_lt(q_value, T::N0) ==> r == Err::<
                IIR2Coefficients<T>,
                Errors,
            >(Errors::NegativeQ),
            T::spec_lt(T::spec_mul(T::N2, f0), fs) && !T::spec_lt(q_value, T::N0) && T::spec_lt(
                f0,
                T::N0,
            ) ==> r == Err::<IIR2Coefficients<T>, Errors>(Errors::NegativeFrequency),
            T::spec_lt(T::spec_mul(T::N2, f0), fs) && !T::spec_lt(q_value, T::N0) && !T::spec_lt(
                f0,
                T::N0,
            ) ==> r == Ok::<IIR2Coefficients<T>, Errors>(iir2_coefficients(filter, f0, q_value, fs)),
    {
        if !T::N2.mul(f0).lt(fs) {
            return Err(Errors::OutsideNyquist);
        }
        if q_value.lt(T::N0) {
            return Err(Errors::NegativeQ);
        }
        if f0.lt(T::N0) {
            return Err(Errors::NegativeFrequency);
        }
        Ok(Self::design(filter, fs, f0, q_value))
    }

    pub fn lowpass(cutoff_hz: T, _gain_db: T, q_value: T, sample_rate_hz: T) -> (r: IIR2Coefficients<T>)
        ensures
            r == iir2_coefficients(IIR2Type::LowPass, clamp_to_nyquist(cutoff_hz, sample_rate_hz), q_value, sample_rate_hz),
    {
        let f0 = cutoff_hz.min(sample_rate_hz.mul(T::N0_5));
        Self::design(IIR2Type::LowPass, sample_rate_hz, f0, q_value)
    }

    pub fn highpass(cutoff_hz: T, _gain_db: T, q_value: T, sample_rate_hz: T) -> (r: IIR2Coefficients<T>)
        ensures
            r == iir2_coefficients(IIR2Type::HighPass, clamp_to_nyquist(cutoff_hz, sample_rate_hz), q_value, sample_rate_hz),
    {
        let f0 = cutoff_hz.min(sample_rate_hz.mul(T::N0_5));
        Self::design(IIR2Type::HighPass, sample_rate_hz, f0, q_value)
    }

    pub fn bandpass(cutoff_hz: T, _gain_db: T, q_value: T, sample_rate_hz: T) -> (r: IIR2Coefficients<T>)
        ensures
            r == iir2_coefficients(IIR2Type::BandPass, clamp_to_nyquist(cutoff_hz, sample_rate_hz), q_value, sample_rate_hz),
    {
        let f0 = cutoff_hz.min(sample_rate_hz.mul(T::N0_5));
        Self::design(IIR2Type::BandPass, sample_rate_hz, f0, q_value)
    }

    pub fn notch(cutoff_hz: T, _gain_db: T, q_value: T, sample_rate_hz: T) -> (r: IIR2Coefficients<T>)
        ensures
            r == iir2_coefficients(IIR2Type::Notch, clamp_to_nyquist(cutoff_hz, sample_rate_hz), q_value, sample_rate_hz),
    {
        let f0 = cutoff_hz.min(sample_rate_hz.mul(T::N0_5));
        Self::design(IIR2Type::Notch, sample_rate_hz, f0, q_value)
    }

    pub fn allpass(cutoff_hz: T, _gain_db: T, q_value: T, sample_rate_hz: T) -> (r: IIR2Coefficients<T>)
        ensures
            r == iir2_coefficients(IIR2Type::AllPass, clamp_to_nyquist(cutoff_hz, sample_rate_hz), q_value, sample_rate_hz),
    {
        let f0 = cutoff_hz.min(sample_rate_hz.mul(T::N0_5));
        Self::design(IIR2Type::AllPass, sample_rate_hz, f0, q_value)
    }

    pub fn lowshelf(cutoff_hz: T, gain_db: T, q_value: T, sample_rate_hz: T) -> (r: IIR2Coefficients<T>)
        ensures
            r == iir2_coefficients(IIR2Type::LowShelf(gain_db), clamp_to_nyquist(cutoff_hz, sample_rate_hz), q_value, sample_rate_hz),
    {
        let f0 = cutoff_hz.min(sample_rate_hz.mul(T::N0_5));
        Self::design(IIR2Type::LowShelf(gain_db), sample_rate_hz, f0, q_value)
    }

    pub fn highshelf(cutoff_hz: T, gain_db: T, q_value: T, sample_rate_hz: T) -> (r: IIR2Coefficients<T>)
        ensures
            r == iir2_coefficients(IIR2Type::HighShelf(gain_db), clamp_to_nyquist(cutoff_hz, sample_rate_hz), q_value, sample_rate_hz),
    {
        let f0 = cutoff_hz.min(sample_rate_hz.mul(T::N0_5));
        Self::design(IIR2Type::HighShelf(gain_db), sample_rate_hz, f0, q_value)
    }

    pub fn bell(cutoff_hz: T, gain_db: T, q_value: T, sample_rate_hz: T) -> (r: IIR2Coefficients<T>)
        ensures
            r == iir2_coefficients(IIR2Type::PeakingEQ(gain_db), clamp_to_nyquist(cutoff_hz, sample_rate_hz), q_value, sample_rate_hz),
    {
        let f0 = cutoff_hz.min(sample_rate_hz.mul(T::N0_5));
        Self::design(IIR2Type::PeakingEQ(gain_db), sample_rate_hz, f0, q_value)
    }
}

/// One step of the recurrence from integrator state `(ic1, ic2)` on input
/// `x`: the band and low outputs `(v1, v2)` and the next state.
pub open spec fn iir2_step<T: FP>(c: IIR2Coefficients<T>, ic1: T, ic2: T, x: T) -> (T, T, T, T) {
    let v3 = T::spec_sub(x, ic2);
    let v1 = T::spec_add(T::spec_mul(c.a1, ic1), T::spec_mul(c.a2, v3));
    let v2 = T::spec_add(T::spec_add(ic2, T::spec_mul(c.a2, ic1)), T::spec_mul(c.a3, v3));
    (v1, v2, T::spec_sub(T::spec_mul(T::N2, v1), ic1), T::spec_sub(T::spec_mul(T::N2, v2), ic2))
}

/// The output `m0·x + m1·v1 + m2·v2` of one step.
pub open spec fn iir2_output<T: FP>(c: IIR2Coefficients<T>, ic1: T, ic2: T, x: T) -> T {
    let s = iir2_step(c, ic1, ic2, x);
    T::spec_add(T::spec_add(T::spec_mul(c.m0, x), T::spec_mul(c.m1, s.0)), T::spec_mul(c.m2, s.1))
}

/// Internal states and coefficients of the SVF form
#[derive(Copy, Clone, Debug)]
pub struct IIR2<T> {
    ic1eq: T,
    ic2eq: T,
    pub coeffs: IIR2Coefficients<T>,
}

impl<T: FP> IIR2<T> {
    /// The two integrator states.
    pub closed spec fn state(self) -> (T, T) {
        (self.ic1eq, self.ic2eq)
    }

    /// The coefficient set in use.
    pub closed spec fn coefficients(self) -> IIR2Coefficients<T> {
        self.coeffs
    }

    /// Creates a SVF from a set of filter coefficients
    pub fn new(coefficients: IIR2Coefficients<T>) -> (r: Self)
        ensures
            r.coefficients() == coefficients,
            r.state() == (T::N0, T::N0),
    {
        IIR2 { ic1eq: T::N0, ic2eq: T::N0, coeffs: coefficients }
    }

    pub fn run(&mut self, input: T) -> (r: T)
        ensures
            r == iir2_output(old(self).coefficients(), old(self).state().0, old(self).state().1, input),
            final(self).coefficients() == old(self).coefficients(),
            final(self).state() == ({
                let s = iir2_step(old(self).coefficients(), old(self).state().0, old(self).state().1, input);
                (s.2, s.3)
            }),
    {
        let v3 = input.sub(self.ic2eq);
        let v1 = self.coeffs.a1.mul(self.ic1eq).add(self.coeffs.a2.mul(v3));
        let v2 = self.ic2eq.add(self.coeffs.a2.mul(self.ic1eq)).add(self.coeffs.a3.mul(v3));
        self.ic1eq = T::N2.mul(v1).sub(self.ic1eq);
        self.ic2eq = T::N2.mul(v2).sub(self.ic2eq);

        self.coeffs.m0.mul(input).add(self.coeffs.m1.mul(v1)).add(self.coeffs.m2.mul(v2))
    }

    /// Advances the state like `run` and returns the raw `(v1, v2)`.
    pub fn process_partial(&mut self, input: T) -> (r: (T, T))
        ensures
            r == ({
                let s = iir2_step(old(self).coefficients(), old(self).state().0, old(self).state().1, input);
                (s.0, s.1)
            }),
            final(self).coefficients() == old(self).coefficients(),
            final(self).state() == ({
                let s = iir2_step(old(self).coefficients(), old(self).state().0, old(self).state().1, input);
                (s.2, s.3)
            }),
    {
        let v3 = input.sub(self.ic2eq);
        let v1 = self.coeffs.a1.mul(self.ic1eq).add(self.coeffs.a2.mul(v3));
        let v2 = self.ic2eq.add(self.coeffs.a2.mul(self.ic1eq)).add(self.coeffs.a3.mul(v3));
        self.ic1eq = T::N2.mul(v1).sub(self.ic1eq);
        self.ic2eq = T::N2.mul(v2).sub(self.ic2eq);
        (v1, v2)
    }

    /// Replaces the coefficients and keeps the integrator state.
    pub fn update_coefficients(&mut self, new_coefficients: IIR2Coefficients<T>)
        ensures
            final(self).coefficients() == new_coefficients,
            final(self).state() == old(self).state(),
    {
        self.coeffs = new_coefficients;
    }
}

/// The lowpass designs output their lowpass branch alone: the first-order set
/// has `m0 = 0`, the second-order set `(m0, m1) = (0, 0)`, whatever the cutoff,
/// Q and sample rate.
pub proof fn lemma_lowpass_mixing<T: FP>(cutoff: T, q: T, fs: T)
    ensures
        iir1_set(T::N1, one_pole_g(cutoff, fs), T::N0, T::N1).m0 == T::N0,
        iir2_coefficients(IIR2Type::LowPass, clamp_to_nyquist(cutoff, fs), q, fs).m0 == T::N0,
        iir2_coefficients(IIR2Type::LowPass, clamp_to_nyquist(cutoff, fs), q, fs).m1 == T::N0,
{
}

} // verus!
