//! First-order state-variable filter sections: coefficient design, the
//! per-sample recurrence, and the frequency response.
use vstd::prelude::*;

use num_complex::Complex;

use crate::units::{
    c_add_r, c_div, c_mul_r, clamp_to_nyquist, complex_add_real, complex_div, complex_mul_real,
    r_add, r_mul, real_add, real_mul, FP,
};

verus! {

#[derive(Copy, Clone, Debug)]
pub struct IIR1Coefficients<T: FP> {
    pub a: T,
    pub g: T,
    pub a1: T,
    pub m0: T,
    pub m1: T,
}

/// The prewarped frequency `tan(π·cutoff/fs)`, the cutoff first clamped to Nyquist.
pub open spec fn one_pole_g<T: FP>(cutoff: T, fs: T) -> T {
    T::spec_tan(T::spec_div(T::spec_mul(T::PI, clamp_to_nyquist(cutoff, fs)), fs))
}

/// The shelf amplitude `10^(gain_db/20)`.
pub open spec fn shelf_amplitude<T: FP>(gain_db: T) -> T {
    T::spec_powf(T::N10, T::spec_div(gain_db, T::N20))
}

/// The coefficient set with gain `a`, frequency `g` and mixing `(m0, m1)`;
/// its integrator gain is `a1 = g/(1+g)`.
pub open spec fn iir1_set<T: FP>(a: T, g: T, m0: T, m1: T) -> IIR1Coefficients<T> {
    IIR1Coefficients { a, g, a1: T::spec_div(g, T::spec_add(T::N1, g)), m0, m1 }
}

/// The transfer function of `c` at `z`: `m0 + m1·g·(z+1) / (g + z·(g-1) + 1)`.
pub open spec fn iir1_response<T: FP>(c: IIR1Coefficients<T>, z: Complex<T>) -> Complex<T> {
    let denominator = c_add_r(r_add(c.g, c_mul_r(z, T::spec_sub(c.g, T::N1))), T::N1);
    r_add(c.m0, c_div(r_mul(T::spec_mul(c.m1, c.g), c_add_r(z, T::N1)), denominator))
}

impl<T: FP> IIR1Coefficients<T> {
    /// Use `norm()` of the result for amplitude and `arg()` for phase; phases of
    /// cascaded sections add.
    pub fn get_bode_sample(self, z: Complex<T>) -> (r: Complex<T>)
        ensures
            r == iir1_response(self, z),
    {
        let denominator = complex_add_real(real_add(self.g, complex_mul_real(z, self.g.sub(T::N1))), T::N1);
        real_add(self.m0, complex_div(real_mul(self.m1.mul(self.g), complex_add_real(z, T::N1)), denominator))
    }

    pub fn empty() -> (r: IIR1Coefficients<T>)
        ensures
            r == (IIR1Coefficients { a: T::N0, g: T::N0, a1: T::N0, m0: T::N0, m1: T::N0 }),
    {
        IIR1Coefficients { a: T::N0, g: T::N0, a1: T::N0, m0: T::N0, m1: T::N0 }
    }

    pub fn lowpass(cutoff_hz: T, _gain_db: T, sample_rate_hz: T) -> (r: IIR1Coefficients<T>)
        ensures
            r == iir1_set(T::N1, one_pole_g(cutoff_hz, sample_rate_hz), T::N0, T::N1),
    {
        let cutoff_hz = cutoff_hz.min(sample_rate_hz.mul(T::N0_5));
        let a = T::N1;
        let g = T::PI.mul(cutoff_hz).div(sample_rate_hz).tan();
        let a1 = g.div(T::N1.add(g));
        let m0 = T::N0;
        let m1 = T::N1;
        IIR1Coefficients { a, g, a1, m0, m1 }
    }

    pub fn highpass(cutoff_hz: T, _gain_db: T, sample_rate_hz: T) -> (r: IIR1Coefficients<T>)
        ensures
            r == iir1_set(T::N1, one_pole_g(cutoff_hz, sample_rate_hz), T::N1, T::spec_neg(T::N1)),
    {
        let cutoff_hz = cutoff_hz.min(sample_rate_hz.mul(T::N0_5));
        let a = T::N1;
        let g = T::PI.mul(cutoff_hz).div(sample_rate_hz).tan();
        let a1 = g.div(T::N1.add(g));
        let m0 = T::N1;
        let m1 = T::N1.neg();
        IIR1Coefficients { a, g, a1, m0, m1 }
    }

    pub fn allpass(cutoff_hz: T, _gain_db: T, sample_rate_hz: T) -> (r: IIR1Coefficients<T>)
        ensures
            r == iir1_set(T::N1, one_pole_g(cutoff_hz, sample_rate_hz), T::N1, T::spec_neg(T::N2)),
    {
        let cutoff_hz = cutoff_hz.min(sample_rate_hz.mul(T::N0_5));
        let a = T::N1;
        let g = T::PI.mul(cutoff_hz).div(sample_rate_hz).tan();
        let a1 = g.div(T::N1.add(g));
        let m0 = T::N1;
        let m1 = T::N2.neg();
        IIR1Coefficients { a, g, a1, m0, m1 }
    }

    pub fn lowshelf(cutoff_hz: T, gain_db: T, sample_rate_hz: T) -> (r: IIR1Coefficients<T>)
        ensures
            r == ({
                let a = shelf_amplitude(gain_db);
                iir1_set(
                    a,
                    T::spec_div(one_pole_g(cutoff_hz, sample_rate_hz), T::spec_sqrt(a)),
                    T::N1,
                    T::spec_sub(a, T::N1),
                )
            }),
    {
        let cutoff_hz = cutoff_hz.min(sample_rate_hz.mul(T::N0_5));
        let a = T::N10.powf(gain_db.div(T::N20));
        let g = T::PI.mul(cutoff_hz).div(sample_rate_hz).tan().div(a.sqrt());
        let a1 = g.div(T::N1.add(g));
        let m0 = T::N1;
        let m1 = a.sub(T::N1);
        IIR1Coefficients { a, g, a1, m0, m1 }
    }

    pub fn highshelf(cutoff_hz: T, gain_db: T, sample_rate_hz: T) -> (r: IIR1Coefficients<T>)
        ensures
            r == ({
                let a = shelf_amplitude(gain_db);
                iir1_set(
                    a,
                    T::spec_mul(one_pole_g(cutoff_hz, sample_rate_hz), T::spec_sqrt(a)),
                    a,
                    T::spec_sub(T::N1, a),
                )
            }),
    {
        let cutoff_hz = cutoff_hz.min(sample_rate_hz.mul(T::N0_5));
        let a = T::N10.powf(gain_db.div(T::N20));
        let g = T::PI.mul(cutoff_hz).div(sample_rate_hz).tan().mul(a.sqrt());
        let a1 = g.div(T::N1.add(g));
        let m0 = a;
        let m1 = T::N1.sub(a);
        IIR1Coefficients { a, g, a1, m0, m1 }
    }
}

/// One step of the recurrence from integrator state `ic` on input `x`: the
/// lowpass branch `v2` and the next state.
pub open spec fn iir1_step<T: FP>(a1: T, ic: T, x: T) -> (T, T) {
    let v1 = T::spec_mul(a1, T::spec_sub(x, ic));
    let v2 = T::spec_add(v1, ic);
    (v2, T::spec_add(v2, v1))
}

/// The output `m0·x + m1·v2` of one step.
pub open spec fn iir1_output<T: FP>(c: IIR1Coefficients<T>, ic: T, x: T) -> T {
    T::spec_add(T::spec_mul(c.m0, x), T::spec_mul(c.m1, iir1_step(c.a1, ic, x).0))
}

/// Internal states and coefficients of the SVF form
#[derive(Copy, Clone, Debug)]
pub struct IIR1<T: FP> {
    ic1eq: T,
    pub coeffs: IIR1Coefficients<T>,
}

impl<T: FP> IIR1<T> {
    /// The integrator state.
    pub closed spec fn state(self) -> T {
        self.ic1eq
    }

    /// The coefficient set in use.
    pub closed spec fn coefficients(self) -> IIR1Coefficients<T> {
        self.coeffs
    }

    /// Creates a SVF from a set of filter coefficients
    pub fn new(coefficients: IIR1Coefficients<T>) -> (r: Self)
        ensures
            r.coefficients() == coefficients,
            r.state() == T::N0,
    {
        IIR1 { ic1eq: T::N0, coeffs: coefficients }
    }

    pub fn process(&mut self, input_sample: T) -> (r: T)
        ensures
            r == iir1_output(old(self).coefficients(), old(self).state(), input_sample),
            final(self).state() == iir1_step(old(self).coefficients().a1, old(self).state(), input_sample).1,
            final(self).coefficients() == old(self).coefficients(),
    {
        let v1 = self.coeffs.a1.mul(input_sample.sub(self.ic1eq));
        let v2 = v1.add(self.ic1eq);
        self.ic1eq = v2.add(v1);

        self.coeffs.m0.mul(input_sample).add(self.coeffs.m1.mul(v2))
    }

    /// Advances the state like `process` and returns the raw lowpass branch.
    pub fn process_partial(&mut self, input_sample: T) -> (r: T)
        ensures
            r == iir1_step(old(self).coefficients().a1, old(self).state(), input_sample).0,
            final(self).state() == iir1_step(old(self).coefficients().a1, old(self).state(), input_sample).1,
            final(self).coefficients() == old(self).coefficients(),
    {
        let v1 = self.coeffs.a1.mul(input_sample.sub(self.ic1eq));
        let v2 = v1.add(self.ic1eq);
        self.ic1eq = v2.add(v1);

        v2
    }

    /// Replaces the coefficients and keeps the integrator state.
    pub fn update_coefficients(&mut self, new_coefficients: IIR1Coefficients<T>)
        ensures
            final(self).coefficients() == new_coefficients,
            final(self).state() == old(self).state(),
    {
        self.coeffs = new_coefficients;
    }
}

} // verus!
