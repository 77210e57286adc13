//! The numeric capability that every filter is written against, the unit
//! conversions built on it, complex evaluation points, and Butterworth Q values.
use vstd::prelude::*;

use num_complex::Complex;

verus! {

/// Relies on `num_complex::Complex`: a plain pair of public fields `re` and
/// `im`, which the frequency responses build and read directly.
#[verifier::external_type_specification]
#[verifier::reject_recursive_types(T)]
pub struct ExComplex<T>(Complex<T>);

/// A real number representation the filters can compute with.
///
/// Each operation is named by a spec function of the implementing type, so the
/// contracts of the filters state exactly which operations, in which order, a
/// result is made of, whatever representation carries them out.
pub trait FP: Sized + Copy {
    const N00_5: Self;
    const N0: Self;
    const N0_5: Self;
    const N1: Self;
    const N2: Self;
    const N3: Self;
    const N4: Self;
    const N5: Self;
    const N6: Self;
    const N7: Self;
    const N8: Self;
    const N9: Self;
    const N10: Self;
    const N20: Self;
    const N40: Self;
    const PI: Self;
    const TAU: Self;
    const LN_2: Self;

    spec fn spec_add(a: Self, b: Self) -> Self;

    spec fn spec_sub(a: Self, b: Self) -> Self;

    spec fn spec_mul(a: Self, b: Self) -> Self;

    spec fn spec_div(a: Self, b: Self) -> Self;

    spec fn spec_neg(a: Self) -> Self;

    spec fn spec_lt(a: Self, b: Self) -> bool;

    spec fn spec_min(a: Self, b: Self) -> Self;

    spec fn spec_max(a: Self, b: Self) -> Self;

    spec fn spec_tan(a: Self) -> Self;

    spec fn spec_sin(a: Self) -> Self;

    spec fn spec_cos(a: Self) -> Self;

    spec fn spec_sinh(a: Self) -> Self;

    spec fn spec_sqrt(a: Self) -> Self;

    spec fn spec_powf(a: Self, b: Self) -> Self;

    spec fn spec_log10(a: Self) -> Self;

    spec fn spec_from_u8(n: u8) -> Self;

    fn add(self, rhs: Self) -> (r: Self)
        ensures
            r == Self::spec_add(self, rhs),
    ;

    fn sub(self, rhs: Self) -> (r: Self)
        ensures
            r == Self::spec_sub(self, rhs),
    ;

    fn mul(self, rhs: Self) -> (r: Self)
        ensures
            r == Self::spec_mul(self, rhs),
    ;

    fn div(self, rhs: Self) -> (r: Self)
        ensures
            r == Self::spec_div(self, rhs),
    ;

    fn neg(self) -> (r: Self)
        ensures
            r == Self::spec_neg(self),
    ;

    fn lt(self, rhs: Self) -> (r: bool)
        ensures
            r == Self::spec_lt(self, rhs),
    ;

    fn min(self, rhs: Self) -> (r: Self)
        ensures
            r == Self::spec_min(self, rhs),
    ;

    fn max(self, rhs: Self) -> (r: Self)
        ensures
            r == Self::spec_max(self, rhs),
    ;

    fn tan(self) -> (r: Self)
        ensures
            r == Self::spec_tan(self),
    ;

    fn sin(self) -> (r: Self)
        ensures
            r == Self::spec_sin(self),
    ;

    fn cos(self) -> (r: Self)
        ensures
            r == Self::spec_cos(self),
    ;

    fn sinh(self) -> (r: Self)
        ensures
            r == Self::spec_sinh(self),
    ;

    fn sqrt(self) -> (r: Self)
        ensures
            r == Self::spec_sqrt(self),
    ;

    fn powf(self, exponent: Self) -> (r: Self)
        ensures
            r == Self::spec_powf(self, exponent),
    ;

    fn log10(self) -> (r: Self)
        ensures
            r == Self::spec_log10(self),
    ;

    fn from_u8(n: u8) -> (r: Self)
        ensures
            r == Self::spec_from_u8(n),
    ;
}

/// Conversions between parameter scales, for any value of an `FP` type.
pub trait Units<T: FP>: Sized {
    /// The number that `self` stands for.
    spec fn value(self) -> T;

    /// Maps `self` from `[0, 1]` onto `[bottom, top]`.
    fn to_range(self, bottom: T, top: T) -> (r: T)
        ensures
            r == T::spec_add(T::spec_mul(self.value(), T::spec_sub(top, bottom)), bottom),
    ;

    /// Maps `self` from `[bottom, top]` onto `[0, 1]`.
    fn from_range(self, bottom: T, top: T) -> (r: T)
        ensures
            r == T::spec_div(T::spec_sub(self.value(), bottom), T::spec_sub(top, bottom)),
    ;

    /// Decibels to a linear amplitude: `10^(self / 20)`.
    fn db_to_lin(self) -> (r: T)
        ensures
            r == T::spec_powf(T::N10, T::spec_mul(self.value(), T::N00_5)),
    ;

    /// A linear amplitude to decibels, negative amplitudes counting as zero.
    fn lin_to_db(self) -> (r: T)
        ensures
            r == T::spec_mul(T::spec_log10(T::spec_max(self.value(), T::N0)), T::N20),
    ;

    /// `self` with the sign of `b` applied: negated when `b` is below zero.
    fn sign(self, b: T) -> (r: T)
        ensures
            r == (if T::spec_lt(b, T::N0) {
                T::spec_neg(self.value())
            } else {
                self.value()
            }),
    ;

    /// A bandwidth in octaves to a Q value.
    fn bw_to_q(self, f0: T, fs: T) -> (r: T)
        ensures
            r == T::spec_div(
                T::N1,
                T::spec_mul(
                    T::N2,
                    T::spec_sinh(T::spec_mul(T::spec_div(T::LN_2, T::N2), self.value())),
                ),
            ),
    ;
}

impl<T: FP> Units<T> for T {
    open spec fn value(self) -> T {
        self
    }

    fn to_range(self, bottom: T, top: T) -> (r: T) {
        self.mul(top.sub(bottom)).add(bottom)
    }

    fn from_range(self, bottom: T, top: T) -> (r: T) {
        self.sub(bottom).div(top.sub(bottom))
    }

    fn db_to_lin(self) -> (r: T) {
        T::N10.powf(self.mul(T::N00_5))
    }

    fn lin_to_db(self) -> (r: T) {
        self.max(T::N0).log10().mul(T::N20)
    }

    fn sign(self, b: T) -> (r: T) {
        if b.lt(T::N0) {
            self.neg()
        } else {
            self
        }
    }

    fn bw_to_q(self, _f0: T, _fs: T) -> (r: T) {
        let two = T::N2;
        T::N1.div(two.mul(T::LN_2.div(two).mul(self).sinh()))
    }
}

/// The cutoff `min(cutoff, fs/2)` that that the clamping factories design for.
pub open spec fn clamp_to_nyquist<T: FP>(cutoff: T, fs: T) -> T {
    T::spec_min(cutoff, T::spec_mul(fs, T::N0_5))
}

// Complex arithmetic over an `FP` scalar, operation for operation as
// `num_complex` defines it for its `Complex` type.

/// `a + b`, both complex.
pub open spec fn c_add<T: FP>(a: Complex<T>, b: Complex<T>) -> Complex<T> {
    Complex { re: T::spec_add(a.re, b.re), im: T::spec_add(a.im, b.im) }
}

/// `a * b`, both complex.
pub open spec fn c_mul<T: FP>(a: Complex<T>, b: Complex<T>) -> Complex<T> {
    Complex {
        re: T::spec_sub(T::spec_mul(a.re, b.re), T::spec_mul(a.im, b.im)),
        im: T::spec_add(T::spec_mul(a.re, b.im), T::spec_mul(a.im, b.re)),
    }
}

/// `a / b`, both complex.
pub open spec fn c_div<T: FP>(a: Complex<T>, b: Complex<T>) -> Complex<T> {
    let norm_sqr = T::spec_add(T::spec_mul(b.re, b.re), T::spec_mul(b.im, b.im));
    Complex {
        re: T::spec_div(T::spec_add(T::spec_mul(a.re, b.re), T::spec_mul(a.im, b.im)), norm_sqr),
        im: T::spec_div(T::spec_sub(T::spec_mul(a.im, b.re), T::spec_mul(a.re, b.im)), norm_sqr),
    }
}

/// `a + b`, a real plus a complex number.
pub open spec fn r_add<T: FP>(a: T, b: Complex<T>) -> Complex<T> {
    Complex { re: T::spec_add(a, b.re), im: b.im }
}

/// `a - b`, a real minus a complex number.
pub open spec fn r_sub<T: FP>(a: T, b: Complex<T>) -> Complex<T> {
    Complex { re: T::spec_sub(a, b.re), im: T::spec_sub(T::N0, b.im) }
}

/// `a * b`, a real times a complex number.
pub open spec fn r_mul<T: FP>(a: T, b: Complex<T>) -> Complex<T> {
    Complex { re: T::spec_mul(a, b.re), im: T::spec_mul(a, b.im) }
}

/// `a + b`, a complex plus a real number.
pub open spec fn c_add_r<T: FP>(a: Complex<T>, b: T) -> Complex<T> {
    Complex { re: T::spec_add(a.re, b), im: a.im }
}

/// `a * b`, a complex times a real number.
pub open spec fn c_mul_r<T: FP>(a: Complex<T>, b: T) -> Complex<T> {
    Complex { re: T::spec_mul(a.re, b), im: T::spec_mul(a.im, b) }
}

pub fn complex_add<T: FP>(a: Complex<T>, b: Complex<T>) -> (r: Complex<T>)
    ensures
        r == c_add(a, b),
{
    Complex { re: a.re.add(b.re), im: a.im.add(b.im) }
}

pub fn complex_mul<T: FP>(a: Complex<T>, b: Complex<T>) -> (r: Complex<T>)
    ensures
        r == c_mul(a, b),
{
    let re = a.re.mul(b.re).sub(a.im.mul(b.im));
    let im = a.re.mul(b.im).add(a.im.mul(b.re));
    Complex { re, im }
}

pub fn complex_div<T: FP>(a: Complex<T>, b: Complex<T>) -> (r: Complex<T>)
    ensures
        r == c_div(a, b),
{
    let norm_sqr = b.re.mul(b.re).add(b.im.mul(b.im));
    let re = a.re.mul(b.re).add(a.im.mul(b.im));
    let im = a.im.mul(b.re).sub(a.re.mul(b.im));
    Complex { re: re.div(norm_sqr), im: im.div(norm_sqr) }
}

pub fn real_add<T: FP>(a: T, b: Complex<T>) -> (r: Complex<T>)
    ensures
        r == r_add(a, b),
{
    Complex { re: a.add(b.re), im: b.im }
}

pub fn real_sub<T: FP>(a: T, b: Complex<T>) -> (r: Complex<T>)
    ensures
        r == r_sub(a, b),
{
    Complex { re: a.sub(b.re), im: T::N0.sub(b.im) }
}

pub fn real_mul<T: FP>(a: T, b: Complex<T>) -> (r: Complex<T>)
    ensures
        r == r_mul(a, b),
{
    Complex { re: a.mul(b.re), im: a.mul(b.im) }
}

pub fn complex_add_real<T: FP>(a: Complex<T>, b: T) -> (r: Complex<T>)
    ensures
        r == c_add_r(a, b),
{
    Complex { re: a.re.add(b), im: a.im }
}

pub fn complex_mul_real<T: FP>(a: Complex<T>, b: T) -> (r: Complex<T>)
    ensures
        r == c_mul_r(a, b),
{
    Complex { re: a.re.mul(b), im: a.im.mul(b) }
}

/// A point on the unit circle at an analysis frequency, with its first two powers.
#[derive(Debug)]
#[verifier::reject_recursive_types(T)]
pub struct ZSample<T> {
    pub z: Complex<T>,
    pub pow1: Complex<T>,
    pub pow2: Complex<T>,
}

/// `e^(-i·τ·f/fs)`, written as `cos(w) + sin(w)·i` with `w = -τ·f/fs`.
pub open spec fn unit_point<T: FP>(f_hz: T, fs: T) -> Complex<T> {
    let w = T::spec_div(T::spec_mul(T::spec_neg(T::TAU), f_hz), fs);
    r_add(T::spec_cos(w), r_mul(T::spec_sin(w), Complex { re: T::N0, im: T::N1 }))
}

impl<T: FP> ZSample<T> {
    pub fn new(f_hz: T, fs: T) -> (r: ZSample<T>)
        ensures
            r.z == unit_point(f_hz, fs),
            r.pow1 == r.z,
            r.pow2 == c_mul(r.z, r.z),
    {
        let w = T::TAU.neg().mul(f_hz).div(fs);
        let z = real_add(w.cos(), real_mul(w.sin(), Complex { re: T::N0, im: T::N1 }));
        ZSample { z, pow1: z, pow2: complex_mul(z, z) }
    }
}

/// The Q of pole pair `pole` of a Butterworth filter of order `order`:
/// `1 / (2·cos(θ))`, with `θ` the pair's angle. An odd order has a real pole,
/// numbered 0, whose section is given Q 0.5; its pairs are numbered from 1.
pub open spec fn butterworth_q<T: FP>(order: u8, pole: u8) -> T {
    let pole_inc = T::spec_div(T::PI, T::spec_from_u8(order));
    if order % 2 == 0 {
        let angle = T::spec_add(T::spec_mul(pole_inc, T::N0_5), T::spec_mul(T::spec_from_u8(pole), pole_inc));
        T::spec_div(T::N1, T::spec_mul(T::N2, T::spec_cos(angle)))
    } else if pole == 0 {
        T::N0_5
    } else {
        let angle = T::spec_add(pole_inc, T::spec_mul(T::spec_from_u8((pole - 1) as u8), pole_inc));
        T::spec_div(T::N1, T::spec_mul(T::N2, T::spec_cos(angle)))
    }
}

pub fn butterworth_cascade_q<T: FP>(filter_order: u8, pole: u8) -> (r: T)
    ensures
        r == butterworth_q::<T>(filter_order, pole),
{
    let mut pole = pole;
    let pole_inc: T = T::PI.div(T::from_u8(filter_order));
    let even_order = filter_order & 1 == 0;
    let point_five = T::N0_5;
    let two: T = T::N2;
    assert((filter_order & 1 == 0) == (filter_order % 2 == 0)) by (bit_vector);

    let first_angle = if even_order {
        pole_inc.mul(point_five)
    } else {
        if pole == 0 {
            return point_five;
        }
        pole -= 1;
        pole_inc
    };
    let fpole: T = T::from_u8(pole);
    let a: T = first_angle.add(fpole.mul(pole_inc));
    T::N1.div(two.mul(a.cos()))
}

} // verus!
