use num_complex::Complex;
use svf_filters::first_order_iir::{IIR1Coefficients, IIR1};
use svf_filters::first_order_iir_wide::{WideIIR1, WideIIR1Coefficients};
use svf_filters::second_order_iir::{Errors, IIR2Coefficients, IIR2Type, IIR2};
use svf_filters::units::{butterworth_cascade_q, Units, ZSample, FP};
use svf_filters::wide_units::Lanes;
use svf_filters::MAX_CASCADE_COUNT;

#[derive(Copy, Clone, Debug, PartialEq)]
struct F64(f64);

impl FP for F64 {
    const N00_5: Self = F64(0.05);
    const N0: Self = F64(0.0);
    const N0_5: Self = F64(0.5);
    const N1: Self = F64(1.0);
    const N2: Self = F64(2.0);
    const N3: Self = F64(3.0);
    const N4: Self = F64(4.0);
    const N5: Self = F64(5.0);
    const N6: Self = F64(6.0);
    const N7: Self = F64(7.0);
    const N8: Self = F64(8.0);
    const N9: Self = F64(9.0);
    const N10: Self = F64(10.0);
    const N20: Self = F64(20.0);
    const N40: Self = F64(40.0);
    const PI: Self = F64(std::f64::consts::PI);
    const TAU: Self = F64(std::f64::consts::TAU);
    const LN_2: Self = F64(std::f64::consts::LN_2);

    fn add(self, rhs: Self) -> Self {
        F64(self.0 + rhs.0)
    }
    fn sub(self, rhs: Self) -> Self {
        F64(self.0 - rhs.0)
    }
    fn mul(self, rhs: Self) -> Self {
        F64(self.0 * rhs.0)
    }
    fn div(self, rhs: Self) -> Self {
        F64(self.0 / rhs.0)
    }
    fn neg(self) -> Self {
        F64(-self.0)
    }
    fn lt(self, rhs: Self) -> bool {
        self.0 < rhs.0
    }
    fn min(self, rhs: Self) -> Self {
        F64(self.0.min(rhs.0))
    }
    fn max(self, rhs: Self) -> Self {
        F64(self.0.max(rhs.0))
    }
    fn tan(self) -> Self {
        F64(self.0.tan())
    }
    fn sin(self) -> Self {
        F64(self.0.sin())
    }
    fn cos(self) -> Self {
        F64(self.0.cos())
    }
    fn sinh(self) -> Self {
        F64(self.0.sinh())
    }
    fn sqrt(self) -> Self {
        F64(self.0.sqrt())
    }
    fn powf(self, exponent: Self) -> Self {
        F64(self.0.powf(exponent.0))
    }
    fn log10(self) -> Self {
        F64(self.0.log10())
    }
    fn from_u8(n: u8) -> Self {
        F64(n as f64)
    }

    // The named operations the library's contracts speak of are these same
    // operations.
    fn spec_add(a: Self, b: Self) -> Self {
        a.add(b)
    }
    fn spec_sub(a: Self, b: Self) -> Self {
        a.sub(b)
    }
    fn spec_mul(a: Self, b: Self) -> Self {
        a.mul(b)
    }
    fn spec_div(a: Self, b: Self) -> Self {
        a.div(b)
    }
    fn spec_neg(a: Self) -> Self {
        a.neg()
    }
    fn spec_lt(a: Self, b: Self) -> bool {
        a.lt(b)
    }
    fn spec_min(a: Self, b: Self) -> Self {
        a.min(b)
    }
    fn spec_max(a: Self, b: Self) -> Self {
        a.max(b)
    }
    fn spec_tan(a: Self) -> Self {
        a.tan()
    }
    fn spec_sin(a: Self) -> Self {
        a.sin()
    }
    fn spec_cos(a: Self) -> Self {
        a.cos()
    }
    fn spec_sinh(a: Self) -> Self {
        a.sinh()
    }
    fn spec_sqrt(a: Self) -> Self {
        a.sqrt()
    }
    fn spec_powf(a: Self, b: Self) -> Self {
        a.powf(b)
    }
    fn spec_log10(a: Self) -> Self {
        a.log10()
    }
    fn spec_from_u8(n: u8) -> Self {
        Self::from_u8(n)
    }
}

fn rand(x: f64) -> f64 {
    ((x * 12.98983123).sin() * 43758.545345345).fract()
}

fn close(a: f64, b: f64, tol: f64) -> bool {
    (a - b).abs() <= tol
}

fn unit_point(f: f64, fs: f64) -> Complex<F64> {
    let w = -std::f64::consts::TAU * f / fs;
    Complex { re: F64(w.cos()), im: F64(w.sin()) }
}

fn norm(c: Complex<F64>) -> f64 {
    (c.re.0 * c.re.0 + c.im.0 * c.im.0).sqrt()
}

#[test]
fn it_works() {
    assert_eq!(2 + 2, 4);
}

#[test]
fn test_butterworth_cascade_q() {
    let q = |order: u8, pole: u8| butterworth_cascade_q::<F64>(order, pole).0;
    assert_eq!(0.7071067811865475, q(2, 0));

    assert_eq!(0.5, q(3, 0));
    assert_eq!(0.9999999999999998, q(3, 1));

    assert_eq!(0.541196100146197, q(4, 0));
    assert_eq!(1.3065629648763764, q(4, 1));

    assert_eq!(0.5, q(5, 0));
    assert_eq!(0.6180339887498948, q(5, 1));
    assert_eq!(1.6180339887498947, q(5, 2));

    assert_eq!(0.5176380902050415, q(6, 0));
    assert_eq!(0.7071067811865475, q(6, 1));
    assert_eq!(1.931851652578135, q(6, 2));
}

#[test]
fn wide_test() {
    let mut ch1: Vec<f64> = (0..1000).map(|x| rand(x as f64)).collect();
    let mut ch2: Vec<f64> = (1000..2000).map(|x| rand(x as f64)).collect();
    let mut ch3: Vec<f64> = (2000..3000).map(|x| rand(x as f64)).collect();
    let mut ch4: Vec<f64> = (3000..4000).map(|x| rand(x as f64)).collect();

    let fs = F64(48000.0);
    let f0 = F64(1000.0);

    let coeffs = IIR1Coefficients::lowpass(f0, F64(0.0), fs);
    let coeffs = WideIIR1Coefficients::<Lanes<F64, 4>>::from(coeffs);

    let mut filter_left = WideIIR1::new(coeffs);

    for i in 0..1000 {
        let input = Lanes { lanes: [F64(ch1[i]), F64(ch2[i]), F64(ch3[i]), F64(ch4[i])] };
        let output = filter_left.process(input).lanes;
        ch1[i] = output[0].0;
        ch2[i] = output[1].0;
        ch3[i] = output[2].0;
        ch4[i] = output[3].0;
    }
    println!("{} {} {} {}", ch1[500], ch2[500], ch3[500], ch4[500])
}

#[test]
fn wide_test_seperate_filters() {
    let mut ch1: Vec<f64> = (0..1000).map(|x| rand(x as f64)).collect();
    let mut ch2: Vec<f64> = (1000..2000).map(|x| rand(x as f64)).collect();

    let fs = F64(48000.0);

    let c1 = IIR1Coefficients::lowpass(F64(1000.0), F64(0.0), fs);
    let c2 = IIR1Coefficients::highshelf(F64(200.0), F64(5.0), fs);

    let coeffs = WideIIR1Coefficients {
        a: Lanes { lanes: [c1.a, c2.a] },
        g: Lanes { lanes: [c1.g, c2.g] },
        a1: Lanes { lanes: [c1.a1, c2.a1] },
        m0: Lanes { lanes: [c1.m0, c2.m0] },
        m1: Lanes { lanes: [c1.m1, c2.m1] },
    };

    let mut filter_left = WideIIR1::new(coeffs);

    for i in 0..1000 {
        let output = filter_left.process(Lanes { lanes: [F64(ch1[i]), F64(ch2[i])] }).lanes;
        ch1[i] = output[0].0;
        ch2[i] = output[1].0;
    }
    println!("{} {}", ch1[500], ch2[500])
}

#[test]
fn lowpass_mixing_and_dc_gain() {
    let fs = F64(48000.0);
    let c1 = IIR1Coefficients::lowpass(F64(1000.0), F64(0.0), fs);
    assert_eq!(c1.m0, F64(0.0));
    assert_eq!(c1.m1, F64(1.0));
    let mut f1 = IIR1::new(c1);
    let mut y = 0.0;
    for _ in 0..5000 {
        y = f1.process(F64(0.75)).0;
    }
    assert!(close(y, 0.75, 1e-9));

    let c2 = IIR2Coefficients::lowpass(F64(1000.0), F64(0.0), F64(0.7071), fs);
    assert_eq!(c2.m0, F64(0.0));
    assert_eq!(c2.m1, F64(0.0));
    assert_eq!(c2.m2, F64(1.0));
    let mut f2 = IIR2::new(c2);
    for _ in 0..5000 {
        y = f2.run(F64(-2.5)).0;
    }
    assert!(close(y, -2.5, 1e-9));
}

#[test]
fn highpass_settles_to_zero() {
    let fs = F64(44100.0);
    let mut f1 = IIR1::new(IIR1Coefficients::highpass(F64(500.0), F64(0.0), fs));
    let mut f2 = IIR2::new(IIR2Coefficients::highpass(F64(500.0), F64(0.0), F64(0.7071), fs));
    let (mut y1, mut y2) = (1.0, 1.0);
    for _ in 0..5000 {
        y1 = f1.process(F64(1.0)).0;
        y2 = f2.run(F64(1.0)).0;
    }
    assert!(close(y1, 0.0, 1e-9));
    assert!(close(y2, 0.0, 1e-9));
}

#[test]
fn allpass_has_unit_magnitude() {
    let fs = 48000.0;
    let c1 = IIR1Coefficients::allpass(F64(2000.0), F64(0.0), F64(fs));
    let c2 = IIR2Coefficients::allpass(F64(2000.0), F64(0.0), F64(1.3), F64(fs));
    for f in [20.0, 100.0, 1000.0, 2000.0, 5000.0, 15000.0, 23000.0] {
        assert!(close(norm(c1.get_bode_sample(unit_point(f, fs))), 1.0, 1e-9));
        assert!(close(norm(c2.get_bode_sample(ZSample::new(F64(f), F64(fs)))), 1.0, 1e-9));
    }
}

#[test]
fn bode_sample_of_lowpass_at_dc_and_cutoff() {
    let fs = 48000.0;
    let c1 = IIR1Coefficients::lowpass(F64(1000.0), F64(0.0), F64(fs));
    assert!(close(norm(c1.get_bode_sample(unit_point(0.0, fs))), 1.0, 1e-12));
    assert!(close(norm(c1.get_bode_sample(unit_point(1000.0, fs))), std::f64::consts::FRAC_1_SQRT_2, 1e-9));
    let c2 = IIR2Coefficients::lowpass(F64(1000.0), F64(0.0), F64(std::f64::consts::FRAC_1_SQRT_2), F64(fs));
    assert!(close(norm(c2.get_bode_sample(ZSample::new(F64(0.0), F64(fs)))), 1.0, 1e-12));
    assert!(close(norm(c2.get_bode_sample(ZSample::new(F64(1000.0), F64(fs)))), std::f64::consts::FRAC_1_SQRT_2, 1e-9));
}

#[test]
fn update_coefficients_keeps_state() {
    let fs = F64(48000.0);
    let c1 = IIR1Coefficients::lowpass(F64(300.0), F64(0.0), fs);
    let c2 = IIR1Coefficients::highshelf(F64(3000.0), F64(6.0), fs);
    let mut a = IIR1::new(c1);
    let mut b = IIR1::new(c1);
    for i in 0..100 {
        a.process(F64(rand(i as f64)));
        b.process(F64(rand(i as f64)));
    }
    a.update_coefficients(c2);
    b.update_coefficients(c2);
    b.update_coefficients(c1);
    b.update_coefficients(c2);
    for i in 100..200 {
        assert_eq!(a.process(F64(rand(i as f64))), b.process(F64(rand(i as f64))));
    }

    let d1 = IIR2Coefficients::bell(F64(300.0), F64(3.0), F64(1.0), fs);
    let d2 = IIR2Coefficients::notch(F64(900.0), F64(0.0), F64(2.0), fs);
    let mut p = IIR2::new(d1);
    let mut q = IIR2::new(d1);
    for i in 0..100 {
        p.run(F64(rand(i as f64)));
        q.run(F64(rand(i as f64)));
    }
    p.update_coefficients(d2);
    q.update_coefficients(d1);
    q.update_coefficients(d2);
    for i in 100..200 {
        assert_eq!(p.run(F64(rand(i as f64))), q.run(F64(rand(i as f64))));
    }
}

#[test]
fn bell_at_zero_gain_is_flat() {
    let fs = 48000.0;
    let c = IIR2Coefficients::bell(F64(1000.0), F64(0.0), F64(0.9), F64(fs));
    assert_eq!(c.a, F64(1.0));
    assert_eq!(c.m0, F64(1.0));
    assert_eq!(c.m1, F64(0.0));
    assert_eq!(c.m2, F64(0.0));
    for f in [50.0, 1000.0, 10000.0] {
        assert!(close(norm(c.get_bode_sample(ZSample::new(F64(f), F64(fs)))), 1.0, 1e-12));
    }
    let mut filter = IIR2::new(c);
    for i in 0..200 {
        let x = rand(i as f64);
        assert!(close(filter.run(F64(x)).0, x, 1e-12));
    }
}

#[test]
fn lane_packed_matches_scalar_filters() {
    let fs = F64(48000.0);
    let c = [
        IIR1Coefficients::lowpass(F64(1000.0), F64(0.0), fs),
        IIR1Coefficients::highpass(F64(250.0), F64(0.0), fs),
        IIR1Coefficients::lowshelf(F64(400.0), F64(-4.0), fs),
    ];
    let coeffs = WideIIR1Coefficients {
        a: Lanes { lanes: [c[0].a, c[1].a, c[2].a] },
        g: Lanes { lanes: [c[0].g, c[1].g, c[2].g] },
        a1: Lanes { lanes: [c[0].a1, c[1].a1, c[2].a1] },
        m0: Lanes { lanes: [c[0].m0, c[1].m0, c[2].m0] },
        m1: Lanes { lanes: [c[0].m1, c[1].m1, c[2].m1] },
    };
    let mut wide = WideIIR1::new(coeffs);
    let mut scalar = [IIR1::new(c[0]), IIR1::new(c[1]), IIR1::new(c[2])];
    for n in 0..500 {
        let x = [F64(rand(n as f64)), F64(rand(n as f64 + 1000.0)), F64(rand(n as f64 + 2000.0))];
        let y = wide.process(Lanes { lanes: x }).lanes;
        for k in 0..3 {
            assert_eq!(y[k], scalar[k].process(x[k]));
        }
    }
}

#[test]
fn broadcast_wide_partial_matches_scalar() {
    let c = IIR1Coefficients::highshelf(F64(800.0), F64(2.0), F64(44100.0));
    let mut wide = WideIIR1::new(WideIIR1Coefficients::<Lanes<F64, 2>>::from(c));
    let mut s0 = IIR1::new(c);
    let mut s1 = IIR1::new(c);
    for n in 0..100 {
        let x0 = F64(rand(n as f64));
        let x1 = F64(rand(n as f64 + 7.0));
        let y = wide.process_partial(Lanes { lanes: [x0, x1] }).lanes;
        assert_eq!(y[0], s0.process_partial(x0));
        assert_eq!(y[1], s1.process_partial(x1));
    }
}

#[test]
fn validated_design_errors() {
    let fs = F64(48000.0);
    let r = IIR2Coefficients::from_params(IIR2Type::LowPass, fs, F64(1000.0), F64(-1.0));
    assert!(matches!(r, Err(Errors::NegativeQ)));
    let r = IIR2Coefficients::from_params(IIR2Type::LowPass, fs, fs, F64(0.7));
    assert!(matches!(r, Err(Errors::OutsideNyquist)));
    let r = IIR2Coefficients::from_params(IIR2Type::Notch, fs, F64(24000.0), F64(0.7));
    assert!(matches!(r, Err(Errors::OutsideNyquist)));
    let r = IIR2Coefficients::from_params(IIR2Type::BandPass, fs, F64(-5.0), F64(0.7));
    assert!(matches!(r, Err(Errors::NegativeFrequency)));
    let r = IIR2Coefficients::from_params(IIR2Type::PeakingEQ(F64(6.0)), fs, F64(1000.0), F64(0.7));
    match r {
        Ok(c) => {
            let d = IIR2Coefficients::bell(F64(1000.0), F64(6.0), F64(0.7), fs);
            assert_eq!((c.a, c.g, c.k, c.a1, c.m1), (d.a, d.g, d.k, d.a1, d.m1));
        }
        Err(_) => panic!("a valid design was refused"),
    }
}

#[test]
fn second_order_formulas() {
    // cutoff at fs/4 gives g = tan(pi/4) = 1
    let c = IIR2Coefficients::highpass(F64(12000.0), F64(0.0), F64(0.5), F64(48000.0));
    assert!(close(c.g.0, 1.0, 1e-12));
    assert!(close(c.k.0, 2.0, 1e-12));
    assert!(close(c.a1.0, 0.25, 1e-12));
    assert!(close(c.a2.0, 0.25, 1e-12));
    assert!(close(c.a3.0, 0.25, 1e-12));
    assert_eq!((c.m0, c.m1, c.m2), (F64(1.0), F64(-2.0), F64(-1.0)));
    let c = IIR2Coefficients::lowshelf(F64(12000.0), F64(40.0), F64(1.0), F64(48000.0));
    assert!(close(c.a.0, 10.0, 1e-12));
    assert!(close(c.m2.0, 99.0, 1e-9));
    let c = IIR2Coefficients::highshelf(F64(12000.0), F64(40.0), F64(1.0), F64(48000.0));
    assert!(close(c.m0.0, 100.0, 1e-9));
    assert!(close(c.m1.0, -90.0, 1e-9));
    let c = IIR2Coefficients::bandpass(F64(1000.0), F64(0.0), F64(2.0), F64(48000.0));
    assert_eq!((c.m0, c.m1, c.m2), (F64(0.0), F64(1.0), F64(0.0)));
}

#[test]
fn first_order_formulas_and_clamping() {
    let c = IIR1Coefficients::lowpass(F64(12000.0), F64(0.0), F64(48000.0));
    assert!(close(c.g.0, 1.0, 1e-12));
    assert!(close(c.a1.0, 0.5, 1e-12));
    let above = IIR1Coefficients::highpass(F64(30000.0), F64(0.0), F64(48000.0));
    let at = IIR1Coefficients::highpass(F64(24000.0), F64(0.0), F64(48000.0));
    assert_eq!(above.g, at.g);
    let s = IIR1Coefficients::lowshelf(F64(12000.0), F64(20.0), F64(48000.0));
    assert!(close(s.a.0, 10.0, 1e-12));
    assert!(close(s.m1.0, 9.0, 1e-12));
    assert!(close(s.g.0, 1.0 / 10f64.sqrt(), 1e-12));
    let e = IIR1Coefficients::<F64>::empty();
    assert_eq!((e.a, e.g, e.a1, e.m0, e.m1), (F64(0.0), F64(0.0), F64(0.0), F64(0.0), F64(0.0)));
    let ap = IIR1Coefficients::allpass(F64(100.0), F64(0.0), F64(48000.0));
    assert_eq!((ap.m0, ap.m1), (F64(1.0), F64(-2.0)));
}

#[test]
fn process_partial_returns_lowpass_branch() {
    let c = IIR1Coefficients::lowpass(F64(12000.0), F64(0.0), F64(48000.0));
    let mut f = IIR1::new(c);
    // a1 = 0.5: v1 = 0.5, v2 = 0.5, state 1.0
    assert!(close(f.process_partial(F64(1.0)).0, 0.5, 1e-12));
    // v1 = 0.5 * (1 - 1) = 0, v2 = 1.0
    assert!(close(f.process_partial(F64(1.0)).0, 1.0, 1e-12));
    let mut g = IIR2::new(IIR2Coefficients::lowpass(F64(1000.0), F64(0.0), F64(0.7), F64(48000.0)));
    let mut h = g;
    let (_, v2) = g.process_partial(F64(0.3));
    assert_eq!(v2, h.run(F64(0.3)));
}

#[test]
fn unit_conversions() {
    assert!(close(F64(20.0).db_to_lin().0, 10.0, 1e-12));
    assert!(close(F64(100.0).lin_to_db().0, 40.0, 1e-12));
    assert_eq!(F64(-3.0).lin_to_db().0, f64::NEG_INFINITY);
    assert_eq!(F64(0.25).to_range(F64(10.0), F64(20.0)), F64(12.5));
    assert_eq!(F64(12.5).from_range(F64(10.0), F64(20.0)), F64(0.25));
    assert_eq!(F64(3.0).sign(F64(-1.0)), F64(-3.0));
    assert_eq!(F64(3.0).sign(F64(2.0)), F64(3.0));
    let q = F64(1.0).bw_to_q(F64(1000.0), F64(48000.0)).0;
    assert!(close(q, 1.0 / (2.0 * (std::f64::consts::LN_2 / 2.0).sinh()), 1e-12));
    assert!(close(q, 1.41421356, 1e-6));
}

#[test]
fn z_sample_powers() {
    let z = ZSample::new(F64(12000.0), F64(48000.0));
    // w = -pi/2: z = -i, z^2 = -1
    assert!(close(z.z.re.0, 0.0, 1e-12));
    assert!(close(z.z.im.0, -1.0, 1e-12));
    assert_eq!(z.pow1, z.z);
    assert!(close(z.pow2.re.0, -1.0, 1e-12));
    assert!(close(z.pow2.im.0, 0.0, 1e-12));
    assert_eq!(MAX_CASCADE_COUNT, 32);
}
