use mat4::Scalar;

/// An exact integer element type: covers the purely algebraic routines.
#[derive(Clone, Copy, PartialEq, Debug)]
struct Iw(i64);

impl Scalar for Iw {
    fn spec_add(self, o: Self) -> Self {
        Iw(self.0 + o.0)
    }
    fn spec_sub(self, o: Self) -> Self {
        Iw(self.0 - o.0)
    }
    fn spec_mul(self, o: Self) -> Self {
        Iw(self.0 * o.0)
    }
    fn spec_div(self, o: Self) -> Self {
        if o.0 == 0 {
            Iw(0)
        } else {
            Iw(self.0 / o.0)
        }
    }
    fn spec_neg(self) -> Self {
        Iw(-self.0)
    }
    fn spec_zero() -> Self {
        Iw(0)
    }
    fn spec_one() -> Self {
        Iw(1)
    }
    fn spec_two() -> Self {
        Iw(2)
    }
    fn spec_half() -> Self {
        Iw(0)
    }
    fn spec_quarter() -> Self {
        Iw(0)
    }
    fn spec_eps() -> Self {
        Iw(0)
    }
    fn spec_sqrt(self) -> Self {
        Iw((self.0 as f64).sqrt() as i64)
    }
    fn spec_sin(self) -> Self {
        Iw((self.0 as f64).sin() as i64)
    }
    fn spec_cos(self) -> Self {
        Iw((self.0 as f64).cos() as i64)
    }
    fn spec_tan(self) -> Self {
        Iw((self.0 as f64).tan() as i64)
    }
    fn spec_abs(self) -> Self {
        Iw(self.0.abs())
    }
    fn spec_lt(self, o: Self) -> bool {
        self.0 < o.0
    }
    fn spec_is_zero(self) -> bool {
        self.0 == 0
    }
    fn spec_approx_eq(self, o: Self) -> bool {
        self.0 == o.0
    }
    fn add(self, o: Self) -> Self {
        Iw(self.0 + o.0)
    }
    fn sub(self, o: Self) -> Self {
        Iw(self.0 - o.0)
    }
    fn mul(self, o: Self) -> Self {
        Iw(self.0 * o.0)
    }
    fn div(self, o: Self) -> Self {
        if o.0 == 0 {
            Iw(0)
        } else {
            Iw(self.0 / o.0)
        }
    }
    fn neg(self) -> Self {
        Iw(-self.0)
    }
    fn zero() -> Self {
        Iw(0)
    }
    fn one() -> Self {
        Iw(1)
    }
    fn two() -> Self {
        Iw(2)
    }
    fn half() -> Self {
        Iw(0)
    }
    fn quarter() -> Self {
        Iw(0)
    }
    fn eps() -> Self {
        Iw(0)
    }
    fn sqrt(self) -> Self {
        Iw((self.0 as f64).sqrt() as i64)
    }
    fn sin(self) -> Self {
        Iw((self.0 as f64).sin() as i64)
    }
    fn cos(self) -> Self {
        Iw((self.0 as f64).cos() as i64)
    }
    fn tan(self) -> Self {
        Iw((self.0 as f64).tan() as i64)
    }
    fn abs(self) -> Self {
        Iw(self.0.abs())
    }
    fn lt(self, o: Self) -> bool {
        self.0 < o.0
    }
    fn is_zero(self) -> bool {
        self.0 == 0
    }
    fn approx_eq(self, o: Self) -> bool {
        self.0 == o.0
    }
}

/// A floating-point element type: covers the full surface.
#[derive(Clone, Copy, PartialEq, Debug)]
struct Fw(f32);

impl Scalar for Fw {
    fn spec_add(self, o: Self) -> Self {
        Fw(self.0 + o.0)
    }
    fn spec_sub(self, o: Self) -> Self {
        Fw(self.0 - o.0)
    }
    fn spec_mul(self, o: Self) -> Self {
        Fw(self.0 * o.0)
    }
    fn spec_div(self, o: Self) -> Self {
        Fw(self.0 / o.0)
    }
    fn spec_neg(self) -> Self {
        Fw(-self.0)
    }
    fn spec_zero() -> Self {
        Fw(0.0)
    }
    fn spec_one() -> Self {
        Fw(1.0)
    }
    fn spec_two() -> Self {
        Fw(2.0)
    }
    fn spec_half() -> Self {
        Fw(0.5)
    }
    fn spec_quarter() -> Self {
        Fw(0.25)
    }
    fn spec_eps() -> Self {
        Fw(f64::EPSILON as f32)
    }
    fn spec_sqrt(self) -> Self {
        Fw(self.0.sqrt())
    }
    fn spec_sin(self) -> Self {
        Fw(self.0.sin())
    }
    fn spec_cos(self) -> Self {
        Fw(self.0.cos())
    }
    fn spec_tan(self) -> Self {
        Fw(self.0.tan())
    }
    fn spec_abs(self) -> Self {
        Fw(self.0.abs())
    }
    fn spec_lt(self, o: Self) -> bool {
        self.0 < o.0
    }
    fn spec_is_zero(self) -> bool {
        self.0 == 0.0
    }
    fn spec_approx_eq(self, o: Self) -> bool {
        (self.0 - o.0).abs() < 1e-6
    }
    fn add(self, o: Self) -> Self {
        Fw(self.0 + o.0)
    }
    fn sub(self, o: Self) -> Self {
        Fw(self.0 - o.0)
    }
    fn mul(self, o: Self) -> Self {
        Fw(self.0 * o.0)
    }
    fn div(self, o: Self) -> Self {
        Fw(self.0 / o.0)
    }
    fn neg(self) -> Self {
        Fw(-self.0)
    }
    fn zero() -> Self {
        Fw(0.0)
    }
    fn one() -> Self {
        Fw(1.0)
    }
    fn two() -> Self {
        Fw(2.0)
    }
    fn half() -> Self {
        Fw(0.5)
    }
    fn quarter() -> Self {
        Fw(0.25)
    }
    fn eps() -> Self {
        Fw(f64::EPSILON as f32)
    }
    fn sqrt(self) -> Self {
        Fw(self.0.sqrt())
    }
    fn sin(self) -> Self {
        Fw(self.0.sin())
    }
    fn cos(self) -> Self {
        Fw(self.0.cos())
    }
    fn tan(self) -> Self {
        Fw(self.0.tan())
    }
    fn abs(self) -> Self {
        Fw(self.0.abs())
    }
    fn lt(self, o: Self) -> bool {
        self.0 < o.0
    }
    fn is_zero(self) -> bool {
        self.0 == 0.0
    }
    fn approx_eq(self, o: Self) -> bool {
        (self.0 - o.0).abs() < 1e-6
    }
}

fn im(a: [i64; 16]) -> [Iw; 16] {
    a.map(Iw)
}

fn fm(a: [f32; 16]) -> [Fw; 16] {
    a.map(Fw)
}

fn fv(a: [f32; 3]) -> [Fw; 3] {
    a.map(Fw)
}

fn fq(a: [f32; 4]) -> [Fw; 4] {
    a.map(Fw)
}

#[test]
fn test_new() {
    let m = mat4::new(
        Iw(1), Iw(0), Iw(0), Iw(0),
        Iw(0), Iw(1), Iw(0), Iw(0),
        Iw(0), Iw(0), Iw(1), Iw(0),
        Iw(0), Iw(0), Iw(0), Iw(1),
    );
    assert_eq!(m, im([1, 0, 0, 0, 0, 1, 0, 0, 0, 0, 1, 0, 0, 0, 0, 1]));
}

#[test]
fn test_inverse() {
    let mut v = im([1, 0, 0, 0, 0, 1, 0, 0, 0, 0, 1, 0, 0, 0, 0, 1]);
    mat4::inverse(&mut v, &im([1, 0, 0, 0, 0, 1, 0, 0, 0, 0, 1, 0, 0, 0, 0, 1]));
    assert!(v == im([1, 0, 0, 0, 0, 1, 0, 0, 0, 0, 1, 0, 0, 0, 0, 1]));
}

#[test]
fn test_determinant() {
    assert_eq!(
        mat4::determinant(&im([1, 0, 0, 0, 0, 1, 0, 0, 0, 0, 1, 0, 0, 0, 0, 1])),
        Iw(1)
    );
}

#[test]
fn test_transpose() {
    let mut v = im([1, 0, 0, 0, 0, 1, 0, 0, 0, 0, 1, 0, 0, 0, 0, 1]);
    mat4::transpose(&mut v, &im([1, 0, 0, 0, 0, 1, 0, 0, 0, 0, 1, 0, 0, 0, 0, 1]));
    assert_eq!(v, im([1, 0, 0, 0, 0, 1, 0, 0, 0, 0, 1, 0, 0, 0, 0, 1]));
}

#[test]
fn test_ne() {
    assert_eq!(
        mat4::ne(
            &fm([1., 1., 1., 1., 1., 1., 1., 1., 1., 1., 1., 1., 1., 1., 1., 1.]),
            &fm([1., 1., 1., 1., 1., 1., 1., 1., 1., 1., 1., 1., 1., 1., 1., 1.]),
        ),
        false
    );
    assert_eq!(
        mat4::ne(
            &fm([0., 0., 0., 0., 0., 0., 0., 0., 0., 0., 0., 0., 0., 0., 0., 0.]),
            &fm([1., 1., 1., 1., 1., 1., 1., 1., 1., 1., 1., 1., 1., 1., 1., 1.]),
        ),
        true
    );
}

#[test]
fn test_mul() {
    let mut v = im([1, 0, 0, 0, 0, 1, 0, 0, 0, 0, 1, 0, 0, 0, 0, 1]);
    mat4::mul(
        &mut v,
        &im([1, 0, 0, 0, 0, 1, 0, 0, 0, 0, 1, 0, 0, 0, 0, 1]),
        &im([1, 0, 0, 0, 0, 1, 0, 0, 0, 0, 1, 0, 0, 0, 0, 1]),
    );
    assert_eq!(v, im([1, 0, 0, 0, 0, 1, 0, 0, 0, 0, 1, 0, 0, 0, 0, 1]));
}

#[test]
fn test_smul() {
    let mut v = im([1, 0, 0, 0, 0, 1, 0, 0, 0, 0, 1, 0, 0, 0, 0, 1]);
    mat4::smul(
        &mut v,
        &im([1, 0, 0, 0, 0, 1, 0, 0, 0, 0, 1, 0, 0, 0, 0, 1]),
        Iw(1),
    );
    assert!(v == im([1, 0, 0, 0, 0, 1, 0, 0, 0, 0, 1, 0, 0, 0, 0, 1]));
}

#[test]
fn test_sdiv() {
    let mut v = im([1, 0, 0, 0, 0, 1, 0, 0, 0, 0, 1, 0, 0, 0, 0, 1]);
    mat4::sdiv(
        &mut v,
        &im([1, 0, 0, 0, 0, 1, 0, 0, 0, 0, 1, 0, 0, 0, 0, 1]),
        Iw(1),
    );
    assert!(v == im([1, 0, 0, 0, 0, 1, 0, 0, 0, 0, 1, 0, 0, 0, 0, 1]));
}

#[test]
fn test_compose() {
    let mut m = fm([1., 0., 0., 0., 0., 1., 0., 0., 0., 0., 1., 0., 0., 0., 0., 1.]);
    let position = fv([0., 0., 0.]);
    let scale = fv([1., 1., 1.]);
    let rotation = fq([0., 0., 0., 1.]);
    mat4::compose(&mut m, &position, &scale, &rotation);
    assert_eq!(
        m,
        fm([1., 0., 0., 0., 0., 1., 0., 0., 0., 0., 1., 0., 0., 0., 0., 1.])
    );
}

#[test]
fn test_decompose() {
    let mut position = fv([0., 0., 0.]);
    let mut scale = fv([1., 1., 1.]);
    let mut rotation = fq([0., 0., 0., 1.]);
    mat4::decompose(
        &fm([1., 0., 0., 0., 0., 1., 0., 0., 0., 0., 1., 0., 0., 0., 0., 1.]),
        &mut position,
        &mut scale,
        &mut rotation,
    );
    assert_eq!(position, fv([0., 0., 0.]));
    assert_eq!(scale, fv([1., 1., 1.]));
    assert_eq!(rotation, fq([0., 0., 0., 1.]));
}

fn near(a: f32, b: f32, tol: f32) -> bool {
    (a - b).abs() < tol
}

#[test]
fn transpose_twice_is_identity_int() {
    let a = im([1, 2, 3, 4, 5, 6, 7, 8, 9, 10, 11, 12, 13, 14, 15, 16]);
    let mut t = im([0; 16]);
    let mut tt = im([0; 16]);
    mat4::transpose(&mut t, &a);
    mat4::transpose(&mut tt, &t);
    assert_eq!(tt, a);
}

#[test]
fn transpose_twice_is_identity_float() {
    let a = fm([
        1.5, -2.25, 3.0, 4.75, 5.5, 6.0, -7.125, 8.0, 9.0, 10.5, 11.0, -12.0, 13.25, 14.0,
        15.0, 16.5,
    ]);
    let mut t = fm([0.; 16]);
    let mut tt = fm([0.; 16]);
    mat4::transpose(&mut t, &a);
    mat4::transpose(&mut tt, &t);
    assert_eq!(tt, a);
}

#[test]
fn inverse_times_original_is_identity() {
    let a = fm([
        2., 0., 0., 0., 0., 3., 0., 0., 0., 0., 4., 0., 5., 6., 7., 1.,
    ]);
    let mut inv = fm([0.; 16]);
    mat4::inverse(&mut inv, &a);
    let mut left = fm([0.; 16]);
    let mut right = fm([0.; 16]);
    mat4::mul(&mut left, &inv, &a);
    mat4::mul(&mut right, &a, &inv);
    let ident = fm([1., 0., 0., 0., 0., 1., 0., 0., 0., 0., 1., 0., 0., 0., 0., 1.]);
    assert!(mat4::eq(&left, &ident));
    assert!(mat4::eq(&right, &ident));
}

#[test]
fn determinant_invariant_under_transpose() {
    let a = im([3, 1, 4, 1, 5, 9, 2, 6, 5, 3, 5, 8, 9, 7, 9, 3]);
    let mut t = im([0; 16]);
    mat4::transpose(&mut t, &a);
    assert_eq!(mat4::determinant(&t), mat4::determinant(&a));
}

#[test]
fn compose_decompose_round_trip() {
    let position = fv([1., -2., 3.]);
    let scale = fv([2., 3., 4.]);
    let half_angle = 0.3f32;
    let rotation = fq([0., 0., half_angle.sin(), half_angle.cos()]);
    let mut m = fm([0.; 16]);
    mat4::compose(&mut m, &position, &scale, &rotation);
    let mut p2 = fv([0.; 3]);
    let mut s2 = fv([0.; 3]);
    let mut r2 = fq([0.; 4]);
    mat4::decompose(&m, &mut p2, &mut s2, &mut r2);
    for i in 0..3 {
        assert!(near(p2[i].0, position[i].0, 1e-5));
        assert!(near(s2[i].0, scale[i].0, 1e-5));
    }
    // the quaternion comes back up to sign
    let same = (0..4).all(|i| near(r2[i].0, rotation[i].0, 1e-5));
    let flipped = (0..4).all(|i| near(r2[i].0, -rotation[i].0, 1e-5));
    assert!(same || flipped);
}

#[test]
fn mul_identity_both_sides() {
    let a = im([3, 1, 4, 1, 5, 9, 2, 6, 5, 3, 5, 8, 9, 7, 9, 3]);
    let ident = im([1, 0, 0, 0, 0, 1, 0, 0, 0, 0, 1, 0, 0, 0, 0, 1]);
    let mut left = im([0; 16]);
    let mut right = im([0; 16]);
    mat4::mul(&mut left, &ident, &a);
    mat4::mul(&mut right, &a, &ident);
    assert_eq!(left, a);
    assert_eq!(right, a);
}

#[test]
fn sdiv_by_zero_gives_zero_matrix() {
    let a = im([3, 1, 4, 1, 5, 9, 2, 6, 5, 3, 5, 8, 9, 7, 9, 3]);
    let mut v = im([7; 16]);
    mat4::sdiv(&mut v, &a, Iw(0));
    assert_eq!(v, im([0; 16]));

    let af = fm([1.5, 2., 3., 4., 5., 6., 7., 8., 9., 10., 11., 12., 13., 14., 15., 16.]);
    let mut vf = fm([7.; 16]);
    mat4::sdiv(&mut vf, &af, Fw(0.0));
    assert_eq!(vf, fm([0.; 16]));
}

#[test]
fn inverse_of_singular_is_identity() {
    // second row is zero, so the determinant is zero
    let a = fm([
        1., 0., 2., 3., 4., 0., 5., 6., 7., 0., 8., 9., 10., 0., 11., 12.,
    ]);
    let mut v = fm([5.; 16]);
    mat4::inverse(&mut v, &a);
    assert_eq!(
        v,
        fm([1., 0., 0., 0., 0., 1., 0., 0., 0., 0., 1., 0., 0., 0., 0., 1.])
    );
}

#[test]
fn look_at_coincident_eye_target_is_identity() {
    let eye = fv([1., 2., 3.]);
    let up = fv([0., 1., 0.]);
    let mut v = fm([9.; 16]);
    mat4::look_at(&mut v, &eye, &eye, &up);
    assert_eq!(
        v,
        fm([1., 0., 0., 0., 0., 1., 0., 0., 0., 0., 1., 0., 0., 0., 0., 1.])
    );
}

#[test]
fn look_at_axis_camera() {
    // camera at +5 on z looking at the origin: the view basis is the
    // standard basis and the translation moves the eye to the origin
    let eye = fv([0., 0., 5.]);
    let target = fv([0., 0., 0.]);
    let up = fv([0., 1., 0.]);
    let mut v = fm([0.; 16]);
    mat4::look_at(&mut v, &eye, &target, &up);
    let expected = [
        1., 0., 0., 0., 0., 1., 0., 0., 0., 0., 1., 0., 0., 0., -5., 1.,
    ];
    for i in 0..16 {
        assert!(near(v[i].0, expected[i], 1e-6));
    }
}

#[test]
fn perspective_matches_frustum_closed_form() {
    let fov = std::f32::consts::FRAC_PI_2;
    let near_p = 0.1f32;
    let far_p = 100.0f32;
    let mut v = fm([0.; 16]);
    mat4::perspective(&mut v, Fw(fov), Fw(1.0), Fw(near_p), Fw(far_p));
    let c = -(far_p + near_p) / (far_p - near_p);
    let d = -2.0 * far_p * near_p / (far_p - near_p);
    assert!(near(v[10].0, c, 1e-4));
    assert!(near(v[14].0, d, 1e-4));
    // fov of 90 degrees with aspect 1: both focal terms are near/ymax = 1
    assert!(near(v[0].0, 1.0, 1e-4));
    assert!(near(v[5].0, 1.0, 1e-4));
    assert!(near(v[11].0, -1.0, 1e-6));
}

#[test]
fn orthographic_unit_box() {
    let mut v = fm([0.; 16]);
    mat4::orthographic(&mut v, Fw(1.0), Fw(1.0), Fw(-1.0), Fw(-1.0), Fw(0.1), Fw(100.0));
    assert!(near(v[0].0, 1.0, 1e-6));
    assert!(near(v[5].0, 1.0, 1e-6));
    assert!(near(v[10].0, -2.0 / 99.9, 1e-6));
    assert!(near(v[12].0, 0.0, 1e-6));
    assert!(near(v[13].0, 0.0, 1e-6));
    assert!(near(v[14].0, -100.1 / 99.9, 1e-5));
    assert!(near(v[15].0, 1.0, 1e-6));
}

#[test]
fn extract_rotation_removes_scale() {
    // a rotation about z scaled by 2 in every axis: extracting the rotation
    // must divide each basis column by its own length, giving back the
    // unscaled rotation
    let angle = 0.5f32;
    let (s, c) = (angle.sin(), angle.cos());
    let a = fm([
        2. * c, 2. * s, 0., 0., -2. * s, 2. * c, 0., 0., 0., 0., 2., 0., 0., 0., 0., 1.,
    ]);
    let mut v = fm([1., 0., 0., 0., 0., 1., 0., 0., 0., 0., 1., 0., 0., 0., 0., 1.]);
    mat4::extract_rotation(&mut v, &a);
    let expected = [c, s, 0., 0., -s, c, 0., 0., 0., 0., 1., 0., 0., 0., 0., 1.];
    for i in 0..16 {
        assert!(near(v[i].0, expected[i], 1e-6));
    }
}

#[test]
fn translate_applies_linear_block() {
    let a = im([1, 0, 0, 0, 0, 2, 0, 0, 0, 0, 3, 0, 10, 20, 30, 1]);
    let mut v = im([0; 16]);
    mat4::translate(&mut v, &a, &[Iw(1), Iw(2), Iw(3)]);
    assert_eq!(v, im([1, 0, 0, 0, 0, 2, 0, 0, 0, 0, 3, 0, 11, 24, 39, 1]));
}

#[test]
fn scale_leaves_translation() {
    let a = im([1, 2, 3, 4, 5, 6, 7, 8, 9, 10, 11, 12, 13, 14, 15, 16]);
    let mut v = im([0; 16]);
    mat4::scale(&mut v, &a, &[Iw(2), Iw(3), Iw(4)]);
    assert_eq!(
        v,
        im([2, 4, 6, 8, 15, 18, 21, 24, 36, 40, 44, 48, 13, 14, 15, 16])
    );
}

#[test]
fn rotate_z_of_identity() {
    let angle = 0.5f32;
    let (s, c) = (angle.sin(), angle.cos());
    let ident = fm([1., 0., 0., 0., 0., 1., 0., 0., 0., 0., 1., 0., 0., 0., 0., 1.]);
    let mut v = fm([0.; 16]);
    mat4::rotate_z(&mut v, &ident, Fw(angle));
    let expected = [c, s, 0., 0., -s, c, 0., 0., 0., 0., 1., 0., 0., 0., 0., 1.];
    for i in 0..16 {
        assert!(near(v[i].0, expected[i], 1e-6));
    }
}

#[test]
fn rotate_x_of_identity() {
    let angle = 0.5f32;
    let (s, c) = (angle.sin(), angle.cos());
    let ident = fm([1., 0., 0., 0., 0., 1., 0., 0., 0., 0., 1., 0., 0., 0., 0., 1.]);
    let mut v = fm([0.; 16]);
    mat4::rotate_x(&mut v, &ident, Fw(angle));
    let expected = [1., 0., 0., 0., 0., c, s, 0., 0., -s, c, 0., 0., 0., 0., 1.];
    for i in 0..16 {
        assert!(near(v[i].0, expected[i], 1e-6));
    }
}

#[test]
fn rotate_y_of_identity() {
    let angle = 0.5f32;
    let (s, c) = (angle.sin(), angle.cos());
    let ident = fm([1., 0., 0., 0., 0., 1., 0., 0., 0., 0., 1., 0., 0., 0., 0., 1.]);
    let mut v = fm([0.; 16]);
    mat4::rotate_y(&mut v, &ident, Fw(angle));
    let expected = [c, 0., -s, 0., 0., 1., 0., 0., s, 0., c, 0., 0., 0., 0., 1.];
    for i in 0..16 {
        assert!(near(v[i].0, expected[i], 1e-6));
    }
}

#[test]
fn rotate_composes_z_then_x_then_y() {
    let (x, y, z) = (0.3f32, -0.4f32, 0.5f32);
    let ident = fm([1., 0., 0., 0., 0., 1., 0., 0., 0., 0., 1., 0., 0., 0., 0., 1.]);
    let mut expected = fm([0.; 16]);
    let mut tmp = fm([0.; 16]);
    let mut tmp2 = fm([0.; 16]);
    mat4::rotate_z(&mut tmp, &ident, Fw(z));
    mat4::rotate_x(&mut tmp2, &tmp, Fw(x));
    mat4::rotate_y(&mut expected, &tmp2, Fw(y));
    let mut v = fm([0.; 16]);
    mat4::rotate(&mut v, &ident, Fw(x), Fw(y), Fw(z));
    assert_eq!(v, expected);
}

#[test]
fn from_quat_identity_quaternion() {
    let mut v = fm([9.; 16]);
    mat4::from_quat(&mut v, &fq([0., 0., 0., 1.]));
    assert_eq!(
        v,
        fm([1., 0., 0., 0., 0., 1., 0., 0., 0., 0., 1., 0., 0., 0., 0., 1.])
    );
}

#[test]
fn from_quat_z_rotation() {
    let half_angle = 0.25f32;
    let q = fq([0., 0., half_angle.sin(), half_angle.cos()]);
    let mut v = fm([0.; 16]);
    mat4::from_quat(&mut v, &q);
    let (s, c) = ((2. * half_angle).sin(), (2. * half_angle).cos());
    let expected = [c, s, 0., 0., -s, c, 0., 0., 0., 0., 1., 0., 0., 0., 0., 1.];
    for i in 0..16 {
        assert!(near(v[i].0, expected[i], 1e-6));
    }
}

#[test]
fn set_and_extract_position() {
    let mut v = im([1, 0, 0, 0, 0, 1, 0, 0, 0, 0, 1, 0, 0, 0, 0, 1]);
    mat4::set_position(&mut v, &[Iw(7), Iw(8), Iw(9)]);
    assert_eq!(v, im([1, 0, 0, 0, 0, 1, 0, 0, 0, 0, 1, 0, 7, 8, 9, 1]));
    let mut w = im([0; 16]);
    mat4::extract_position(&mut w, &v);
    assert_eq!(w, im([0, 0, 0, 0, 0, 0, 0, 0, 0, 0, 0, 0, 7, 8, 9, 0]));
}

#[test]
fn eq_is_negation_of_ne() {
    let a = fm([1., 2., 3., 4., 5., 6., 7., 8., 9., 10., 11., 12., 13., 14., 15., 16.]);
    let b = fm([1., 2., 3., 4., 5., 6., 7., 8., 9., 10., 11., 12., 13., 14., 15., 99.]);
    assert!(mat4::eq(&a, &a));
    assert!(!mat4::ne(&a, &a));
    assert!(!mat4::eq(&a, &b));
    assert!(mat4::ne(&a, &b));
}

#[test]
fn create_clone_copy_agree() {
    let a = im([3, 1, 4, 1, 5, 9, 2, 6, 5, 3, 5, 8, 9, 7, 9, 3]);
    let c = mat4::clone(&a);
    assert_eq!(c, a);
    let mut v = im([0; 16]);
    mat4::copy(&mut v, &a);
    assert_eq!(v, a);
    // row-major call order lands in column-major storage
    let d = mat4::create(
        Iw(3), Iw(1), Iw(4), Iw(1),
        Iw(5), Iw(9), Iw(2), Iw(6),
        Iw(5), Iw(3), Iw(5), Iw(8),
        Iw(9), Iw(7), Iw(9), Iw(3),
    );
    assert_eq!(d, im([3, 5, 5, 9, 1, 9, 3, 7, 4, 2, 5, 9, 1, 6, 8, 3]));
}

#[test]
fn new_writes_row_major_call_order() {
    let m = mat4::new(
        Iw(11), Iw(12), Iw(13), Iw(14),
        Iw(21), Iw(22), Iw(23), Iw(24),
        Iw(31), Iw(32), Iw(33), Iw(34),
        Iw(41), Iw(42), Iw(43), Iw(44),
    );
    assert_eq!(
        m,
        im([11, 21, 31, 41, 12, 22, 32, 42, 13, 23, 33, 43, 14, 24, 34, 44])
    );
}

#[test]
fn constructors_and_setters() {
    let ident: [Iw; 16] = mat4::new_identity();
    assert_eq!(ident, im([1, 0, 0, 0, 0, 1, 0, 0, 0, 0, 1, 0, 0, 0, 0, 1]));
    let zero_m: [Iw; 16] = mat4::new_zero();
    assert_eq!(zero_m, im([0; 16]));
    let mut v = im([5; 16]);
    mat4::identity(&mut v);
    assert_eq!(v, ident);
    mat4::zero(&mut v);
    assert_eq!(v, zero_m);
    mat4::set::set(
        &mut v,
        Iw(1), Iw(2), Iw(3), Iw(4),
        Iw(5), Iw(6), Iw(7), Iw(8),
        Iw(9), Iw(10), Iw(11), Iw(12),
        Iw(13), Iw(14), Iw(15), Iw(16),
    );
    // row-major call order lands in column-major storage
    assert_eq!(v, im([1, 5, 9, 13, 2, 6, 10, 14, 3, 7, 11, 15, 4, 8, 12, 16]));
}

#[test]
fn embeddings_fill_homogeneous_matrix() {
    let mut v = im([7; 16]);
    mat4::from_mat2(&mut v, &[Iw(1), Iw(2), Iw(3), Iw(4)]);
    assert_eq!(v, im([1, 2, 0, 0, 3, 4, 0, 0, 0, 0, 1, 0, 0, 0, 0, 1]));
    let mut w = im([7; 16]);
    mat4::from_mat32(&mut w, &[Iw(1), Iw(2), Iw(3), Iw(4), Iw(5), Iw(6)]);
    assert_eq!(w, im([1, 2, 0, 0, 3, 4, 0, 0, 0, 0, 1, 0, 5, 6, 0, 1]));
    let mut u = im([7; 16]);
    mat4::from_mat3(
        &mut u,
        &[Iw(1), Iw(2), Iw(3), Iw(4), Iw(5), Iw(6), Iw(7), Iw(8), Iw(9)],
    );
    assert_eq!(u, im([1, 2, 3, 0, 4, 5, 6, 0, 7, 8, 9, 0, 0, 0, 0, 1]));
}

#[test]
fn smul_scales_every_element() {
    let a = fm([1., 2., 3., 4., 5., 6., 7., 8., 9., 10., 11., 12., 13., 14., 15., 16.]);
    let mut v = fm([0.; 16]);
    mat4::smul(&mut v, &a, Fw(2.0));
    for i in 0..16 {
        assert!(near(v[i].0, a[i].0 * 2.0, 1e-6));
    }
}

#[test]
fn sdiv_divides_every_element() {
    let a = im([2, 4, 6, 8, 10, 12, 14, 16, 18, 20, 22, 24, 26, 28, 30, 32]);
    let mut v = im([0; 16]);
    mat4::sdiv(&mut v, &a, Iw(2));
    assert_eq!(v, im([1, 2, 3, 4, 5, 6, 7, 8, 9, 10, 11, 12, 13, 14, 15, 16]));
}

#[test]
fn mul_known_product() {
    // column-major: a is the scale (1,2,3), b translates by (1,1,1)
    let a = im([1, 0, 0, 0, 0, 2, 0, 0, 0, 0, 3, 0, 0, 0, 0, 1]);
    let b = im([1, 0, 0, 0, 0, 1, 0, 0, 0, 0, 1, 0, 1, 1, 1, 1]);
    let mut ab = im([0; 16]);
    mat4::mul(&mut ab, &a, &b);
    assert_eq!(ab, im([1, 0, 0, 0, 0, 2, 0, 0, 0, 0, 3, 0, 1, 2, 3, 1]));
    let mut ba = im([0; 16]);
    mat4::mul(&mut ba, &b, &a);
    assert_eq!(ba, im([1, 0, 0, 0, 0, 2, 0, 0, 0, 0, 3, 0, 1, 1, 1, 1]));
}

#[test]
fn determinant_known_value() {
    // block diagonal: determinant is 2 * 3 * 4 = 24
    let a = im([2, 0, 0, 0, 0, 3, 0, 0, 0, 0, 4, 0, 5, 6, 7, 1]);
    assert_eq!(mat4::determinant(&a), Iw(24));
}

#[test]
fn look_at_parallel_up_zero_fills_basis() {
    // up is parallel to the view direction: the side and up basis vectors
    // are zero-filled rather than nudged
    let eye = fv([0., 5., 0.]);
    let target = fv([0., 0., 0.]);
    let up = fv([0., 1., 0.]);
    let mut v = fm([9.; 16]);
    mat4::look_at(&mut v, &eye, &target, &up);
    for i in [0, 1, 2, 4, 5, 6] {
        assert!(near(v[i].0, 0.0, 1e-6));
    }
    assert!(near(v[9].0, 1.0, 1e-6));
    assert!(near(v[13].0, 0.0, 1e-6));
    assert!(near(v[14].0, -5.0, 1e-6));
    assert!(near(v[15].0, 1.0, 1e-6));
}
