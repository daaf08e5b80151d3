use group_axioms::group::{
    assert_group_abelian, assert_group_valid, check_axioms, check_commutativity, AxiomFailure,
    Group, Samplable,
};
use nalgebra::Rotation3;
use rand::Rng;
use std::f32::consts::FRAC_PI_2;

/// A threshold below which two floating point numbers are considered equal.
const EPSILON: f32 = 1e-6;

/// Rotations of space under composition. Two rotations are equal when the
/// squared norm of the difference of their matrices is below `EPSILON`.
#[derive(Clone, Copy, Debug)]
struct Rotation(Rotation3<f32>);

impl Group for Rotation {
    fn equal(&self, other: &Self) -> bool {
        Group::eq(self, other)
    }

    fn unit() -> Self {
        Self::identity()
    }

    fn compose(&self, a: &Self) -> Self {
        self.add(a)
    }

    fn invert(&self) -> Self {
        self.negate()
    }

    fn equal_reflexive(_a: Self) {
    }

    fn equal_symmetric(_a: Self, _b: Self) {
    }

    fn eq(&self, other: &Self) -> bool {
        let difference = self.0.matrix() - other.0.matrix();
        difference.norm_squared() < EPSILON
    }

    fn identity() -> Self {
        Rotation(Rotation3::identity())
    }

    fn add(&self, a: &Self) -> Self {
        Rotation(self.0 * a.0)
    }

    fn negate(&self) -> Self {
        Rotation(self.0.inverse())
    }
}

impl Samplable for Rotation {
    fn sample() -> Self {
        let mut gen = rand::thread_rng();
        let roll = gen.gen_range(0.0..1.0);
        let pitch = gen.gen_range(0.0..1.0);
        let yaw = gen.gen_range(0.0..1.0);
        Rotation(Rotation3::from_euler_angles(roll, pitch, yaw))
    }

    fn sampled_witnesses_defined(_a: Self, _b: Self, _c: Self) {
    }
}

#[test]
fn test_matrices_are_group() {
    assert_eq!(assert_group_valid::<Rotation>(), Ok(()));
}

#[test]
#[should_panic]
fn test_matrices_are_not_abelian() {
    assert_group_abelian::<Rotation>().unwrap();
}

#[test]
fn rotations_fail_with_commutativity() {
    assert_eq!(assert_group_abelian::<Rotation>(), Err(AxiomFailure::Commutativity));
}

#[test]
fn quarter_turns_about_two_axes_do_not_commute() {
    let a = Rotation(Rotation3::from_euler_angles(FRAC_PI_2, 0.0, 0.0));
    let b = Rotation(Rotation3::from_euler_angles(0.0, FRAC_PI_2, 0.0));
    let ab = a.add(&b);
    let ba = b.add(&a);
    assert!(!Group::eq(&ab, &ba));
    assert!(!Group::eq(&ba, &ab));
    assert_eq!(check_commutativity(&a, &b), Err(AxiomFailure::Commutativity));
    assert_eq!(check_axioms(&a, &b, &ab), Ok(()));
}

#[test]
fn sampled_rotations_satisfy_the_axioms() {
    for _ in 0..200 {
        let a = Rotation::sample();
        let b = Rotation::sample();
        let c = Rotation::sample();
        assert_eq!(check_axioms(&a, &b, &c), Ok(()));
    }
}

#[test]
fn some_sampled_rotations_do_not_commute() {
    let mut failure = false;
    for _ in 0..100 {
        let a = Rotation::sample();
        let b = Rotation::sample();
        failure = failure || check_commutativity(&a, &b).is_err();
    }
    assert!(failure);
}

#[test]
fn rotation_equality_tolerates_rounding_only() {
    let a = Rotation(Rotation3::from_euler_angles(0.3, 0.2, 0.1));
    let near = Rotation(Rotation3::from_euler_angles(0.3 + 1e-5, 0.2, 0.1));
    let far = Rotation(Rotation3::from_euler_angles(0.3 + 1e-2, 0.2, 0.1));
    assert!(Group::eq(&a, &a));
    assert!(Group::eq(&a, &near));
    assert!(Group::eq(&near, &a));
    assert!(!Group::eq(&a, &far));
}

#[test]
fn rotation_identity_is_idempotent() {
    let e = Rotation::identity();
    assert!(Group::eq(&e.add(&e), &e));
}

#[test]
fn rotation_double_inverse_gives_the_element_back() {
    for _ in 0..100 {
        let a = Rotation::sample();
        assert!(Group::eq(&a.negate().negate(), &a));
    }
}

#[test]
fn rotation_subtraction_of_itself_is_the_identity() {
    let a = Rotation(Rotation3::from_euler_angles(0.7, 0.4, 0.9));
    assert!(Group::eq(&a.sub(&a), &Rotation::identity()));
}
