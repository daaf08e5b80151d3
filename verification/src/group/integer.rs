//! The additive group of the 64-bit signed integers.

use crate::group::laws::{
    axioms_hold_around, composition_respects_equality, double_inverse, equality_is_transitive,
};
use crate::group::{
    associative_at, axioms_hold, axioms_verdict, commutative_at, commutativity_holds, identity_at,
    inverse_at, pair_sampled, triple_sampled, AxiomFailure, Group, Samplable,
};
use rand::Rng;
use vstd::prelude::*;

verus! {

/// Lower end of the range from which integers are drawn: a third of
/// `i64::MIN`, rounded towards zero.
pub const SAMPLE_MIN: i64 = -3074457345618258602;

/// Upper end, itself left out, of the range from which integers are drawn: a
/// third of `i64::MAX`, rounded towards zero.
pub const SAMPLE_MAX: i64 = 3074457345618258602;

/// Calls `gen_range` of `rand`'s thread-local generator on `low..high`.
///
/// Taken on trust from `rand`: `gen_range` refuses an empty range, which the
/// precondition rules out, and the number it returns lies in the range, `low`
/// included and `high` not. Which number comes is a matter of chance, so
/// nothing more is claimed. The generator seeds itself from the operating
/// system when a thread first uses it, and gives up if that is impossible.
#[verifier::external_body]
fn random_in_range(low: i64, high: i64) -> (r: i64)
    requires
        low < high,
    ensures
        low <= r < high,
{
    rand::thread_rng().gen_range(low..high)
}

/// The integers under addition. Equality is equality of values, the identity
/// is zero and the inverse is the negation.
impl Group for i64 {
    open spec fn equal(&self, other: &Self) -> bool {
        *self == *other
    }

    open spec fn unit() -> Self {
        0i64
    }

    open spec fn compose(&self, a: &Self) -> Self {
        (*self + *a) as i64
    }

    open spec fn invert(&self) -> Self {
        (-*self) as i64
    }

    open spec fn composable(&self, a: &Self) -> bool {
        i64::MIN <= *self + *a <= i64::MAX
    }

    open spec fn invertible(&self) -> bool {
        *self != i64::MIN
    }

    proof fn equal_reflexive(a: Self) {
    }

    proof fn equal_symmetric(a: Self, b: Self) {
    }

    fn eq(&self, other: &Self) -> (r: bool) {
        *self == *other
    }

    fn identity() -> (r: Self) {
        0i64
    }

    fn add(&self, a: &Self) -> (r: Self) {
        *self + *a
    }

    fn negate(&self) -> (r: Self) {
        -*self
    }
}

/// Integers are drawn uniformly from `SAMPLE_MIN..SAMPLE_MAX`, a third of
/// the representable range in each direction, so that a sum of three of them
/// is representable.
impl Samplable for i64 {
    open spec fn sampled(&self) -> bool {
        SAMPLE_MIN <= *self < SAMPLE_MAX
    }

    fn sample() -> (r: Self) {
        // A third of the range each way: three samples can be added up.
        let min: i64 = i64::MIN / 3;
        let max: i64 = i64::MAX / 3;
        random_in_range(min, max)
    }

    /// No sum or negation that a trial forms over integers from the
    /// sampling range overflows.
    proof fn sampled_witnesses_defined(a: Self, b: Self, c: Self) {
    }
}

/// On integers that can be drawn, associativity, identity and inverse hold
/// exactly: the two sides of each axiom are the same number, and no sum
/// leaves the representable range, so that `(a + b) + c` and `a + (b + c)`
/// are both the sum of the three in the integers.
pub proof fn integer_axioms_hold(a: i64, b: i64, c: i64)
    requires
        a.sampled(),
        b.sampled(),
        c.sampled(),
    ensures
        associative_at(a, b, c),
        identity_at(a),
        inverse_at(a),
        axioms_verdict(a, b, c) == Ok::<(), AxiomFailure>(()),
        a.compose(&b).compose(&c) == a + b + c,
        a.compose(&b.compose(&c)) == a + b + c,
{
}

/// On integers that can be drawn, commutativity holds exactly: `a + b` and
/// `b + a` are the same number, the sum of the two in the integers.
pub proof fn integer_commutativity_holds(a: i64, b: i64)
    requires
        a.sampled(),
        b.sampled(),
    ensures
        commutative_at(a, b),
        a.compose(&b) == a + b,
{
}

/// The integers pass every trial: all axioms and commutativity hold on
/// whatever the sampler draws.
pub proof fn integers_are_abelian_group()
    ensures
        axioms_hold::<i64>(),
        commutativity_holds::<i64>(),
{
    assert forall|a: i64, b: i64, c: i64| #[trigger]
        triple_sampled((a, b, c)) implies axioms_verdict(a, b, c) is Ok by {
        integer_axioms_hold(a, b, c);
    }
    assert forall|a: i64, b: i64| #[trigger]
        pair_sampled((a, b)) implies commutative_at(a, b) by {
        integer_commutativity_holds(a, b);
    }
}

/// Zero is idempotent: `0 + 0` equals `0`.
pub proof fn integer_identity_idempotent()
    ensures
        i64::unit().compose(&i64::unit()).equal(&i64::unit()),
        i64::unit() == 0,
{
}

/// Negating an integer twice gives it back. Only `i64::MIN`, which has no
/// negative, is left out.
pub proof fn integer_double_inverse(a: i64)
    requires
        a.invertible(),
    ensures
        a.invert().invert().equal(&a),
        a.invert().invert() == a,
{
    assert(equality_is_transitive::<i64>());
    assert(composition_respects_equality::<i64>());
    assert(axioms_hold_around(a));
    double_inverse(a);
}

} // verus!
