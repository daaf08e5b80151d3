//! Consequences of the group axioms that hold in every instance.

use crate::group::{associative_at, identity_at, inverse_at, Group};
use vstd::prelude::*;

verus! {

/// The equality relation of `G` is transitive, and with that an
/// equivalence: reflexive and symmetric it is in every instance.
pub open spec fn equality_is_transitive<G: Group>() -> bool {
    forall|x: G, y: G, z: G| #[trigger] x.equal(&y) && #[trigger] y.equal(&z) ==> x.equal(&z)
}

/// Composing equal elements gives equal elements.
pub open spec fn composition_respects_equality<G: Group>() -> bool {
    forall|x: G, y: G, v: G, w: G|
        x.equal(&v) && y.equal(&w) ==> #[trigger] x.compose(&y).equal(&v.compose(&w))
}

/// The group axioms at the elements through which the derivation of
/// [`double_inverse`] passes: `a`, its inverse, and the inverse of that.
pub open spec fn axioms_hold_around<G: Group>(a: G) -> bool {
    &&& identity_at(a)
    &&& identity_at(a.invert().invert())
    &&& inverse_at(a)
    &&& inverse_at(a.invert())
    &&& associative_at(a.invert().invert(), a.invert(), a)
}

/// The identity is idempotent: where the identity axiom holds at the
/// identity element itself, `e + e` equals `e`.
pub proof fn identity_idempotent<G: Group>()
    requires
        identity_at(G::unit()),
    ensures
        G::unit().compose(&G::unit()).equal(&G::unit()),
{
}

/// Inverting twice gives the element back: `-(-a)` equals `a`.
///
/// This follows from the axioms where the equality relation is transitive
/// and composition respects it, and the axioms are needed only at `a`, `-a`
/// and `-(-a)`:
/// `-(-a) = -(-a) + e = -(-a) + ((-a) + a) = (-(-a) + (-a)) + a = e + a = a`.
pub proof fn double_inverse<G: Group>(a: G)
    requires
        equality_is_transitive::<G>(),
        composition_respects_equality::<G>(),
        axioms_hold_around(a),
    ensures
        a.invert().invert().equal(&a),
{
    let e = G::unit();
    let i = a.invert();
    let j = i.invert();
    // -(-a) = -(-a) + e
    G::equal_symmetric(j.compose(&e), j);
    assert(j.equal(&j.compose(&e)));
    // -(-a) + e = -(-a) + ((-a) + a)
    G::equal_symmetric(i.compose(&a), e);
    G::equal_reflexive(j);
    assert(j.compose(&e).equal(&j.compose(&i.compose(&a))));
    // -(-a) + ((-a) + a) = (-(-a) + (-a)) + a
    G::equal_symmetric(j.compose(&i).compose(&a), j.compose(&i.compose(&a)));
    assert(j.compose(&i.compose(&a)).equal(&j.compose(&i).compose(&a)));
    // (-(-a) + (-a)) + a = e + a
    G::equal_reflexive(a);
    assert(j.compose(&i).compose(&a).equal(&e.compose(&a)));
    // e + a = a
    assert(e.compose(&a).equal(&a));
    assert(j.equal(&j.compose(&i.compose(&a))));
    assert(j.equal(&j.compose(&i).compose(&a)));
    assert(j.equal(&e.compose(&a)));
}

} // verus!
