//! Groups as a trait, and randomised trials of the group axioms.
//!
//! A type becomes a group by implementing [`Group`]: an equality relation, an
//! identity element, a composition and an inversion. Nothing is taken on
//! trust about these four: [`assert_group_valid`] and [`assert_group_abelian`]
//! draw witnesses through [`Samplable`] and try the axioms on them, and
//! report the first axiom that a witness violates.

use vstd::prelude::*;

pub mod integer;
pub mod laws;

verus! {

/// Number of independent trials that one run makes.
pub const TESTS_NUMBER: usize = 100;

/// The axiom that a trial found violated.
#[derive(Clone, Copy, Debug, PartialEq, Eq, Structural)]
pub enum AxiomFailure {
    /// `(a + b) + c` differs from `a + (b + c)`.
    Associativity,
    /// `a + e` or `e + a` differs from `a`.
    Identity,
    /// `(-a) + a` or `a + (-a)` differs from `e`.
    Inverse,
    /// `a + b` differs from `b + a`.
    Commutativity,
}

impl AxiomFailure {
    /// The sentence that [`AxiomFailure::message`] returns.
    pub open spec fn message_text(self) -> Seq<char> {
        match self {
            AxiomFailure::Associativity => "Associativity does not hold for the given group"@,
            AxiomFailure::Identity => "Identity element does not hold for the given group"@,
            AxiomFailure::Inverse => "Inverse element does not hold for the given group"@,
            AxiomFailure::Commutativity => "Commutativity does not hold for the given group"@,
        }
    }

    /// A sentence for a human reader that names the violated axiom.
    pub fn message(&self) -> (s: &'static str)
        ensures
            s@ == self.message_text(),
    {
        match self {
            AxiomFailure::Associativity => "Associativity does not hold for the given group",
            AxiomFailure::Identity => "Identity element does not hold for the given group",
            AxiomFailure::Inverse => "Inverse element does not hold for the given group",
            AxiomFailure::Commutativity => "Commutativity does not hold for the given group",
        }
    }
}

/// A set with an equality relation, an identity element, a composition and
/// an inversion.
///
/// Each operation has a mathematical model (`equal`, `unit`, `compose`,
/// `invert`) that the executable method computes. The models are all an
/// implementation promises: whether they satisfy the group axioms is what the
/// trials in this module find out.
///
/// The equality relation belongs to the instance and need not be exact. A
/// carrier of real numbers may call two elements equal when they lie within
/// a fixed tolerance of each other. It has to be reflexive and symmetric;
/// transitive it need not be.
///
/// A machine type seldom holds every element of the group it stands for, so
/// composition and inversion may be partial: `composable` and `invertible`
/// say where they are defined.
pub trait Group: Sized {
    /// The equality relation of the group.
    spec fn equal(&self, other: &Self) -> bool;

    /// The identity element.
    spec fn unit() -> Self;

    /// The group operation, meaningful where `composable` holds.
    spec fn compose(&self, a: &Self) -> Self;

    /// The inverse of an element, meaningful where `invertible` holds.
    spec fn invert(&self) -> Self;

    /// Whether the carrier can hold `self` composed with `a`. Unless an
    /// instance says otherwise, it always can.
    open spec fn composable(&self, a: &Self) -> bool {
        true
    }

    /// Whether the carrier can hold the inverse of `self`. Unless an instance
    /// says otherwise, it always can.
    open spec fn invertible(&self) -> bool {
        true
    }

    /// Every element equals itself.
    proof fn equal_reflexive(a: Self)
        ensures
            a.equal(&a),
    ;

    /// Equality does not depend on the order of the two elements.
    proof fn equal_symmetric(a: Self, b: Self)
        ensures
            a.equal(&b) == b.equal(&a),
    ;

    /// Checks whether the two elements are equal.
    fn eq(&self, other: &Self) -> (r: bool)
        ensures
            r == self.equal(other),
    ;

    /// Returns the identity element of the group.
    fn identity() -> (r: Self)
        ensures
            r == Self::unit(),
    ;

    /// Adds two elements of the group.
    fn add(&self, a: &Self) -> (r: Self)
        requires
            self.composable(a),
        ensures
            r == self.compose(a),
    ;

    /// Returns the negative of the element.
    fn negate(&self) -> (r: Self)
        requires
            self.invertible(),
        ensures
            r == self.invert(),
    ;

    /// Subtracts two elements of the group: `self + (-a)`. The trait
    /// provides it, and an instance has no reason to define it anew.
    fn sub(&self, a: &Self) -> (r: Self)
        requires
            a.invertible(),
            self.composable(&a.invert()),
        ensures
            r == self.compose(&a.invert()),
    {
        self.add(&a.negate())
    }
}

/// A group from which random elements can be drawn.
///
/// `sampled` is the support of the sampler: the elements that `sample` may
/// return. The support has to be chosen so that every expression that a
/// trial forms over sampled witnesses is defined, and broad enough that a
/// few draws exercise the axioms: on a group that is not abelian, two draws
/// should seldom commute.
pub trait Samplable: Group {
    /// Whether `sample` may return this element. Unless an instance says
    /// otherwise, every element of the carrier may come.
    open spec fn sampled(&self) -> bool {
        true
    }

    /// Returns a random element from the group.
    fn sample() -> (r: Self)
        ensures
            r.sampled(),
    ;

    /// Trials on sampled witnesses never leave the carrier.
    proof fn sampled_witnesses_defined(a: Self, b: Self, c: Self)
        requires
            a.sampled(),
            b.sampled(),
            c.sampled(),
        ensures
            axioms_defined(a, b, c),
            commutativity_defined(a, b),
    ;
}

/// `(a + b) + c` equals `a + (b + c)`.
pub open spec fn associative_at<G: Group>(a: G, b: G, c: G) -> bool {
    a.compose(&b).compose(&c).equal(&a.compose(&b.compose(&c)))
}

/// `a + e` and `e + a` both equal `a`.
pub open spec fn identity_at<G: Group>(a: G) -> bool {
    a.compose(&G::unit()).equal(&a) && G::unit().compose(&a).equal(&a)
}

/// `(-a) + a` and `a + (-a)` both equal `e`.
pub open spec fn inverse_at<G: Group>(a: G) -> bool {
    a.invert().compose(&a).equal(&G::unit()) && a.compose(&a.invert()).equal(&G::unit())
}

/// `a + b` equals `b + a`.
pub open spec fn commutative_at<G: Group>(a: G, b: G) -> bool {
    a.compose(&b).equal(&b.compose(&a))
}

/// Every composition and inversion that a trial of the three axioms forms on
/// `a`, `b`, `c` is defined.
pub open spec fn axioms_defined<G: Group>(a: G, b: G, c: G) -> bool {
    &&& a.composable(&b)
    &&& a.compose(&b).composable(&c)
    &&& b.composable(&c)
    &&& a.composable(&b.compose(&c))
    &&& a.composable(&G::unit())
    &&& G::unit().composable(&a)
    &&& a.invertible()
    &&& a.invert().composable(&a)
    &&& a.composable(&a.invert())
}

/// Both compositions that a trial of commutativity forms on `a`, `b` are
/// defined.
pub open spec fn commutativity_defined<G: Group>(a: G, b: G) -> bool {
    a.composable(&b) && b.composable(&a)
}

/// The outcome of trying the three group axioms on the witnesses `a`, `b`,
/// `c`: the first of associativity, identity and inverse that fails, in this
/// order.
pub open spec fn axioms_verdict<G: Group>(a: G, b: G, c: G) -> Result<(), AxiomFailure> {
    if !associative_at(a, b, c) {
        Err(AxiomFailure::Associativity)
    } else if !identity_at(a) {
        Err(AxiomFailure::Identity)
    } else if !inverse_at(a) {
        Err(AxiomFailure::Inverse)
    } else {
        Ok(())
    }
}

/// The outcome of trying commutativity on the witnesses `a`, `b`.
pub open spec fn commutativity_verdict<G: Group>(a: G, b: G) -> Result<(), AxiomFailure> {
    if commutative_at(a, b) {
        Ok(())
    } else {
        Err(AxiomFailure::Commutativity)
    }
}

/// Tries associativity, identity and inverse, in this order, on the
/// witnesses `a`, `b`, `c`, and reports the first that fails.
pub fn check_axioms<G: Group>(a: &G, b: &G, c: &G) -> (r: Result<(), AxiomFailure>)
    requires
        axioms_defined(*a, *b, *c),
    ensures
        r == axioms_verdict(*a, *b, *c),
{
    let ab_c = a.add(b).add(c);
    let a_bc = a.add(&b.add(c));
    let associativity_holds = ab_c.eq(&a_bc);
    if !associativity_holds {
        return Err(AxiomFailure::Associativity);
    }
    let e = G::identity();
    let ae = a.add(&e);
    let ea = e.add(a);
    let identity_holds = ae.eq(a) && ea.eq(a);
    if !identity_holds {
        return Err(AxiomFailure::Identity);
    }
    let a_neg = a.negate();
    let a_neg_add_a = a_neg.add(a);
    let a_add_a_neg = a.add(&a_neg);
    let inverse_holds = a_neg_add_a.eq(&e) && a_add_a_neg.eq(&e);
    if !inverse_holds {
        return Err(AxiomFailure::Inverse);
    }
    Ok(())
}

/// Tries commutativity on the witnesses `a`, `b`.
pub fn check_commutativity<G: Group>(a: &G, b: &G) -> (r: Result<(), AxiomFailure>)
    requires
        commutativity_defined(*a, *b),
    ensures
        r == commutativity_verdict(*a, *b),
{
    let ab = a.add(b);
    let ba = b.add(a);
    if ab.eq(&ba) {
        Ok(())
    } else {
        Err(AxiomFailure::Commutativity)
    }
}

/// The three witnesses can all be drawn.
pub open spec fn triple_sampled<G: Samplable>(w: (G, G, G)) -> bool {
    w.0.sampled() && w.1.sampled() && w.2.sampled()
}

/// The three witnesses can all be drawn, and the three axioms hold on them.
pub open spec fn triple_passes<G: Samplable>(w: (G, G, G)) -> bool {
    triple_sampled(w) && axioms_verdict(w.0, w.1, w.2) is Ok
}

/// Both witnesses can be drawn.
pub open spec fn pair_sampled<G: Samplable>(w: (G, G)) -> bool {
    w.0.sampled() && w.1.sampled()
}

/// Both witnesses can be drawn, and they commute.
pub open spec fn pair_passes<G: Samplable>(w: (G, G)) -> bool {
    pair_sampled(w) && commutative_at(w.0, w.1)
}

/// The three axioms hold on all witnesses that can be drawn.
pub open spec fn axioms_hold<G: Samplable>() -> bool {
    forall|a: G, b: G, c: G| #[trigger]
        triple_sampled((a, b, c)) ==> axioms_verdict(a, b, c) is Ok
}

/// Any two witnesses that can be drawn commute.
pub open spec fn commutativity_holds<G: Samplable>() -> bool {
    forall|a: G, b: G| #[trigger] pair_sampled((a, b)) ==> commutative_at(a, b)
}

/// `ws` are the triples that a run of [`assert_group_valid`] drew, in the
/// order of the trials, and `r` is what the run returned.
///
/// A run that succeeds has made all [`TESTS_NUMBER`] trials and each passed.
/// A run that fails has stopped at the first triple that violates an
/// axiom, and reports the first axiom that this triple violates.
pub open spec fn validity_run<G: Samplable>(
    ws: Seq<(G, G, G)>,
    r: Result<(), AxiomFailure>,
) -> bool {
    match r {
        Ok(_) => {
            &&& ws.len() == TESTS_NUMBER
            &&& forall|k: int| 0 <= k < ws.len() ==> triple_passes(#[trigger] ws[k])
        },
        Err(_) => {
            &&& 1 <= ws.len() <= TESTS_NUMBER
            &&& forall|k: int| 0 <= k < ws.len() - 1 ==> triple_passes(#[trigger] ws[k])
            &&& triple_sampled(ws.last())
            &&& r == axioms_verdict(ws.last().0, ws.last().1, ws.last().2)
        },
    }
}

/// `ps` are the pairs that a run of [`assert_group_abelian`] drew for
/// commutativity, in the order of the trials, and `r` is what the run
/// returned.
///
/// Each trial first makes a whole run of [`assert_group_valid`] and then
/// draws one pair. A run that succeeds has made all [`TESTS_NUMBER`] trials.
/// A run that reports [`AxiomFailure::Commutativity`] has stopped at the
/// first pair that does not commute. A run that reports another axiom has
/// stopped at a nested run that failed with it, before drawing a pair.
pub open spec fn abelian_run<G: Samplable>(ps: Seq<(G, G)>, r: Result<(), AxiomFailure>) -> bool {
    match r {
        Ok(_) => {
            &&& ps.len() == TESTS_NUMBER
            &&& forall|k: int| 0 <= k < ps.len() ==> pair_passes(#[trigger] ps[k])
            &&& exists|ws: Seq<(G, G, G)>| #[trigger] validity_run(ws, Ok(()))
        },
        Err(AxiomFailure::Commutativity) => {
            &&& 1 <= ps.len() <= TESTS_NUMBER
            &&& forall|k: int| 0 <= k < ps.len() - 1 ==> pair_passes(#[trigger] ps[k])
            &&& pair_sampled(ps.last())
            &&& !commutative_at(ps.last().0, ps.last().1)
            &&& exists|ws: Seq<(G, G, G)>| #[trigger] validity_run(ws, Ok(()))
        },
        Err(_) => {
            &&& ps.len() < TESTS_NUMBER
            &&& forall|k: int| 0 <= k < ps.len() ==> pair_passes(#[trigger] ps[k])
            &&& exists|ws: Seq<(G, G, G)>| #[trigger] validity_run(ws, r)
        },
    }
}

/// Tries the group axioms on random witnesses.
///
/// Makes [`TESTS_NUMBER`] trials. Each draws three witnesses and tries on
/// them
/// 1. associativity: `(a + b) + c = a + (b + c)`,
/// 2. identity: `a + e = a = e + a`,
/// 3. inverse: `a + (-a) = e = (-a) + a`.
///
/// The run stops at the first violation and reports its axiom. A group
/// whose axioms hold on all that its sampler can draw always passes.
pub fn assert_group_valid<G>() -> (r: Result<(), AxiomFailure>) where G: Group + Samplable
    ensures
        exists|ws: Seq<(G, G, G)>| #[trigger] validity_run(ws, r),
        axioms_hold::<G>() ==> r is Ok,
        r != Err::<(), AxiomFailure>(AxiomFailure::Commutativity),
{
    let ghost mut drawn: Seq<(G, G, G)> = Seq::empty();
    let mut trial: usize = 0;
    while trial < TESTS_NUMBER
        invariant
            trial <= TESTS_NUMBER,
            drawn.len() == trial,
            forall|k: int| 0 <= k < drawn.len() ==> triple_passes(#[trigger] drawn[k]),
        decreases TESTS_NUMBER - trial,
    {
        let a = G::sample();
        let b = G::sample();
        let c = G::sample();
        proof {
            G::sampled_witnesses_defined(a, b, c);
            drawn = drawn.push((a, b, c));
        }
        let outcome = check_axioms(&a, &b, &c);
        if outcome.is_err() {
            proof {
                assert(triple_sampled((a, b, c)));
                assert(validity_run(drawn, outcome));
            }
            return outcome;
        }
        trial += 1;
    }
    proof {
        assert(validity_run(drawn, Ok::<(), AxiomFailure>(())));
    }
    Ok(())
}

/// Tries the group axioms and commutativity on random witnesses.
///
/// Makes [`TESTS_NUMBER`] trials. Each first makes a whole run of
/// [`assert_group_valid`], so that a structure that is no group is reported
/// as such, and then draws two fresh witnesses and tries `a + b = b + a` on
/// them.
///
/// The run stops at the first violation and reports its axiom. A group
/// whose axioms hold on all that its sampler can draw, and in which any two
/// such elements commute, always passes.
pub fn assert_group_abelian<G>() -> (r: Result<(), AxiomFailure>) where G: Group + Samplable
    ensures
        exists|ps: Seq<(G, G)>| #[trigger] abelian_run(ps, r),
        axioms_hold::<G>() && commutativity_holds::<G>() ==> r is Ok,
{
    let ghost mut drawn: Seq<(G, G)> = Seq::empty();
    let mut trial: usize = 0;
    while trial < TESTS_NUMBER
        invariant
            trial <= TESTS_NUMBER,
            drawn.len() == trial,
            forall|k: int| 0 <= k < drawn.len() ==> pair_passes(#[trigger] drawn[k]),
            trial > 0 ==> exists|ws: Seq<(G, G, G)>| #[trigger] validity_run(ws, Ok(())),
        decreases TESTS_NUMBER - trial,
    {
        let valid = assert_group_valid::<G>();
        if valid.is_err() {
            proof {
                assert(abelian_run(drawn, valid));
            }
            return valid;
        }
        proof {
            let ws = choose|ws: Seq<(G, G, G)>| #[trigger] validity_run(ws, valid);
            assert(validity_run(ws, Ok::<(), AxiomFailure>(())));
        }
        let a = G::sample();
        let b = G::sample();
        proof {
            G::sampled_witnesses_defined(a, b, a);
            drawn = drawn.push((a, b));
        }
        let outcome = check_commutativity(&a, &b);
        if outcome.is_err() {
            proof {
                assert(pair_sampled((a, b)));
                assert(abelian_run(drawn, outcome));
            }
            return outcome;
        }
        trial += 1;
    }
    proof {
        assert(abelian_run(drawn, Ok::<(), AxiomFailure>(())));
    }
    Ok(())
}

} // verus!
