//! The oblivious evaluator: the simulated remote party.
//!
//! The evaluator holds an independent secret scalar and multiplies the
//! blinded point by it. Its interface is the obliviousness boundary of the
//! protocol: `evaluate` receives nothing but a curve point, so the
//! evaluator never observes the password or the blinding scalar. In this
//! simulated single-process design the secret is sampled fresh per
//! evaluator; a real deployment would keep a long-lived per-party secret
//! stable across a registration or login ceremony.

use vstd::prelude::*;

use crate::group::{group_order, point_mul, random_scalar, CurvePoint, GroupScalar};

verus! {

/// The party that contributes the independent secret scalar.
pub struct Evaluator {
    secret: GroupScalar,
}

impl Evaluator {
    /// The evaluator's secret scalar value; below the group order.
    pub closed spec fn secret_value(self) -> nat {
        self.secret.value()
    }

    /// An evaluator with a freshly sampled random secret.
    pub fn new() -> (r: Evaluator)
        ensures
            r.secret_value() < group_order(),
    {
        Evaluator { secret: random_scalar() }
    }

    /// An evaluator with a caller-supplied secret, for a deployment that
    /// keeps the per-party secret stable across a ceremony, and for
    /// reproducible runs under test.
    pub fn with_secret(secret: GroupScalar) -> (r: Evaluator)
        ensures
            r.secret_value() == secret.value(),
    {
        Evaluator { secret }
    }

    /// Apply the secret to a blinded point. The signature admits only the
    /// point itself: the blind and the password stay with the client.
    pub fn evaluate(&self, alpha: &CurvePoint) -> (r: CurvePoint)
        ensures
            r.dlog() == (alpha.dlog() * self.secret_value()) % group_order(),
    {
        point_mul(alpha, &self.secret)
    }
}

} // verus!
