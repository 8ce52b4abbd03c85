//! The client's blind/unblind engine.
//!
//! Blinding multiplies the hashed curve point by an ephemeral random
//! scalar before it is sent to the evaluator; unblinding multiplies the
//! evaluator's response by that scalar's modular inverse. The two public
//! lemmas state the round-trip law: the blind cancels, with or without the
//! evaluator's multiplication in between.

use vstd::arithmetic::div_mod::{lemma_mul_mod_noop_left, lemma_mul_mod_noop_right, lemma_small_mod};
use vstd::arithmetic::mul::lemma_mul_is_associative;
use vstd::prelude::*;

use crate::group::{group_order, inverts, point_mul, CurvePoint, GroupScalar};
use crate::Error;

verus! {

/// Blinding: multiply the point by the ephemeral scalar, hiding the point
/// (and with it the password) from the evaluator.
pub fn blind(point: &CurvePoint, blinding: &GroupScalar) -> (r: CurvePoint)
    ensures
        r.dlog() == (point.dlog() * blinding.value()) % group_order(),
{
    point_mul(point, blinding)
}

/// Unblinding: multiply the evaluator's response by the blind's modular
/// inverse, recovering the point stripped of the blind. Fails with
/// `Error::Arithmetic` exactly when the blind is zero, which correct
/// sampling makes overwhelmingly unlikely; the failure is never masked.
pub fn unblind(evaluated: &CurvePoint, blinding: &GroupScalar) -> (r: Result<CurvePoint, Error>)
    ensures
        blinding.value() == 0 ==> (r matches Err(e) && e == Error::Arithmetic),
        blinding.value() != 0 ==> (r matches Ok(q) && exists|i: nat|
            #[trigger] inverts(blinding.value(), i)
                && q.dlog() == (evaluated.dlog() * i) % group_order()),
{
    match blinding.inverse() {
        Some(inv) => {
            let q = point_mul(evaluated, &inv);
            proof {
                assert(inverts(blinding.value(), inv.value())
                    && q.dlog() == (evaluated.dlog() * inv.value()) % group_order());
            }
            Ok(q)
        },
        None => Err(Error::Arithmetic),
    }
}

/// Multiplying inside a residue first does not change the residue:
/// `((a * b) % n) * c` and `a * (b * c)` agree modulo `n`.
proof fn lemma_mod_mul_assoc(a: nat, b: nat, c: nat, n: nat)
    requires
        n > 0,
    ensures
        (((a * b) % n) * c) % n == (a * (b * c)) % n,
{
    lemma_mul_mod_noop_left((a * b) as int, c as int, n as int);
    lemma_mul_is_associative(a as int, b as int, c as int);
}

/// The round-trip law: for a point with discrete logarithm `x` and a blind
/// `b` with inverse `i`, unblinding the blinded point returns exactly `x` —
/// `unblind(blind(X, b), b) == X`.
pub proof fn lemma_unblind_cancels_blind(x: nat, b: nat, i: nat)
    requires
        x < group_order(),
        inverts(b, i),
    ensures
        (((x * b) % group_order()) * i) % group_order() == x,
{
    let n = group_order();
    lemma_mod_mul_assoc(x, b, i, n);
    lemma_mul_mod_noop_right(x as int, (b * i) as int, n as int);
    lemma_small_mod(x, n);
}

/// The round-trip law with the evaluator interposed: blinding by `b`,
/// multiplying by the evaluator's secret `k`, and unblinding with `b`'s
/// inverse `i` yields the point multiplied by `k` alone — the recovered
/// point is independent of the blind.
pub proof fn lemma_blind_evaluate_unblind(x: nat, b: nat, k: nat, i: nat)
    requires
        x < group_order(),
        inverts(b, i),
    ensures
        (((((x * b) % group_order()) * k) % group_order()) * i) % group_order()
            == (x * k) % group_order(),
{
    let n = group_order();
    lemma_mod_mul_assoc((x * b) % n, k, i, n);
    lemma_mul_mod_noop_left((x * b) as int, (k * i) as int, n as int);
    assert((x * b) * (k * i) == (x * k) * (b * i)) by (nonlinear_arith);
    lemma_mul_mod_noop_right((x * k) as int, (b * i) as int, n as int);
}

} // verus!
