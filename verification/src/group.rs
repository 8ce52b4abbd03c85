//! The secp256k1 group, modelled by discrete logarithms.
//!
//! secp256k1 is a cyclic group of prime order with cofactor one, so every
//! point is determined by its discrete logarithm with respect to the fixed
//! base point, and every scalar by its value modulo the group order. The
//! uninterpreted functions `scalar_value` and `point_dlog` name those two
//! numbers for the opaque k256 values; `GroupScalar` and `CurvePoint` wrap
//! the k256 values and expose them through `value` and `dlog`.
//!
//! The trusted wrappers named `k256_*` and `os_random_bytes` are the only
//! places where anything is assumed of the outside crates, and each states
//! how the operation it calls moves these numbers: multiplying a point by a
//! scalar multiplies the discrete logarithm modulo the group order,
//! inverting a nonzero scalar yields its multiplicative inverse, and so on.
//! Everything else in the crate is verified against these contracts.

use vstd::prelude::*;

use k256::elliptic_curve::ops::Reduce;
use k256::elliptic_curve::sec1::ToEncodedPoint;
use rand_core::RngCore;

verus! {

/// The order of secp256k1's prime-order group; all scalar arithmetic for
/// blinding is performed modulo this number.
pub open spec fn group_order() -> nat {
    0xFFFFFFFFFFFFFFFFFFFFFFFFFFFFFFFEBAAEDCE6AF48A03BBFD25E8CD0364141nat
}

/// The natural number encoded by `bytes` in little-endian order.
pub open spec fn le_bytes_to_nat(bytes: Seq<u8>) -> nat
    decreases bytes.len(),
{
    if bytes.len() == 0 {
        0
    } else {
        bytes[0] as nat + 256 * le_bytes_to_nat(bytes.drop_first())
    }
}

/// `i` is the multiplicative inverse of `a` modulo the group order.
pub open spec fn inverts(a: nat, i: nat) -> bool {
    i < group_order() && (a * i) % group_order() == 1
}

#[verifier::external_type_specification]
#[verifier::external_body]
pub struct ExScalar(k256::Scalar);

#[verifier::external_type_specification]
#[verifier::external_body]
pub struct ExProjectivePoint(k256::ProjectivePoint);

/// The integer a k256 scalar stands for, below the group order.
pub uninterp spec fn scalar_value(s: k256::Scalar) -> nat;

/// The discrete logarithm of a k256 point with respect to the fixed base
/// point, below the group order; zero for the identity.
pub uninterp spec fn point_dlog(p: k256::ProjectivePoint) -> nat;

/// The SEC1 encoding of the curve point whose discrete logarithm is `dlog`:
/// the uncompressed form for a proper point, a single byte for the identity.
pub uninterp spec fn point_encoding(dlog: nat) -> Seq<u8>;

/// Relies on rand_core's `OsRng::fill_bytes`: fills the buffer from the
/// operating system's secure randomness source. Nothing can be promised of
/// the bytes that come back.
#[verifier::external_body]
fn os_random_bytes() -> (r: [u8; 32]) {
    let mut bytes = [0u8; 32];
    rand_core::OsRng.fill_bytes(&mut bytes);
    bytes
}

/// Relies on crypto-bigint's `U256::from_le_slice` (little-endian decoding
/// of exactly 32 bytes) and k256's `Reduce::<U256>::reduce` for `Scalar`,
/// which reduces by one conditional subtraction of the order; that is full
/// reduction, since the order exceeds half of 2^256.
#[verifier::external_body]
fn k256_scalar_reduce(bytes: &[u8; 32]) -> (r: k256::Scalar)
    ensures
        scalar_value(r) == le_bytes_to_nat(bytes@) % group_order(),
{
    <k256::Scalar as Reduce<k256::U256>>::reduce(k256::U256::from_le_slice(bytes))
}

/// Relies on k256's `Scalar::invert`: it returns the multiplicative inverse
/// modulo the group order when the scalar is nonzero, and nothing when it
/// is zero.
#[verifier::external_body]
fn k256_scalar_invert(s: &k256::Scalar) -> (r: Option<k256::Scalar>)
    ensures
        r is Some <==> scalar_value(*s) != 0,
        r matches Some(i) ==> inverts(scalar_value(*s), scalar_value(i)),
{
    s.invert().into()
}

/// Relies on k256's multiplication of `ProjectivePoint::GENERATOR` by a
/// `Scalar`: the result is the point whose discrete logarithm is the
/// scalar's value.
#[verifier::external_body]
fn k256_generator_mul(s: &k256::Scalar) -> (r: k256::ProjectivePoint)
    requires
        scalar_value(*s) < group_order(),
    ensures
        point_dlog(r) == scalar_value(*s),
{
    k256::ProjectivePoint::GENERATOR * s
}

/// Relies on k256's multiplication of a `ProjectivePoint` by a `Scalar`:
/// in a cyclic group, multiplying a point by a scalar multiplies its
/// discrete logarithm by the scalar's value, modulo the group order.
#[verifier::external_body]
fn k256_point_mul(p: &k256::ProjectivePoint, s: &k256::Scalar) -> (r: k256::ProjectivePoint)
    ensures
        point_dlog(r) == (point_dlog(*p) * scalar_value(*s)) % group_order(),
{
    p * s
}

/// Relies on k256's `ToEncodedPoint::to_encoded_point(false)`: the SEC1
/// encoding of the point, uncompressed (65 bytes) for a proper point and a
/// single zero byte for the identity, which is the point with discrete
/// logarithm zero.
#[verifier::external_body]
fn k256_point_encode(p: &k256::ProjectivePoint) -> (r: Vec<u8>)
    ensures
        r@ == point_encoding(point_dlog(*p)),
        r@.len() == if point_dlog(*p) == 0 { 1int } else { 65int },
{
    p.to_encoded_point(false).as_bytes().to_vec()
}

/// A scalar modulo the group order, used as a blinding factor or as the
/// evaluator's secret.
pub struct GroupScalar {
    inner: k256::Scalar,
}

impl GroupScalar {
    /// The scalar's value; every constructor yields one below the group
    /// order.
    pub closed spec fn value(self) -> nat {
        scalar_value(self.inner)
    }

    /// The multiplicative inverse modulo the group order, or nothing for
    /// the zero scalar.
    pub fn inverse(&self) -> (r: Option<GroupScalar>)
        ensures
            r is Some <==> self.value() != 0,
            r matches Some(i) ==> inverts(self.value(), i.value()),
    {
        match k256_scalar_invert(&self.inner) {
            Some(inner) => Some(GroupScalar { inner }),
            None => None,
        }
    }
}

/// An element of the prime-order group, carried through the blind /
/// evaluate / unblind pipeline.
pub struct CurvePoint {
    inner: k256::ProjectivePoint,
}

impl CurvePoint {
    /// The point's discrete logarithm with respect to the fixed base point;
    /// every constructor yields one below the group order.
    pub closed spec fn dlog(self) -> nat {
        point_dlog(self.inner)
    }
}

/// The scalar encoded by 32 little-endian bytes, reduced modulo the group
/// order.
pub fn into_scalar(bytes: &[u8; 32]) -> (r: GroupScalar)
    ensures
        r.value() == le_bytes_to_nat(bytes@) % group_order(),
        r.value() < group_order(),
{
    let inner = k256_scalar_reduce(bytes);
    proof {
        vstd::arithmetic::div_mod::lemma_mod_division_less_than_divisor(
            le_bytes_to_nat(bytes@) as int,
            group_order() as int,
        );
    }
    GroupScalar { inner }
}

/// A scalar drawn from the secure randomness source: 32 random bytes
/// reduced modulo the group order. Fresh on every call; nothing relates
/// two results.
pub fn random_scalar() -> (r: GroupScalar)
    ensures
        r.value() < group_order(),
{
    let bytes = os_random_bytes();
    into_scalar(&bytes)
}

/// The point whose discrete logarithm is the given scalar's value: the
/// fixed base point multiplied by the scalar.
pub fn base_mul(s: &GroupScalar) -> (r: CurvePoint)
    requires
        s.value() < group_order(),
    ensures
        r.dlog() == s.value(),
{
    CurvePoint { inner: k256_generator_mul(&s.inner) }
}

/// Scalar multiplication: the discrete logarithm is multiplied by the
/// scalar's value, modulo the group order.
pub fn point_mul(p: &CurvePoint, s: &GroupScalar) -> (r: CurvePoint)
    ensures
        r.dlog() == (p.dlog() * s.value()) % group_order(),
{
    CurvePoint { inner: k256_point_mul(&p.inner, &s.inner) }
}

/// The SEC1 serialization of a point, as handed to the key derivation.
pub fn point_bytes(p: &CurvePoint) -> (r: Vec<u8>)
    ensures
        r@ == point_encoding(p.dlog()),
        r@.len() == if p.dlog() == 0 { 1int } else { 65int },
{
    k256_point_encode(&p.inner)
}

} // verus!
