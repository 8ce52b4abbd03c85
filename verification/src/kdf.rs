//! Key derivation: the memory-hard step that turns the password and the
//! recovered curve point into the 32-byte key.
//!
//! The input of the hash is the password bytes followed by the SEC1
//! encoding of the recovered point; the salt is the SHA3-256 digest of the
//! empty string. A fixed, password-independent salt defeats per-user
//! salting and is a known weakening versus standard practice, kept here as
//! an explicit configuration choice of this demonstration pipeline; a
//! production deployment must replace it with a per-user random salt.

use vstd::prelude::*;

use crate::group::{point_bytes, point_encoding, CurvePoint};
use crate::hashing::{sha3_256, sha3_of};
use crate::Error;

verus! {

/// The constraints Argon2 places on its cost parameters: between one and
/// 2^24 - 1 lanes, at least one iteration, and at least eight 1-KiB memory
/// blocks per lane.
pub open spec fn valid_cost(m_cost: u32, t_cost: u32, p_cost: u32) -> bool {
    &&& 1 <= p_cost <= 0xFFFFFF
    &&& 8 * p_cost <= m_cost
    &&& 1 <= t_cost
}

/// The 32-byte Argon2i (version 0x13) digest of `input` under `salt` and
/// the given memory, iteration and parallelism costs; a function of these
/// arguments alone.
pub uninterp spec fn argon2i_of(
    input: Seq<u8>,
    salt: Seq<u8>,
    m_cost: u32,
    t_cost: u32,
    p_cost: u32,
) -> Seq<u8>;

/// The fixed, password-independent salt: the SHA3-256 digest of the empty
/// byte string.
pub open spec fn fixed_salt() -> Seq<u8> {
    sha3_of(Seq::<u8>::empty())
}

/// The derived key: Argon2i over the password bytes concatenated with the
/// SEC1 encoding of the point recovered by unblinding, under the fixed
/// salt.
pub open spec fn derived_key_bytes(
    password: Seq<u8>,
    dlog: nat,
    m_cost: u32,
    t_cost: u32,
    p_cost: u32,
) -> Seq<u8> {
    argon2i_of(password + point_encoding(dlog), fixed_salt(), m_cost, t_cost, p_cost)
}

/// Relies on argon2's `Params::new`, `Argon2::new` and
/// `hash_password_into`: with costs in range (`valid_cost` mirrors the
/// checks of `Params::new`), a 32-byte salt and an input of at most
/// 2^32 - 1 bytes, the call fills the 32-byte buffer with the Argon2i
/// version 0x13 digest — a deterministic function of the arguments — and
/// reports no error.
#[verifier::external_body]
fn argon2i_hash(
    input: &[u8],
    salt: &[u8; 32],
    m_cost: u32,
    t_cost: u32,
    p_cost: u32,
) -> (r: [u8; 32])
    requires
        valid_cost(m_cost, t_cost, p_cost),
        input@.len() <= 0xFFFF_FFFF,
    ensures
        r@ == argon2i_of(input@, salt@, m_cost, t_cost, p_cost),
{
    let params = argon2::Params::new(m_cost, t_cost, p_cost, Some(32)).expect("costs in range");
    let ctx = argon2::Argon2::new(argon2::Algorithm::Argon2i, argon2::Version::V0x13, params);
    let mut out = [0u8; 32];
    ctx.hash_password_into(input, salt, &mut out).expect("inputs in range");
    out
}

/// The tunable memory-hardness parameters of the derivation.
#[derive(Clone, Copy, Debug, PartialEq, Eq, Structural)]
pub struct KdfParams {
    m: u32,
    t: u32,
    p: u32,
}

impl KdfParams {
    /// Memory cost in 1-KiB blocks.
    pub closed spec fn m_cost(self) -> u32 {
        self.m
    }

    /// Iteration count.
    pub closed spec fn t_cost(self) -> u32 {
        self.t
    }

    /// Degree of parallelism.
    pub closed spec fn p_cost(self) -> u32 {
        self.p
    }

    /// The parameters lie within the algorithm's constraints; every value
    /// of this type satisfies it by construction.
    pub open spec fn valid(self) -> bool {
        valid_cost(self.m_cost(), self.t_cost(), self.p_cost())
    }

    /// Validate and build a parameter set: memory cost in KiB, iteration
    /// count, degree of parallelism. Rejected with `Error::Configuration`
    /// exactly when the values break the algorithm's constraints — before
    /// any cryptographic work can be done with them.
    pub fn new(m_cost: u32, t_cost: u32, p_cost: u32) -> (r: Result<KdfParams, Error>)
        ensures
            valid_cost(m_cost, t_cost, p_cost) ==> (r matches Ok(q) && q.m_cost() == m_cost
                && q.t_cost() == t_cost && q.p_cost() == p_cost),
            !valid_cost(m_cost, t_cost, p_cost) ==> (r matches Err(e) && e
                == Error::Configuration),
    {
        if p_cost < 1 || p_cost > 0xFFFFFF {
            return Err(Error::Configuration);
        }
        if t_cost < 1 {
            return Err(Error::Configuration);
        }
        if m_cost < 8 * p_cost {
            return Err(Error::Configuration);
        }
        Ok(KdfParams { m: m_cost, t: t_cost, p: p_cost })
    }
}

impl Default for KdfParams {
    /// The defaults of this pipeline: 1024 KiB of memory, one iteration,
    /// one lane.
    fn default() -> (r: KdfParams)
        ensures
            r.valid(),
            r.m_cost() == 1024 && r.t_cost() == 1 && r.p_cost() == 1,
    {
        KdfParams { m: 1024, t: 1, p: 1 }
    }
}

/// Combine the password and the recovered point into the 32-byte key.
/// Succeeds whenever the combined hash input fits the algorithm's bound of
/// 2^32 - 1 bytes — in particular for every password of at most
/// 2^32 - 66 bytes — and fails with `Error::Resource` otherwise.
pub fn derive_key(
    password: &[u8],
    point: &CurvePoint,
    params: &KdfParams,
) -> (r: Result<[u8; 32], Error>)
    requires
        params.valid(),
    ensures
        password@.len() + 65 <= 0xFFFF_FFFF ==> r is Ok,
        r matches Ok(key) ==> key@ == derived_key_bytes(
            password@,
            point.dlog(),
            params.m_cost(),
            params.t_cost(),
            params.p_cost(),
        ),
        r matches Err(e) ==> (e == Error::Resource && password@.len() + 65 > 0xFFFF_FFFF),
{
    if password.len() as u64 > 0xFFFF_FFFFu64 - 65 {
        return Err(Error::Resource);
    }
    let enc = point_bytes(point);
    let mut input: Vec<u8> = Vec::new();
    let mut i: usize = 0;
    while i < password.len()
        invariant
            i <= password@.len(),
            input@ == password@.subrange(0, i as int),
        decreases password@.len() - i,
    {
        input.push(password[i]);
        i += 1;
    }
    proof {
        assert(password@.subrange(0, password@.len() as int) =~= password@);
    }
    let mut j: usize = 0;
    while j < enc.len()
        invariant
            j <= enc@.len(),
            input@ == password@ + enc@.subrange(0, j as int),
        decreases enc@.len() - j,
    {
        input.push(enc[j]);
        proof {
            assert(enc@.subrange(0, j + 1) =~= enc@.subrange(0, j as int).push(enc@[j as int]));
            assert(password@ + enc@.subrange(0, j + 1) =~= (password@ + enc@.subrange(
                0,
                j as int,
            )).push(enc@[j as int]));
        }
        j += 1;
    }
    proof {
        assert(enc@.subrange(0, enc@.len() as int) =~= enc@);
    }
    let empty: Vec<u8> = Vec::new();
    let salt = sha3_256(empty.as_slice());
    proof {
        assert(empty@ =~= Seq::<u8>::empty());
    }
    let key = argon2i_hash(input.as_slice(), &salt, params.m, params.t, params.p);
    Ok(key)
}

} // verus!
