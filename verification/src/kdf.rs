//! The hash and verify entry points, built around the outside derivation
//! primitive.
//!
//! The primitive's internal arithmetic is an opaque, trusted collaborator:
//! its derivation is reached through one trusted wrapper whose result is
//! named by the uninterpreted function `derived_key`, and its decoder of the
//! standard textual hash format through another, named by `phc_parts`.
//! Everything around the two calls — marshalling, validation, the arena
//! traffic, and the constant-time comparison — is verified.

use vstd::prelude::*;

use crate::arena::Arena;
use crate::arena::spec_align_up;
use crate::codec::Algorithm;
use crate::codec::CostParams;
use crate::codec::Revision;
use crate::codec::algorithm_from_code;
use crate::codec::revision_from_code;
use crate::codec::spec_algorithm_from_code;
use crate::codec::spec_cost_ok;
use crate::codec::spec_costs_accepted;
use crate::codec::spec_revision_from_code;
use crate::errors::BoundaryError;

verus! {

/// The key the derivation primitive derives from the given algorithm tag,
/// version tag, memory cost, time cost, lane count, output length, password
/// and salt. The derivation is deterministic: it is a function of these
/// arguments alone.
pub uninterp spec fn derived_key(
    alg: int,
    rev: int,
    m_cost: int,
    t_cost: int,
    p_cost: int,
    output_len: int,
    password: Seq<u8>,
    salt: Seq<u8>,
) -> Seq<u8>;

/// The bounds the derivation primitive enforces on its inputs: a password of
/// at most 2^32 - 1 bytes and a salt of 8 to 2^32 - 1 bytes.
pub open spec fn spec_inputs_accepted(password: Seq<u8>, salt: Seq<u8>) -> bool {
    &&& password.len() <= 0xFFFFFFFF
    &&& 8 <= salt.len() <= 0xFFFFFFFF
}

/// How a derivation call fails: the working memory the costs demand could
/// not be obtained, or the primitive rejected the password or salt bounds.
enum DeriveFault {
    Exhausted,
    Rejected,
}

/// Relies on argon2::Params::new, argon2::Argon2::new and
/// argon2::Argon2::hash_password_into: on success the derivation fills
/// exactly `cost.output_len` bytes, and its output is a deterministic
/// function of the algorithm, version, cost parameters, password and salt —
/// the property the primitive documents for cross-implementation test
/// vectors. For costs the primitive accepts, the call fails only when its
/// working memory cannot be obtained (told apart as `Exhausted`) or when the
/// password or salt bounds are violated, and succeeds otherwise.
#[verifier::external_body]
fn argon2_derive(
    alg: Algorithm,
    rev: Revision,
    cost: &CostParams,
    password: &[u8],
    salt: &[u8],
) -> (r: Result<Vec<u8>, DeriveFault>)
    requires
        cost.wf(),
    ensures
        r matches Ok(out) ==> {
            &&& out@ == derived_key(
                alg.spec_code(),
                rev.spec_code(),
                cost.m_cost as int,
                cost.t_cost as int,
                cost.p_cost as int,
                cost.output_len as int,
                password@,
                salt@,
            )
            &&& out@.len() == cost.output_len
        },
        r != Err::<Vec<u8>, DeriveFault>(DeriveFault::Exhausted) ==> ((r is Ok)
            == spec_inputs_accepted(password@, salt@)),
{
    let algorithm = match alg { Algorithm::Argon2d => argon2::Algorithm::Argon2d,
        Algorithm::Argon2i => argon2::Algorithm::Argon2i, _ => argon2::Algorithm::Argon2id };
    let version = match rev { Revision::V0x10 => argon2::Version::V0x10, _ => argon2::Version::V0x13 };
    let params = argon2::Params::new(cost.m_cost, cost.t_cost, cost.p_cost, Some(cost.output_len))
        .map_err(|_| DeriveFault::Rejected)?;
    let mut out = vec![0u8; cost.output_len];
    match argon2::Argon2::new(algorithm, version, params).hash_password_into(password, salt, &mut out) {
        Ok(()) => Ok(out),
        Err(argon2::Error::OutOfMemory) => Err(DeriveFault::Exhausted),
        Err(_) => Err(DeriveFault::Rejected),
    }
}

/// What the embedded fields of an encoded hash string decode to: algorithm
/// tag, version tag if one is present, memory cost, time cost, lane count,
/// salt bytes and output bytes.
pub struct DecodedHash {
    /// The numeric tag of the algorithm variant named by the string's
    /// algorithm tag (d = 0, i = 1, id = 2).
    pub algorithm_code: usize,
    /// The version field, if the string carries one.
    pub version_code: Option<u32>,
    /// The embedded memory cost, in memory units.
    pub m_cost: u32,
    /// The embedded time cost.
    pub t_cost: u32,
    /// The embedded lane count.
    pub p_cost: u32,
    /// The decoded salt bytes.
    pub salt: Vec<u8>,
    /// The decoded output bytes.
    pub output: Vec<u8>,
}

impl DecodedHash {
    /// The embedded fields, as plain mathematical values.
    pub open spec fn parts(self) -> (int, Option<int>, int, int, int, Seq<u8>, Seq<u8>) {
        (
            self.algorithm_code as int,
            match self.version_code {
                None => None,
                Some(v) => Some(v as int),
            },
            self.m_cost as int,
            self.t_cost as int,
            self.p_cost as int,
            self.salt@,
            self.output@,
        )
    }
}

/// What the primitive's decoder extracts from an encoded hash string: `Err`
/// when the bytes are not UTF-8 or not in the standard textual format,
/// `Ok(None)` when the string parses but does not carry a known algorithm
/// tag, decodable cost parameters, a salt and an output, and otherwise the
/// embedded fields. Decoding depends on the encoded bytes alone.
pub uninterp spec fn phc_parts(encoded: Seq<u8>) -> Result<
    Option<(int, Option<int>, int, int, int, Seq<u8>, Seq<u8>)>,
    (),
>;

/// Relies on core::str::from_utf8, phc::PasswordHash::new (the decoder of
/// the standard textual hash format), argon2::Algorithm::new and
/// argon2::Params::try_from: together they extract the embedded algorithm,
/// version, cost parameters, salt and output, as a function of the encoded
/// bytes alone; the algorithm tag reported is always one of the primitive's
/// three (d = 0, i = 1, id = 2).
#[verifier::external_body]
fn decode_phc(encoded: &[u8]) -> (r: Result<Option<DecodedHash>, ()>)
    ensures
        r matches Ok(Some(d)) ==> d.algorithm_code <= 2,
        match r {
            Ok(Some(d)) => phc_parts(encoded@) == Ok::<
                Option<(int, Option<int>, int, int, int, Seq<u8>, Seq<u8>)>,
                (),
            >(Some(d.parts())),
            Ok(None) => phc_parts(encoded@) == Ok::<
                Option<(int, Option<int>, int, int, int, Seq<u8>, Seq<u8>)>,
                (),
            >(None),
            Err(_) => phc_parts(encoded@) is Err,
        },
{
    let text = core::str::from_utf8(encoded).map_err(|_| ())?;
    let ph = argon2::PasswordHash::new(text).map_err(|_| ())?;
    let (Ok(alg), Ok(params)) = (argon2::Algorithm::new(ph.algorithm.as_str()),
        argon2::Params::try_from(&ph)) else { return Ok(None) };
    let (Some(salt), Some(out)) = (&ph.salt, &ph.hash) else { return Ok(None) };
    Ok(Some(DecodedHash { algorithm_code: alg as usize, version_code: ph.version,
        m_cost: params.m_cost(), t_cost: params.t_cost(), p_cost: params.p_cost(),
        salt: salt.as_ref().to_vec(), output: out.as_ref().to_vec() }))
}

/// An embedded version field selects a revision only if it is absent (the
/// current revision is assumed) or names one of the two known revisions.
pub open spec fn spec_revision_accepted(version_code: Option<int>) -> bool {
    match version_code {
        None => true,
        Some(c) => c == 0x10 || c == 0x13,
    }
}

/// The revision an accepted embedded version field selects.
pub open spec fn spec_embedded_revision(version_code: Option<int>) -> int {
    match version_code {
        None => 0x13,
        Some(c) => c,
    }
}

/// Decoded fields describe a derivation this library can recompute: a known
/// algorithm tag, an accepted version field, and a cost combination the
/// primitive accepts for an output of the embedded length.
pub open spec fn spec_parts_usable(p: (int, Option<int>, int, int, int, Seq<u8>, Seq<u8>)) -> bool {
    &&& 0 <= p.0 <= 2
    &&& spec_revision_accepted(p.1)
    &&& spec_cost_ok(p.2, p.3, p.4, p.6.len() as int)
}

/// The key the decoded parameters derive over the supplied password.
pub open spec fn spec_recomputed_key(
    p: (int, Option<int>, int, int, int, Seq<u8>, Seq<u8>),
    password: Seq<u8>,
) -> Seq<u8> {
    derived_key(
        p.0,
        spec_embedded_revision(p.1),
        p.2,
        p.3,
        p.4,
        p.6.len() as int,
        password,
        p.5,
    )
}

/// Constant-time comparison: both buffers are scanned in full, accumulating
/// the bitwise difference, so the running time does not depend on where the
/// first mismatching byte occurs.
pub fn ct_eq(a: &[u8], b: &[u8]) -> (r: bool)
    ensures
        r == (a@ == b@),
{
    if a.len() != b.len() {
        return false;
    }
    let mut diff: u8 = 0;
    let mut i: usize = 0;
    proof {
        assert(a@.subrange(0, 0) =~= b@.subrange(0, 0));
    }
    while i < a.len()
        invariant
            a@.len() == b@.len(),
            i <= a@.len(),
            (diff == 0) == (a@.subrange(0, i as int) == b@.subrange(0, i as int)),
        decreases a@.len() - i,
    {
        let ai = a[i];
        let bi = b[i];
        proof {
            assert(((ai ^ bi) == 0) == (ai == bi)) by (bit_vector);
            assert(((diff | (ai ^ bi)) == 0) == (diff == 0 && (ai ^ bi) == 0)) by (bit_vector);
            assert(a@.subrange(0, i + 1) =~= a@.subrange(0, i as int).push(a@[i as int]));
            assert(b@.subrange(0, i + 1) =~= b@.subrange(0, i as int).push(b@[i as int]));
            if a@.subrange(0, i as int) == b@.subrange(0, i as int) && ai == bi {
                assert(a@.subrange(0, i + 1) =~= b@.subrange(0, i + 1));
            }
            if a@.subrange(0, i + 1) == b@.subrange(0, i + 1) {
                assert(a@.subrange(0, i as int) =~= b@.subrange(0, i as int));
                assert(a@.subrange(0, i + 1)[i as int] == b@.subrange(0, i + 1)[i as int]);
            }
        }
        diff = diff | (ai ^ bi);
        i += 1;
    }
    proof {
        assert(a@.subrange(0, a@.len() as int) =~= a@);
        assert(b@.subrange(0, b@.len() as int) =~= b@);
        if a@.subrange(0, a@.len() as int) == b@.subrange(0, b@.len() as int) {
            assert(a@ =~= b@);
        }
    }
    diff == 0
}

/// The output the hash operation derives for the boundary's raw integer
/// codes: the algorithm and version codes are decoded permissively, the
/// memory-cost exponent is expanded, and the primitive derives the key.
pub open spec fn spec_hash_output(
    algorithm_code: usize,
    version_code: usize,
    memory_cost: u32,
    time_cost: u32,
    parallelism_cost: u32,
    output_length: usize,
    password: Seq<u8>,
    salt: Seq<u8>,
) -> Seq<u8> {
    derived_key(
        spec_algorithm_from_code(algorithm_code).spec_code(),
        spec_revision_from_code(version_code).spec_code(),
        (1u32 << memory_cost) as int,
        time_cost as int,
        parallelism_cost as int,
        output_length as int,
        password,
        salt,
    )
}

/// Hash Operation: reads the password and salt bytes out of the arena,
/// resolves the algorithm and version codes permissively, expands and
/// validates the cost parameters, derives a key of `output_length` bytes,
/// and returns the address of a freshly allocated buffer in the same arena
/// holding it. Ownership of that buffer passes to the caller, who releases
/// it with `deallocate(address, output_length)`.
///
/// An unsupported cost combination is exactly the invalid-parameters error;
/// a rejected password or salt bound is exactly the derivation error; with
/// accepted costs and inputs the operation succeeds unless memory — the
/// primitive's working memory, or an arena region for the output — cannot be
/// obtained, which is the allocation error.
pub fn hash(
    arena: &mut Arena,
    password_addr: usize,
    password_len: usize,
    salt_addr: usize,
    salt_len: usize,
    algorithm_code: usize,
    memory_cost: u32,
    time_cost: u32,
    parallelism_cost: u32,
    output_length: usize,
    version_code: usize,
) -> (r: Result<usize, BoundaryError>)
    requires
        old(arena).wf(),
        password_addr + password_len <= old(arena).bytes().len(),
        salt_addr + salt_len <= old(arena).bytes().len(),
    ensures
        final(arena).wf(),
        r is Err ==> *final(arena) == *old(arena),
        (r == Err::<usize, BoundaryError>(BoundaryError::InvalidParameters)) == !spec_costs_accepted(
            memory_cost,
            time_cost,
            parallelism_cost,
            output_length,
        ),
        r == Err::<usize, BoundaryError>(BoundaryError::AllocationFailed) ==> spec_costs_accepted(
            memory_cost,
            time_cost,
            parallelism_cost,
            output_length,
        ),
        r matches Err(e) ==> (e == BoundaryError::InvalidParameters || e
            == BoundaryError::DerivationFailed || e == BoundaryError::AllocationFailed),
        ({
            let password = old(arena).bytes().subrange(
                password_addr as int,
                password_addr + password_len,
            );
            let salt = old(arena).bytes().subrange(salt_addr as int, salt_addr + salt_len);
            let accepted = spec_costs_accepted(
                memory_cost,
                time_cost,
                parallelism_cost,
                output_length,
            );
            &&& (r == Err::<usize, BoundaryError>(BoundaryError::DerivationFailed)
                ==> !spec_inputs_accepted(password, salt))
            &&& (accepted && spec_inputs_accepted(password, salt) ==> (r is Ok || r
                == Err::<usize, BoundaryError>(BoundaryError::AllocationFailed)))
            &&& (accepted && spec_inputs_accepted(password, salt) && !Arena::spec_can_allocate(
                old(arena).next(),
                output_length as int,
            ) ==> r == Err::<usize, BoundaryError>(BoundaryError::AllocationFailed))
            &&& (r matches Ok(addr) ==> {
                &&& addr == spec_align_up(old(arena).next())
                &&& final(arena).next() == addr + output_length
                &&& final(arena).bytes().len() >= addr + output_length
                &&& final(arena).bytes().subrange(addr as int, addr + output_length)
                    == spec_hash_output(
                    algorithm_code,
                    version_code,
                    memory_cost,
                    time_cost,
                    parallelism_cost,
                    output_length,
                    password,
                    salt,
                )
                &&& forall|i: int|
                    0 <= i < old(arena).bytes().len() && !(addr <= i < addr + output_length)
                        ==> final(arena).bytes()[i] == old(arena).bytes()[i]
                &&& forall|i: int|
                    old(arena).bytes().len() <= i < final(arena).bytes().len() && !(addr <= i
                        < addr + output_length) ==> final(arena).bytes()[i] == 0u8
            })
        }),
{
    let password = arena.read(password_addr, password_len);
    let salt = arena.read(salt_addr, salt_len);
    let alg = algorithm_from_code(algorithm_code);
    let rev = revision_from_code(version_code);
    let cost = match CostParams::new(memory_cost, time_cost, parallelism_cost, output_length) {
        Ok(c) => c,
        Err(e) => {
            return Err(e);
        },
    };
    let key = match argon2_derive(alg, rev, &cost, password.as_slice(), salt.as_slice()) {
        Ok(k) => k,
        Err(DeriveFault::Exhausted) => {
            return Err(BoundaryError::AllocationFailed);
        },
        Err(DeriveFault::Rejected) => {
            return Err(BoundaryError::DerivationFailed);
        },
    };
    let addr = match arena.allocate(output_length) {
        Some(a) => a,
        None => {
            return Err(BoundaryError::AllocationFailed);
        },
    };
    arena.write(addr, key.as_slice());
    Ok(addr)
}

/// Verify Operation over plain byte slices: decode the encoded hash string,
/// recompute the derivation over the supplied password with the embedded
/// parameters, and compare in constant time. A string the decoder cannot
/// read at all is a hard failure; one that decodes but does not carry usable
/// parameters, and any recomputation mismatch or rejection, is a defined
/// `false`. With usable parameters and accepted inputs the result is exactly
/// whether the recomputed key equals the embedded output, unless the
/// primitive's working memory cannot be obtained, which is the allocation
/// error.
pub fn verify_bytes(password: &[u8], encoded: &[u8]) -> (r: Result<bool, BoundaryError>)
    ensures
        r matches Err(e) ==> (e == BoundaryError::MalformedHash || e
            == BoundaryError::AllocationFailed),
        (r == Err::<bool, BoundaryError>(BoundaryError::MalformedHash)) == (phc_parts(encoded@)
            is Err),
        r == Err::<bool, BoundaryError>(BoundaryError::AllocationFailed) ==> (phc_parts(encoded@)
            matches Ok(Some(p)) && spec_parts_usable(p)),
        r == Ok::<bool, BoundaryError>(true) ==> (phc_parts(encoded@) matches Ok(Some(p))
            && spec_parts_usable(p) && spec_recomputed_key(p, password@) == p.6),
        phc_parts(encoded@) matches Ok(Some(p)) ==> {
            &&& !spec_parts_usable(p) ==> r == Ok::<bool, BoundaryError>(false)
            &&& spec_parts_usable(p) && spec_inputs_accepted(password@, p.5) ==> (r == Ok::<
                bool,
                BoundaryError,
            >(spec_recomputed_key(p, password@) == p.6) || r == Err::<bool, BoundaryError>(
                BoundaryError::AllocationFailed,
            ))
            &&& spec_recomputed_key(p, password@) != p.6 ==> (r == Ok::<bool, BoundaryError>(false)
                || r == Err::<bool, BoundaryError>(BoundaryError::AllocationFailed))
        },
{
    let decoded = match decode_phc(encoded) {
        Ok(d) => d,
        Err(_) => {
            return Err(BoundaryError::MalformedHash);
        },
    };
    let d = match decoded {
        Some(d) => d,
        None => {
            return Ok(false);
        },
    };
    let alg = if d.algorithm_code == 0 {
        Algorithm::Argon2d
    } else if d.algorithm_code == 1 {
        Algorithm::Argon2i
    } else if d.algorithm_code == 2 {
        Algorithm::Argon2id
    } else {
        return Ok(false);
    };
    let rev = if let Some(vc) = d.version_code {
        if vc == 0x10 {
            Revision::V0x10
        } else if vc == 0x13 {
            Revision::V0x13
        } else {
            return Ok(false);
        }
    } else {
        Revision::V0x13
    };
    let cost = match CostParams::from_raw(d.m_cost, d.t_cost, d.p_cost, d.output.len()) {
        Ok(c) => c,
        Err(_) => {
            return Ok(false);
        },
    };
    let recomputed = match argon2_derive(alg, rev, &cost, password, d.salt.as_slice()) {
        Ok(o) => o,
        Err(DeriveFault::Exhausted) => {
            return Err(BoundaryError::AllocationFailed);
        },
        Err(DeriveFault::Rejected) => {
            return Ok(false);
        },
    };
    Ok(ct_eq(recomputed.as_slice(), d.output.as_slice()))
}

/// Verify Operation at the boundary: the password and the encoded hash
/// string are read out of the arena at the given addresses, and the result
/// is that of the verification over those bytes.
pub fn verify(
    arena: &Arena,
    password_addr: usize,
    password_len: usize,
    hash_addr: usize,
    hash_len: usize,
) -> (r: Result<bool, BoundaryError>)
    requires
        arena.wf(),
        password_addr + password_len <= arena.bytes().len(),
        hash_addr + hash_len <= arena.bytes().len(),
    ensures
        ({
            let encoded = arena.bytes().subrange(hash_addr as int, hash_addr + hash_len);
            let password = arena.bytes().subrange(password_addr as int, password_addr + password_len);
            &&& (r matches Err(e) ==> (e == BoundaryError::MalformedHash || e
                == BoundaryError::AllocationFailed))
            &&& ((r == Err::<bool, BoundaryError>(BoundaryError::MalformedHash)) == (phc_parts(
                encoded,
            ) is Err))
            &&& (r == Err::<bool, BoundaryError>(BoundaryError::AllocationFailed) ==> (phc_parts(
                encoded,
            ) matches Ok(Some(p)) && spec_parts_usable(p)))
            &&& (r == Ok::<bool, BoundaryError>(true) ==> (phc_parts(encoded) matches Ok(Some(p))
                && spec_parts_usable(p) && spec_recomputed_key(p, password) == p.6))
            &&& (phc_parts(encoded) matches Ok(Some(p)) ==> {
                &&& !spec_parts_usable(p) ==> r == Ok::<bool, BoundaryError>(false)
                &&& spec_parts_usable(p) && spec_inputs_accepted(password, p.5) ==> (r == Ok::<
                    bool,
                    BoundaryError,
                >(spec_recomputed_key(p, password) == p.6) || r == Err::<bool, BoundaryError>(
                    BoundaryError::AllocationFailed,
                ))
                &&& spec_recomputed_key(p, password) != p.6 ==> (r == Ok::<bool, BoundaryError>(
                    false,
                ) || r == Err::<bool, BoundaryError>(BoundaryError::AllocationFailed))
            })
        }),
{
    let password = arena.read(password_addr, password_len);
    let encoded = arena.read(hash_addr, hash_len);
    verify_bytes(password.as_slice(), encoded.as_slice())
}

/// Determinism: the derived key is a function of the algorithm code, version
/// code, cost parameters, password and salt alone, so two hash operations
/// over equal inputs produce byte-identical output.
pub proof fn lemma_hash_deterministic(
    algorithm_code1: usize,
    version_code1: usize,
    memory_cost1: u32,
    time_cost1: u32,
    parallelism_cost1: u32,
    output_length1: usize,
    password1: Seq<u8>,
    salt1: Seq<u8>,
    algorithm_code2: usize,
    version_code2: usize,
    memory_cost2: u32,
    time_cost2: u32,
    parallelism_cost2: u32,
    output_length2: usize,
    password2: Seq<u8>,
    salt2: Seq<u8>,
)
    requires
        algorithm_code1 == algorithm_code2,
        version_code1 == version_code2,
        memory_cost1 == memory_cost2,
        time_cost1 == time_cost2,
        parallelism_cost1 == parallelism_cost2,
        output_length1 == output_length2,
        password1 == password2,
        salt1 == salt2,
    ensures
        spec_hash_output(
            algorithm_code1,
            version_code1,
            memory_cost1,
            time_cost1,
            parallelism_cost1,
            output_length1,
            password1,
            salt1,
        ) == spec_hash_output(
            algorithm_code2,
            version_code2,
            memory_cost2,
            time_cost2,
            parallelism_cost2,
            output_length2,
            password2,
            salt2,
        ),
{
}

/// Default policy: every algorithm code outside 0 and 1 selects the hybrid
/// variant, so code 7 derives the same key as code 2; every version code
/// other than 0x10 selects the current revision, so code 99 derives the same
/// key as code 0x13.
pub proof fn lemma_default_policy(
    algorithm_code: usize,
    version_code: usize,
    memory_cost: u32,
    time_cost: u32,
    parallelism_cost: u32,
    output_length: usize,
    password: Seq<u8>,
    salt: Seq<u8>,
)
    ensures
        spec_algorithm_from_code(7) == spec_algorithm_from_code(2),
        spec_revision_from_code(99) == spec_revision_from_code(0x13),
        spec_hash_output(
            7,
            version_code,
            memory_cost,
            time_cost,
            parallelism_cost,
            output_length,
            password,
            salt,
        ) == spec_hash_output(
            2,
            version_code,
            memory_cost,
            time_cost,
            parallelism_cost,
            output_length,
            password,
            salt,
        ),
        spec_hash_output(
            algorithm_code,
            99,
            memory_cost,
            time_cost,
            parallelism_cost,
            output_length,
            password,
            salt,
        ) == spec_hash_output(
            algorithm_code,
            0x13,
            memory_cost,
            time_cost,
            parallelism_cost,
            output_length,
            password,
            salt,
        ),
{
}

} // verus!
