//! Parameter marshalling: converts the untyped integer codes of the boundary
//! into a typed algorithm/version selection, and expands the memory-cost
//! exponent into the absolute cost the derivation primitive takes.
//!
//! Decoding a code never fails: any code outside the recognised set selects
//! the permissive default. Cost-parameter construction is the one failing
//! step, because validity depends on the combination of the fields.

use vstd::prelude::*;

use crate::errors::BoundaryError;

verus! {

/// The three variants of the memory-hard derivation algorithm.
#[derive(Clone, Copy, Debug, PartialEq, Eq, Structural)]
pub enum Algorithm {
    /// The data-dependent variant.
    Argon2d,
    /// The data-independent variant.
    Argon2i,
    /// The hybrid variant, and the permissive default.
    Argon2id,
}

/// The two protocol revisions of the derivation algorithm.
#[derive(Clone, Copy, Debug, PartialEq, Eq, Structural)]
pub enum Revision {
    /// The legacy revision, 0x10.
    V0x10,
    /// The current revision, 0x13, and the permissive default.
    V0x13,
}

impl Algorithm {
    /// The numeric tag of the variant inside the primitive (d = 0, i = 1,
    /// id = 2).
    pub open spec fn spec_code(self) -> int {
        match self {
            Algorithm::Argon2d => 0,
            Algorithm::Argon2i => 1,
            Algorithm::Argon2id => 2,
        }
    }
}

impl Revision {
    /// The numeric tag of the revision inside the primitive.
    pub open spec fn spec_code(self) -> int {
        match self {
            Revision::V0x10 => 0x10,
            Revision::V0x13 => 0x13,
        }
    }
}

/// The permissive decoding of an algorithm code: 0 selects the
/// data-dependent variant, 1 the data-independent one, and any other code
/// defaults to the hybrid variant.
pub open spec fn spec_algorithm_from_code(code: usize) -> Algorithm {
    if code == 0 {
        Algorithm::Argon2d
    } else if code == 1 {
        Algorithm::Argon2i
    } else {
        Algorithm::Argon2id
    }
}

/// The permissive decoding of a version code: 0x10 selects the legacy
/// revision and any other code defaults to the current one.
pub open spec fn spec_revision_from_code(code: usize) -> Revision {
    if code == 0x10 {
        Revision::V0x10
    } else {
        Revision::V0x13
    }
}

/// Decodes an algorithm code, applying the permissive default policy.
pub fn algorithm_from_code(code: usize) -> (r: Algorithm)
    ensures
        r == spec_algorithm_from_code(code),
{
    if code == 0 {
        Algorithm::Argon2d
    } else if code == 1 {
        Algorithm::Argon2i
    } else {
        Algorithm::Argon2id
    }
}

/// Decodes a version code, applying the permissive default policy.
pub fn revision_from_code(code: usize) -> (r: Revision)
    ensures
        r == spec_revision_from_code(code),
{
    if code == 0x10 {
        Revision::V0x10
    } else {
        Revision::V0x13
    }
}

/// The cost parameters of one derivation: memory cost in fixed-size memory
/// units, iteration count, lane count, and derived key size in bytes.
#[derive(Clone, Copy, Debug, PartialEq, Eq, Structural)]
pub struct CostParams {
    /// Memory cost, in 1 KiB memory units.
    pub m_cost: u32,
    /// Iteration count.
    pub t_cost: u32,
    /// Lane count.
    pub p_cost: u32,
    /// Derived key size in bytes.
    pub output_len: usize,
}

/// The combinations the derivation primitive accepts: at least 8 memory
/// units and at least 8 per lane, at least one iteration, between 1 and
/// 2^24 - 1 lanes, and an output of 4 to 2^32 - 1 bytes.
pub open spec fn spec_cost_ok(m_cost: int, t_cost: int, p_cost: int, output_len: int) -> bool {
    &&& 8 <= m_cost
    &&& 1 <= t_cost
    &&& 1 <= p_cost <= 0xFFFFFF
    &&& m_cost >= 8 * p_cost
    &&& 4 <= output_len <= 0xFFFFFFFF
}

/// The cost combinations the boundary accepts, over its raw integers: the
/// memory-cost exponent must fit the primitive's 32-bit memory cost, and the
/// expanded combination must be one the primitive accepts.
pub open spec fn spec_costs_accepted(
    memory_exponent: u32,
    time_cost: u32,
    parallelism_cost: u32,
    output_length: usize,
) -> bool {
    &&& memory_exponent < 32
    &&& spec_cost_ok(
        (1u32 << memory_exponent) as int,
        time_cost as int,
        parallelism_cost as int,
        output_length as int,
    )
}

impl CostParams {
    /// The combination is one the derivation primitive accepts.
    pub open spec fn wf(self) -> bool {
        spec_cost_ok(self.m_cost as int, self.t_cost as int, self.p_cost as int, self.output_len as int)
    }

    /// Validates an absolute cost combination, field for field, against the
    /// bounds the derivation primitive enforces. An invalid combination is a
    /// hard failure, never a silent clamp.
    pub fn from_raw(m_cost: u32, t_cost: u32, p_cost: u32, output_len: usize) -> (r: Result<
        CostParams,
        BoundaryError,
    >)
        ensures
            (r is Ok) == spec_cost_ok(m_cost as int, t_cost as int, p_cost as int, output_len as int),
            r matches Ok(c) ==> c == (CostParams { m_cost, t_cost, p_cost, output_len }),
            r matches Err(e) ==> e == BoundaryError::InvalidParameters,
    {
        if m_cost < 8 {
            return Err(BoundaryError::InvalidParameters);
        }
        if p_cost < 1 || p_cost > 0xFFFFFF {
            return Err(BoundaryError::InvalidParameters);
        }
        if m_cost < p_cost * 8 {
            return Err(BoundaryError::InvalidParameters);
        }
        if t_cost < 1 {
            return Err(BoundaryError::InvalidParameters);
        }
        if output_len < 4 || output_len > 0xFFFFFFFF {
            return Err(BoundaryError::InvalidParameters);
        }
        Ok(CostParams { m_cost, t_cost, p_cost, output_len })
    }

    /// Constructs cost parameters from the boundary's raw integers: the
    /// memory cost arrives as an exponent and is expanded to 2^exponent
    /// memory units before validation.
    pub fn new(
        memory_exponent: u32,
        time_cost: u32,
        parallelism_cost: u32,
        output_length: usize,
    ) -> (r: Result<CostParams, BoundaryError>)
        ensures
            (r is Ok) == spec_costs_accepted(
                memory_exponent,
                time_cost,
                parallelism_cost,
                output_length,
            ),
            r matches Ok(c) ==> c == (CostParams {
                m_cost: 1u32 << memory_exponent,
                t_cost: time_cost,
                p_cost: parallelism_cost,
                output_len: output_length,
            }),
            r matches Err(e) ==> e == BoundaryError::InvalidParameters,
    {
        if memory_exponent >= 32 {
            return Err(BoundaryError::InvalidParameters);
        }
        let m_cost: u32 = 1u32 << memory_exponent;
        Self::from_raw(m_cost, time_cost, parallelism_cost, output_length)
    }
}

/// Rejection is unconditional for a degenerate combination: no lane count of
/// zero and no output length of zero is ever accepted, whatever the other
/// fields hold.
pub proof fn lemma_degenerate_costs_rejected(
    memory_exponent: u32,
    time_cost: u32,
    parallelism_cost: u32,
    output_length: usize,
)
    ensures
        !spec_costs_accepted(memory_exponent, time_cost, 0, output_length),
        !spec_costs_accepted(memory_exponent, time_cost, parallelism_cost, 0),
{
}

} // verus!
