//! Tests of the parameter codec and the boundary allocator.

use kdf_boundary::arena::Arena;
use kdf_boundary::codec::{algorithm_from_code, revision_from_code, Algorithm, CostParams, Revision};
use kdf_boundary::errors::BoundaryError;
use kdf_boundary::kdf::hash;

#[test]
fn algorithm_codes_decode_permissively() {
    assert_eq!(algorithm_from_code(0), Algorithm::Argon2d);
    assert_eq!(algorithm_from_code(1), Algorithm::Argon2i);
    assert_eq!(algorithm_from_code(2), Algorithm::Argon2id);
    assert_eq!(algorithm_from_code(7), Algorithm::Argon2id);
    assert_eq!(algorithm_from_code(usize::MAX), Algorithm::Argon2id);
}

#[test]
fn version_codes_decode_permissively() {
    assert_eq!(revision_from_code(0x10), Revision::V0x10);
    assert_eq!(revision_from_code(0x13), Revision::V0x13);
    assert_eq!(revision_from_code(0), Revision::V0x13);
    assert_eq!(revision_from_code(99), Revision::V0x13);
}

#[test]
fn memory_exponent_expands_to_a_power_of_two() {
    let c = CostParams::new(12, 3, 1, 32).unwrap();
    assert_eq!(c.m_cost, 4096);
    assert_eq!(c.t_cost, 3);
    assert_eq!(c.p_cost, 1);
    assert_eq!(c.output_len, 32);
    assert_eq!(CostParams::new(3, 1, 1, 4).unwrap().m_cost, 8);
}

#[test]
fn degenerate_costs_are_rejected() {
    assert_eq!(
        CostParams::new(12, 3, 0, 32),
        Err(BoundaryError::InvalidParameters)
    );
    assert_eq!(
        CostParams::new(12, 3, 1, 0),
        Err(BoundaryError::InvalidParameters)
    );
}

#[test]
fn impossible_cost_combinations_are_rejected() {
    // Too little memory for any derivation at all.
    assert_eq!(CostParams::new(2, 3, 1, 32), Err(BoundaryError::InvalidParameters));
    // Too little memory for the requested lane count.
    assert_eq!(CostParams::new(4, 3, 3, 32), Err(BoundaryError::InvalidParameters));
    // No iterations.
    assert_eq!(CostParams::new(12, 0, 1, 32), Err(BoundaryError::InvalidParameters));
    // Output shorter than the primitive's minimum.
    assert_eq!(CostParams::new(12, 3, 1, 3), Err(BoundaryError::InvalidParameters));
    // Exponent past the 32-bit memory cost.
    assert_eq!(CostParams::new(32, 3, 1, 32), Err(BoundaryError::InvalidParameters));
    // The same combination, shifted into validity, is accepted.
    assert!(CostParams::new(5, 3, 3, 32).is_ok());
}

#[test]
fn hash_rejects_invalid_costs_without_touching_the_arena() {
    let mut arena = Arena::new();
    let addr = arena.allocate(32).unwrap();
    arena.write(addr, b"pw");
    let before = arena.read(0, arena.size());
    let r = hash(&mut arena, addr, 2, addr + 8, 8, 2, 12, 3, 0, 32, 19);
    assert_eq!(r, Err(BoundaryError::InvalidParameters));
    assert_eq!(arena.read(0, arena.size()), before);
}

#[test]
fn allocation_addresses_are_word_aligned() {
    let mut arena = Arena::new();
    let a = arena.allocate(3).unwrap();
    let b = arena.allocate(13).unwrap();
    let c = arena.allocate(1).unwrap();
    assert_eq!(a % 8, 0);
    assert_eq!(b % 8, 0);
    assert_eq!(c % 8, 0);
    assert_eq!(a, 0);
    assert_eq!(b, 8);
    assert_eq!(c, 24);
}

#[test]
fn deallocate_rolls_back_the_most_recent_allocation() {
    let mut arena = Arena::new();
    let a = arena.allocate(10).unwrap();
    arena.deallocate(a, 10);
    let b = arena.allocate(24).unwrap();
    assert_eq!(a, b);
}

#[test]
fn deallocate_after_allocate_leaves_allocation_behavior_unchanged() {
    // Two arenas with the same history, one of which allocates a scratch
    // buffer and releases it at once: every later request behaves alike.
    let mut with_scratch = Arena::new();
    let mut without_scratch = Arena::new();
    assert_eq!(with_scratch.allocate(5), without_scratch.allocate(5));

    let scratch = with_scratch.allocate(100).unwrap();
    with_scratch.deallocate(scratch, 100);

    for size in [1usize, 7, 8, 100] {
        assert_eq!(with_scratch.allocate(size), without_scratch.allocate(size));
    }
}

#[test]
fn deallocate_of_a_stale_pair_leaves_the_arena_unchanged() {
    let mut arena = Arena::new();
    let a = arena.allocate(8).unwrap();
    let b = arena.allocate(8).unwrap();
    // `a` is no longer the most recent allocation: releasing it is inert.
    arena.deallocate(a, 8);
    let c = arena.allocate(8).unwrap();
    assert_eq!(b, 8);
    assert_eq!(c, 16);
}

#[test]
fn arena_read_returns_what_was_written() {
    let mut arena = Arena::new();
    let addr = arena.allocate(16).unwrap();
    arena.write(addr + 2, b"staple");
    assert_eq!(arena.read(addr + 2, 6), b"staple".to_vec());
    assert_eq!(arena.read(addr, 1), vec![0u8]);
}

#[test]
fn error_messages_name_the_condition() {
    assert_eq!(
        BoundaryError::InvalidParameters.message(),
        "invalid cost parameters"
    );
    assert_eq!(
        BoundaryError::MalformedHash.message(),
        "malformed encoded hash string"
    );
    assert_eq!(BoundaryError::DerivationFailed.message(), "key derivation failed");
    assert_eq!(BoundaryError::AllocationFailed.message(), "allocation failed");
}
