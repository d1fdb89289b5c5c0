//! The event authority: a derived address that proves the emitting program.
//!
//! The environment derives, from a seed string and an owning program's
//! identity, an address that lies outside the valid-key space: no private key
//! can ever sign for it, and the environment's dispatcher will mark it a
//! signer only on the owning program's own request. Deriving it from the
//! fixed seed `"__event_authority"` therefore gives the program a
//! non-forgeable event-authority identity with no key material at all. The
//! derivation is deterministic, so an on-chain validator and an off-chain
//! observer always agree on the address without coordination.
//!
//! The validator side re-derives the expected address and bump internally and
//! compares, rather than trusting a caller-supplied bump checked by address
//! equality alone: the stronger of the two designs, at the cost of one
//! derivation per validation.

use vstd::prelude::*;

use crate::bytes::bytes_eq;

verus! {

/// An address in this environment is this many bytes.
pub const ADDRESS_LEN: usize = 32;

/// The derived address and bump for a seed and an owning program, or `None`
/// in the statistically improbable case that no bump candidate works. A pure
/// function of seed and program identity — the environment's derivation rule
/// (a digest plus a search for an off-curve result) — too intricate to state
/// here; contracts speak of it only through this name.
pub uninterp spec fn pda_of(seed: Seq<u8>, program_id: Seq<u8>) -> Option<(Seq<u8>, u8)>;

/// Relies on `Pubkey::try_find_program_address` (reached through
/// `anchor_lang`'s re-export of the pubkey crate): a deterministic search,
/// from the largest bump candidate down, for a derived address off the
/// ed25519 curve. Its result is a function of the seed and the program id
/// alone; a returned address is 32 bytes; it returns `None`, and never
/// panics, when no candidate fits.
#[verifier::external_body]
fn find_derived_address(seed: &Vec<u8>, program_id: &Vec<u8>) -> (r: Option<(Vec<u8>, u8)>)
    requires
        program_id@.len() == ADDRESS_LEN,
    ensures
        r is Some <==> pda_of(seed@, program_id@) is Some,
        (r matches Some(found) ==> Some((found.0@, found.1)) == pda_of(seed@, program_id@)
            && found.0@.len() == ADDRESS_LEN),
{
    let mut id_bytes = [0u8; 32];
    id_bytes.copy_from_slice(program_id.as_slice());
    let program = anchor_lang::solana_program::pubkey::Pubkey::new_from_array(id_bytes);
    anchor_lang::solana_program::pubkey::Pubkey::try_find_program_address(
        &[seed.as_slice()],
        &program,
    ).map(|(address, bump)| (address.to_bytes().to_vec(), bump))
}

/// The bytes of `"__event_authority"`, the fixed seed of the event authority.
pub open spec fn event_authority_seed() -> Seq<u8> {
    seq![
        95u8,
        95u8,
        101u8,
        118u8,
        101u8,
        110u8,
        116u8,
        95u8,
        97u8,
        117u8,
        116u8,
        104u8,
        111u8,
        114u8,
        105u8,
        116u8,
        121u8,
    ]
}

/// The bytes of `"__event_authority"`.
pub fn event_authority_seed_bytes() -> (seed: Vec<u8>)
    ensures
        seed@ == event_authority_seed(),
{
    let mut seed: Vec<u8> = Vec::new();
    seed.push(95);
    seed.push(95);
    seed.push(101);
    seed.push(118);
    seed.push(101);
    seed.push(110);
    seed.push(116);
    seed.push(95);
    seed.push(97);
    seed.push(117);
    seed.push(116);
    seed.push(104);
    seed.push(111);
    seed.push(114);
    seed.push(105);
    seed.push(116);
    seed.push(121);
    proof {
        assert(seed@ =~= event_authority_seed());
    }
    seed
}

/// The event authority of the program with the given identity.
pub open spec fn derived_event_authority(program_id: Seq<u8>) -> Option<(Seq<u8>, u8)> {
    pda_of(event_authority_seed(), program_id)
}

/// Derive the owning program's event authority: its address and the bump that
/// makes the derivation valid. Deterministic — two calls with the same
/// program identity return the same pair, here and in any other process —
/// which is what lets observers predict the address. `None` only in the
/// statistically improbable case that no bump candidate yields an off-curve
/// address for this program identity.
pub fn derive_event_authority(program_id: &Vec<u8>) -> (r: Option<(Vec<u8>, u8)>)
    requires
        program_id@.len() == ADDRESS_LEN,
    ensures
        r is Some <==> derived_event_authority(program_id@) is Some,
        (r matches Some(found) ==> Some((found.0@, found.1)) == derived_event_authority(
            program_id@,
        ) && found.0@.len() == ADDRESS_LEN),
{
    let seed = event_authority_seed_bytes();
    find_derived_address(&seed, program_id)
}

/// Is `presented` exactly the owning program's identity?
pub fn validate_program_account(presented: &Vec<u8>, owning_program: &Vec<u8>) -> (ok: bool)
    ensures
        ok <==> presented@ == owning_program@,
{
    bytes_eq(presented, owning_program)
}

/// A presented authority account is valid when its address and bump are
/// exactly the derived event authority of the owning program. When the
/// derivation has no result, no presented account is valid.
pub open spec fn authority_account_valid(
    presented: Seq<u8>,
    bump: u8,
    owning_program: Seq<u8>,
) -> bool {
    match derived_event_authority(owning_program) {
        Some(derived) => presented == derived.0 && bump == derived.1,
        None => false,
    }
}

/// Does the presented authority account match what the owning program's
/// identity predicts? Re-derives the expected `(address, bump)` pair and
/// compares both parts.
pub fn validate_authority_account(
    presented: &Vec<u8>,
    bump: u8,
    owning_program: &Vec<u8>,
) -> (ok: bool)
    requires
        owning_program@.len() == ADDRESS_LEN,
    ensures
        ok <==> authority_account_valid(presented@, bump, owning_program@),
{
    match derive_event_authority(owning_program) {
        Some((address, derived_bump)) => bytes_eq(presented, &address) && bump == derived_bump,
        None => false,
    }
}

} // verus!
