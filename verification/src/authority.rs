use vstd::prelude::*;
use crate::account::AccountId;

verus! {

/// The multiplier of one mixing step of the derivation.
pub const MIX_MULTIPLIER: u64 = 0x100000001b3;

/// The starting state of the mixing chain of the derivation.
pub const MIX_BASIS: u64 = 0xcbf29ce484222325;

/// The fixed seed label under which the custodial vault authority is derived:
/// the bytes of "token-seed".
pub open spec fn spec_vault_seed() -> Seq<u8> {
    seq![116u8, 111u8, 107u8, 101u8, 110u8, 45u8, 115u8, 101u8, 101u8, 100u8]
}

/// The fixed seed label under which the escrow record's address is derived:
/// the bytes of "escrow-main".
pub open spec fn spec_escrow_seed() -> Seq<u8> {
    seq![101u8, 115u8, 99u8, 114u8, 111u8, 119u8, 45u8, 109u8, 97u8, 105u8, 110u8]
}

/// One step of the mixing chain: fold one 64-bit word into the state.
pub open spec fn spec_mix(h: u64, b: u64) -> u64 {
    h.wrapping_mul(MIX_MULTIPLIER).wrapping_add(b)
}

/// The mixing chain folded over the first `n` bytes of `s`.
pub open spec fn spec_absorb(h: u64, s: Seq<u8>, n: int) -> u64
    decreases n,
{
    if n <= 0 {
        h
    } else {
        spec_mix(spec_absorb(h, s, n - 1), s[n - 1] as u64)
    }
}

/// The deterministic, keyless authority derivation: a pure function from the
/// protocol's identifier, a fixed seed label, and a small disambiguator to an
/// account identifier.  No private key for the result exists; control is
/// proved by recomputing this function and comparing, never by a signature.
pub open spec fn spec_derive_authority(program_id: AccountId, label: Seq<u8>, bump: u8) -> AccountId {
    let h0 = spec_mix(MIX_BASIS, program_id.w0);
    let h1 = spec_mix(h0, program_id.w1);
    let h2 = spec_mix(h1, program_id.w2);
    let h3 = spec_mix(h2, program_id.w3);
    let h4 = spec_absorb(h3, label, label.len() as int);
    let h5 = spec_mix(h4, bump as u64);
    AccountId { w0: spec_mix(h5, 1), w1: spec_mix(h5, 2), w2: spec_mix(h5, 3), w3: spec_mix(h5, 4) }
}

/// The bytes of the vault seed label.
pub fn vault_seed() -> (r: Vec<u8>)
    ensures
        r@ == spec_vault_seed(),
{
    let v: Vec<u8> = vec![116u8, 111u8, 107u8, 101u8, 110u8, 45u8, 115u8, 101u8, 101u8, 100u8];
    proof {
        assert(v@ =~= spec_vault_seed());
    }
    v
}

/// The bytes of the escrow-record seed label.
pub fn escrow_seed() -> (r: Vec<u8>)
    ensures
        r@ == spec_escrow_seed(),
{
    let v: Vec<u8> = vec![101u8, 115u8, 99u8, 114u8, 111u8, 119u8, 45u8, 109u8, 97u8, 105u8, 110u8];
    proof {
        assert(v@ =~= spec_escrow_seed());
    }
    v
}

/// One step of the mixing chain.
fn mix(h: u64, b: u64) -> (r: u64)
    ensures
        r == spec_mix(h, b),
{
    h.wrapping_mul(MIX_MULTIPLIER).wrapping_add(b)
}

/// Recompute the derived authority for the given protocol identifier, seed
/// label, and disambiguator.
pub fn derive_authority(program_id: &AccountId, label: &Vec<u8>, bump: u8) -> (r: AccountId)
    ensures
        r == spec_derive_authority(*program_id, label@, bump),
{
    let mut h: u64 = mix(MIX_BASIS, program_id.w0);
    h = mix(h, program_id.w1);
    h = mix(h, program_id.w2);
    h = mix(h, program_id.w3);
    let ghost after_id: u64 = h;
    let mut i: usize = 0;
    while i < label.len()
        invariant
            i <= label@.len(),
            h == spec_absorb(after_id, label@, i as int),
        decreases label@.len() - i,
    {
        h = mix(h, label[i] as u64);
        i = i + 1;
    }
    h = mix(h, bump as u64);
    AccountId { w0: mix(h, 1), w1: mix(h, 2), w2: mix(h, 3), w3: mix(h, 4) }
}

} // verus!
