//! Keyless custody authority: an address derived from a namespace tag, the
//! escrow's seed and a bump byte, owned by the escrow program.
use vstd::prelude::*;
use anchor_lang::prelude::Pubkey;
use crate::address::Address;

verus! {

/// What `Pubkey::create_program_address` derives from `seeds` under
/// `program`: `None` where the seeds are refused or the hash lies on the curve.
pub uninterp spec fn program_address_of(seeds: Seq<Seq<u8>>, program: Seq<u8>) -> Option<Seq<u8>>;

/// The byte sequences of a list of seeds.
pub open spec fn seeds_view(s: Seq<Vec<u8>>) -> Seq<Seq<u8>> {
    s.map_values(|v: Vec<u8>| v@)
}

/// The namespace tag of escrow records: the bytes of "state".
pub open spec fn state_tag_spec() -> Seq<u8> {
    seq![115u8, 116u8, 97u8, 116u8, 101u8]
}

/// Little-endian bytes of a `u64`.
pub open spec fn le_bytes(x: u64) -> Seq<u8> {
    Seq::new(8, |i: int| ((x >> (8 * i) as u64) & 0xffu64) as u8)
}

/// The seeds of an escrow record's address, before the bump is appended.
pub open spec fn base_seeds(seed: u64) -> Seq<Seq<u8>> {
    seq![state_tag_spec(), le_bytes(seed)]
}

/// The full seeds of an escrow record's address.
pub open spec fn bumped_seeds(seed: u64, bump: u8) -> Seq<Seq<u8>> {
    base_seeds(seed).push(seq![bump])
}

/// The address that `(seed, bump)` derives under `program`, if any.
pub open spec fn state_address(seed: u64, bump: u8, program: Seq<u8>) -> Option<Seq<u8>> {
    program_address_of(bumped_seeds(seed, bump), program)
}

/// `bump` is the canonical bump of `seed`: the largest non-zero bump that
/// derives an address.
pub open spec fn is_canonical_bump(seed: u64, bump: u8, program: Seq<u8>) -> bool {
    &&& 1 <= bump
    &&& state_address(seed, bump, program) is Some
    &&& forall|c: u8| bump < c ==> #[trigger] state_address(seed, c, program) is None
}

/// The derived authority of `seed`: its address and canonical bump, or `None`
/// where no bump in `1..=255` derives an address.
pub open spec fn derived_authority(seed: u64, program: Seq<u8>) -> Option<(Seq<u8>, u8)> {
    if exists|b: u8| is_canonical_bump(seed, b, program) {
        let b = choose|b: u8| is_canonical_bump(seed, b, program);
        Some((state_address(seed, b, program)->0, b))
    } else {
        None
    }
}

/// At most one bump is canonical.
pub proof fn lemma_canonical_bump_unique(seed: u64, b1: u8, b2: u8, program: Seq<u8>)
    requires
        is_canonical_bump(seed, b1, program),
        is_canonical_bump(seed, b2, program),
    ensures
        b1 == b2,
{
    if b1 < b2 {
        assert(state_address(seed, b2, program) is None);
    } else if b2 < b1 {
        assert(state_address(seed, b1, program) is None);
    }
}

/// The namespace tag of escrow records.
pub fn state_tag() -> (r: Vec<u8>)
    ensures
        r@ == state_tag_spec(),
{
    let r = vec![115u8, 116u8, 97u8, 116u8, 101u8];
    assert(r@ =~= state_tag_spec());
    r
}

/// The little-endian bytes of `x`.
pub fn le_bytes_of(x: u64) -> (r: Vec<u8>)
    ensures
        r@ == le_bytes(x),
{
    let mut r: Vec<u8> = Vec::new();
    let mut i: u64 = 0;
    while i < 8
        invariant
            0 <= i <= 8,
            r@.len() == i,
            forall|k: int| 0 <= k < i ==> r@[k] == ((x >> (8 * k) as u64) & 0xffu64) as u8,
        decreases 8 - i,
    {
        r.push(((x >> (8 * i)) & 0xff) as u8);
        i = i + 1;
    }
    assert(r@ =~= le_bytes(x));
    r
}

/// The seeds of an escrow record's address; with `Some(bump)` the bump is
/// appended.
pub fn state_seeds(seed: u64, bump: Option<u8>) -> (r: Vec<Vec<u8>>)
    ensures
        bump is None ==> seeds_view(r@) == base_seeds(seed),
        bump matches Some(b) ==> seeds_view(r@) == bumped_seeds(seed, b),
{
    let mut r: Vec<Vec<u8>> = Vec::new();
    r.push(state_tag());
    r.push(le_bytes_of(seed));
    match bump {
        Some(b) => {
            let last = vec![b];
            assert(last@ =~= seq![b]);
            r.push(last);
            assert(seeds_view(r@) =~= bumped_seeds(seed, b));
        },
        None => {
            assert(seeds_view(r@) =~= base_seeds(seed));
        },
    }
    r
}

/// Relies on `Pubkey::create_program_address`: the address that the seeds
/// derive under the program, or an error.
#[verifier::external_body]
fn create_program_address(seeds: &Vec<Vec<u8>>, program: &Address) -> (r: Option<Address>)
    ensures
        r matches Some(a) ==> program_address_of(seeds_view(seeds@), program@)
            == Some(a@),
        r is None ==> program_address_of(seeds_view(seeds@), program@) is None,
{
    let slices: Vec<&[u8]> = seeds.iter().map(|s| s.as_slice()).collect();
    match Pubkey::create_program_address(&slices, &Pubkey::new_from_array(program.bytes)) {
        Ok(k) => Some(Address { bytes: k.to_bytes() }),
        Err(_) => None,
    }
}

/// Relies on `Pubkey::try_find_program_address`: it tries the bumps from 255
/// down to 1, each appended as a last one-byte seed, and returns the first
/// that `create_program_address` accepts, with its address.
#[verifier::external_body]
fn try_find_program_address(seeds: &Vec<Vec<u8>>, program: &Address) -> (r: Option<(Address, u8)>)
    ensures
        r matches Some((a, b)) ==> {
            &&& 1 <= b
            &&& program_address_of(seeds_view(seeds@).push(seq![b]), program@)
                == Some(a@)
            &&& forall|c: u8|
                b < c ==> (#[trigger] program_address_of(
                    seeds_view(seeds@).push(seq![c]),
                    program@,
                )) is None
        },
        r is None ==> forall|c: u8|
            1 <= c ==> (#[trigger] program_address_of(
                seeds_view(seeds@).push(seq![c]),
                program@,
            )) is None,
{
    let slices: Vec<&[u8]> = seeds.iter().map(|s| s.as_slice()).collect();
    Pubkey::try_find_program_address(&slices, &Pubkey::new_from_array(program.bytes))
        .map(|(k, b)| (Address { bytes: k.to_bytes() }, b))
}

/// Derives the custody authority of `seed` under `program`: its address and
/// canonical bump.
pub fn derive_state_authority(seed: u64, program: &Address) -> (r: Option<(Address, u8)>)
    ensures
        r matches Some((a, b)) ==> derived_authority(seed, program@) == Some((a@, b)),
        r is None ==> derived_authority(seed, program@) is None,
{
    let seeds = state_seeds(seed, None);
    let r = try_find_program_address(&seeds, program);
    match r {
        Some((a, b)) => {
            proof {
                assert(is_canonical_bump(seed, b, program@));
                let bb = choose|bb: u8| is_canonical_bump(seed, bb, program@);
                lemma_canonical_bump_unique(seed, b, bb, program@);
            }
        },
        None => {
            proof {
                assert forall|b: u8| !is_canonical_bump(seed, b, program@) by {
                    if 1 <= b {
                        assert(state_address(seed, b, program@) is None);
                    }
                }
            }
        },
    }
    r
}

/// Recomputes the derivation from `(seed, bump)` and checks that it gives
/// `address`.
pub fn verify_state_authority(address: &Address, seed: u64, bump: u8, program: &Address) -> (r:
    bool)
    ensures
        r == (state_address(seed, bump, program@) == Some(address@)),
{
    let seeds = state_seeds(seed, Some(bump));
    match create_program_address(&seeds, program) {
        Some(a) => a.same_as(address),
        None => false,
    }
}

} // verus!
