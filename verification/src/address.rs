use vstd::prelude::*;
use crate::identity::Identity;
use crate::state::{record_of, Capsule, CapsuleView, Config};

verus! {

/// The address and bump that the program-address search yields for `seeds` under
/// the program `program`, if it yields any.
pub uninterp spec fn found_address(seeds: Seq<Seq<u8>>, program: Seq<u8>) -> Option<(Seq<u8>, u8)>;

/// The program address that `seeds` derive under the program `program`, if they
/// derive one.
pub uninterp spec fn created_address(seeds: Seq<Seq<u8>>, program: Seq<u8>) -> Option<Seq<u8>>;

/// The seeds that a list of byte slices holds.
pub open spec fn seeds_view(seeds: Seq<&[u8]>) -> Seq<Seq<u8>> {
    Seq::new(seeds.len(), |i: int| seeds[i]@)
}

/// The bytes of what an address search returned.
pub open spec fn found_view(r: Option<(Identity, u8)>) -> Option<(Seq<u8>, u8)> {
    match r {
        Some((address, bump)) => Some((address@, bump)),
        None => None,
    }
}

/// The bytes of what an address derivation returned.
pub open spec fn created_view(r: Option<Identity>) -> Option<Seq<u8>> {
    match r {
        Some(address) => Some(address@),
        None => None,
    }
}

/// `Pubkey::try_find_program_address`: searches the bump seeds from the highest
/// down for the first one with which `seeds` derive a program address. The result
/// is a function of the seeds and the program alone; the bump it reports is one
/// with which `Pubkey::create_program_address` derives the same address.
#[verifier::external_body]
pub(crate) fn try_find_program_address(seeds: &Vec<&[u8]>, program: &Identity) -> (r: Option<
    (Identity, u8),
>)
    ensures
        found_view(r) == found_address(seeds_view(seeds@), program@),
        r matches Some((address, bump)) ==> created_address(
            seeds_view(seeds@).push(seq![bump]),
            program@,
        ) == Some(address@),
{
    let program_id = anchor_lang::prelude::Pubkey::new_from_array(program.bytes);
    anchor_lang::prelude::Pubkey::try_find_program_address(seeds, &program_id)
        .map(|(address, bump)| (Identity { bytes: address.to_bytes() }, bump))
}

/// `Pubkey::create_program_address`: derives the program address of `seeds` under
/// `program`, or none where the seeds are too many, too long, or hash onto the
/// curve. The result is a function of the seeds and the program alone.
#[verifier::external_body]
pub(crate) fn create_program_address(seeds: &Vec<&[u8]>, program: &Identity) -> (r: Option<
    Identity,
>)
    ensures
        created_view(r) == created_address(seeds_view(seeds@), program@),
{
    let program_id = anchor_lang::prelude::Pubkey::new_from_array(program.bytes);
    anchor_lang::prelude::Pubkey::create_program_address(seeds, &program_id)
        .ok()
        .map(|address| Identity { bytes: address.to_bytes() })
}

/// The address and bump at which the registry is allocated.
pub open spec fn spec_find_config_address() -> Option<(Seq<u8>, u8)> {
    found_address(seq![Config::spec_seed()], crate::spec_id())
}

/// Searches the address at which the registry is allocated, and the bump that
/// belongs to it.
pub fn find_config_address() -> (r: Option<(Identity, u8)>)
    ensures
        found_view(r) == spec_find_config_address(),
{
    let tag = Config::seed();
    let mut seeds: Vec<&[u8]> = Vec::new();
    seeds.push(tag.as_slice());
    assert(seeds_view(seeds@) =~= seq![Config::spec_seed()]);
    let program = crate::id();
    try_find_program_address(&seeds, &program)
}

/// The seeds of a capsule address: the tag `capsule`, the creator, and the id in
/// eight bytes, least significant first.
pub open spec fn capsule_seeds(creator: Identity, id: u64) -> Seq<Seq<u8>> {
    seq![Capsule::spec_seed(), creator@, vstd::bytes::spec_u64_to_le_bytes(id)]
}

/// The address and bump at which the capsule `id` of `creator` is allocated.
pub open spec fn spec_find_capsule_address(creator: Identity, id: u64) -> Option<(Seq<u8>, u8)> {
    found_address(capsule_seeds(creator, id), crate::spec_id())
}

/// The address of the capsule `id` of `creator` that was allocated with `bump`.
pub open spec fn spec_capsule_address(creator: Identity, id: u64, bump: u8) -> Option<Seq<u8>> {
    created_address(capsule_seeds(creator, id).push(seq![bump]), crate::spec_id())
}

/// The address that a stored record claims: the one derived from its creator,
/// its id and its bump. An empty slot claims none.
pub open spec fn claimed_address(slot: Option<CapsuleView>) -> Option<Seq<u8>> {
    match slot {
        Some(capsule) => spec_capsule_address(capsule.creator, capsule.id, capsule.bump),
        None => None,
    }
}

/// Searches the address at which the capsule `id` of `creator` is allocated,
/// and the bump that belongs to it.
pub fn find_capsule_address(creator: &Identity, id: u64) -> (r: Option<(Identity, u8)>)
    ensures
        found_view(r) == spec_find_capsule_address(*creator, id),
        r matches Some((address, bump)) ==> spec_capsule_address(*creator, id, bump) == Some(
            address@,
        ),
{
    let tag = Capsule::seed();
    let id_bytes = vstd::bytes::u64_to_le_bytes(id);
    let mut seeds: Vec<&[u8]> = Vec::new();
    seeds.push(tag.as_slice());
    seeds.push(creator.bytes.as_slice());
    seeds.push(id_bytes.as_slice());
    assert(seeds_view(seeds@) =~= capsule_seeds(*creator, id));
    let program = crate::id();
    try_find_program_address(&seeds, &program)
}

/// Derives again the address of the capsule `id` of `creator` that was
/// allocated with `bump`.
pub fn capsule_address(creator: &Identity, id: u64, bump: u8) -> (r: Option<Identity>)
    ensures
        created_view(r) == spec_capsule_address(*creator, id, bump),
{
    let tag = Capsule::seed();
    let id_bytes = vstd::bytes::u64_to_le_bytes(id);
    let bump_bytes: [u8; 1] = [bump];
    let mut seeds: Vec<&[u8]> = Vec::new();
    seeds.push(tag.as_slice());
    seeds.push(creator.bytes.as_slice());
    seeds.push(id_bytes.as_slice());
    seeds.push(bump_bytes.as_slice());
    assert(seeds_view(seeds@) =~= capsule_seeds(*creator, id).push(seq![bump])) by {
        assert(bump_bytes@ =~= seq![bump]);
    }
    let program = crate::id();
    create_program_address(&seeds, &program)
}

/// Derives again the address that the record in `slot` claims.
pub fn claimed_capsule_address(slot: &Option<Capsule>) -> (r: Option<Identity>)
    ensures
        created_view(r) == claimed_address(record_of(*slot)),
{
    match slot {
        Some(capsule) => capsule_address(&capsule.creator, capsule.id, capsule.bump),
        None => None,
    }
}

/// Whether `derived` is an address, and the one at `capsule_key`.
pub fn is_address(derived: &Option<Identity>, capsule_key: &Identity) -> (r: bool)
    ensures
        r == (created_view(*derived) == Some(capsule_key@)),
{
    match derived {
        Some(address) => {
            proof {
                crate::identity::lemma_identity_by_bytes(*address, *capsule_key);
            }
            *address == *capsule_key
        },
        None => false,
    }
}

} // verus!
