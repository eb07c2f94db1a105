use vstd::prelude::*;
use crate::identity::Identity;

verus! {

/// `x` shifted right by `i` whole bytes.
pub open spec fn shifted(x: u64, i: nat) -> u64
    decreases i,
{
    if i == 0 {
        x
    } else {
        (shifted(x, (i - 1) as nat) / 256) as u64
    }
}

/// The eight bytes of `x`, least significant first.
pub open spec fn le_bytes(x: u64) -> Seq<u8> {
    Seq::new(8, |i: int| (shifted(x, i as nat) % 256) as u8)
}

/// The tag of a vote record's key: "vote" in ASCII.
pub open spec fn vote_tag() -> Seq<u8> {
    seq![118u8, 111u8, 116u8, 101u8]
}

/// The tag of a proposal's key: "proposal" in ASCII.
pub open spec fn proposal_tag() -> Seq<u8> {
    seq![112u8, 114u8, 111u8, 112u8, 111u8, 115u8, 97u8, 108u8]
}

/// The tag of a proposal counter's key: "proposal_counter" in ASCII.
pub open spec fn counter_tag() -> Seq<u8> {
    proposal_tag() + seq![95u8, 99u8, 111u8, 117u8, 110u8, 116u8, 101u8, 114u8]
}

/// The seeds of the vote record of `voter` on the proposal that `creator`'s
/// counter numbered `proposal_id`. Ids repeat across creators, so the
/// creator is part of the key.
pub open spec fn vote_seeds(creator: Seq<u8>, proposal_id: u64, voter: Seq<u8>) -> Seq<Seq<u8>> {
    seq![vote_tag(), creator, le_bytes(proposal_id), voter]
}

/// The seeds of the proposal that `creator`'s counter numbers `id`.
pub open spec fn proposal_seeds(creator: Seq<u8>, id: u64) -> Seq<Seq<u8>> {
    seq![proposal_tag(), creator, le_bytes(id)]
}

/// The seeds of `creator`'s proposal counter.
pub open spec fn counter_seeds(creator: Seq<u8>) -> Seq<Seq<u8>> {
    seq![counter_tag(), creator]
}

/// What a list of byte strings holds.
pub open spec fn seeds_view(seeds: Seq<Vec<u8>>) -> Seq<Seq<u8>> {
    seeds.map_values(|s: Vec<u8>| s@)
}

/// What a derived address and its bump hold.
pub open spec fn found_view(r: Option<(Identity, u8)>) -> Option<(Seq<u8>, u8)> {
    match r {
        Some((a, b)) => Some((a@, b)),
        None => None,
    }
}

/// The program-derived address of `seeds` under `program_id`, with its bump,
/// or nothing where no bump gives an address off the curve or the seeds are
/// out of bounds.
pub uninterp spec fn program_address_of(seeds: Seq<Seq<u8>>, program_id: Seq<u8>) -> Option<(Seq<u8>, u8)>;

/// Relies on `Pubkey::try_find_program_address` (solana-program, re-exported by
/// anchor-lang): a function of the seeds and the program id alone, which
/// returns `None` rather than panicking when no address can be found.
#[verifier::external_body]
fn try_find_program_address(seeds: &Vec<Vec<u8>>, program_id: &Identity) -> (r: Option<(Identity, u8)>)
    ensures
        found_view(r) == program_address_of(seeds_view(seeds@), program_id@),
{
    let slices: Vec<&[u8]> = seeds.iter().map(|s| s.as_slice()).collect();
    let program = anchor_lang::prelude::Pubkey::new_from_array(program_id.bytes);
    anchor_lang::prelude::Pubkey::try_find_program_address(&slices, &program).map(
        |(a, b)| (Identity { bytes: a.to_bytes() }, b),
    )
}

/// The eight bytes of `x`, least significant first.
pub fn u64_le_bytes(x: u64) -> (r: Vec<u8>)
    ensures
        r@ == le_bytes(x),
{
    let mut r: Vec<u8> = Vec::new();
    let mut y: u64 = x;
    let mut i: usize = 0;
    while i < 8
        invariant
            i <= 8,
            r@.len() == i,
            y == shifted(x, i as nat),
            forall|j: int| 0 <= j < i ==> r@[j] == (shifted(x, j as nat) % 256) as u8,
        decreases 8 - i,
    {
        r.push((y % 256) as u8);
        y = y / 256;
        i = i + 1;
    }
    assert(r@ =~= le_bytes(x));
    r
}

/// The bytes of an identity.
fn identity_bytes(id: &Identity) -> (r: Vec<u8>)
    ensures
        r@ == id@,
{
    let mut r: Vec<u8> = Vec::new();
    let mut i: usize = 0;
    while i < 32
        invariant
            i <= 32,
            id@.len() == 32,
            r@ == id@.subrange(0, i as int),
        decreases 32 - i,
    {
        r.push(id.bytes[i]);
        i = i + 1;
        assert(r@ =~= id@.subrange(0, i as int));
    }
    assert(id@.subrange(0, 32) =~= id@);
    r
}

/// The address and bump of the record of `voter`'s vote on the proposal that
/// `creator`'s counter numbered `proposal_id`.
pub fn vote_record_address(
    creator: &Identity,
    proposal_id: u64,
    voter: &Identity,
    program_id: &Identity,
) -> (r: Option<(Identity, u8)>)
    ensures
        found_view(r) == program_address_of(vote_seeds(creator@, proposal_id, voter@), program_id@),
{
    let seeds: Vec<Vec<u8>> = vec![
        vec![118u8, 111u8, 116u8, 101u8],
        identity_bytes(creator),
        u64_le_bytes(proposal_id),
        identity_bytes(voter),
    ];
    assert(seeds_view(seeds@) =~= vote_seeds(creator@, proposal_id, voter@));
    try_find_program_address(&seeds, program_id)
}

/// The address and bump of the proposal that `creator`'s counter numbers `id`.
pub fn proposal_address(creator: &Identity, id: u64, program_id: &Identity) -> (r: Option<(Identity, u8)>)
    ensures
        found_view(r) == program_address_of(proposal_seeds(creator@, id), program_id@),
{
    let seeds: Vec<Vec<u8>> = vec![
        vec![112u8, 114u8, 111u8, 112u8, 111u8, 115u8, 97u8, 108u8],
        identity_bytes(creator),
        u64_le_bytes(id),
    ];
    assert(seeds_view(seeds@) =~= proposal_seeds(creator@, id));
    try_find_program_address(&seeds, program_id)
}

/// The address and bump of `creator`'s proposal counter.
pub fn counter_address(creator: &Identity, program_id: &Identity) -> (r: Option<(Identity, u8)>)
    ensures
        found_view(r) == program_address_of(counter_seeds(creator@), program_id@),
{
    let tag: Vec<u8> = vec![
        112u8, 114u8, 111u8, 112u8, 111u8, 115u8, 97u8, 108u8,
        95u8, 99u8, 111u8, 117u8, 110u8, 116u8, 101u8, 114u8,
    ];
    let seeds: Vec<Vec<u8>> = vec![tag, identity_bytes(creator)];
    assert(tag@ =~= counter_tag());
    assert(seeds_view(seeds@) =~= counter_seeds(creator@));
    try_find_program_address(&seeds, program_id)
}

} // verus!
