use vstd::prelude::*;

verus! {

/// The address and derivation proof that probing yields for the given
/// seeds under the given deriving program, or `None` when no usable proof
/// exists.  The outcome is a pure function of the seeds and the program
/// identity; its definition (repeated hashing while probing for an
/// off-curve result) is left to the prober itself.
pub uninterp spec fn pda_of(seeds: Seq<Seq<u8>>, program_id: Seq<u8>) -> Option<(Seq<u8>, u8)>;

/// The namespace tag of profile records: the bytes of `"profile"`.
pub open spec fn profile_tag() -> Seq<u8> {
    seq![112u8, 114u8, 111u8, 102u8, 105u8, 108u8, 101u8]
}

/// The namespace tag of completion records: the bytes of `"completion"`.
pub open spec fn completion_tag() -> Seq<u8> {
    seq![99u8, 111u8, 109u8, 112u8, 108u8, 101u8, 116u8, 105u8, 111u8, 110u8]
}

/// Seeds addressing the one profile record of a learner.
pub open spec fn profile_seeds(owner: Seq<u8>) -> Seq<Seq<u8>> {
    seq![profile_tag(), owner]
}

/// Seeds addressing the one completion record of a (learner, course) pair.
pub open spec fn completion_seeds(owner: Seq<u8>, course_slug: Seq<u8>) -> Seq<Seq<u8>> {
    seq![completion_tag(), owner, course_slug]
}

/// The option of (address bytes, proof) that an exec derivation returned.
pub open spec fn derived_view(r: Option<([u8; 32], u8)>) -> Option<(Seq<u8>, u8)> {
    match r {
        Some(p) => Some((p.0@, p.1)),
        None => None,
    }
}

/// Relies on `Pubkey::try_find_program_address` (anchor_lang's re-export of
/// the Solana address prober): the returned address and bump, or the absence
/// of one, depend on the seeds and the program id alone.
#[verifier::external_body]
fn find_pda(seeds: &Vec<Vec<u8>>, program_id: &[u8; 32]) -> (r: Option<([u8; 32], u8)>)
    ensures
        derived_view(r) == pda_of(seeds@.map_values(|s: Vec<u8>| s@), program_id@),
{
    let pid = anchor_lang::prelude::Pubkey::new_from_array(*program_id);
    let seed_slices: Vec<&[u8]> = seeds.iter().map(|s| s.as_slice()).collect();
    anchor_lang::prelude::Pubkey::try_find_program_address(&seed_slices, &pid)
        .map(|(a, b)| (a.to_bytes(), b))
}

/// The exec bytes of the profile namespace tag.
fn profile_tag_vec() -> (r: Vec<u8>)
    ensures
        r@ == profile_tag(),
{
    let mut v: Vec<u8> = Vec::new();
    v.push(112);
    v.push(114);
    v.push(111);
    v.push(102);
    v.push(105);
    v.push(108);
    v.push(101);
    proof {
        assert(v@ =~= profile_tag());
    }
    v
}

/// The exec bytes of the completion namespace tag.
fn completion_tag_vec() -> (r: Vec<u8>)
    ensures
        r@ == completion_tag(),
{
    let mut v: Vec<u8> = Vec::new();
    v.push(99);
    v.push(111);
    v.push(109);
    v.push(112);
    v.push(108);
    v.push(101);
    v.push(116);
    v.push(105);
    v.push(111);
    v.push(110);
    proof {
        assert(v@ =~= completion_tag());
    }
    v
}

/// Derive the storage address and proof of a learner's profile record.
pub fn derive_profile_address(owner: &[u8; 32], program_id: &[u8; 32]) -> (r: Option<([u8; 32], u8)>)
    ensures
        derived_view(r) == pda_of(profile_seeds(owner@), program_id@),
{
    let mut seeds: Vec<Vec<u8>> = Vec::new();
    seeds.push(profile_tag_vec());
    seeds.push(vstd::slice::slice_to_vec(owner.as_slice()));
    let r = find_pda(&seeds, program_id);
    proof {
        assert(seeds@.map_values(|s: Vec<u8>| s@) =~= profile_seeds(owner@));
    }
    r
}

/// Derive the storage address and proof of the completion record of one
/// (learner, course) pair.
pub fn derive_completion_address(
    owner: &[u8; 32],
    course_slug: &Vec<u8>,
    program_id: &[u8; 32],
) -> (r: Option<([u8; 32], u8)>)
    ensures
        derived_view(r) == pda_of(completion_seeds(owner@, course_slug@), program_id@),
{
    let mut seeds: Vec<Vec<u8>> = Vec::new();
    seeds.push(completion_tag_vec());
    seeds.push(vstd::slice::slice_to_vec(owner.as_slice()));
    seeds.push(vstd::slice::slice_to_vec(course_slug.as_slice()));
    let r = find_pda(&seeds, program_id);
    proof {
        assert(seeds@.map_values(|s: Vec<u8>| s@) =~= completion_seeds(owner@, course_slug@));
    }
    r
}

} // verus!
