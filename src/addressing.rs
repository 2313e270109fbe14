use vstd::prelude::*;
use crate::types::Pubkey;

verus! {

/// The address and bump seed that the runtime derives for `seeds` under
/// `program_id`, or `None` where none can be derived.
pub uninterp spec fn program_address_of(seeds: Seq<Seq<u8>>, program_id: Seq<u8>) -> Option<(Seq<u8>, u8)>;

pub open spec fn seeds_view(seeds: Seq<Vec<u8>>) -> Seq<Seq<u8>> {
    seeds.map_values(|s: Vec<u8>| s@)
}

/// Relies on `Pubkey::try_find_program_address` (solana-program's, through
/// anchor_lang's prelude): it searches the bump seeds from 255 down, hashing the
/// seeds with the program id, so its result depends on those arguments alone;
/// it gives `None` where no bump seed fits or the seeds break the runtime's limits.
#[verifier::external_body]
fn try_find_program_address(seeds: &Vec<Vec<u8>>, program_id: &Pubkey) -> (r: Option<(Pubkey, u8)>)
    ensures
        program_address_of(seeds_view(seeds@), program_id@) == match r {
            Some(p) => Some((p.0@, p.1)),
            None => None::<(Seq<u8>, u8)>,
        },
{
    let refs: Vec<&[u8]> = seeds.iter().map(|s| s.as_slice()).collect();
    let id = anchor_lang::prelude::Pubkey::new_from_array(*program_id);
    anchor_lang::prelude::Pubkey::try_find_program_address(&refs, &id).map(|(k, b)| (k.to_bytes(), b))
}

/// The namespace tag of the state record: "state".
pub open spec fn state_tag() -> Seq<u8> {
    seq![115u8, 116u8, 97u8, 116u8, 101u8]
}

/// The namespace tag of attestation records: "attestation".
pub open spec fn attestation_tag() -> Seq<u8> {
    seq![97u8, 116u8, 116u8, 101u8, 115u8, 116u8, 97u8, 116u8, 105u8, 111u8, 110u8]
}

/// Where the singleton state record lives.
pub open spec fn state_address(program_id: Seq<u8>) -> Option<(Seq<u8>, u8)> {
    program_address_of(seq![state_tag()], program_id)
}

/// Where the attestation for `audit_hash` lives: a hash of the tag and the audit hash.
pub open spec fn attestation_address(program_id: Seq<u8>, audit_hash: Seq<u8>) -> Option<(Seq<u8>, u8)> {
    program_address_of(seq![attestation_tag(), audit_hash], program_id)
}

fn bytes_of(a: &[u8; 32]) -> (r: Vec<u8>)
    ensures
        r@ == a@,
{
    let mut r: Vec<u8> = Vec::new();
    let mut i: usize = 0;
    while i < 32
        invariant
            i <= 32,
            a@.len() == 32,
            r@ == a@.subrange(0, i as int),
        decreases 32 - i,
    {
        r.push(a[i]);
        i = i + 1;
        assert(r@ =~= a@.subrange(0, i as int));
    }
    assert(r@ =~= a@);
    r
}

/// Derives the address of the state record.
pub fn find_state_address(program_id: &Pubkey) -> (r: Option<(Pubkey, u8)>)
    ensures
        state_address(program_id@) == match r {
            Some(p) => Some((p.0@, p.1)),
            None => None::<(Seq<u8>, u8)>,
        },
{
    let tag: Vec<u8> = vec![115u8, 116u8, 97u8, 116u8, 101u8];
    let mut seeds: Vec<Vec<u8>> = Vec::new();
    seeds.push(tag);
    assert(seeds_view(seeds@) =~= seq![state_tag()]);
    try_find_program_address(&seeds, program_id)
}

/// Derives the address of the attestation for `audit_hash`.
pub fn find_attestation_address(program_id: &Pubkey, audit_hash: &[u8; 32]) -> (r: Option<(Pubkey, u8)>)
    ensures
        attestation_address(program_id@, audit_hash@) == match r {
            Some(p) => Some((p.0@, p.1)),
            None => None::<(Seq<u8>, u8)>,
        },
{
    let tag: Vec<u8> = vec![97u8, 116u8, 116u8, 101u8, 115u8, 116u8, 97u8, 116u8, 105u8, 111u8, 110u8];
    let mut seeds: Vec<Vec<u8>> = Vec::new();
    seeds.push(tag);
    seeds.push(bytes_of(audit_hash));
    assert(seeds_view(seeds@) =~= seq![attestation_tag(), audit_hash@]);
    try_find_program_address(&seeds, program_id)
}

} // verus!
