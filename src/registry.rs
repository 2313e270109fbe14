use vstd::prelude::*;
use crate::addressing::{attestation_address, state_address};
use crate::types::{same_key, Attestation, AttestationStatus, ProgramState, Pubkey, MAX_WALLETS};

verus! {

/// An attestation and the address it is stored at.
#[derive(Clone, Debug)]
pub struct Record {
    pub address: Pubkey,
    pub attestation: Attestation,
}

/// The record store of one deployment: its program id, the singleton state
/// record once initialized, and the attestations by address.
#[derive(Clone, Debug)]
pub struct Registry {
    pub program_id: Pubkey,
    pub state: Option<ProgramState>,
    pub records: Vec<Record>,
}

/// The accounts of `initialize`: the signer who becomes the authority.
#[derive(Clone, Copy, Debug)]
pub struct Initialize {
    pub authority: Pubkey,
}

/// The accounts of `create_attestation`: the signer.
#[derive(Clone, Copy, Debug)]
pub struct CreateAttestation {
    pub authority: Pubkey,
}

/// The accounts of `update_status` and `revoke_attestation`: the target
/// address and the signer.
#[derive(Clone, Copy, Debug)]
pub struct UpdateAttestation {
    pub attestation: Pubkey,
    pub authority: Pubkey,
}

impl Registry {
    pub open spec fn occupied(self, a: Seq<u8>) -> bool {
        exists|i: int| 0 <= i < self.records@.len() && self.records@[i].address@ == a
    }

    pub open spec fn slot_of(self, a: Seq<u8>) -> int {
        choose|i: int| 0 <= i < self.records@.len() && self.records@[i].address@ == a
    }

    /// The stored attestations, by address.
    pub open spec fn attestations(self) -> Map<Seq<u8>, Attestation> {
        Map::new(|a: Seq<u8>| self.occupied(a), |a: Seq<u8>| self.records@[self.slot_of(a)].attestation)
    }

    pub open spec fn unique_addresses(self) -> bool {
        forall|i: int, j: int|
            0 <= i < self.records@.len() && 0 <= j < self.records@.len() && i != j
                ==> self.records@[i].address@ != self.records@[j].address@
    }

    pub open spec fn wf_record(self, r: Record) -> bool {
        &&& attestation_address(self.program_id@, r.attestation.audit_hash@) == Some(
            (r.address@, r.attestation.bump),
        )
        &&& r.attestation.num_wallets == r.attestation.wallets@.len()
        &&& 1 <= r.attestation.wallets@.len() <= MAX_WALLETS
        &&& r.attestation.status != AttestationStatus::Revoked ==> r.attestation.revoked_at == 0
    }

    /// Every record sits at the address derived from its audit hash, no two
    /// share an address, and the counter counts the records.
    pub open spec fn wf(self) -> bool {
        &&& self.unique_addresses()
        &&& forall|i: int| 0 <= i < self.records@.len() ==> self.wf_record(#[trigger] self.records@[i])
        &&& match self.state {
            None => self.records@.len() == 0,
            Some(s) => {
                &&& s.attestation_count == self.records@.len()
                &&& state_address(self.program_id@) matches Some(p) && p.1 == s.bump
            },
        }
    }

    /// An empty deployment of the program `program_id`.
    pub fn new(program_id: Pubkey) -> (r: Registry)
        ensures
            r.wf(),
            r.program_id == program_id,
            r.state is None,
            r.records@.len() == 0,
    {
        Registry { program_id, state: None, records: Vec::new() }
    }

    pub(crate) fn find(&self, address: &Pubkey) -> (r: Option<usize>)
        ensures
            match r {
                Some(i) => i < self.records@.len() && self.records@[i as int].address@ == address@,
                None => !self.occupied(address@),
            },
    {
        let mut i: usize = 0;
        while i < self.records.len()
            invariant
                i <= self.records@.len(),
                forall|k: int| 0 <= k < i ==> self.records@[k].address@ != address@,
            decreases self.records@.len() - i,
        {
            if same_key(&self.records[i].address, address) {
                return Some(i);
            }
            i = i + 1;
        }
        None
    }

    /// The attestation stored at `address`, if any.
    pub fn attestation(&self, address: &Pubkey) -> (r: Option<&Attestation>)
        requires
            self.wf(),
        ensures
            match r {
                Some(a) => self.attestations().contains_key(address@) && *a == self.attestations()[address@],
                None => !self.attestations().contains_key(address@),
            },
    {
        match self.find(address) {
            Some(i) => {
                proof {
                    lemma_view_at(*self, i as int);
                }
                Some(&self.records[i].attestation)
            },
            None => None,
        }
    }
}

pub(crate) proof fn lemma_view_at(reg: Registry, i: int)
    requires
        reg.unique_addresses(),
        0 <= i < reg.records@.len(),
    ensures
        reg.attestations().contains_key(reg.records@[i].address@),
        reg.attestations()[reg.records@[i].address@] == reg.records@[i].attestation,
{
    let a = reg.records@[i].address@;
    assert(reg.occupied(a));
    let j = reg.slot_of(a);
    assert(j == i);
}

pub(crate) proof fn lemma_push_view(pre: Registry, post: Registry, r: Record)
    requires
        pre.unique_addresses(),
        post.records@ == pre.records@.push(r),
        !pre.attestations().contains_key(r.address@),
    ensures
        post.unique_addresses(),
        post.attestations() == pre.attestations().insert(r.address@, r.attestation),
{
    let n = pre.records@.len() as int;
    assert forall|i: int| 0 <= i < n implies pre.records@[i].address@ != r.address@ by {
        if pre.records@[i].address@ == r.address@ {
            assert(pre.occupied(r.address@));
        }
    }
    assert(post.unique_addresses());
    let m = pre.attestations().insert(r.address@, r.attestation);
    assert forall|a: Seq<u8>|
        (#[trigger] post.attestations().contains_key(a)) == m.contains_key(a) && (post.attestations().contains_key(a)
            ==> post.attestations()[a] == m[a]) by {
        if post.occupied(a) {
            let i = choose|i: int| 0 <= i < post.records@.len() && post.records@[i].address@ == a;
            lemma_view_at(post, i);
            if i < n {
                assert(post.records@[i] == pre.records@[i]);
                lemma_view_at(pre, i);
            }
        }
        if pre.occupied(a) {
            let i = choose|i: int| 0 <= i < pre.records@.len() && pre.records@[i].address@ == a;
            assert(post.records@[i] == pre.records@[i]);
            lemma_view_at(post, i);
        }
        if a == r.address@ {
            lemma_view_at(post, n);
        }
    }
    assert(post.attestations().dom() =~= m.dom());
    assert(post.attestations() =~= m);
}

pub(crate) proof fn lemma_update_view(pre: Registry, post: Registry, i: int, rec: Attestation)
    requires
        pre.unique_addresses(),
        0 <= i < pre.records@.len(),
        post.records@ == pre.records@.update(i, Record { address: pre.records@[i].address, attestation: rec }),
    ensures
        post.unique_addresses(),
        post.attestations() == pre.attestations().insert(pre.records@[i].address@, rec),
{
    let addr = pre.records@[i].address@;
    assert(post.unique_addresses());
    let m = pre.attestations().insert(addr, rec);
    assert forall|a: Seq<u8>|
        (#[trigger] post.attestations().contains_key(a)) == m.contains_key(a) && (post.attestations().contains_key(a)
            ==> post.attestations()[a] == m[a]) by {
        if post.occupied(a) {
            let j = choose|j: int| 0 <= j < post.records@.len() && post.records@[j].address@ == a;
            lemma_view_at(post, j);
            lemma_view_at(pre, j);
        }
        if pre.occupied(a) {
            let j = choose|j: int| 0 <= j < pre.records@.len() && pre.records@[j].address@ == a;
            lemma_view_at(post, j);
        }
    }
    assert(post.attestations().dom() =~= m.dom());
    assert(post.attestations() =~= m);
}

} // verus!
