use vstd::prelude::*;

verus! {

/// A public key, as its 32 bytes.
pub type Pubkey = [u8; 32];

/// The most wallets one attestation may cover.
pub const MAX_WALLETS: usize = 10;

#[derive(Clone, Copy, Debug, PartialEq, Eq, Structural)]
pub enum Jurisdiction {
    US,
    EU,
    BR,
    UK,
    JP,
    AU,
    CA,
    CH,
    SG,
}

#[derive(Clone, Copy, Debug, PartialEq, Eq, Structural)]
pub enum AttestationType {
    TaxCompliance,
    AuditComplete,
    ReportingComplete,
    QuarterlyReview,
    AnnualReview,
}

#[derive(Clone, Copy, Debug, PartialEq, Eq, Structural)]
pub enum AttestationStatus {
    Pending,
    Active,
    Expired,
    Revoked,
}

/// The singleton configuration record of a deployment.
#[derive(Clone, Copy, Debug)]
pub struct ProgramState {
    pub authority: Pubkey,
    pub attestation_count: u64,
    pub bump: u8,
}

/// One issued claim.
#[derive(Clone, Debug)]
pub struct Attestation {
    pub bump: u8,
    pub authority: Pubkey,
    pub jurisdiction: Jurisdiction,
    pub attestation_type: AttestationType,
    pub status: AttestationStatus,
    pub tax_year: u16,
    pub audit_hash: [u8; 32],
    pub issued_at: i64,
    pub expires_at: i64,
    pub revoked_at: i64,
    pub num_wallets: u8,
    pub wallets: Vec<Pubkey>,
}

#[derive(Clone, Copy, Debug)]
pub struct ProgramInitialized {
    pub authority: Pubkey,
}

#[derive(Clone, Debug)]
pub struct AttestationCreated {
    pub attestation: Pubkey,
    pub wallets: Vec<Pubkey>,
    pub jurisdiction: Jurisdiction,
    pub attestation_type: AttestationType,
    pub tax_year: u16,
    pub audit_hash: [u8; 32],
    pub issued_at: i64,
    pub expires_at: i64,
}

#[derive(Clone, Copy, Debug)]
pub struct StatusUpdated {
    pub attestation: Pubkey,
    pub old_status: AttestationStatus,
    pub new_status: AttestationStatus,
}

#[derive(Clone, Debug)]
pub struct AttestationRevoked {
    pub attestation: Pubkey,
    pub wallets: Vec<Pubkey>,
    pub revoked_at: i64,
}

#[derive(Clone, Copy, Debug, PartialEq, Eq, Structural)]
pub enum AttestationError {
    Unauthorized,
    InvalidStatusTransition,
    AttestationNotActive,
    AttestationExpired,
    InvalidJurisdiction,
    InvalidAttestationType,
    InvalidWalletCount,
    /// The derived address of a new attestation is already occupied.
    DuplicateRecord,
    /// The deployment's state record already exists.
    AlreadyInitialized,
    /// The deployment's state record does not exist yet.
    NotInitialized,
    /// No attestation is stored at the given address.
    RecordNotFound,
    /// No valid address could be derived from the seeds.
    AddressUnavailable,
}

/// Whether two keys are the same 32 bytes.
pub fn same_key(a: &Pubkey, b: &Pubkey) -> (r: bool)
    ensures
        r == (a@ == b@),
{
    let mut i: usize = 0;
    while i < 32
        invariant
            i <= 32,
            a@.len() == 32,
            b@.len() == 32,
            forall|k: int| 0 <= k < i ==> a@[k] == b@[k],
        decreases 32 - i,
    {
        if a[i] != b[i] {
            return false;
        }
        i = i + 1;
    }
    assert(a@ =~= b@);
    true
}

/// A copy of a list of keys.
pub fn copy_keys(v: &Vec<Pubkey>) -> (r: Vec<Pubkey>)
    ensures
        r@ == v@,
{
    let mut r: Vec<Pubkey> = Vec::new();
    let mut i: usize = 0;
    while i < v.len()
        invariant
            i <= v@.len(),
            r@ == v@.subrange(0, i as int),
        decreases v@.len() - i,
    {
        r.push(v[i]);
        i = i + 1;
        assert(r@ =~= v@.subrange(0, i as int));
    }
    assert(r@ =~= v@);
    r
}

} // verus!
