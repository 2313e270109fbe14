use vstd::prelude::*;
use crate::addressing::attestation_address;
use crate::program::{
    create_attestation_post, create_error, initialize_error, initialize_post, revoke_attestation_post,
    revoke_error, update_error, update_status_post,
};
use crate::registry::Registry;
use crate::types::{
    AttestationCreated, AttestationError, AttestationRevoked, AttestationStatus, AttestationType,
    Jurisdiction, ProgramInitialized, Pubkey, StatusUpdated, MAX_WALLETS,
};

verus! {

/// The state record is created at most once: after a successful
/// `initialize`, a second one fails with `AlreadyInitialized`.
pub proof fn lemma_initialize_once(pre: Registry, post: Registry, signer: Seq<u8>, ev: ProgramInitialized)
    requires
        initialize_post(pre, post, signer, Ok(ev)),
    ensures
        initialize_error(post) == Some(AttestationError::AlreadyInitialized),
{
}

/// Once an attestation for `audit_hash` has been created, creating another
/// with the same audit hash, by the authority and with a valid wallet count,
/// fails with `DuplicateRecord` whatever its other fields are.
pub proof fn lemma_second_create_is_duplicate(
    pre: Registry,
    post: Registry,
    signer: Seq<u8>,
    jurisdiction: Jurisdiction,
    attestation_type: AttestationType,
    tax_year: u16,
    audit_hash: Seq<u8>,
    expires_at: i64,
    wallets: Seq<Pubkey>,
    now: i64,
    ev: AttestationCreated,
    other_wallet_count: int,
)
    requires
        create_attestation_post(
            pre,
            post,
            signer,
            jurisdiction,
            attestation_type,
            tax_year,
            audit_hash,
            expires_at,
            wallets,
            now,
            Ok(ev),
        ),
        1 <= other_wallet_count <= MAX_WALLETS,
    ensures
        create_error(post, signer, other_wallet_count, audit_hash) == Some(AttestationError::DuplicateRecord),
{
}

/// By the authority, a creation with no wallets or more than `MAX_WALLETS`
/// fails with `InvalidWalletCount`; with 1 to `MAX_WALLETS` wallets it never
/// does, and it succeeds where the derived address is free.
pub proof fn lemma_wallet_count(reg: Registry, signer: Seq<u8>, wallet_count: nat, audit_hash: Seq<u8>)
    requires
        reg.state matches Some(s) && s.authority@ == signer,
    ensures
        (wallet_count == 0 || wallet_count > MAX_WALLETS) ==> create_error(reg, signer, wallet_count as int, audit_hash)
            == Some(AttestationError::InvalidWalletCount),
        1 <= wallet_count <= MAX_WALLETS ==> create_error(reg, signer, wallet_count as int, audit_hash)
            != Some(AttestationError::InvalidWalletCount),
        1 <= wallet_count <= MAX_WALLETS && (attestation_address(reg.program_id@, audit_hash) matches Some(p)
            && !reg.attestations().contains_key(p.0)) ==> create_error(reg, signer, wallet_count as int, audit_hash)
            is None,
{
}

/// By the authority, on a stored record, a status update succeeds exactly on
/// Pending to Active, Active to Expired, Active to Revoked and Pending to
/// Revoked; every other pair, self-transitions and moves out of `Expired` or
/// `Revoked` included, fails with `InvalidStatusTransition`.
pub proof fn lemma_status_table(reg: Registry, signer: Seq<u8>, address: Seq<u8>, to: AttestationStatus)
    requires
        reg.state matches Some(s) && s.authority@ == signer,
        reg.attestations().contains_key(address),
    ensures
        ({
            let from = reg.attestations()[address].status;
            update_error(reg, signer, address, to) is None <==> (
            (from == AttestationStatus::Pending && to == AttestationStatus::Active)
            || (from == AttestationStatus::Active && to == AttestationStatus::Expired)
            || (from == AttestationStatus::Active && to == AttestationStatus::Revoked)
            || (from == AttestationStatus::Pending && to == AttestationStatus::Revoked))
        }),
        update_error(reg, signer, address, to) is Some ==> update_error(reg, signer, address, to) == Some(
            AttestationError::InvalidStatusTransition,
        ),
{
}

/// By the authority, on a stored record, revocation succeeds exactly when the
/// record is `Active` and otherwise fails with `AttestationNotActive`, even
/// from `Pending`, where a status update to `Revoked` would succeed.
pub proof fn lemma_revoke_only_active(reg: Registry, signer: Seq<u8>, address: Seq<u8>)
    requires
        reg.state matches Some(s) && s.authority@ == signer,
        reg.attestations().contains_key(address),
    ensures
        revoke_error(reg, signer, address) is None <==> reg.attestations()[address].status
            == AttestationStatus::Active,
        reg.attestations()[address].status != AttestationStatus::Active ==> revoke_error(reg, signer, address)
            == Some(AttestationError::AttestationNotActive),
        reg.attestations()[address].status == AttestationStatus::Pending ==> update_error(
            reg,
            signer,
            address,
            AttestationStatus::Revoked,
        ) is None,
{
}

/// In a well-formed registry, a record that is not `Revoked` has a
/// `revoked_at` of 0.
pub proof fn lemma_unrevoked_have_zero_revoked_at(reg: Registry, address: Seq<u8>)
    requires
        reg.wf(),
        reg.attestations().contains_key(address),
        reg.attestations()[address].status != AttestationStatus::Revoked,
    ensures
        reg.attestations()[address].revoked_at == 0,
{
    let i = reg.slot_of(address);
    assert(reg.wf_record(reg.records@[i]));
}

/// A creation leaves every stored record as it is, so no `revoked_at` is reset.
pub proof fn lemma_create_keeps_existing_records(
    pre: Registry,
    post: Registry,
    signer: Seq<u8>,
    jurisdiction: Jurisdiction,
    attestation_type: AttestationType,
    tax_year: u16,
    audit_hash: Seq<u8>,
    expires_at: i64,
    wallets: Seq<Pubkey>,
    now: i64,
    r: Result<AttestationCreated, AttestationError>,
    address: Seq<u8>,
)
    requires
        create_attestation_post(pre, post, signer, jurisdiction, attestation_type, tax_year, audit_hash, expires_at, wallets, now, r),
        pre.attestations().contains_key(address),
    ensures
        post.attestations().contains_key(address),
        post.attestations()[address] == pre.attestations()[address],
{
    if r is Ok {
        let p = attestation_address(pre.program_id@, audit_hash)->Some_0;
        assert(address != p.0);
        assert(post.attestations().remove(p.0).contains_key(address));
    }
}

/// A revoked record is left as it is by a status update: its `revoked_at` is never reset.
pub proof fn lemma_update_keeps_revocations(
    pre: Registry,
    post: Registry,
    signer: Seq<u8>,
    target: Seq<u8>,
    to: AttestationStatus,
    now: i64,
    r: Result<StatusUpdated, AttestationError>,
    address: Seq<u8>,
)
    requires
        update_status_post(pre, post, signer, target, to, now, r),
        pre.attestations().contains_key(address),
        pre.attestations()[address].status == AttestationStatus::Revoked,
    ensures
        post.attestations().contains_key(address),
        post.attestations()[address] == pre.attestations()[address],
{
}

/// A revoked record is left as it is by a revocation: its `revoked_at` is never reset.
pub proof fn lemma_revoke_keeps_revocations(
    pre: Registry,
    post: Registry,
    signer: Seq<u8>,
    target: Seq<u8>,
    now: i64,
    r: Result<AttestationRevoked, AttestationError>,
    address: Seq<u8>,
)
    requires
        revoke_attestation_post(pre, post, signer, target, now, r),
        pre.attestations().contains_key(address),
        pre.attestations()[address].status == AttestationStatus::Revoked,
    ensures
        post.attestations().contains_key(address),
        post.attestations()[address] == pre.attestations()[address],
{
}

/// A creation signed by a key other than the current authority fails with
/// `Unauthorized` and changes nothing.
pub proof fn lemma_unauthorized_create(
    pre: Registry,
    post: Registry,
    signer: Seq<u8>,
    jurisdiction: Jurisdiction,
    attestation_type: AttestationType,
    tax_year: u16,
    audit_hash: Seq<u8>,
    expires_at: i64,
    wallets: Seq<Pubkey>,
    now: i64,
    r: Result<AttestationCreated, AttestationError>,
)
    requires
        create_attestation_post(pre, post, signer, jurisdiction, attestation_type, tax_year, audit_hash, expires_at, wallets, now, r),
        pre.state matches Some(s) && s.authority@ != signer,
    ensures
        r == Err::<AttestationCreated, AttestationError>(AttestationError::Unauthorized),
        post == pre,
{
}

/// A status update signed by a key other than the current authority fails
/// with `Unauthorized` and changes nothing.
pub proof fn lemma_unauthorized_update(
    pre: Registry,
    post: Registry,
    signer: Seq<u8>,
    target: Seq<u8>,
    to: AttestationStatus,
    now: i64,
    r: Result<StatusUpdated, AttestationError>,
)
    requires
        update_status_post(pre, post, signer, target, to, now, r),
        pre.state matches Some(s) && s.authority@ != signer,
    ensures
        r == Err::<StatusUpdated, AttestationError>(AttestationError::Unauthorized),
        post == pre,
{
}

/// A revocation signed by a key other than the current authority fails with
/// `Unauthorized` and changes nothing.
pub proof fn lemma_unauthorized_revoke(
    pre: Registry,
    post: Registry,
    signer: Seq<u8>,
    target: Seq<u8>,
    now: i64,
    r: Result<AttestationRevoked, AttestationError>,
)
    requires
        revoke_attestation_post(pre, post, signer, target, now, r),
        pre.state matches Some(s) && s.authority@ != signer,
    ensures
        r == Err::<AttestationRevoked, AttestationError>(AttestationError::Unauthorized),
        post == pre,
{
}

} // verus!
