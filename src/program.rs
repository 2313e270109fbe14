use vstd::prelude::*;
use crate::addressing::{attestation_address, find_attestation_address, find_state_address, state_address};
use crate::lifecycle::{is_valid_status_transition, valid_transition, with_status};
use crate::registry::{
    lemma_push_view, lemma_update_view, lemma_view_at, CreateAttestation, Initialize, Record, Registry,
    UpdateAttestation,
};
use crate::types::{
    copy_keys, same_key, Attestation, AttestationCreated, AttestationError, AttestationRevoked,
    AttestationStatus, AttestationType, Jurisdiction, ProgramInitialized, ProgramState, Pubkey,
    StatusUpdated, MAX_WALLETS,
};

verus! {

/// Why `initialize` fails on `reg`, if it does.
pub open spec fn initialize_error(reg: Registry) -> Option<AttestationError> {
    if reg.state is Some {
        Some(AttestationError::AlreadyInitialized)
    } else if state_address(reg.program_id@) is None {
        Some(AttestationError::AddressUnavailable)
    } else {
        None
    }
}

/// What `initialize` signed by `signer` does to `pre`, giving `post` and `r`.
pub open spec fn initialize_post(
    pre: Registry,
    post: Registry,
    signer: Seq<u8>,
    r: Result<ProgramInitialized, AttestationError>,
) -> bool {
    match r {
        Err(e) => initialize_error(pre) == Some(e) && post == pre,
        Ok(ev) => {
            &&& initialize_error(pre) is None
            &&& post.program_id == pre.program_id
            &&& post.records == pre.records
            &&& post.state matches Some(s) && {
                &&& s.authority@ == signer
                &&& s.attestation_count == 0
                &&& s.bump == state_address(pre.program_id@)->Some_0.1
                &&& ev.authority == s.authority
            }
        },
    }
}

/// Why `create_attestation` fails, if it does: the authority gate first, then
/// the wallet count, then the derived address.
pub open spec fn create_error(
    reg: Registry,
    signer: Seq<u8>,
    wallet_count: int,
    audit_hash: Seq<u8>,
) -> Option<AttestationError> {
    match reg.state {
        None => Some(AttestationError::NotInitialized),
        Some(s) => if s.authority@ != signer {
            Some(AttestationError::Unauthorized)
        } else if wallet_count < 1 || wallet_count > MAX_WALLETS {
            Some(AttestationError::InvalidWalletCount)
        } else {
            match attestation_address(reg.program_id@, audit_hash) {
                None => Some(AttestationError::AddressUnavailable),
                Some(p) => if reg.attestations().contains_key(p.0) {
                    Some(AttestationError::DuplicateRecord)
                } else {
                    None
                },
            }
        },
    }
}

/// The record that a successful `create_attestation` stores.
pub open spec fn is_new_record(
    rec: Attestation,
    bump: u8,
    authority: Seq<u8>,
    jurisdiction: Jurisdiction,
    attestation_type: AttestationType,
    tax_year: u16,
    audit_hash: Seq<u8>,
    expires_at: i64,
    wallets: Seq<Pubkey>,
    now: i64,
) -> bool {
    &&& rec.bump == bump
    &&& rec.authority@ == authority
    &&& rec.jurisdiction == jurisdiction
    &&& rec.attestation_type == attestation_type
    &&& rec.status == AttestationStatus::Active
    &&& rec.tax_year == tax_year
    &&& rec.audit_hash@ == audit_hash
    &&& rec.issued_at == now
    &&& rec.expires_at == expires_at
    &&& rec.revoked_at == 0
    &&& rec.num_wallets == wallets.len()
    &&& rec.wallets@ == wallets
}

/// What `create_attestation` does to `pre`, giving `post` and `r`.
pub open spec fn create_attestation_post(
    pre: Registry,
    post: Registry,
    signer: Seq<u8>,
    jurisdiction: Jurisdiction,
    attestation_type: AttestationType,
    tax_year: u16,
    audit_hash: Seq<u8>,
    expires_at: i64,
    wallets: Seq<Pubkey>,
    now: i64,
    r: Result<AttestationCreated, AttestationError>,
) -> bool {
    match r {
        Err(e) => create_error(pre, signer, wallets.len() as int, audit_hash) == Some(e) && post == pre,
        Ok(ev) => {
            let p = attestation_address(pre.program_id@, audit_hash)->Some_0;
            let rec = post.attestations()[p.0];
            &&& create_error(pre, signer, wallets.len() as int, audit_hash) is None
            &&& post.program_id == pre.program_id
            &&& post.state == Some(
                ProgramState {
                    attestation_count: (pre.state->Some_0.attestation_count + 1) as u64,
                    ..pre.state->Some_0
                },
            )
            &&& post.attestations().contains_key(p.0)
            &&& post.attestations().remove(p.0) == pre.attestations()
            &&& is_new_record(rec, p.1, signer, jurisdiction, attestation_type, tax_year, audit_hash, expires_at, wallets, now)
            &&& ev.attestation@ == p.0
            &&& ev.wallets@ == rec.wallets@
            &&& ev.jurisdiction == rec.jurisdiction
            &&& ev.attestation_type == rec.attestation_type
            &&& ev.tax_year == rec.tax_year
            &&& ev.audit_hash == rec.audit_hash
            &&& ev.issued_at == rec.issued_at
            &&& ev.expires_at == rec.expires_at
        },
    }
}

/// Why `update_status` to `to` fails, if it does.
pub open spec fn update_error(
    reg: Registry,
    signer: Seq<u8>,
    address: Seq<u8>,
    to: AttestationStatus,
) -> Option<AttestationError> {
    match reg.state {
        None => Some(AttestationError::NotInitialized),
        Some(s) => if s.authority@ != signer {
            Some(AttestationError::Unauthorized)
        } else if !reg.attestations().contains_key(address) {
            Some(AttestationError::RecordNotFound)
        } else if !valid_transition(reg.attestations()[address].status, to) {
            Some(AttestationError::InvalidStatusTransition)
        } else {
            None
        },
    }
}

/// What `update_status` does to `pre`, giving `post` and `r`.
pub open spec fn update_status_post(
    pre: Registry,
    post: Registry,
    signer: Seq<u8>,
    address: Seq<u8>,
    to: AttestationStatus,
    now: i64,
    r: Result<StatusUpdated, AttestationError>,
) -> bool {
    match r {
        Err(e) => update_error(pre, signer, address, to) == Some(e) && post == pre,
        Ok(ev) => {
            &&& update_error(pre, signer, address, to) is None
            &&& post.program_id == pre.program_id
            &&& post.state == pre.state
            &&& post.attestations() == pre.attestations().insert(
                address,
                with_status(pre.attestations()[address], to, now),
            )
            &&& ev.attestation@ == address
            &&& ev.old_status == pre.attestations()[address].status
            &&& ev.new_status == post.attestations()[address].status
        },
    }
}

/// Why `revoke_attestation` fails, if it does: only an `Active` record can be revoked.
pub open spec fn revoke_error(reg: Registry, signer: Seq<u8>, address: Seq<u8>) -> Option<AttestationError> {
    match reg.state {
        None => Some(AttestationError::NotInitialized),
        Some(s) => if s.authority@ != signer {
            Some(AttestationError::Unauthorized)
        } else if !reg.attestations().contains_key(address) {
            Some(AttestationError::RecordNotFound)
        } else if reg.attestations()[address].status != AttestationStatus::Active {
            Some(AttestationError::AttestationNotActive)
        } else {
            None
        },
    }
}

/// What `revoke_attestation` does to `pre`, giving `post` and `r`.
pub open spec fn revoke_attestation_post(
    pre: Registry,
    post: Registry,
    signer: Seq<u8>,
    address: Seq<u8>,
    now: i64,
    r: Result<AttestationRevoked, AttestationError>,
) -> bool {
    match r {
        Err(e) => revoke_error(pre, signer, address) == Some(e) && post == pre,
        Ok(ev) => {
            &&& revoke_error(pre, signer, address) is None
            &&& post.program_id == pre.program_id
            &&& post.state == pre.state
            &&& post.attestations() == pre.attestations().insert(
                address,
                with_status(pre.attestations()[address], AttestationStatus::Revoked, now),
            )
            &&& ev.attestation@ == address
            &&& ev.wallets@ == post.attestations()[address].wallets@
            &&& ev.revoked_at == post.attestations()[address].revoked_at
        },
    }
}

/// Creates the singleton state record, with the signer as the authority.
pub fn initialize(registry: &mut Registry, ctx: &Initialize) -> (r: Result<ProgramInitialized, AttestationError>)
    requires
        old(registry).wf(),
    ensures
        final(registry).wf(),
        initialize_post(*old(registry), *final(registry), ctx.authority@, r),
{
    if registry.state.is_some() {
        return Err(AttestationError::AlreadyInitialized);
    }
    let bump = match find_state_address(&registry.program_id) {
        None => {
            return Err(AttestationError::AddressUnavailable);
        },
        Some(p) => p.1,
    };
    registry.state = Some(ProgramState { authority: ctx.authority, attestation_count: 0, bump });
    Ok(ProgramInitialized { authority: ctx.authority })
}

/// Issues an attestation covering `wallets`, stored at the address derived
/// from `audit_hash`, issued at `now`.
pub fn create_attestation(
    registry: &mut Registry,
    ctx: &CreateAttestation,
    jurisdiction: Jurisdiction,
    attestation_type: AttestationType,
    tax_year: u16,
    audit_hash: [u8; 32],
    expires_at: i64,
    wallets: Vec<Pubkey>,
    now: i64,
) -> (r: Result<AttestationCreated, AttestationError>)
    requires
        old(registry).wf(),
        old(registry).records@.len() < u64::MAX,
    ensures
        final(registry).wf(),
        create_attestation_post(
            *old(registry),
            *final(registry),
            ctx.authority@,
            jurisdiction,
            attestation_type,
            tax_year,
            audit_hash@,
            expires_at,
            wallets@,
            now,
            r,
        ),
{
    let ghost pre = *registry;
    let state = match registry.state {
        None => {
            return Err(AttestationError::NotInitialized);
        },
        Some(s) => s,
    };
    if !same_key(&ctx.authority, &state.authority) {
        return Err(AttestationError::Unauthorized);
    }
    if wallets.len() == 0 || wallets.len() > MAX_WALLETS {
        return Err(AttestationError::InvalidWalletCount);
    }
    let (address, bump) = match find_attestation_address(&registry.program_id, &audit_hash) {
        None => {
            return Err(AttestationError::AddressUnavailable);
        },
        Some(p) => p,
    };
    if registry.find(&address).is_some() {
        return Err(AttestationError::DuplicateRecord);
    }
    let attestation = Attestation {
        bump,
        authority: ctx.authority,
        jurisdiction,
        attestation_type,
        status: AttestationStatus::Active,
        tax_year,
        audit_hash,
        issued_at: now,
        expires_at,
        revoked_at: 0,
        num_wallets: wallets.len() as u8,
        wallets: copy_keys(&wallets),
    };
    let record = Record { address, attestation };
    let ghost rec = record;
    registry.records.push(record);
    registry.state = Some(ProgramState { attestation_count: state.attestation_count + 1, ..state });
    proof {
        lemma_push_view(pre, *registry, rec);
        assert(registry.attestations().remove(address@) =~= pre.attestations());
        assert(registry.wf_record(registry.records@[pre.records@.len() as int]));
    }
    Ok(AttestationCreated {
        attestation: address,
        wallets,
        jurisdiction,
        attestation_type,
        tax_year,
        audit_hash,
        issued_at: now,
        expires_at,
    })
}

/// Moves the attestation at `ctx.attestation` to `new_status` along an edge of
/// the state machine; entering `Revoked` stamps `revoked_at` with `now`.
pub fn update_status(
    registry: &mut Registry,
    ctx: &UpdateAttestation,
    new_status: AttestationStatus,
    now: i64,
) -> (r: Result<StatusUpdated, AttestationError>)
    requires
        old(registry).wf(),
    ensures
        final(registry).wf(),
        update_status_post(*old(registry), *final(registry), ctx.authority@, ctx.attestation@, new_status, now, r),
{
    let ghost pre = *registry;
    let state = match registry.state {
        None => {
            return Err(AttestationError::NotInitialized);
        },
        Some(s) => s,
    };
    if !same_key(&ctx.authority, &state.authority) {
        return Err(AttestationError::Unauthorized);
    }
    let i = match registry.find(&ctx.attestation) {
        None => {
            return Err(AttestationError::RecordNotFound);
        },
        Some(i) => i,
    };
    proof {
        lemma_view_at(pre, i as int);
    }
    let old_status = registry.records[i].attestation.status;
    if !is_valid_status_transition(old_status, new_status) {
        return Err(AttestationError::InvalidStatusTransition);
    }
    registry.records[i].attestation.status = new_status;
    if new_status == AttestationStatus::Revoked {
        registry.records[i].attestation.revoked_at = now;
    }
    proof {
        let rec = with_status(pre.records@[i as int].attestation, new_status, now);
        assert(registry.records@ =~= pre.records@.update(
            i as int,
            Record { address: pre.records@[i as int].address, attestation: rec },
        ));
        lemma_update_view(pre, *registry, i as int, rec);
        assert(forall|k: int| 0 <= k < registry.records@.len() && k != i ==> registry.records@[k] == pre.records@[k]);
    }
    Ok(StatusUpdated { attestation: ctx.attestation, old_status, new_status })
}

/// Revokes the attestation at `ctx.attestation`, which must be `Active`,
/// stamping `revoked_at` with `now`.
pub fn revoke_attestation(
    registry: &mut Registry,
    ctx: &UpdateAttestation,
    now: i64,
) -> (r: Result<AttestationRevoked, AttestationError>)
    requires
        old(registry).wf(),
    ensures
        final(registry).wf(),
        revoke_attestation_post(*old(registry), *final(registry), ctx.authority@, ctx.attestation@, now, r),
{
    let ghost pre = *registry;
    let state = match registry.state {
        None => {
            return Err(AttestationError::NotInitialized);
        },
        Some(s) => s,
    };
    if !same_key(&ctx.authority, &state.authority) {
        return Err(AttestationError::Unauthorized);
    }
    let i = match registry.find(&ctx.attestation) {
        None => {
            return Err(AttestationError::RecordNotFound);
        },
        Some(i) => i,
    };
    proof {
        lemma_view_at(pre, i as int);
    }
    if registry.records[i].attestation.status != AttestationStatus::Active {
        return Err(AttestationError::AttestationNotActive);
    }
    registry.records[i].attestation.status = AttestationStatus::Revoked;
    registry.records[i].attestation.revoked_at = now;
    proof {
        let rec = with_status(pre.records@[i as int].attestation, AttestationStatus::Revoked, now);
        assert(registry.records@ =~= pre.records@.update(
            i as int,
            Record { address: pre.records@[i as int].address, attestation: rec },
        ));
        lemma_update_view(pre, *registry, i as int, rec);
        assert(forall|k: int| 0 <= k < registry.records@.len() && k != i ==> registry.records@[k] == pre.records@[k]);
        lemma_view_at(*registry, i as int);
    }
    let wallets = copy_keys(&registry.records[i].attestation.wallets);
    Ok(AttestationRevoked { attestation: ctx.attestation, wallets, revoked_at: now })
}

/// A request to the program, one variant per operation.
#[derive(Clone, Debug)]
pub enum Instruction {
    Initialize,
    CreateAttestation {
        jurisdiction: Jurisdiction,
        attestation_type: AttestationType,
        tax_year: u16,
        audit_hash: [u8; 32],
        expires_at: i64,
        wallets: Vec<Pubkey>,
    },
    UpdateStatus { attestation: Pubkey, new_status: AttestationStatus },
    RevokeAttestation { attestation: Pubkey },
}

/// The notification that a successful operation emits.
#[derive(Clone, Debug)]
pub enum Event {
    ProgramInitialized(ProgramInitialized),
    AttestationCreated(AttestationCreated),
    StatusUpdated(StatusUpdated),
    AttestationRevoked(AttestationRevoked),
}

/// What `process` does: the operation that `instruction` names, signed by
/// `signer`, with exactly one event of its own kind on success.
pub open spec fn process_post(
    pre: Registry,
    post: Registry,
    signer: Seq<u8>,
    instruction: Instruction,
    now: i64,
    r: Result<Event, AttestationError>,
) -> bool {
    match instruction {
        Instruction::Initialize => match r {
            Ok(Event::ProgramInitialized(ev)) => initialize_post(pre, post, signer, Ok(ev)),
            Ok(_) => false,
            Err(e) => initialize_post(pre, post, signer, Err(e)),
        },
        Instruction::CreateAttestation {
            jurisdiction,
            attestation_type,
            tax_year,
            audit_hash,
            expires_at,
            wallets,
        } => {
            let post_of = |r: Result<AttestationCreated, AttestationError>|
                create_attestation_post(
                    pre,
                    post,
                    signer,
                    jurisdiction,
                    attestation_type,
                    tax_year,
                    audit_hash@,
                    expires_at,
                    wallets@,
                    now,
                    r,
                );
            match r {
                Ok(Event::AttestationCreated(ev)) => post_of(Ok(ev)),
                Ok(_) => false,
                Err(e) => post_of(Err(e)),
            }
        },
        Instruction::UpdateStatus { attestation, new_status } => match r {
            Ok(Event::StatusUpdated(ev)) => update_status_post(pre, post, signer, attestation@, new_status, now, Ok(ev)),
            Ok(_) => false,
            Err(e) => update_status_post(pre, post, signer, attestation@, new_status, now, Err(e)),
        },
        Instruction::RevokeAttestation { attestation } => match r {
            Ok(Event::AttestationRevoked(ev)) => revoke_attestation_post(pre, post, signer, attestation@, now, Ok(ev)),
            Ok(_) => false,
            Err(e) => revoke_attestation_post(pre, post, signer, attestation@, now, Err(e)),
        },
    }
}

/// Runs one request signed by `signer` at time `now`.
pub fn process(registry: &mut Registry, signer: &Pubkey, instruction: Instruction, now: i64) -> (r: Result<
    Event,
    AttestationError,
>)
    requires
        old(registry).wf(),
        old(registry).records@.len() < u64::MAX,
    ensures
        final(registry).wf(),
        process_post(*old(registry), *final(registry), signer@, instruction, now, r),
{
    match instruction {
        Instruction::Initialize => match initialize(registry, &Initialize { authority: *signer }) {
            Ok(ev) => Ok(Event::ProgramInitialized(ev)),
            Err(e) => Err(e),
        },
        Instruction::CreateAttestation {
            jurisdiction,
            attestation_type,
            tax_year,
            audit_hash,
            expires_at,
            wallets,
        } => {
            let ctx = CreateAttestation { authority: *signer };
            match create_attestation(
                registry,
                &ctx,
                jurisdiction,
                attestation_type,
                tax_year,
                audit_hash,
                expires_at,
                wallets,
                now,
            ) {
                Ok(ev) => Ok(Event::AttestationCreated(ev)),
                Err(e) => Err(e),
            }
        },
        Instruction::UpdateStatus { attestation, new_status } => {
            let ctx = UpdateAttestation { attestation, authority: *signer };
            match update_status(registry, &ctx, new_status, now) {
                Ok(ev) => Ok(Event::StatusUpdated(ev)),
                Err(e) => Err(e),
            }
        },
        Instruction::RevokeAttestation { attestation } => {
            let ctx = UpdateAttestation { attestation, authority: *signer };
            match revoke_attestation(registry, &ctx, now) {
                Ok(ev) => Ok(Event::AttestationRevoked(ev)),
                Err(e) => Err(e),
            }
        },
    }
}

} // verus!
