use anchor_lang::prelude::Pubkey as AnchorPubkey;
use attestation::addressing::{find_attestation_address, find_state_address};
use attestation::lifecycle::is_valid_status_transition;
use attestation::program::{
    create_attestation, initialize, process, revoke_attestation, update_status, Event, Instruction,
};
use attestation::registry::{CreateAttestation, Initialize, Registry, UpdateAttestation};
use attestation::types::{AttestationError, AttestationStatus, AttestationType, Jurisdiction, Pubkey};

const PROGRAM: Pubkey = [7u8; 32];
const AUTHORITY: Pubkey = [1u8; 32];
const INTRUDER: Pubkey = [2u8; 32];
const W1: Pubkey = [11u8; 32];
const W2: Pubkey = [12u8; 32];
const H1: [u8; 32] = [0xa1u8; 32];
const H2: [u8; 32] = [0xa2u8; 32];
const T1: i64 = 1_767_225_600;
const NOW: i64 = 1_735_689_600;

fn ready() -> Registry {
    let mut reg = Registry::new(PROGRAM);
    initialize(&mut reg, &Initialize { authority: AUTHORITY }).unwrap();
    reg
}

fn create(reg: &mut Registry, hash: [u8; 32], wallets: Vec<Pubkey>) -> Result<Pubkey, AttestationError> {
    create_attestation(
        reg,
        &CreateAttestation { authority: AUTHORITY },
        Jurisdiction::US,
        AttestationType::TaxCompliance,
        2024,
        hash,
        T1,
        wallets,
        NOW,
    )
    .map(|ev| ev.attestation)
}

fn target(address: Pubkey) -> UpdateAttestation {
    UpdateAttestation { attestation: address, authority: AUTHORITY }
}

fn statuses() -> [AttestationStatus; 4] {
    [AttestationStatus::Pending, AttestationStatus::Active, AttestationStatus::Expired, AttestationStatus::Revoked]
}

fn with_status(status: AttestationStatus) -> (Registry, Pubkey) {
    let mut reg = ready();
    let address = create(&mut reg, H1, vec![W1]).unwrap();
    reg.records[0].attestation.status = status;
    (reg, address)
}

#[test]
fn lifecycle_scenario() {
    let mut reg = Registry::new(PROGRAM);
    let ev = initialize(&mut reg, &Initialize { authority: AUTHORITY }).unwrap();
    assert_eq!(ev.authority, AUTHORITY);
    let created = create_attestation(
        &mut reg,
        &CreateAttestation { authority: AUTHORITY },
        Jurisdiction::US,
        AttestationType::TaxCompliance,
        2024,
        H1,
        T1,
        vec![W1, W2],
        NOW,
    )
    .unwrap();
    let address = created.attestation;
    let rec = reg.attestation(&address).unwrap();
    assert_eq!(rec.status, AttestationStatus::Active);
    assert_eq!(reg.state.unwrap().attestation_count, 1);

    let again = create_attestation(
        &mut reg,
        &CreateAttestation { authority: AUTHORITY },
        Jurisdiction::EU,
        AttestationType::AuditComplete,
        2023,
        H1,
        T1,
        vec![[33u8; 32]],
        NOW,
    );
    assert_eq!(again.unwrap_err(), AttestationError::DuplicateRecord);
    assert_eq!(reg.state.unwrap().attestation_count, 1);

    let upd = update_status(&mut reg, &target(address), AttestationStatus::Expired, NOW + 5).unwrap();
    assert_eq!(upd.old_status, AttestationStatus::Active);
    assert_eq!(upd.new_status, AttestationStatus::Expired);
    assert_eq!(reg.attestation(&address).unwrap().status, AttestationStatus::Expired);

    let rev = revoke_attestation(&mut reg, &target(address), NOW + 6);
    assert_eq!(rev.unwrap_err(), AttestationError::AttestationNotActive);
}

#[test]
fn wallet_count_zero_is_rejected() {
    let mut reg = ready();
    assert_eq!(create(&mut reg, H1, vec![]).unwrap_err(), AttestationError::InvalidWalletCount);
    assert_eq!(reg.state.unwrap().attestation_count, 0);
    assert!(reg.records.is_empty());
}

#[test]
fn wallet_count_eleven_is_rejected() {
    let mut reg = ready();
    let wallets: Vec<Pubkey> = (0..11u8).map(|i| [i; 32]).collect();
    assert_eq!(create(&mut reg, H1, wallets).unwrap_err(), AttestationError::InvalidWalletCount);
    assert_eq!(reg.state.unwrap().attestation_count, 0);
}

#[test]
fn wallet_counts_one_and_ten_succeed() {
    let mut reg = ready();
    let ten: Vec<Pubkey> = (0..10u8).map(|i| [i; 32]).collect();
    let a = create(&mut reg, H1, vec![W1]).unwrap();
    let b = create(&mut reg, H2, ten.clone()).unwrap();
    assert_eq!(reg.attestation(&a).unwrap().num_wallets, 1);
    assert_eq!(reg.attestation(&b).unwrap().num_wallets, 10);
    assert_eq!(reg.attestation(&b).unwrap().wallets, ten);
    assert_eq!(reg.state.unwrap().attestation_count, 2);
}

#[test]
fn distinct_hashes_get_distinct_addresses() {
    let mut reg = ready();
    let a = create(&mut reg, H1, vec![W1]).unwrap();
    let b = create(&mut reg, H2, vec![W1]).unwrap();
    assert_ne!(a, b);
    assert_eq!(create(&mut reg, H2, vec![W2]).unwrap_err(), AttestationError::DuplicateRecord);
}

#[test]
fn transition_table() {
    let allowed = [
        (AttestationStatus::Pending, AttestationStatus::Active),
        (AttestationStatus::Active, AttestationStatus::Expired),
        (AttestationStatus::Active, AttestationStatus::Revoked),
        (AttestationStatus::Pending, AttestationStatus::Revoked),
    ];
    let mut count = 0;
    for from in statuses() {
        for to in statuses() {
            let ok = allowed.contains(&(from, to));
            assert_eq!(is_valid_status_transition(from, to), ok);
            let (mut reg, address) = with_status(from);
            let r = update_status(&mut reg, &target(address), to, NOW + 1);
            let rec = reg.attestation(&address).unwrap();
            if ok {
                count += 1;
                let ev = r.unwrap();
                assert_eq!((ev.old_status, ev.new_status), (from, to));
                assert_eq!(rec.status, to);
            } else {
                assert_eq!(r.unwrap_err(), AttestationError::InvalidStatusTransition);
                assert_eq!(rec.status, from);
            }
        }
    }
    assert_eq!(count, 4);
}

#[test]
fn revoke_needs_active() {
    for from in statuses() {
        let (mut reg, address) = with_status(from);
        let r = revoke_attestation(&mut reg, &target(address), NOW + 9);
        let rec = reg.attestation(&address).unwrap();
        if from == AttestationStatus::Active {
            let ev = r.unwrap();
            assert_eq!(ev.attestation, address);
            assert_eq!(ev.revoked_at, NOW + 9);
            assert_eq!(ev.wallets, vec![W1]);
            assert_eq!(rec.status, AttestationStatus::Revoked);
            assert_eq!(rec.revoked_at, NOW + 9);
        } else {
            assert_eq!(r.unwrap_err(), AttestationError::AttestationNotActive);
            assert_eq!(rec.status, from);
            assert_eq!(rec.revoked_at, 0);
        }
    }
}

#[test]
fn pending_revokes_only_through_update() {
    let (mut reg, address) = with_status(AttestationStatus::Pending);
    assert_eq!(
        revoke_attestation(&mut reg, &target(address), NOW).unwrap_err(),
        AttestationError::AttestationNotActive
    );
    update_status(&mut reg, &target(address), AttestationStatus::Revoked, NOW + 3).unwrap();
    assert_eq!(reg.attestation(&address).unwrap().revoked_at, NOW + 3);
}

#[test]
fn revoked_at_is_stamped_once() {
    let mut reg = ready();
    let address = create(&mut reg, H1, vec![W1]).unwrap();
    assert_eq!(reg.attestation(&address).unwrap().revoked_at, 0);
    update_status(&mut reg, &target(address), AttestationStatus::Revoked, NOW + 4).unwrap();
    assert_eq!(reg.attestation(&address).unwrap().revoked_at, NOW + 4);
    for to in statuses() {
        assert!(update_status(&mut reg, &target(address), to, NOW + 8).is_err());
    }
    assert!(revoke_attestation(&mut reg, &target(address), NOW + 8).is_err());
    assert_eq!(reg.attestation(&address).unwrap().revoked_at, NOW + 4);
}

#[test]
fn expiry_leaves_revoked_at_zero() {
    let mut reg = ready();
    let address = create(&mut reg, H1, vec![W1]).unwrap();
    update_status(&mut reg, &target(address), AttestationStatus::Expired, NOW + 4).unwrap();
    assert_eq!(reg.attestation(&address).unwrap().revoked_at, 0);
}

#[test]
fn created_event_matches_record() {
    let mut reg = ready();
    let ev = create_attestation(
        &mut reg,
        &CreateAttestation { authority: AUTHORITY },
        Jurisdiction::SG,
        AttestationType::AnnualReview,
        2031,
        H2,
        T1,
        vec![W2, W1],
        NOW,
    )
    .unwrap();
    let rec = reg.attestation(&ev.attestation).unwrap();
    assert_eq!(ev.wallets, rec.wallets);
    assert_eq!(rec.wallets, vec![W2, W1]);
    assert_eq!(ev.jurisdiction, rec.jurisdiction);
    assert_eq!(rec.jurisdiction, Jurisdiction::SG);
    assert_eq!(ev.attestation_type, rec.attestation_type);
    assert_eq!(rec.attestation_type, AttestationType::AnnualReview);
    assert_eq!(ev.tax_year, 2031);
    assert_eq!(rec.tax_year, 2031);
    assert_eq!(ev.audit_hash, rec.audit_hash);
    assert_eq!(ev.issued_at, NOW);
    assert_eq!(rec.issued_at, NOW);
    assert_eq!(ev.expires_at, T1);
    assert_eq!(rec.expires_at, T1);
    assert_eq!(rec.authority, AUTHORITY);
    assert_eq!(rec.status, AttestationStatus::Active);
    assert_eq!(rec.revoked_at, 0);
    let (address, bump) = find_attestation_address(&PROGRAM, &H2).unwrap();
    assert_eq!(ev.attestation, address);
    assert_eq!(rec.bump, bump);
}

#[test]
fn intruder_cannot_mutate() {
    let mut reg = ready();
    let address = create(&mut reg, H1, vec![W1]).unwrap();
    let r = create_attestation(
        &mut reg,
        &CreateAttestation { authority: INTRUDER },
        Jurisdiction::US,
        AttestationType::TaxCompliance,
        2024,
        H2,
        T1,
        vec![W1],
        NOW,
    );
    assert_eq!(r.unwrap_err(), AttestationError::Unauthorized);
    let intruder = UpdateAttestation { attestation: address, authority: INTRUDER };
    assert_eq!(
        update_status(&mut reg, &intruder, AttestationStatus::Expired, NOW).unwrap_err(),
        AttestationError::Unauthorized
    );
    assert_eq!(revoke_attestation(&mut reg, &intruder, NOW).unwrap_err(), AttestationError::Unauthorized);
    assert_eq!(reg.state.unwrap().attestation_count, 1);
    assert_eq!(reg.records.len(), 1);
    assert_eq!(reg.attestation(&address).unwrap().status, AttestationStatus::Active);
}

#[test]
fn unauthorized_wins_over_bad_input() {
    let mut reg = ready();
    let r = create_attestation(
        &mut reg,
        &CreateAttestation { authority: INTRUDER },
        Jurisdiction::US,
        AttestationType::TaxCompliance,
        2024,
        H1,
        T1,
        vec![],
        NOW,
    );
    assert_eq!(r.unwrap_err(), AttestationError::Unauthorized);
}

#[test]
fn initialize_runs_once() {
    let mut reg = ready();
    let r = initialize(&mut reg, &Initialize { authority: INTRUDER });
    assert_eq!(r.unwrap_err(), AttestationError::AlreadyInitialized);
    let state = reg.state.unwrap();
    assert_eq!(state.authority, AUTHORITY);
    assert_eq!(state.attestation_count, 0);
    assert_eq!(state.bump, find_state_address(&PROGRAM).unwrap().1);
}

#[test]
fn nothing_before_initialize() {
    let mut reg = Registry::new(PROGRAM);
    assert_eq!(create(&mut reg, H1, vec![W1]).unwrap_err(), AttestationError::NotInitialized);
    let t = target([9u8; 32]);
    assert_eq!(
        update_status(&mut reg, &t, AttestationStatus::Expired, NOW).unwrap_err(),
        AttestationError::NotInitialized
    );
    assert_eq!(revoke_attestation(&mut reg, &t, NOW).unwrap_err(), AttestationError::NotInitialized);
}

#[test]
fn missing_record_is_reported() {
    let mut reg = ready();
    let t = target([9u8; 32]);
    assert_eq!(
        update_status(&mut reg, &t, AttestationStatus::Expired, NOW).unwrap_err(),
        AttestationError::RecordNotFound
    );
    assert_eq!(revoke_attestation(&mut reg, &t, NOW).unwrap_err(), AttestationError::RecordNotFound);
    assert!(reg.attestation(&[9u8; 32]).is_none());
}

#[test]
fn addresses_match_the_runtime_derivation() {
    let program = AnchorPubkey::new_from_array(PROGRAM);
    let (expected, bump) = AnchorPubkey::find_program_address(&[b"attestation", &H1], &program);
    let (address, b) = find_attestation_address(&PROGRAM, &H1).unwrap();
    assert_eq!(address, expected.to_bytes());
    assert_eq!(b, bump);
    assert_ne!(address, H1);
    let (state_expected, state_bump) = AnchorPubkey::find_program_address(&[b"state"], &program);
    let (state_address, sb) = find_state_address(&PROGRAM).unwrap();
    assert_eq!(state_address, state_expected.to_bytes());
    assert_eq!(sb, state_bump);
    assert_ne!(state_address, address);
}

#[test]
fn requests_dispatch_to_their_handlers() {
    let mut reg = Registry::new(PROGRAM);
    match process(&mut reg, &AUTHORITY, Instruction::Initialize, NOW).unwrap() {
        Event::ProgramInitialized(ev) => assert_eq!(ev.authority, AUTHORITY),
        other => panic!("unexpected event {:?}", other),
    }
    let create = Instruction::CreateAttestation {
        jurisdiction: Jurisdiction::UK,
        attestation_type: AttestationType::QuarterlyReview,
        tax_year: 2025,
        audit_hash: H1,
        expires_at: T1,
        wallets: vec![W1, W2],
    };
    let address = match process(&mut reg, &AUTHORITY, create.clone(), NOW).unwrap() {
        Event::AttestationCreated(ev) => ev.attestation,
        other => panic!("unexpected event {:?}", other),
    };
    assert_eq!(
        process(&mut reg, &AUTHORITY, create, NOW).unwrap_err(),
        AttestationError::DuplicateRecord
    );
    let update = Instruction::UpdateStatus { attestation: address, new_status: AttestationStatus::Pending };
    assert_eq!(
        process(&mut reg, &AUTHORITY, update, NOW).unwrap_err(),
        AttestationError::InvalidStatusTransition
    );
    let revoke = Instruction::RevokeAttestation { attestation: address };
    assert_eq!(
        process(&mut reg, &INTRUDER, revoke.clone(), NOW).unwrap_err(),
        AttestationError::Unauthorized
    );
    match process(&mut reg, &AUTHORITY, revoke, NOW + 2).unwrap() {
        Event::AttestationRevoked(ev) => {
            assert_eq!(ev.attestation, address);
            assert_eq!(ev.wallets, vec![W1, W2]);
            assert_eq!(ev.revoked_at, NOW + 2);
        }
        other => panic!("unexpected event {:?}", other),
    }
    assert_eq!(reg.attestation(&address).unwrap().status, AttestationStatus::Revoked);
}
