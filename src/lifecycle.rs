use vstd::prelude::*;
use crate::types::{Attestation, AttestationStatus};

verus! {

/// The edges of the status state machine; `Expired` and `Revoked` are terminal.
pub open spec fn valid_transition(from: AttestationStatus, to: AttestationStatus) -> bool {
    ||| (from == AttestationStatus::Pending && to == AttestationStatus::Active)
    ||| (from == AttestationStatus::Active && to == AttestationStatus::Expired)
    ||| (from == AttestationStatus::Active && to == AttestationStatus::Revoked)
    ||| (from == AttestationStatus::Pending && to == AttestationStatus::Revoked)
}

/// The record after its status moves to `to` at time `now`: entering `Revoked`
/// stamps `revoked_at`, and nothing else changes.
pub open spec fn with_status(rec: Attestation, to: AttestationStatus, now: i64) -> Attestation {
    Attestation {
        status: to,
        revoked_at: if to == AttestationStatus::Revoked { now } else { rec.revoked_at },
        ..rec
    }
}

pub fn is_valid_status_transition(from: AttestationStatus, to: AttestationStatus) -> (r: bool)
    ensures
        r == valid_transition(from, to),
{
    match (from, to) {
        (AttestationStatus::Pending, AttestationStatus::Active) => true,
        (AttestationStatus::Active, AttestationStatus::Expired) => true,
        (AttestationStatus::Active, AttestationStatus::Revoked) => true,
        (AttestationStatus::Pending, AttestationStatus::Revoked) => true,
        _ => false,
    }
}

} // verus!
