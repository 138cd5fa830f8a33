//! Dispute lifecycle tests: Open -> Resolved -> Closed, with no skipped
//! or backward transition, duplicate detection, and the lookup indices.

use veritasor::disputes::{DisputeRegistry, DisputeStatus};
use veritasor::errors::Error;

const CHALLENGER: u64 = 21;
const OTHER_CHALLENGER: u64 = 22;
const BUSINESS: u64 = 2;
const RESOLVER: u64 = 30;
const NOW: u64 = 5000;

fn open_one(registry: &mut DisputeRegistry, challenger: u64, period: &str) -> u64 {
    registry
        .open_dispute(
            challenger,
            BUSINESS,
            &period.to_string(),
            1,
            "evidence".to_string(),
            true,
            NOW,
        )
        .unwrap()
}

#[test]
fn open_dispute_records_the_case() {
    let mut registry = DisputeRegistry::new();
    let id = open_one(&mut registry, CHALLENGER, "2026-02");
    assert_eq!(id, 0);
    let dispute = registry.get_dispute(id).unwrap();
    assert_eq!(dispute.challenger, CHALLENGER);
    assert_eq!(dispute.business, BUSINESS);
    assert_eq!(dispute.period, "2026-02");
    assert_eq!(dispute.status, DisputeStatus::Open);
    assert_eq!(dispute.opened_at, NOW);
    assert_eq!(dispute.resolution, None);
}

#[test]
fn open_dispute_requires_attestation() {
    let mut registry = DisputeRegistry::new();
    let r = registry.open_dispute(
        CHALLENGER,
        BUSINESS,
        &"2026-02".to_string(),
        1,
        "evidence".to_string(),
        false,
        NOW,
    );
    assert_eq!(r, Err(Error::AttestationNotFound));
    assert_eq!(registry.get_dispute(0), None);
}

#[test]
fn open_dispute_rejects_duplicate_by_same_challenger() {
    let mut registry = DisputeRegistry::new();
    open_one(&mut registry, CHALLENGER, "2026-02");
    let r = registry.open_dispute(
        CHALLENGER,
        BUSINESS,
        &"2026-02".to_string(),
        2,
        "more evidence".to_string(),
        true,
        NOW,
    );
    assert_eq!(r, Err(Error::DuplicateDispute));
    // A different challenger may still dispute the same attestation,
    // and the same challenger a different period.
    let second = open_one(&mut registry, OTHER_CHALLENGER, "2026-02");
    assert_eq!(second, 1);
    let third = open_one(&mut registry, CHALLENGER, "2026-03");
    assert_eq!(third, 2);
}

#[test]
fn resolved_dispute_can_be_disputed_again() {
    let mut registry = DisputeRegistry::new();
    let id = open_one(&mut registry, CHALLENGER, "2026-02");
    registry
        .resolve_dispute(id, RESOLVER, true, 1, "ok".to_string(), NOW + 1)
        .unwrap();
    // The duplicate rule counts only Open disputes.
    let again = open_one(&mut registry, CHALLENGER, "2026-02");
    assert_eq!(again, 1);
}

#[test]
fn dispute_lifecycle_happy_path() {
    let mut registry = DisputeRegistry::new();
    let id = open_one(&mut registry, CHALLENGER, "2026-02");
    registry
        .resolve_dispute(id, RESOLVER, true, 7, "upheld".to_string(), NOW + 10)
        .unwrap();
    let resolved = registry.get_dispute(id).unwrap();
    assert_eq!(resolved.status, DisputeStatus::Resolved);
    let resolution = resolved.resolution.unwrap();
    assert_eq!(resolution.resolver, RESOLVER);
    assert_eq!(resolution.outcome, 7);
    assert_eq!(resolution.resolved_at, NOW + 10);
    assert_eq!(resolution.notes, "upheld");
    registry.close_dispute(id).unwrap();
    let closed = registry.get_dispute(id).unwrap();
    assert_eq!(closed.status, DisputeStatus::Closed);
    // The resolution survives closure untouched.
    assert_eq!(closed.resolution.unwrap().outcome, 7);
}

#[test]
fn close_after_open_fails() {
    let mut registry = DisputeRegistry::new();
    let id = open_one(&mut registry, CHALLENGER, "2026-02");
    assert_eq!(registry.close_dispute(id), Err(Error::WrongDisputeStatus));
    assert_eq!(registry.get_dispute(id).unwrap().status, DisputeStatus::Open);
}

#[test]
fn resolve_after_close_fails() {
    let mut registry = DisputeRegistry::new();
    let id = open_one(&mut registry, CHALLENGER, "2026-02");
    registry
        .resolve_dispute(id, RESOLVER, true, 1, "ok".to_string(), NOW)
        .unwrap();
    registry.close_dispute(id).unwrap();
    let r = registry.resolve_dispute(id, RESOLVER, true, 2, "again".to_string(), NOW);
    assert_eq!(r, Err(Error::WrongDisputeStatus));
    // Closing twice fails too; the case is terminal.
    assert_eq!(registry.close_dispute(id), Err(Error::WrongDisputeStatus));
    let dispute = registry.get_dispute(id).unwrap();
    assert_eq!(dispute.status, DisputeStatus::Closed);
    assert_eq!(dispute.resolution.unwrap().outcome, 1);
}

#[test]
fn resolve_twice_fails() {
    let mut registry = DisputeRegistry::new();
    let id = open_one(&mut registry, CHALLENGER, "2026-02");
    registry
        .resolve_dispute(id, RESOLVER, true, 1, "first".to_string(), NOW)
        .unwrap();
    let r = registry.resolve_dispute(id, RESOLVER, true, 2, "second".to_string(), NOW);
    assert_eq!(r, Err(Error::WrongDisputeStatus));
    assert_eq!(registry.get_dispute(id).unwrap().resolution.unwrap().outcome, 1);
}

#[test]
fn resolve_requires_authorization() {
    let mut registry = DisputeRegistry::new();
    let id = open_one(&mut registry, CHALLENGER, "2026-02");
    let r = registry.resolve_dispute(id, RESOLVER, false, 1, "no".to_string(), NOW);
    assert_eq!(r, Err(Error::NotAuthorized));
    assert_eq!(registry.get_dispute(id).unwrap().status, DisputeStatus::Open);
}

#[test]
fn resolve_unknown_dispute_fails() {
    let mut registry = DisputeRegistry::new();
    let r = registry.resolve_dispute(9, RESOLVER, true, 1, "none".to_string(), NOW);
    assert_eq!(r, Err(Error::DisputeNotFound));
    assert_eq!(registry.close_dispute(9), Err(Error::DisputeNotFound));
}

#[test]
fn indices_list_disputes_in_opening_order() {
    let mut registry = DisputeRegistry::new();
    let a = open_one(&mut registry, CHALLENGER, "2026-02");
    let b = open_one(&mut registry, OTHER_CHALLENGER, "2026-02");
    let c = open_one(&mut registry, CHALLENGER, "2026-03");
    assert_eq!(
        registry.get_disputes_by_attestation(BUSINESS, &"2026-02".to_string()),
        vec![a, b]
    );
    assert_eq!(
        registry.get_disputes_by_attestation(BUSINESS, &"2026-03".to_string()),
        vec![c]
    );
    assert_eq!(
        registry.get_disputes_by_attestation(BUSINESS, &"2026-04".to_string()),
        Vec::<u64>::new()
    );
    assert_eq!(registry.get_disputes_by_challenger(CHALLENGER), vec![a, c]);
    assert_eq!(registry.get_disputes_by_challenger(OTHER_CHALLENGER), vec![b]);
    // Indices are never pruned: resolution and closure keep them intact.
    registry
        .resolve_dispute(a, RESOLVER, true, 1, "ok".to_string(), NOW)
        .unwrap();
    registry.close_dispute(a).unwrap();
    assert_eq!(
        registry.get_disputes_by_attestation(BUSINESS, &"2026-02".to_string()),
        vec![a, b]
    );
    assert_eq!(registry.get_disputes_by_challenger(CHALLENGER), vec![a, c]);
}
