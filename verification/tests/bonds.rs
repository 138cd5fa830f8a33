//! Bond registry tests: issuance, redemption structures, the
//! double-redemption and face-value-cap guards, ownership, and default
//! handling.

use veritasor::bonds::{AttestationStatus, BondStatus, BondStructure, RevenueBondContract};
use veritasor::errors::Error;

const ADMIN: u64 = 1;
const ISSUER: u64 = 2;
const OWNER: u64 = 3;
const TOKEN: u64 = 4;
const ATTESTATION_CONTRACT: u64 = 5;
const NOW: u64 = 1000;

fn setup() -> RevenueBondContract {
    let mut registry = RevenueBondContract::new();
    registry.initialize(ADMIN).unwrap();
    registry
}

fn issue_fixed(registry: &mut RevenueBondContract, face_value: i128, payment: i128) -> u64 {
    registry
        .issue_bond(
            ISSUER,
            OWNER,
            face_value,
            BondStructure::Fixed,
            0,
            payment,
            payment,
            12,
            ATTESTATION_CONTRACT,
            TOKEN,
            NOW,
        )
        .unwrap()
}

#[test]
fn test_initialize() {
    let mut registry = RevenueBondContract::new();
    registry.initialize(ADMIN).unwrap();
    assert_eq!(registry.get_admin(), Some(ADMIN));
}

#[test]
fn test_double_initialize_panics() {
    let mut registry = RevenueBondContract::new();
    registry.initialize(ADMIN).unwrap();
    assert_eq!(registry.initialize(ADMIN), Err(Error::AlreadyInitialized));
    assert_eq!(registry.get_admin(), Some(ADMIN));
}

#[test]
fn test_issue_bond_fixed_structure() {
    let mut registry = setup();
    let bond_id = registry
        .issue_bond(
            ISSUER,
            OWNER,
            10_000_000,
            BondStructure::Fixed,
            0,
            500_000,
            500_000,
            12,
            ATTESTATION_CONTRACT,
            TOKEN,
            NOW,
        )
        .unwrap();
    assert_eq!(bond_id, 0);
    let bond = registry.get_bond(bond_id).unwrap();
    assert_eq!(bond.face_value, 10_000_000);
    assert_eq!(bond.structure, BondStructure::Fixed);
    assert_eq!(bond.status, BondStatus::Active);
}

#[test]
fn test_issue_bond_revenue_linked() {
    let mut registry = setup();
    let bond_id = registry
        .issue_bond(
            ISSUER,
            OWNER,
            5_000_000,
            BondStructure::RevenueLinked,
            1000,
            100_000,
            1_000_000,
            24,
            ATTESTATION_CONTRACT,
            TOKEN,
            NOW,
        )
        .unwrap();
    let bond = registry.get_bond(bond_id).unwrap();
    assert_eq!(bond.structure, BondStructure::RevenueLinked);
    assert_eq!(bond.revenue_share_bps, 1000);
}

#[test]
fn test_issue_bond_hybrid() {
    let mut registry = setup();
    let bond_id = registry
        .issue_bond(
            ISSUER,
            OWNER,
            8_000_000,
            BondStructure::Hybrid,
            500,
            200_000,
            800_000,
            18,
            ATTESTATION_CONTRACT,
            TOKEN,
            NOW,
        )
        .unwrap();
    let bond = registry.get_bond(bond_id).unwrap();
    assert_eq!(bond.structure, BondStructure::Hybrid);
}

#[test]
fn test_issue_bond_invalid_face_value() {
    let mut registry = setup();
    let r = registry.issue_bond(
        ISSUER,
        OWNER,
        0,
        BondStructure::Fixed,
        0,
        500_000,
        500_000,
        12,
        ATTESTATION_CONTRACT,
        TOKEN,
        NOW,
    );
    assert_eq!(r, Err(Error::InvalidFaceValue));
    assert_eq!(registry.get_bond(0), None);
}

#[test]
fn test_issue_bond_invalid_revenue_share() {
    let mut registry = setup();
    let r = registry.issue_bond(
        ISSUER,
        OWNER,
        10_000_000,
        BondStructure::RevenueLinked,
        10001,
        100_000,
        1_000_000,
        12,
        ATTESTATION_CONTRACT,
        TOKEN,
        NOW,
    );
    assert_eq!(r, Err(Error::InvalidRevenueShare));
}

#[test]
fn test_issue_bond_invalid_payment_range() {
    let mut registry = setup();
    let r = registry.issue_bond(
        ISSUER,
        OWNER,
        10_000_000,
        BondStructure::Fixed,
        0,
        1_000_000,
        500_000,
        12,
        ATTESTATION_CONTRACT,
        TOKEN,
        NOW,
    );
    assert_eq!(r, Err(Error::InvalidPaymentRange));
}

#[test]
fn test_issue_bond_invalid_min_payment() {
    let mut registry = setup();
    let r = registry.issue_bond(
        ISSUER,
        OWNER,
        10_000_000,
        BondStructure::Fixed,
        0,
        -1,
        500_000,
        12,
        ATTESTATION_CONTRACT,
        TOKEN,
        NOW,
    );
    assert_eq!(r, Err(Error::InvalidMinPayment));
}

#[test]
fn test_issue_bond_invalid_max_payment() {
    let mut registry = setup();
    let r = registry.issue_bond(
        ISSUER,
        OWNER,
        10_000_000,
        BondStructure::Fixed,
        0,
        0,
        0,
        12,
        ATTESTATION_CONTRACT,
        TOKEN,
        NOW,
    );
    assert_eq!(r, Err(Error::InvalidMaxPayment));
}

#[test]
fn test_issue_bond_invalid_maturity() {
    let mut registry = setup();
    let r = registry.issue_bond(
        ISSUER,
        OWNER,
        10_000_000,
        BondStructure::Fixed,
        0,
        500_000,
        500_000,
        0,
        ATTESTATION_CONTRACT,
        TOKEN,
        NOW,
    );
    assert_eq!(r, Err(Error::InvalidMaturity));
}

#[test]
fn test_issue_bond_owner_equals_issuer() {
    let mut registry = setup();
    let r = registry.issue_bond(
        ISSUER,
        ISSUER,
        10_000_000,
        BondStructure::Fixed,
        0,
        500_000,
        500_000,
        12,
        ATTESTATION_CONTRACT,
        TOKEN,
        NOW,
    );
    assert_eq!(r, Err(Error::OwnerEqualsIssuer));
}

#[test]
fn test_redeem_fixed_bond() {
    let mut registry = setup();
    let bond_id = issue_fixed(&mut registry, 10_000_000, 500_000);
    let period = "2026-02".to_string();
    registry
        .redeem(bond_id, &period, 2_000_000, AttestationStatus::Valid, NOW)
        .unwrap();
    let redemption = registry.get_redemption(bond_id, &period).unwrap();
    assert_eq!(redemption.redemption_amount, 500_000);
    assert_eq!(registry.get_total_redeemed(bond_id), 500_000);
}

#[test]
fn test_redeem_revenue_linked_bond() {
    let mut registry = setup();
    let bond_id = registry
        .issue_bond(
            ISSUER,
            OWNER,
            5_000_000,
            BondStructure::RevenueLinked,
            1000,
            100_000,
            1_000_000,
            24,
            ATTESTATION_CONTRACT,
            TOKEN,
            NOW,
        )
        .unwrap();
    let period = "2026-02".to_string();
    registry
        .redeem(bond_id, &period, 5_000_000, AttestationStatus::Valid, NOW)
        .unwrap();
    let redemption = registry.get_redemption(bond_id, &period).unwrap();
    assert_eq!(redemption.redemption_amount, 500_000);
}

#[test]
fn test_redeem_revenue_linked_below_minimum() {
    let mut registry = setup();
    let bond_id = registry
        .issue_bond(
            ISSUER,
            OWNER,
            5_000_000,
            BondStructure::RevenueLinked,
            1000,
            100_000,
            1_000_000,
            24,
            ATTESTATION_CONTRACT,
            TOKEN,
            NOW,
        )
        .unwrap();
    let period = "2026-02".to_string();
    registry
        .redeem(bond_id, &period, 500_000, AttestationStatus::Valid, NOW)
        .unwrap();
    let redemption = registry.get_redemption(bond_id, &period).unwrap();
    assert_eq!(redemption.redemption_amount, 100_000);
}

#[test]
fn test_redeem_revenue_linked_capped_at_max() {
    let mut registry = setup();
    let bond_id = registry
        .issue_bond(
            ISSUER,
            OWNER,
            5_000_000,
            BondStructure::RevenueLinked,
            1000,
            100_000,
            1_000_000,
            24,
            ATTESTATION_CONTRACT,
            TOKEN,
            NOW,
        )
        .unwrap();
    let period = "2026-02".to_string();
    registry
        .redeem(bond_id, &period, 15_000_000, AttestationStatus::Valid, NOW)
        .unwrap();
    let redemption = registry.get_redemption(bond_id, &period).unwrap();
    assert_eq!(redemption.redemption_amount, 1_000_000);
}

#[test]
fn test_redeem_hybrid_bond() {
    let mut registry = setup();
    let bond_id = registry
        .issue_bond(
            ISSUER,
            OWNER,
            8_000_000,
            BondStructure::Hybrid,
            500,
            200_000,
            800_000,
            18,
            ATTESTATION_CONTRACT,
            TOKEN,
            NOW,
        )
        .unwrap();
    let period = "2026-02".to_string();
    registry
        .redeem(bond_id, &period, 10_000_000, AttestationStatus::Valid, NOW)
        .unwrap();
    let redemption = registry.get_redemption(bond_id, &period).unwrap();
    assert_eq!(redemption.redemption_amount, 700_000);
}

#[test]
fn test_redeem_double_spending_prevention() {
    let mut registry = setup();
    let bond_id = issue_fixed(&mut registry, 10_000_000, 500_000);
    let period = "2026-02".to_string();
    registry
        .redeem(bond_id, &period, 2_000_000, AttestationStatus::Valid, NOW)
        .unwrap();
    let r = registry.redeem(bond_id, &period, 2_000_000, AttestationStatus::Valid, NOW);
    assert_eq!(r, Err(Error::AlreadyRedeemed));
    // The first redemption's record and the running total are untouched.
    let redemption = registry.get_redemption(bond_id, &period).unwrap();
    assert_eq!(redemption.redemption_amount, 500_000);
    assert_eq!(registry.get_total_redeemed(bond_id), 500_000);
}

#[test]
fn test_multiple_period_redemptions() {
    let mut registry = setup();
    let bond_id = issue_fixed(&mut registry, 10_000_000, 500_000);
    let period1 = "2026-02".to_string();
    let period2 = "2026-03".to_string();
    let period3 = "2026-04".to_string();
    registry
        .redeem(bond_id, &period1, 2_000_000, AttestationStatus::Valid, NOW)
        .unwrap();
    registry
        .redeem(bond_id, &period2, 2_500_000, AttestationStatus::Valid, NOW)
        .unwrap();
    registry
        .redeem(bond_id, &period3, 3_000_000, AttestationStatus::Valid, NOW)
        .unwrap();
    assert_eq!(registry.get_total_redeemed(bond_id), 1_500_000);
    assert_eq!(registry.get_remaining_value(bond_id).unwrap(), 8_500_000);
}

#[test]
fn test_full_redemption() {
    let mut registry = setup();
    let bond_id = issue_fixed(&mut registry, 1_000_000, 500_000);
    let period1 = "2026-02".to_string();
    let period2 = "2026-03".to_string();
    registry
        .redeem(bond_id, &period1, 2_000_000, AttestationStatus::Valid, NOW)
        .unwrap();
    registry
        .redeem(bond_id, &period2, 2_000_000, AttestationStatus::Valid, NOW)
        .unwrap();
    let bond = registry.get_bond(bond_id).unwrap();
    assert_eq!(bond.status, BondStatus::FullyRedeemed);
    assert_eq!(registry.get_total_redeemed(bond_id), 1_000_000);
    assert_eq!(registry.get_remaining_value(bond_id).unwrap(), 0);
    // Once fully redeemed, further periods are refused.
    let period3 = "2026-04".to_string();
    let r = registry.redeem(bond_id, &period3, 2_000_000, AttestationStatus::Valid, NOW);
    assert_eq!(r, Err(Error::BondNotActive));
    assert_eq!(registry.get_total_redeemed(bond_id), 1_000_000);
}

#[test]
fn test_partial_redemption_caps_at_face_value() {
    let mut registry = setup();
    let bond_id = issue_fixed(&mut registry, 1_200_000, 500_000);
    let period1 = "2026-02".to_string();
    let period2 = "2026-03".to_string();
    let period3 = "2026-04".to_string();
    registry
        .redeem(bond_id, &period1, 2_000_000, AttestationStatus::Valid, NOW)
        .unwrap();
    registry
        .redeem(bond_id, &period2, 2_000_000, AttestationStatus::Valid, NOW)
        .unwrap();
    // The third payment is capped by the remaining 200000 of face value.
    let transfer = registry
        .redeem(bond_id, &period3, 2_000_000, AttestationStatus::Valid, NOW)
        .unwrap()
        .unwrap();
    assert_eq!(transfer.amount, 200_000);
    let bond = registry.get_bond(bond_id).unwrap();
    assert_eq!(bond.status, BondStatus::FullyRedeemed);
    assert_eq!(registry.get_total_redeemed(bond_id), 1_200_000);
    assert_eq!(
        registry.get_redemption(bond_id, &period3).unwrap().redemption_amount,
        200_000
    );
}

#[test]
fn test_transfer_ownership() {
    let mut registry = setup();
    let new_owner: u64 = 6;
    let bond_id = issue_fixed(&mut registry, 10_000_000, 500_000);
    registry.transfer_ownership(bond_id, OWNER, new_owner).unwrap();
    assert_eq!(registry.get_owner(bond_id).unwrap(), new_owner);
}

#[test]
fn test_transfer_ownership_unauthorized() {
    let mut registry = setup();
    let new_owner: u64 = 6;
    let fake_owner: u64 = 7;
    let bond_id = issue_fixed(&mut registry, 10_000_000, 500_000);
    let r = registry.transfer_ownership(bond_id, fake_owner, new_owner);
    assert_eq!(r, Err(Error::NotOwner));
    assert_eq!(registry.get_owner(bond_id).unwrap(), OWNER);
}

#[test]
fn test_transfer_ownership_to_self() {
    let mut registry = setup();
    let bond_id = issue_fixed(&mut registry, 10_000_000, 500_000);
    let r = registry.transfer_ownership(bond_id, OWNER, OWNER);
    assert_eq!(r, Err(Error::TransferToSelf));
    assert_eq!(registry.get_owner(bond_id).unwrap(), OWNER);
}

#[test]
fn test_redemption_pays_new_owner_after_transfer() {
    let mut registry = setup();
    let new_owner: u64 = 6;
    let bond_id = issue_fixed(&mut registry, 10_000_000, 500_000);
    registry.transfer_ownership(bond_id, OWNER, new_owner).unwrap();
    let period = "2026-02".to_string();
    let transfer = registry
        .redeem(bond_id, &period, 2_000_000, AttestationStatus::Valid, NOW)
        .unwrap()
        .unwrap();
    assert_eq!(transfer.from, ISSUER);
    assert_eq!(transfer.to, new_owner);
    assert_eq!(transfer.token, TOKEN);
    assert_eq!(transfer.amount, 500_000);
}

#[test]
fn test_mark_defaulted() {
    let mut registry = setup();
    let bond_id = issue_fixed(&mut registry, 10_000_000, 500_000);
    registry.mark_defaulted(ADMIN, bond_id).unwrap();
    let bond = registry.get_bond(bond_id).unwrap();
    assert_eq!(bond.status, BondStatus::Defaulted);
}

#[test]
fn test_mark_defaulted_unauthorized() {
    let mut registry = setup();
    let bond_id = issue_fixed(&mut registry, 10_000_000, 500_000);
    let non_admin: u64 = 99;
    let r = registry.mark_defaulted(non_admin, bond_id);
    assert_eq!(r, Err(Error::NotAdmin));
    assert_eq!(registry.get_bond(bond_id).unwrap().status, BondStatus::Active);
}

#[test]
fn test_redeem_defaulted_bond() {
    let mut registry = setup();
    let bond_id = issue_fixed(&mut registry, 10_000_000, 500_000);
    registry.mark_defaulted(ADMIN, bond_id).unwrap();
    let period = "2026-02".to_string();
    let r = registry.redeem(bond_id, &period, 2_000_000, AttestationStatus::Valid, NOW);
    assert_eq!(r, Err(Error::BondNotActive));
}

#[test]
fn test_early_redemption_scenario() {
    let mut registry = setup();
    let bond_id = registry
        .issue_bond(
            ISSUER,
            OWNER,
            4_500_000,
            BondStructure::RevenueLinked,
            2000,
            100_000,
            2_000_000,
            24,
            ATTESTATION_CONTRACT,
            TOKEN,
            NOW,
        )
        .unwrap();
    let period1 = "2026-02".to_string();
    let period2 = "2026-03".to_string();
    let period3 = "2026-04".to_string();
    registry
        .redeem(bond_id, &period1, 8_000_000, AttestationStatus::Valid, NOW)
        .unwrap();
    registry
        .redeem(bond_id, &period2, 10_000_000, AttestationStatus::Valid, NOW)
        .unwrap();
    registry
        .redeem(bond_id, &period3, 5_000_000, AttestationStatus::Valid, NOW)
        .unwrap();
    let bond = registry.get_bond(bond_id).unwrap();
    assert_eq!(bond.status, BondStatus::FullyRedeemed);
    assert_eq!(registry.get_total_redeemed(bond_id), 4_500_000);
}

#[test]
fn test_redeem_unknown_bond() {
    let mut registry = setup();
    let period = "2026-02".to_string();
    let r = registry.redeem(42, &period, 1_000_000, AttestationStatus::Valid, NOW);
    assert_eq!(r, Err(Error::BondNotFound));
}

#[test]
fn test_redeem_negative_revenue() {
    let mut registry = setup();
    let bond_id = issue_fixed(&mut registry, 10_000_000, 500_000);
    let period = "2026-02".to_string();
    let r = registry.redeem(bond_id, &period, -1, AttestationStatus::Valid, NOW);
    assert_eq!(r, Err(Error::NegativeRevenue));
}

#[test]
fn test_redeem_missing_attestation() {
    let mut registry = setup();
    let bond_id = issue_fixed(&mut registry, 10_000_000, 500_000);
    let period = "2026-02".to_string();
    let r = registry.redeem(bond_id, &period, 1_000_000, AttestationStatus::Missing, NOW);
    assert_eq!(r, Err(Error::AttestationNotFound));
    assert_eq!(registry.get_total_redeemed(bond_id), 0);
}

#[test]
fn test_redeem_revoked_attestation() {
    let mut registry = setup();
    let bond_id = issue_fixed(&mut registry, 10_000_000, 500_000);
    let period = "2026-02".to_string();
    let r = registry.redeem(bond_id, &period, 1_000_000, AttestationStatus::Revoked, NOW);
    assert_eq!(r, Err(Error::AttestationRevoked));
    assert_eq!(registry.get_total_redeemed(bond_id), 0);
}

#[test]
fn test_calculate_redemption_structure_formulas() {
    let mut registry = setup();
    // Fixed with min = max = 500000 pays 500000 whatever the revenue.
    let fixed = issue_fixed(&mut registry, 10_000_000, 500_000);
    let fixed_bond = registry.get_bond(fixed).unwrap();
    assert_eq!(RevenueBondContract::calculate_redemption(&fixed_bond, 0), 500_000);
    assert_eq!(
        RevenueBondContract::calculate_redemption(&fixed_bond, 123_456_789),
        500_000
    );
    // RevenueLinked: share = revenue * bps / 10000, clamped to [min, max].
    let linked = registry
        .issue_bond(
            ISSUER,
            OWNER,
            5_000_000,
            BondStructure::RevenueLinked,
            1000,
            100_000,
            1_000_000,
            24,
            ATTESTATION_CONTRACT,
            TOKEN,
            NOW,
        )
        .unwrap();
    let linked_bond = registry.get_bond(linked).unwrap();
    assert_eq!(
        RevenueBondContract::calculate_redemption(&linked_bond, 5_000_000),
        500_000
    );
    assert_eq!(
        RevenueBondContract::calculate_redemption(&linked_bond, 500_000),
        100_000
    );
    assert_eq!(
        RevenueBondContract::calculate_redemption(&linked_bond, 15_000_000),
        1_000_000
    );
    // Hybrid: min + share, capped at max.
    let hybrid = registry
        .issue_bond(
            ISSUER,
            OWNER,
            8_000_000,
            BondStructure::Hybrid,
            500,
            200_000,
            800_000,
            18,
            ATTESTATION_CONTRACT,
            TOKEN,
            NOW,
        )
        .unwrap();
    let hybrid_bond = registry.get_bond(hybrid).unwrap();
    assert_eq!(
        RevenueBondContract::calculate_redemption(&hybrid_bond, 10_000_000),
        700_000
    );
}

#[test]
fn test_calculate_redemption_saturates_on_huge_revenue() {
    let mut registry = setup();
    let bond_id = registry
        .issue_bond(
            ISSUER,
            OWNER,
            5_000_000,
            BondStructure::RevenueLinked,
            10000,
            100_000,
            1_000_000,
            24,
            ATTESTATION_CONTRACT,
            TOKEN,
            NOW,
        )
        .unwrap();
    let bond = registry.get_bond(bond_id).unwrap();
    // The widened product saturates; the result is still clamped to max.
    assert_eq!(
        RevenueBondContract::calculate_redemption(&bond, i128::MAX),
        1_000_000
    );
}

#[test]
fn test_zero_amount_redemption_writes_record_without_transfer() {
    let mut registry = setup();
    let bond_id = registry
        .issue_bond(
            ISSUER,
            OWNER,
            5_000_000,
            BondStructure::RevenueLinked,
            1000,
            0,
            1_000_000,
            24,
            ATTESTATION_CONTRACT,
            TOKEN,
            NOW,
        )
        .unwrap();
    let period = "2026-02".to_string();
    let transfer = registry
        .redeem(bond_id, &period, 0, AttestationStatus::Valid, NOW)
        .unwrap();
    assert_eq!(transfer, None);
    let redemption = registry.get_redemption(bond_id, &period).unwrap();
    assert_eq!(redemption.redemption_amount, 0);
    assert_eq!(registry.get_total_redeemed(bond_id), 0);
}
