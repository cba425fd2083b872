use arbishark::fixed::UNIT;
use arbishark::permission_guard::PermissionGuard;

#[test]
fn can_spend_up_to_the_limit_only() {
    let guard = PermissionGuard { daily_limit: 10 * UNIT, spent_today: 7 * UNIT };
    assert!(guard.can_spend(3 * UNIT));
    assert!(!guard.can_spend(3 * UNIT + 1));
    assert!(guard.can_spend(0));
}

#[test]
fn record_spend_adds_exactly_the_amount() {
    let mut guard = PermissionGuard::new(10 * UNIT);
    guard.record_spend(2_500_000);
    assert_eq!(guard.spent_today, 2_500_000);
    guard.record_spend(500_000);
    assert_eq!(guard.spent_today, 3 * UNIT);
    assert!(!guard.can_spend(7 * UNIT + 1));
    guard.reset();
    assert_eq!(guard.spent_today, 0);
    assert_eq!(guard.daily_limit, 10 * UNIT);
}

#[test]
fn can_spend_does_not_overflow() {
    let guard = PermissionGuard { daily_limit: u64::MAX, spent_today: u64::MAX };
    assert!(!guard.can_spend(1));
}
