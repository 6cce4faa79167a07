use habbo_verifier::guard::{check_role_available, GuardOutcome, LOWEST_ID};

#[test]
fn unconfigured_role_blocks_regardless_of_roster() {
    assert_eq!(check_role_available(0, None), GuardOutcome::NotConfigured);
    assert_eq!(
        check_role_available(LOWEST_ID - 1, None),
        GuardOutcome::NotConfigured
    );
    // Independent of what the roster says.
    let roster = vec![LOWEST_ID - 1, LOWEST_ID, LOWEST_ID + 7];
    assert_eq!(
        check_role_available(LOWEST_ID - 1, Some(&roster)),
        GuardOutcome::NotConfigured
    );
}

#[test]
fn lowest_valid_id_passes_without_roster() {
    assert_eq!(check_role_available(LOWEST_ID, None), GuardOutcome::Pass);
    assert_eq!(
        check_role_available(LOWEST_ID + 123, None),
        GuardOutcome::Pass
    );
}

#[test]
fn configured_role_must_exist_in_roster() {
    let roster = vec![LOWEST_ID + 1, LOWEST_ID + 2];
    assert_eq!(
        check_role_available(LOWEST_ID + 2, Some(&roster)),
        GuardOutcome::Pass
    );
    assert_eq!(
        check_role_available(LOWEST_ID + 3, Some(&roster)),
        GuardOutcome::RoleMissing
    );
    assert_eq!(
        check_role_available(LOWEST_ID, Some(&Vec::new())),
        GuardOutcome::RoleMissing
    );
}
