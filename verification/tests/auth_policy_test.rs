use circa_backend::auth::models::Claims;
use circa_backend::auth::policy::{evaluate, policy, rules, AuthDecision, Op};
use circa_backend::user::models::UserRole;

fn make_claims(sub: &str, role: &str) -> Claims {
    Claims {
        sub: sub.to_string(),
        role: role.to_string(),
        exp: 9999999999,
    }
}

#[test]
fn test_policy_volunteer_updating_self_allowed() {
    let decision = policy(&make_claims("1", "volunteer"), "1", Op::Update);
    assert_eq!(decision, AuthDecision::Allow);
}

#[test]
fn test_policy_volunteer_updating_other_denied() {
    let decision = policy(&make_claims("2", "volunteer"), "1", Op::Update);
    assert_eq!(decision, AuthDecision::Deny);
}

#[test]
fn test_policy_admin_deleting_other_allowed() {
    let decision = policy(&make_claims("x", "admin"), "1", Op::Delete);
    assert_eq!(decision, AuthDecision::Allow);
}

#[test]
fn test_policy_organizer_deleting_other_denied() {
    let decision = policy(&make_claims("x", "organizer"), "1", Op::Delete);
    assert_eq!(decision, AuthDecision::Deny);
}

#[test]
fn test_policy_organizer_updating_other_allowed() {
    let decision = policy(&make_claims("x", "organizer"), "1", Op::Update);
    assert_eq!(decision, AuthDecision::Allow);
}

#[test]
fn test_policy_organizer_deleting_self_allowed() {
    let decision = policy(&make_claims("org-id", "organizer"), "org-id", Op::Delete);
    assert_eq!(decision, AuthDecision::Allow);
}

#[test]
fn test_policy_unknown_role_on_other_denied() {
    let decision = policy(&make_claims("x", "clown"), "1", Op::Update);
    assert_eq!(decision, AuthDecision::Deny);
    let decision = policy(&make_claims("x", "clown"), "1", Op::Delete);
    assert_eq!(decision, AuthDecision::Deny);
}

#[test]
fn test_policy_unknown_role_on_self_allowed() {
    let decision = policy(&make_claims("1", "clown"), "1", Op::Update);
    assert_eq!(decision, AuthDecision::Allow);
}

#[test]
fn test_policy_staff_deleting_other_denied() {
    let decision = policy(&make_claims("x", "staff"), "1", Op::Delete);
    assert_eq!(decision, AuthDecision::Deny);
}

#[test]
fn test_rules_table_shape() {
    let table = rules();
    assert_eq!(table.len(), 4);
    assert_eq!(table[0].decision, AuthDecision::Allow);
    assert_eq!(table[2].decision, AuthDecision::Deny);
}

#[test]
fn test_evaluate_matches_policy_for_parsed_roles() {
    let decision = evaluate(Some(UserRole::Admin), false, Op::Delete);
    assert_eq!(decision, AuthDecision::Allow);
    let decision = evaluate(None, false, Op::Update);
    assert_eq!(decision, AuthDecision::Deny);
    let decision = evaluate(None, true, Op::Delete);
    assert_eq!(decision, AuthDecision::Allow);
}
