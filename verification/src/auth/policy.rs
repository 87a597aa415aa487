//! The authorization policy: given a caller's verified claims, the owner of
//! the target record and the requested operation, decide whether the
//! mutation is permitted. The policy is a static rule table evaluated in
//! order, first match wins; a caller matching no row is denied.

use vstd::prelude::*;
use crate::auth::models::Claims;
use crate::text::str_eq;
use crate::user::models::{role_of, parse_role, UserRole};

verus! {

/// The mutating operations the policy rules on.
#[derive(Debug, Clone, Copy, PartialEq, Eq, Structural)]
pub enum Op {
    Update,
    Delete,
}

/// Outcome of an authorization check. `Deny` carries no reason: the policy
/// never reveals to a caller why a request was refused.
#[derive(Debug, Clone, Copy, PartialEq, Eq, Structural)]
pub enum AuthDecision {
    Allow,
    Deny,
}

/// Which callers a rule applies to. A caller whose role string is outside
/// the closed role set only matches `AnyRole` rows.
#[derive(Debug, Clone, Copy, PartialEq, Eq, Structural)]
pub enum RoleSelector {
    AnyRole,
    Is(UserRole),
}

/// Whether a rule applies when the caller acts on its own record, on the
/// record of somebody else, or in both cases.
#[derive(Debug, Clone, Copy, PartialEq, Eq, Structural)]
pub enum TargetSelector {
    AnyTarget,
    OwnRecord,
    ForeignRecord,
}

/// Which operations a rule applies to.
#[derive(Debug, Clone, Copy, PartialEq, Eq, Structural)]
pub enum OpSelector {
    AnyOp,
    Exactly(Op),
}

/// One row of the policy table.
#[derive(Debug, Clone, Copy, PartialEq, Eq, Structural)]
pub struct Rule {
    pub role: RoleSelector,
    pub target: TargetSelector,
    pub op: OpSelector,
    pub decision: AuthDecision,
}

/// Whether one rule covers the given caller, target relation and operation.
pub open spec fn spec_rule_applies(rule: Rule, role: Option<UserRole>, own: bool, op: Op) -> bool {
    &&& match rule.role {
        RoleSelector::AnyRole => true,
        RoleSelector::Is(required) => role == Some(required),
    }
    &&& match rule.target {
        TargetSelector::AnyTarget => true,
        TargetSelector::OwnRecord => own,
        TargetSelector::ForeignRecord => !own,
    }
    &&& match rule.op {
        OpSelector::AnyOp => true,
        OpSelector::Exactly(required) => op == required,
    }
}

/// The policy table: admins may mutate anything; organizers may update any
/// record but not delete foreign ones; everyone may mutate their own record.
pub open spec fn spec_rules() -> Seq<Rule> {
    seq![
        (Rule {
            role: RoleSelector::Is(UserRole::Admin),
            target: TargetSelector::AnyTarget,
            op: OpSelector::AnyOp,
            decision: AuthDecision::Allow,
        }),
        (Rule {
            role: RoleSelector::Is(UserRole::Organizer),
            target: TargetSelector::AnyTarget,
            op: OpSelector::Exactly(Op::Update),
            decision: AuthDecision::Allow,
        }),
        (Rule {
            role: RoleSelector::Is(UserRole::Organizer),
            target: TargetSelector::ForeignRecord,
            op: OpSelector::Exactly(Op::Delete),
            decision: AuthDecision::Deny,
        }),
        (Rule {
            role: RoleSelector::AnyRole,
            target: TargetSelector::OwnRecord,
            op: OpSelector::AnyOp,
            decision: AuthDecision::Allow,
        }),
    ]
}

/// The decision of a rule list, first match wins, default deny.
pub open spec fn spec_first_match(
    rules: Seq<Rule>,
    role: Option<UserRole>,
    own: bool,
    op: Op,
) -> AuthDecision
    decreases rules.len(),
{
    if rules.len() == 0 {
        AuthDecision::Deny
    } else if spec_rule_applies(rules[0], role, own, op) {
        rules[0].decision
    } else {
        spec_first_match(rules.drop_first(), role, own, op)
    }
}

/// The decision of the policy table.
pub open spec fn spec_decision(role: Option<UserRole>, own: bool, op: Op) -> AuthDecision {
    spec_first_match(spec_rules(), role, own, op)
}

/// Closed form of the table: a mutation is permitted exactly for admins,
/// for callers acting on their own record, and for organizers updating.
pub open spec fn spec_allowed(role: Option<UserRole>, own: bool, op: Op) -> bool {
    ||| role == Some(UserRole::Admin)
    ||| own
    ||| (role == Some(UserRole::Organizer) && op == Op::Update)
}

/// The rule table and its closed form agree on every caller, target
/// relation and operation.
pub proof fn lemma_decision_closed_form(role: Option<UserRole>, own: bool, op: Op)
    ensures
        spec_decision(role, own, op) == (if spec_allowed(role, own, op) {
            AuthDecision::Allow
        } else {
            AuthDecision::Deny
        }),
{
    reveal_with_fuel(spec_first_match, 6);
}

/// The policy table as a value, for the evaluator to walk.
pub fn rules() -> (table: Vec<Rule>)
    ensures
        table@ == spec_rules(),
{
    let mut table: Vec<Rule> = Vec::new();
    table.push(Rule {
        role: RoleSelector::Is(UserRole::Admin),
        target: TargetSelector::AnyTarget,
        op: OpSelector::AnyOp,
        decision: AuthDecision::Allow,
    });
    table.push(Rule {
        role: RoleSelector::Is(UserRole::Organizer),
        target: TargetSelector::AnyTarget,
        op: OpSelector::Exactly(Op::Update),
        decision: AuthDecision::Allow,
    });
    table.push(Rule {
        role: RoleSelector::Is(UserRole::Organizer),
        target: TargetSelector::ForeignRecord,
        op: OpSelector::Exactly(Op::Delete),
        decision: AuthDecision::Deny,
    });
    table.push(Rule {
        role: RoleSelector::AnyRole,
        target: TargetSelector::OwnRecord,
        op: OpSelector::AnyOp,
        decision: AuthDecision::Allow,
    });
    proof {
        assert(table@ =~= spec_rules());
    }
    table
}

fn rule_applies(rule: &Rule, role: Option<UserRole>, own: bool, op: Op) -> (applies: bool)
    ensures
        applies == spec_rule_applies(*rule, role, own, op),
{
    let role_ok = match rule.role {
        RoleSelector::AnyRole => true,
        RoleSelector::Is(required) => match role {
            Some(actual) => actual == required,
            None => false,
        },
    };
    let target_ok = match rule.target {
        TargetSelector::AnyTarget => true,
        TargetSelector::OwnRecord => own,
        TargetSelector::ForeignRecord => !own,
    };
    let op_ok = match rule.op {
        OpSelector::AnyOp => true,
        OpSelector::Exactly(required) => op == required,
    };
    role_ok && target_ok && op_ok
}

/// Walk the table in order and return the decision of the first rule that
/// covers the caller; deny when none does.
pub fn evaluate(role: Option<UserRole>, own: bool, op: Op) -> (decision: AuthDecision)
    ensures
        decision == spec_decision(role, own, op),
        decision is Allow <==> spec_allowed(role, own, op),
{
    let table = rules();
    let mut i: usize = 0;
    proof {
        assert(table@.skip(0) =~= table@);
    }
    while i < table.len()
        invariant
            i <= table@.len(),
            table@ == spec_rules(),
            spec_first_match(table@.skip(i as int), role, own, op) == spec_decision(role, own, op),
        decreases table@.len() - i,
    {
        let applies = rule_applies(&table[i], role, own, op);
        proof {
            assert(table@.skip(i as int)[0] == table@[i as int]);
            assert(table@.skip(i as int).drop_first() =~= table@.skip(i as int + 1));
        }
        if applies {
            proof {
                lemma_decision_closed_form(role, own, op);
            }
            return table[i].decision;
        }
        i += 1;
    }
    proof {
        assert(table@.skip(i as int) =~= Seq::<Rule>::empty());
        lemma_decision_closed_form(role, own, op);
    }
    AuthDecision::Deny
}

/// The authorization policy over verified claims: the caller named by
/// `claims` asks to perform `op` on the record owned by `target_id`.
pub fn policy(claims: &Claims, target_id: &str, op: Op) -> (decision: AuthDecision)
    ensures
        decision == spec_decision(role_of(claims.role@), claims.sub@ == target_id@, op),
        decision is Allow <==> spec_allowed(role_of(claims.role@), claims.sub@ == target_id@, op),
{
    let role = parse_role(claims.role.as_str());
    let own = str_eq(claims.sub.as_str(), target_id);
    evaluate(role, own, op)
}

} // verus!
