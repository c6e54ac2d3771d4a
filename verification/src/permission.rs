//! The permission evaluator: the role/ownership gate applied before any
//! mutation. Pure functions with no side effects.

use vstd::prelude::*;

use crate::roles::RoleType;

verus! {

/// The ownership rule: an actor may touch a resource exactly when the actor
/// is a super administrator or owns the resource.
pub open spec fn allowed(actor: u128, role: RoleType, owner: u128) -> bool {
    role == RoleType::SuperAdmin || actor == owner
}

/// Decide the self-or-super-administrator gate for a resource owned by
/// `owner`.
pub fn authorize(actor: u128, role: RoleType, owner: u128) -> (r: bool)
    ensures
        r == allowed(actor, role, owner),
{
    role == RoleType::SuperAdmin || actor == owner
}

/// Decide the stricter gate used for teacher creation and deletion: only a
/// super administrator passes, whoever owns the resource.
pub fn require_super_admin(role: RoleType) -> (r: bool)
    ensures
        r == (role == RoleType::SuperAdmin),
{
    role == RoleType::SuperAdmin
}

/// A super administrator is allowed to act on every resource; an ordinary
/// administrator is allowed exactly on resources they own.
pub proof fn lemma_authorize_rules(actor: u128, owner: u128)
    ensures
        allowed(actor, RoleType::SuperAdmin, owner),
        allowed(actor, RoleType::Admin, owner) <==> actor == owner,
{
}

} // verus!
