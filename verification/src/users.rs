//! The current-user view: a user's roles and the scopes they resolve to,
//! globally and within each organization.

use vstd::prelude::*;
use crate::authorization::{AuthUser, OrganizationMembership};
use crate::scopes::{get_scopes, resolved_names, string_views};

verus! {

/// The resolved scopes of one organization.
#[derive(Debug)]
pub struct OrganizationScopes {
    pub organization_id: u128,
    pub scopes: Vec<String>,
}

/// What a user sees of itself: its roles, and the scope names they resolve
/// to, globally and per organization.
#[derive(Debug)]
pub struct CurrentUser {
    pub user_id: u128,
    pub roles: Vec<String>,
    pub scopes: Vec<String>,
    pub organization_roles: Vec<OrganizationMembership>,
    pub organization_scopes: Vec<OrganizationScopes>,
}

/// A copy of a role list with the same names.
fn clone_roles(v: &Vec<String>) -> (r: Vec<String>)
    ensures
        string_views(r@) == string_views(v@),
        r@.len() == v@.len(),
{
    let mut out: Vec<String> = Vec::new();
    let mut i: usize = 0;
    while i < v.len()
        invariant
            0 <= i <= v@.len(),
            out@.len() == i,
            forall|j: int| 0 <= j < i ==> (#[trigger] out@[j])@ == v@[j]@,
        decreases v@.len() - i,
    {
        let s = &v[i];
        let copied: String = s.clone();
        out.push(copied);
        i = i + 1;
    }
    proof {
        assert(string_views(out@) =~= string_views(v@));
    }
    out
}

/// The scope names a user's global roles resolve to.
pub fn get_global_scopes(user: &AuthUser) -> (r: Vec<String>)
    ensures
        string_views(r@) == resolved_names(string_views(user.global_roles@)),
{
    get_scopes(clone_roles(&user.global_roles))
}

/// Builds the current-user view: the global roles and their resolved scope
/// names, and for each organization membership the roles and their resolved
/// scope names.
pub fn current_user_from_user(user: &AuthUser) -> (r: CurrentUser)
    ensures
        r.user_id == user.id,
        string_views(r.roles@) == string_views(user.global_roles@),
        string_views(r.scopes@) == resolved_names(string_views(user.global_roles@)),
        r.organization_roles@.len() == user.memberships@.len(),
        forall|k: int|
            0 <= k < user.memberships@.len() ==> (
            #[trigger] r.organization_roles@[k]).organization_id
                == user.memberships@[k].organization_id && string_views(
                r.organization_roles@[k].roles@,
            ) == string_views(user.memberships@[k].roles@),
        r.organization_scopes@.len() == user.memberships@.len(),
        forall|k: int|
            0 <= k < user.memberships@.len() ==> (
            #[trigger] r.organization_scopes@[k]).organization_id
                == user.memberships@[k].organization_id && string_views(
                r.organization_scopes@[k].scopes@,
            ) == resolved_names(string_views(user.memberships@[k].roles@)),
{
    let roles = clone_roles(&user.global_roles);
    let scopes = get_scopes(clone_roles(&user.global_roles));
    let mut organization_roles: Vec<OrganizationMembership> = Vec::new();
    let mut organization_scopes: Vec<OrganizationScopes> = Vec::new();
    let mut i: usize = 0;
    while i < user.memberships.len()
        invariant
            0 <= i <= user.memberships@.len(),
            organization_roles@.len() == i,
            forall|k: int|
                0 <= k < i ==> (#[trigger] organization_roles@[k]).organization_id
                    == user.memberships@[k].organization_id && string_views(
                    organization_roles@[k].roles@,
                ) == string_views(user.memberships@[k].roles@),
            organization_scopes@.len() == i,
            forall|k: int|
                0 <= k < i ==> (#[trigger] organization_scopes@[k]).organization_id
                    == user.memberships@[k].organization_id && string_views(
                    organization_scopes@[k].scopes@,
                ) == resolved_names(string_views(user.memberships@[k].roles@)),
        decreases user.memberships@.len() - i,
    {
        let membership = &user.memberships[i];
        organization_roles.push(
            OrganizationMembership {
                organization_id: membership.organization_id,
                roles: clone_roles(&membership.roles),
            },
        );
        organization_scopes.push(
            OrganizationScopes {
                organization_id: membership.organization_id,
                scopes: get_scopes(clone_roles(&membership.roles)),
            },
        );
        i = i + 1;
    }
    CurrentUser {
        user_id: user.id,
        roles,
        scopes,
        organization_roles,
        organization_scopes,
    }
}

} // verus!
