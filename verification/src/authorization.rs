//! The authorization gate: granting or denying a requested operation from a
//! user's resolved scopes and organization membership.
//!
//! Resolution order: the user's global roles are resolved first; if they do
//! not grant the required scope and the resource belongs to an organization,
//! the user's roles in that organization are resolved and checked. A request
//! without a user, and a scope-gated check without roles granting it, are
//! denied — never an error. A private resource owned by an organization is
//! stricter: the requester must satisfy the organization-scoped check even
//! if a global check would have passed, so the caller must hand over the
//! resource's current privacy flag and owning organization on every request.

use vstd::prelude::*;
use crate::errors::AuthError;
use crate::scopes::{grants, string_views, Scopes};

verus! {

/// A user's roles within one organization.
#[derive(Debug)]
pub struct OrganizationMembership {
    pub organization_id: u128,
    pub roles: Vec<String>,
}

/// The authenticated user a request carries: the global roles and the
/// per-organization roles the request context resolved for it.
#[derive(Debug)]
pub struct AuthUser {
    pub id: u128,
    pub global_roles: Vec<String>,
    pub memberships: Vec<OrganizationMembership>,
}

/// What the authorization check needs to know of the resource an operation touches: its
/// owning organization, if any, and whether it is private.
#[derive(Clone, Copy, PartialEq, Eq, Structural, Debug)]
pub struct ResourceContext {
    pub organization_id: Option<u128>,
    pub is_private: bool,
}

/// Whether some membership names the organization.
pub open spec fn has_org(ms: Seq<OrganizationMembership>, org: u128) -> bool {
    exists|i: int| 0 <= i < ms.len() && (#[trigger] ms[i]).organization_id == org
}

/// The index of the membership naming the organization; meaningful when
/// organization ids are unique and the organization is present.
pub open spec fn org_idx_of(ms: Seq<OrganizationMembership>, org: u128) -> int {
    choose|i: int| 0 <= i < ms.len() && (#[trigger] ms[i]).organization_id == org
}

/// All membership organization ids are distinct.
pub open spec fn org_ids_unique(ms: Seq<OrganizationMembership>) -> bool {
    forall|i: int, j: int|
        0 <= i < j < ms.len() ==> (#[trigger] ms[i]).organization_id != (
        #[trigger] ms[j]).organization_id
}

/// With unique organization ids, any index found to name the organization
/// is the index `org_idx_of` denotes.
pub proof fn lemma_org_idx_of_unique(ms: Seq<OrganizationMembership>, org: u128, i: int)
    requires
        org_ids_unique(ms),
        0 <= i < ms.len(),
        ms[i].organization_id == org,
    ensures
        org_idx_of(ms, org) == i,
        has_org(ms, org),
{
    assert(has_org(ms, org));
    let j = org_idx_of(ms, org);
    if i < j {
        assert(ms[i].organization_id != ms[j].organization_id);
    } else if j < i {
        assert(ms[j].organization_id != ms[i].organization_id);
    }
}

impl AuthUser {
    /// Each organization appears in at most one membership.
    pub open spec fn wf(self) -> bool {
        org_ids_unique(self.memberships@)
    }

    /// The user's roles within the organization; none when the user is not
    /// a member.
    pub open spec fn spec_org_roles(self, org: u128) -> Seq<Seq<char>> {
        if has_org(self.memberships@, org) {
            string_views(self.memberships@[org_idx_of(self.memberships@, org)].roles@)
        } else {
            Seq::empty()
        }
    }

    /// Whether the user's global roles grant the scope.
    pub open spec fn spec_global_grants(self, scope: Scopes) -> bool {
        grants(string_views(self.global_roles@), scope)
    }

    /// Whether the user's roles within the organization grant the scope.
    pub open spec fn spec_org_grants(self, org: u128, scope: Scopes) -> bool {
        grants(self.spec_org_roles(org), scope)
    }

    /// The resolution order of authorization: the global roles first; then, when
    /// an organization is given, the roles within it; deny otherwise.
    pub open spec fn spec_has_scope(self, scope: Scopes, organization_id: Option<u128>) -> bool {
        self.spec_global_grants(scope) || match organization_id {
            Some(org) => self.spec_org_grants(org, scope),
            None => false,
        }
    }

    /// Whether the user's roles within the organization grant the scope.
    pub fn org_grants(&self, organization_id: u128, scope: Scopes) -> (r: bool)
        requires
            self.wf(),
        ensures
            r == self.spec_org_grants(organization_id, scope),
    {
        let mut i: usize = 0;
        while i < self.memberships.len()
            invariant
                self.wf(),
                0 <= i <= self.memberships@.len(),
                forall|j: int|
                    0 <= j < i ==> (#[trigger] self.memberships@[j]).organization_id
                        != organization_id,
            decreases self.memberships@.len() - i,
        {
            if self.memberships[i].organization_id == organization_id {
                proof {
                    lemma_org_idx_of_unique(self.memberships@, organization_id, i as int);
                }
                return crate::scopes::roles_grant(&self.memberships[i].roles, scope);
            }
            i = i + 1;
        }
        false
    }

    /// Whether the user holds the scope: globally, or — when an organization
    /// is given — within that organization.
    pub fn has_scope(&self, scope: Scopes, organization_id: Option<u128>) -> (r: bool)
        requires
            self.wf(),
        ensures
            r == self.spec_has_scope(scope, organization_id),
    {
        if crate::scopes::roles_grant(&self.global_roles, scope) {
            return true;
        }
        match organization_id {
            Some(org) => self.org_grants(org, scope),
            None => false,
        }
    }

    /// Demands the scope globally; denies with the uniform authorization
    /// error otherwise.
    pub fn requires_scope(&self, scope: Scopes) -> (r: Result<(), AuthError>)
        requires
            self.wf(),
        ensures
            r is Ok <==> self.spec_global_grants(scope),
    {
        if crate::scopes::roles_grant(&self.global_roles, scope) {
            Ok(())
        } else {
            Err(AuthError { reason: "Unauthorized".to_owned() })
        }
    }

    /// Demands the scope globally or within the organization; denies with
    /// the uniform authorization error otherwise.
    pub fn requires_scope_for_organization(&self, scope: Scopes, organization_id: u128) -> (r:
        Result<(), AuthError>)
        requires
            self.wf(),
        ensures
            r is Ok <==> self.spec_has_scope(scope, Some(organization_id)),
    {
        if self.has_scope(scope, Some(organization_id)) {
            Ok(())
        } else {
            Err(AuthError { reason: "Unauthorized".to_owned() })
        }
    }
}

/// The authorization rule. A request without a user is denied. Without a resource
/// context only the global roles are consulted. A resource owned by an
/// organization admits either the global or the organization-scoped check —
/// unless it is private, in which case only the organization-scoped check
/// counts, even for holders of global scopes.
pub open spec fn spec_authorize(
    user: Option<AuthUser>,
    scope: Scopes,
    resource: Option<ResourceContext>,
) -> bool {
    match user {
        None => false,
        Some(u) => match resource {
            None => u.spec_global_grants(scope),
            Some(res) => match res.organization_id {
                Some(org) => if res.is_private {
                    u.spec_org_grants(org, scope)
                } else {
                    u.spec_has_scope(scope, Some(org))
                },
                None => u.spec_global_grants(scope),
            },
        },
    }
}

/// The resource context behind an optional reference.
pub open spec fn resource_value(resource: Option<&ResourceContext>) -> Option<ResourceContext> {
    match resource {
        None => None,
        Some(res) => Some(*res),
    }
}

/// Grants or denies the requested scope for the resource, by the authorization
/// resolution order. Read-only: denial is an answer, not an error.
pub fn authorize(user: Option<&AuthUser>, scope: Scopes, resource: Option<&ResourceContext>) -> (r:
    bool)
    requires
        user matches Some(u) ==> u.wf(),
    ensures
        user is None ==> r == false,
        user matches Some(u) ==> r == spec_authorize(Some(*u), scope, resource_value(resource)),
{
    match user {
        None => false,
        Some(u) => match resource {
            None => crate::scopes::roles_grant(&u.global_roles, scope),
            Some(res) => match res.organization_id {
                Some(org) => {
                    if res.is_private {
                        u.org_grants(org, scope)
                    } else {
                        u.has_scope(scope, Some(org))
                    }
                },
                None => crate::scopes::roles_grant(&u.global_roles, scope),
            },
        },
    }
}

} // verus!
