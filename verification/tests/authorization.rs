use bigneon_core::authorization::{
    authorize, AuthUser, OrganizationMembership, ResourceContext,
};
use bigneon_core::scopes::Scopes;

fn user_without_roles() -> AuthUser {
    AuthUser {
        id: 1,
        global_roles: Vec::new(),
        memberships: Vec::new(),
    }
}

fn org_owner_of(organization_id: u128) -> AuthUser {
    AuthUser {
        id: 2,
        global_roles: Vec::new(),
        memberships: vec![OrganizationMembership {
            organization_id,
            roles: vec!["OrgOwner".to_string()],
        }],
    }
}

fn global_admin() -> AuthUser {
    AuthUser {
        id: 3,
        global_roles: vec!["Admin".to_string()],
        memberships: Vec::new(),
    }
}

#[test]
fn write_scope_denied_without_roles_and_context() {
    let user = user_without_roles();
    assert!(!authorize(Some(&user), Scopes::EventWrite, None));
    assert!(!authorize(None, Scopes::EventWrite, None));
}

#[test]
fn org_owner_granted_in_owning_organization() {
    let user = org_owner_of(50);
    let resource = ResourceContext {
        organization_id: Some(50),
        is_private: false,
    };
    assert!(authorize(Some(&user), Scopes::EventWrite, Some(&resource)));
    // The same user holds nothing in another organization.
    let other = ResourceContext {
        organization_id: Some(51),
        is_private: false,
    };
    assert!(!authorize(Some(&user), Scopes::EventWrite, Some(&other)));
    // And nothing globally.
    assert!(!authorize(Some(&user), Scopes::EventWrite, None));
}

#[test]
fn global_scopes_cover_public_resources() {
    let user = global_admin();
    assert!(authorize(Some(&user), Scopes::EventWrite, None));
    let resource = ResourceContext {
        organization_id: Some(50),
        is_private: false,
    };
    assert!(authorize(Some(&user), Scopes::EventWrite, Some(&resource)));
}

#[test]
fn private_resources_demand_the_organization_scope() {
    // A private resource requires the organization-scoped check even of a
    // holder of global scopes.
    let admin = global_admin();
    let private_resource = ResourceContext {
        organization_id: Some(50),
        is_private: true,
    };
    assert!(!authorize(Some(&admin), Scopes::EventWrite, Some(&private_resource)));

    let owner = org_owner_of(50);
    assert!(authorize(Some(&owner), Scopes::EventWrite, Some(&private_resource)));

    // A private resource without an owning organization falls back to the
    // global check.
    let orphan = ResourceContext {
        organization_id: None,
        is_private: true,
    };
    assert!(authorize(Some(&admin), Scopes::EventWrite, Some(&orphan)));
    assert!(!authorize(Some(&owner), Scopes::EventWrite, Some(&orphan)));
}

#[test]
fn org_member_scopes_stop_at_member_level() {
    let member = AuthUser {
        id: 4,
        global_roles: Vec::new(),
        memberships: vec![OrganizationMembership {
            organization_id: 50,
            roles: vec!["OrgMember".to_string()],
        }],
    };
    // Members hold event:write but not org:write in their organization.
    assert!(member.has_scope(Scopes::EventWrite, Some(50)));
    assert!(!member.has_scope(Scopes::OrgWrite, Some(50)));
    let owner = org_owner_of(50);
    assert!(owner.has_scope(Scopes::OrgWrite, Some(50)));
}

#[test]
fn requires_scope_denies_uniformly() {
    let user = user_without_roles();
    assert!(user.requires_scope(Scopes::OrgWrite).is_err());
    let admin = global_admin();
    assert!(admin.requires_scope(Scopes::OrgWrite).is_ok());
    let owner = org_owner_of(50);
    assert!(owner
        .requires_scope_for_organization(Scopes::OrgWrite, 50)
        .is_ok());
    assert!(owner
        .requires_scope_for_organization(Scopes::OrgWrite, 51)
        .is_err());
}

#[test]
fn unknown_roles_deny_scope_gated_operations() {
    let user = AuthUser {
        id: 5,
        global_roles: vec!["Superuser".to_string()],
        memberships: Vec::new(),
    };
    assert!(!authorize(Some(&user), Scopes::EventWrite, None));
    assert!(!authorize(Some(&user), Scopes::EventInterest, None));
}
