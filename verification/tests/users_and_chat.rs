use bigneon_core::authorization::{AuthUser, OrganizationMembership};
use bigneon_core::chat_workflow::{
    available_response_types, remaining_response_types, response_valid, ChatWorkflowItemType,
    ChatWorkflowResponseType,
};
use bigneon_core::users::current_user_from_user;

#[test]
fn current_user_reports_scopes_per_organization() {
    let user = AuthUser {
        id: 9,
        global_roles: vec!["User".to_string()],
        memberships: vec![
            OrganizationMembership {
                organization_id: 50,
                roles: vec!["OrgOwner".to_string()],
            },
            OrganizationMembership {
                organization_id: 51,
                roles: vec!["OrgMember".to_string()],
            },
        ],
    };
    let current = current_user_from_user(&user);
    assert_eq!(current.user_id, 9);
    assert_eq!(current.roles, vec!["User".to_string()]);
    assert_eq!(current.scopes, vec!["event:interest".to_string()]);
    assert_eq!(current.organization_roles.len(), 2);
    assert_eq!(current.organization_roles[0].organization_id, 50);
    assert_eq!(current.organization_roles[0].roles, vec!["OrgOwner".to_string()]);
    assert_eq!(current.organization_scopes.len(), 2);
    assert_eq!(current.organization_scopes[0].organization_id, 50);
    assert_eq!(
        current.organization_scopes[0].scopes,
        vec![
            "artist:write",
            "event:interest",
            "event:write",
            "org:read",
            "org:write",
            "ticket:admin",
            "user:read",
            "venue:write",
        ]
    );
    assert_eq!(current.organization_scopes[1].organization_id, 51);
    assert_eq!(
        current.organization_scopes[1].scopes,
        vec![
            "artist:write",
            "event:interest",
            "event:write",
            "org:read",
            "ticket:admin",
            "venue:write",
        ]
    );
}

#[test]
fn response_types_per_item_type() {
    assert_eq!(
        available_response_types(ChatWorkflowItemType::Question),
        vec![ChatWorkflowResponseType::Answer]
    );
    assert_eq!(
        available_response_types(ChatWorkflowItemType::Render),
        vec![ChatWorkflowResponseType::Noop]
    );
    assert_eq!(
        available_response_types(ChatWorkflowItemType::Message),
        vec![ChatWorkflowResponseType::Noop]
    );
    assert_eq!(
        available_response_types(ChatWorkflowItemType::Done),
        Vec::new()
    );
}

#[test]
fn answers_may_repeat_other_responses_may_not() {
    // A question keeps accepting answers however many are attached.
    let existing = vec![ChatWorkflowResponseType::Answer];
    assert_eq!(
        remaining_response_types(ChatWorkflowItemType::Question, &existing),
        vec![ChatWorkflowResponseType::Answer]
    );
    // A message accepts its no-op acknowledgement only once.
    let none_attached = Vec::new();
    assert_eq!(
        remaining_response_types(ChatWorkflowItemType::Message, &none_attached),
        vec![ChatWorkflowResponseType::Noop]
    );
    let attached = vec![ChatWorkflowResponseType::Noop];
    assert_eq!(
        remaining_response_types(ChatWorkflowItemType::Message, &attached),
        Vec::new()
    );
}

#[test]
fn responses_are_valid_only_for_attached_types() {
    let attached = vec![ChatWorkflowResponseType::Noop];
    assert!(response_valid(&attached, ChatWorkflowResponseType::Noop));
    assert!(!response_valid(&attached, ChatWorkflowResponseType::Answer));
}
