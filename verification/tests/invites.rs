use bigneon_core::invites::{invite_recipient_name, process_invite_response, InviteAction};

#[test]
fn invite_for_another_user_is_unauthorized() {
    let action = process_invite_response(Some(7), 8, 50, true);
    assert_eq!(action, InviteAction::Unauthorized);
    let action = process_invite_response(Some(7), 8, 50, false);
    assert_eq!(action, InviteAction::Unauthorized);
}

#[test]
fn intended_recipient_accepting_creates_the_link() {
    let action = process_invite_response(Some(8), 8, 50, true);
    assert_eq!(
        action,
        InviteAction::AcceptCreateOrganizationUser {
            organization_id: 50,
            user_id: 8,
        }
    );
    // An invite issued for an unknown address is open to whoever presents
    // its token.
    let action = process_invite_response(None, 9, 50, true);
    assert_eq!(
        action,
        InviteAction::AcceptCreateOrganizationUser {
            organization_id: 50,
            user_id: 9,
        }
    );
}

#[test]
fn declining_changes_nothing() {
    let action = process_invite_response(Some(8), 8, 50, false);
    assert_eq!(action, InviteAction::DeclinedNoop);
    let action = process_invite_response(None, 9, 50, false);
    assert_eq!(action, InviteAction::DeclinedNoop);
}

#[test]
fn recipient_name_falls_back_to_placeholder() {
    assert_eq!(
        invite_recipient_name(Some("Jo Smith".to_string())),
        "Jo Smith"
    );
    assert_eq!(invite_recipient_name(None), "New user");
}
