//! Organization invites: the decisions taken when an invited user responds.
//!
//! The store lookups, the mail and the HTTP replies stay outside; the
//! library decides, from the invite and the responding user, what the
//! request is allowed to do.

use vstd::prelude::*;

verus! {

/// What a response to an invite leads to.
#[derive(Clone, Copy, PartialEq, Eq, Structural, Debug)]
pub enum InviteAction {
    /// The invite was addressed to a known user and someone else responded:
    /// deny uniformly.
    Unauthorized,
    /// The intended recipient declined: nothing changes.
    DeclinedNoop,
    /// The intended recipient accepted: link the user to the organization.
    AcceptCreateOrganizationUser { organization_id: u128, user_id: u128 },
}

/// Whether the invite was issued for a known user other than the one
/// responding.
pub open spec fn mismatched_recipient(invite_user_id: Option<u128>, responding_user_id: u128) -> bool {
    match invite_user_id {
        Some(u) => u != responding_user_id,
        None => false,
    }
}

/// Decides a response to an invite. When the invite names the user it was
/// issued for, only that user may respond; an invite issued for an address
/// without a known user is open to whoever presents its token. Accepting
/// creates the organization link for the responding user; declining changes
/// nothing.
pub fn process_invite_response(
    invite_user_id: Option<u128>,
    responding_user_id: u128,
    organization_id: u128,
    accept: bool,
) -> (r: InviteAction)
    ensures
        mismatched_recipient(invite_user_id, responding_user_id) <==> r is Unauthorized,
        (!mismatched_recipient(invite_user_id, responding_user_id) && !accept) <==> r
            is DeclinedNoop,
        (!mismatched_recipient(invite_user_id, responding_user_id) && accept) <==> (r matches
            InviteAction::AcceptCreateOrganizationUser { organization_id: o, user_id: us } && o
            == organization_id && us == responding_user_id),
{
    match invite_user_id {
        Some(intended) if intended != responding_user_id => InviteAction::Unauthorized,
        _ => {
            if accept {
                InviteAction::AcceptCreateOrganizationUser {
                    organization_id,
                    user_id: responding_user_id,
                }
            } else {
                InviteAction::DeclinedNoop
            }
        },
    }
}

/// The recipient name an invite mail is addressed to: the full name found
/// for the invited user, or a placeholder when none is known.
pub fn invite_recipient_name(found_full_name: Option<String>) -> (r: String)
    ensures
        found_full_name matches Some(n) ==> r@ == n@,
        found_full_name is None ==> r@ == "New user"@,
{
    match found_full_name {
        Some(name) => name,
        None => "New user".to_owned(),
    }
}

} // verus!
