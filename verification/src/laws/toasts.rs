//! What users are told of an action.

use vstd::prelude::*;
use crate::json;
use crate::laws::markup;
use crate::toast;
use crate::toast::{ToastKind, ToastText};

verus! {

/// Whether an action is told in these words.
pub open spec fn told(
    action: Seq<char>,
    name: Seq<char>,
    kind: ToastKind,
    title: Seq<char>,
    message: Seq<char>,
) -> bool {
    toast::action_toast(action, name) == Some(ToastText { kind, title, message })
}

/// Whether a failure is told in these words.
pub open spec fn blamed(code: Seq<char>, message: Seq<char>) -> bool {
    toast::error_toast(code) == (ToastText {
        kind: ToastKind::Error,
        title: "Action failed"@,
        message,
    })
}

/// The tokens of the actions differ.
proof fn lemma_actions_differ()
    ensures
        "deactivated"@.len() == 11,
        "invite_revoked"@.len() == 14,
        "invitation_reissued"@.len() == 19,
        "pending_deactivate"@.len() == 18,
        "pending_role_change"@.len() == 19,
        "reactivated"@.len() == 11,
        "role_changed"@.len() == 12,
        "vetoed"@.len() == 6,
        "anonymized"@.len() == 10,
        "deleted"@.len() == 7,
        "pending_anonymize"@.len() == 17,
        "pending_delete"@.len() == 14,
        "profile_updated"@.len() == 15,
        "email_updated"@.len() == 13,
        "email_unchanged"@.len() == 15,
        "password_changed"@.len() == 16,
        "app_enabled"@.len() == 11,
        "app_disabled"@.len() == 12,
        "app_uninstalled"@.len() == 15,
        "resource_deleted"@.len() == 16,
        "publisher_added"@.len() == 15,
        "publisher_removed"@.len() == 17,
        "deactivated"@[0] != "reactivated"@[0],
        "deactivated"@[0] != "app_enabled"@[0],
        "invite_revoked"@[0] != "pending_delete"@[0],
        "invitation_reissued"@[0] != "pending_role_change"@[0],
        "reactivated"@[0] != "app_enabled"@[0],
        "role_changed"@[0] != "app_disabled"@[0],
        "pending_anonymize"@[1] != "publisher_removed"@[1],
        "profile_updated"@[0] != "email_unchanged"@[0],
        "profile_updated"@[0] != "app_uninstalled"@[0],
        "profile_updated"@[1] != "publisher_added"@[1],
        "email_unchanged"@[0] != "app_uninstalled"@[0],
        "email_unchanged"@[0] != "publisher_added"@[0],
        "password_changed"@[0] != "resource_deleted"@[0],
        "app_uninstalled"@[0] != "publisher_added"@[0],
{
    reveal_strlit("deactivated");
    reveal_strlit("invite_revoked");
    reveal_strlit("invitation_reissued");
    reveal_strlit("pending_deactivate");
    reveal_strlit("pending_role_change");
    reveal_strlit("reactivated");
    reveal_strlit("role_changed");
    reveal_strlit("vetoed");
    reveal_strlit("anonymized");
    reveal_strlit("deleted");
    reveal_strlit("pending_anonymize");
    reveal_strlit("pending_delete");
    reveal_strlit("profile_updated");
    reveal_strlit("email_updated");
    reveal_strlit("email_unchanged");
    reveal_strlit("password_changed");
    reveal_strlit("app_enabled");
    reveal_strlit("app_disabled");
    reveal_strlit("app_uninstalled");
    reveal_strlit("resource_deleted");
    reveal_strlit("publisher_added");
    reveal_strlit("publisher_removed");
    assert("deactivated"@.len() == 11);
    assert("invite_revoked"@.len() == 14);
    assert("invitation_reissued"@.len() == 19);
    assert("pending_deactivate"@.len() == 18);
    assert("pending_role_change"@.len() == 19);
    assert("reactivated"@.len() == 11);
    assert("role_changed"@.len() == 12);
    assert("vetoed"@.len() == 6);
    assert("anonymized"@.len() == 10);
    assert("deleted"@.len() == 7);
    assert("pending_anonymize"@.len() == 17);
    assert("pending_delete"@.len() == 14);
    assert("profile_updated"@.len() == 15);
    assert("email_updated"@.len() == 13);
    assert("email_unchanged"@.len() == 15);
    assert("password_changed"@.len() == 16);
    assert("app_enabled"@.len() == 11);
    assert("app_disabled"@.len() == 12);
    assert("app_uninstalled"@.len() == 15);
    assert("resource_deleted"@.len() == 16);
    assert("publisher_added"@.len() == 15);
    assert("publisher_removed"@.len() == 17);
    assert("deactivated"@[0] != "reactivated"@[0]);
    assert("deactivated"@[0] != "app_enabled"@[0]);
    assert("invite_revoked"@[0] != "pending_delete"@[0]);
    assert("invitation_reissued"@[0] != "pending_role_change"@[0]);
    assert("reactivated"@[0] != "app_enabled"@[0]);
    assert("role_changed"@[0] != "app_disabled"@[0]);
    assert("pending_anonymize"@[1] != "publisher_removed"@[1]);
    assert("profile_updated"@[0] != "email_unchanged"@[0]);
    assert("profile_updated"@[0] != "app_uninstalled"@[0]);
    assert("profile_updated"@[1] != "publisher_added"@[1]);
    assert("email_unchanged"@[0] != "app_uninstalled"@[0]);
    assert("email_unchanged"@[0] != "publisher_added"@[0]);
    assert("password_changed"@[0] != "resource_deleted"@[0]);
    assert("app_uninstalled"@[0] != "publisher_added"@[0]);
}

/// What was done to a member is told with the name of the member, and of what became of them.
pub proof fn law_members_are_told(name: Seq<char>)
    ensures
        told(
            "deactivated"@,
            name,
            ToastKind::Info,
            "Deactivated"@,
            name + " can no longer sign in."@,
        ),
        told(
            "reactivated"@,
            name,
            ToastKind::Success,
            "Reactivated"@,
            name + " can sign in again."@,
        ),
        told(
            "role_changed"@,
            name,
            ToastKind::Success,
            "Role updated"@,
            name + "'s role has been updated."@,
        ),
        told(
            "anonymized"@,
            name,
            ToastKind::Error,
            "Account anonymized"@,
            name + "'s identity has been scrubbed."@,
        ),
        told(
            "deleted"@,
            name,
            ToastKind::Error,
            "Account deleted"@,
            name + "'s account has been fully removed."@,
        ),
{
    lemma_actions_differ();
}

/// An action that waits for its veto window is told as such, with what was asked for; a veto as the end
/// of it.
pub proof fn law_waiting_actions_are_told(name: Seq<char>)
    ensures
        told(
            "pending_deactivate"@,
            name,
            ToastKind::Info,
            "Awaiting review"@,
            "A 72-hour veto window has begun for the requested deactivation."@,
        ),
        told(
            "pending_role_change"@,
            name,
            ToastKind::Info,
            "Awaiting review"@,
            "A 72-hour veto window has begun for the requested role change."@,
        ),
        told(
            "pending_anonymize"@,
            name,
            ToastKind::Error,
            "Awaiting review"@,
            "A 72-hour veto window has begun for the requested anonymization."@,
        ),
        told(
            "pending_delete"@,
            name,
            ToastKind::Error,
            "Awaiting review"@,
            "A 72-hour veto window has begun for the requested deletion."@,
        ),
        told(
            "vetoed"@,
            name,
            ToastKind::Success,
            "Action vetoed"@,
            "The pending action was cancelled."@,
        ),
{
    lemma_actions_differ();
}

/// What was done to an invitation is told.
pub proof fn law_invitations_are_told(name: Seq<char>)
    ensures
        told(
            "invite_revoked"@,
            name,
            ToastKind::Info,
            "Invitation revoked"@,
            "The pending invitation was revoked."@,
        ),
        told(
            "invitation_reissued"@,
            name,
            ToastKind::Info,
            "Invitation reissued"@,
            "A fresh acceptance URL was generated."@,
        ),
{
    lemma_actions_differ();
}

/// What users changed of their own account is told to them.
pub proof fn law_own_changes_are_told(name: Seq<char>)
    ensures
        told(
            "profile_updated"@,
            name,
            ToastKind::Success,
            "Profile updated"@,
            "Your display name has been saved."@,
        ),
        told(
            "email_updated"@,
            name,
            ToastKind::Success,
            "Email updated"@,
            "Sign-in will use the new address from now on."@,
        ),
        told(
            "email_unchanged"@,
            name,
            ToastKind::Info,
            "Nothing to update"@,
            "That's already your email."@,
        ),
        told(
            "password_changed"@,
            name,
            ToastKind::Success,
            "Password changed"@,
            "Your password has been updated. Other devices were signed out."@,
        ),
{
    lemma_actions_differ();
}

/// What was done to an app or a publisher is told with its name.
pub proof fn law_apps_are_told(name: Seq<char>)
    ensures
        told(
            "app_enabled"@,
            name,
            ToastKind::Success,
            "App enabled"@,
            name + " can create and modify resources again."@,
        ),
        told(
            "app_disabled"@,
            name,
            ToastKind::Info,
            "App disabled"@,
            name + " can no longer create or modify resources. Its data is kept."@,
        ),
        told(
            "app_uninstalled"@,
            name,
            ToastKind::Error,
            "App uninstalled"@,
            name + " and all of its stored data have been removed."@,
        ),
        told(
            "resource_deleted"@,
            name,
            ToastKind::Error,
            "Resource deleted"@,
            "The resource was permanently removed."@,
        ),
        told(
            "publisher_added"@,
            name,
            ToastKind::Success,
            "Publisher added"@,
            name + " can now sign app registrations."@,
        ),
        told(
            "publisher_removed"@,
            name,
            ToastKind::Info,
            "Publisher removed"@,
            name + " can no longer sign new app registrations."@,
        ),
{
    lemma_actions_differ();
}

/// The codes of the failures differ.
proof fn lemma_codes_differ()
    ensures
        "cannot_target_self"@.len() == 18,
        "cannot_target_peer_or_higher"@.len() == 28,
        "already_deactivated"@.len() == 19,
        "already_active"@.len() == 14,
        "already_in_role"@.len() == 15,
        "user_not_found"@.len() == 14,
        "not_active"@.len() == 10,
        "not_deactivated"@.len() == 15,
        "pending_action_exists"@.len() == 21,
        "forbidden"@.len() == 9,
        "invalid_recovery_code"@.len() == 21,
        "invalid_password"@.len() == 16,
        "email_required"@.len() == 14,
        "new_password_required"@.len() == 21,
        "totp_setup_expired"@.len() == 18,
        "cannot_invite_higher_role"@.len() == 25,
        "email_already_in_use"@.len() == 20,
        "active_invite_exists"@.len() == 20,
        "invite_not_found"@.len() == 16,
        "invite_already_accepted"@.len() == 23,
        "invite_expired"@.len() == 14,
        "transition_not_found"@.len() == 20,
        "not_pending"@.len() == 11,
        "app_not_found"@.len() == 13,
        "resource_not_found"@.len() == 18,
        "publisher_name_required"@.len() == 23,
        "invalid_publisher_key"@.len() == 21,
        "publisher_not_found"@.len() == 19,
        "cannot_target_self"@[0] != "totp_setup_expired"@[0],
        "cannot_target_self"@[0] != "resource_not_found"@[0],
        "already_deactivated"@[0] != "publisher_not_found"@[0],
        "already_active"@[0] != "user_not_found"@[0],
        "already_active"@[0] != "email_required"@[0],
        "already_active"@[0] != "invite_expired"@[0],
        "already_in_role"@[0] != "not_deactivated"@[0],
        "user_not_found"@[0] != "email_required"@[0],
        "user_not_found"@[0] != "invite_expired"@[0],
        "pending_action_exists"@[0] != "invalid_recovery_code"@[0],
        "pending_action_exists"@[0] != "new_password_required"@[0],
        "pending_action_exists"@[0] != "invalid_publisher_key"@[0],
        "invalid_recovery_code"@[0] != "new_password_required"@[0],
        "invalid_recovery_code"@[8] != "invalid_publisher_key"@[8],
        "invalid_password"@[3] != "invite_not_found"@[3],
        "email_required"@[0] != "invite_expired"@[0],
        "new_password_required"@[0] != "invalid_publisher_key"@[0],
        "totp_setup_expired"@[0] != "resource_not_found"@[0],
        "email_already_in_use"@[0] != "active_invite_exists"@[0],
        "email_already_in_use"@[0] != "transition_not_found"@[0],
        "active_invite_exists"@[0] != "transition_not_found"@[0],
        "invite_already_accepted"@[0] != "publisher_name_required"@[0],
{
    reveal_strlit("cannot_target_self");
    reveal_strlit("cannot_target_peer_or_higher");
    reveal_strlit("already_deactivated");
    reveal_strlit("already_active");
    reveal_strlit("already_in_role");
    reveal_strlit("user_not_found");
    reveal_strlit("not_active");
    reveal_strlit("not_deactivated");
    reveal_strlit("pending_action_exists");
    reveal_strlit("forbidden");
    reveal_strlit("invalid_recovery_code");
    reveal_strlit("invalid_password");
    reveal_strlit("email_required");
    reveal_strlit("new_password_required");
    reveal_strlit("totp_setup_expired");
    reveal_strlit("cannot_invite_higher_role");
    reveal_strlit("email_already_in_use");
    reveal_strlit("active_invite_exists");
    reveal_strlit("invite_not_found");
    reveal_strlit("invite_already_accepted");
    reveal_strlit("invite_expired");
    reveal_strlit("transition_not_found");
    reveal_strlit("not_pending");
    reveal_strlit("app_not_found");
    reveal_strlit("resource_not_found");
    reveal_strlit("publisher_name_required");
    reveal_strlit("invalid_publisher_key");
    reveal_strlit("publisher_not_found");
    assert("cannot_target_self"@.len() == 18);
    assert("cannot_target_peer_or_higher"@.len() == 28);
    assert("already_deactivated"@.len() == 19);
    assert("already_active"@.len() == 14);
    assert("already_in_role"@.len() == 15);
    assert("user_not_found"@.len() == 14);
    assert("not_active"@.len() == 10);
    assert("not_deactivated"@.len() == 15);
    assert("pending_action_exists"@.len() == 21);
    assert("forbidden"@.len() == 9);
    assert("invalid_recovery_code"@.len() == 21);
    assert("invalid_password"@.len() == 16);
    assert("email_required"@.len() == 14);
    assert("new_password_required"@.len() == 21);
    assert("totp_setup_expired"@.len() == 18);
    assert("cannot_invite_higher_role"@.len() == 25);
    assert("email_already_in_use"@.len() == 20);
    assert("active_invite_exists"@.len() == 20);
    assert("invite_not_found"@.len() == 16);
    assert("invite_already_accepted"@.len() == 23);
    assert("invite_expired"@.len() == 14);
    assert("transition_not_found"@.len() == 20);
    assert("not_pending"@.len() == 11);
    assert("app_not_found"@.len() == 13);
    assert("resource_not_found"@.len() == 18);
    assert("publisher_name_required"@.len() == 23);
    assert("invalid_publisher_key"@.len() == 21);
    assert("publisher_not_found"@.len() == 19);
    assert("cannot_target_self"@[0] != "totp_setup_expired"@[0]);
    assert("cannot_target_self"@[0] != "resource_not_found"@[0]);
    assert("already_deactivated"@[0] != "publisher_not_found"@[0]);
    assert("already_active"@[0] != "user_not_found"@[0]);
    assert("already_active"@[0] != "email_required"@[0]);
    assert("already_active"@[0] != "invite_expired"@[0]);
    assert("already_in_role"@[0] != "not_deactivated"@[0]);
    assert("user_not_found"@[0] != "email_required"@[0]);
    assert("user_not_found"@[0] != "invite_expired"@[0]);
    assert("pending_action_exists"@[0] != "invalid_recovery_code"@[0]);
    assert("pending_action_exists"@[0] != "new_password_required"@[0]);
    assert("pending_action_exists"@[0] != "invalid_publisher_key"@[0]);
    assert("invalid_recovery_code"@[0] != "new_password_required"@[0]);
    assert("invalid_recovery_code"@[8] != "invalid_publisher_key"@[8]);
    assert("invalid_password"@[3] != "invite_not_found"@[3]);
    assert("email_required"@[0] != "invite_expired"@[0]);
    assert("new_password_required"@[0] != "invalid_publisher_key"@[0]);
    assert("totp_setup_expired"@[0] != "resource_not_found"@[0]);
    assert("email_already_in_use"@[0] != "active_invite_exists"@[0]);
    assert("email_already_in_use"@[0] != "transition_not_found"@[0]);
    assert("active_invite_exists"@[0] != "transition_not_found"@[0]);
    assert("invite_already_accepted"@[0] != "publisher_name_required"@[0]);
}

/// A refused action on a member is told for what it was refused.
pub proof fn law_refusals_about_members_are_told()
    ensures
        blamed("cannot_target_self"@, "You can't target yourself."@),
        blamed("cannot_target_peer_or_higher"@, "You can't target a peer or higher role."@),
        blamed("already_deactivated"@, "That member is already deactivated."@),
        blamed("already_active"@, "That member is already active."@),
        blamed("already_in_role"@, "That member is already in that role."@),
        blamed("user_not_found"@, "Member not found."@),
        blamed("not_active"@, "That member is in pending invite state and can't be acted on."@),
        blamed("not_deactivated"@, "That member isn't deactivated."@),
        blamed("pending_action_exists"@, "An action is already pending against that member."@),
        blamed("forbidden"@, "Only Owners can change roles."@),
        blamed("invalid_recovery_code"@, "Invalid recovery code."@),
{
    lemma_codes_differ();
}

/// A refused form is told for what it was refused.
pub proof fn law_refused_forms_are_told()
    ensures
        blamed("invalid_password"@, "Incorrect password. Please try again."@),
        blamed("email_required"@, "Enter an email address."@),
        blamed("new_password_required"@, "Enter a new password."@),
        blamed("totp_setup_expired"@, "Two-factor setup expired. Start again from Security."@),
        blamed(
            "cannot_invite_higher_role"@,
            "You can't invite someone at a higher role than your own."@,
        ),
        blamed("email_already_in_use"@, "A member with that email already exists."@),
        blamed("active_invite_exists"@, "An open invitation already exists for that email."@),
        blamed("invite_not_found"@, "That invitation no longer exists."@),
        blamed("invite_already_accepted"@, "That invitation was already accepted."@),
        blamed(
            "invite_expired"@,
            "That invitation has expired. Send a new one from the toolbar instead."@,
        ),
{
    lemma_codes_differ();
}

/// What is no longer there, or no longer waits, is told.
pub proof fn law_what_is_gone_is_told()
    ensures
        blamed("transition_not_found"@, "That pending action no longer exists."@),
        blamed(
            "not_pending"@,
            "That action is no longer pending. Another Owner may have just resolved it."@,
        ),
        blamed("app_not_found"@, "That app is no longer registered."@),
        blamed("resource_not_found"@, "That resource no longer exists."@),
        blamed("publisher_name_required"@, "Enter a publisher name."@),
        blamed("invalid_publisher_key"@, "Enter a 64-character hex Ed25519 public key."@),
        blamed("publisher_not_found"@, "That publisher is no longer in the list."@),
{
    lemma_codes_differ();
}

/// A toast goes to the browser as one event, with its kind, its title and its message each under its
/// name.
pub proof fn law_toasts_on_the_wire(shown: ToastText)
    ensures
        ({
            let html = toast::toast_event(shown);
            &&& markup::shows(html, "\"kind\":\""@ + toast::kind_token(shown.kind) + "\""@)
            &&& markup::shows(html, "\"message\":"@ + json::quoted(shown.message) + ","@)
            &&& markup::shows(html, "\"title\":"@ + json::quoted(shown.title) + "}"@)
        }),
{
    reveal_strlit("{\"hearth-toast\":{\"kind\":\"¤\",\"message\":¤,\"title\":¤}}");
    reveal_strlit(",");
    reveal_strlit("\"");
    reveal_strlit("\"kind\":\"");
    reveal_strlit("\"message\":");
    reveal_strlit("\"title\":");
    reveal_strlit("}");
    let t = toast::TOAST_EVENT@;
    let ps = seq![25int, 38, 48];
    let xs = seq![toast::kind_token(shown.kind), json::quoted(shown.message), json::quoted(shown.title)];
    assert(toast::toast_event(shown) == markup::filled(t, xs, 3).done()) by {
        reveal_with_fuel(markup::filled, 4);
    }
    assert(markup::holes_at(t, ps)) by {
        assert(markup::hole_at(t, ps, 0));
        assert(markup::hole_at(t, ps, 1));
        assert(markup::hole_at(t, ps, 2));
    }
    assert(t.subrange(17, 25) =~= "\"kind\":\""@);
    assert(t.subrange(26, 27) =~= "\""@);
    markup::lemma_hole(t, ps, xs, 0, "\"kind\":\""@, "\""@);
    assert(t.subrange(28, 38) =~= "\"message\":"@);
    assert(t.subrange(39, 40) =~= ","@);
    markup::lemma_hole(t, ps, xs, 1, "\"message\":"@, ","@);
    assert(t.subrange(40, 48) =~= "\"title\":"@);
    assert(t.subrange(49, 50) =~= "}"@);
    markup::lemma_hole(t, ps, xs, 2, "\"title\":"@, "}"@);
}

/// The browser knows the kinds by these names.
pub proof fn law_kinds_on_the_wire()
    ensures
        toast::kind_token(ToastKind::Success) == "success"@,
        toast::kind_token(ToastKind::Info) == "info"@,
        toast::kind_token(ToastKind::Error) == "error"@,
{
}

} // verus!
