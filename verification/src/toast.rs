//! Toasts: the short notices that report how an action went.

use vstd::prelude::*;
use crate::html;
use crate::html::Template;
use crate::json;
use crate::text;

verus! {

/// What a toast reports, which picks its colour: success is a good outcome, info a bad one that
/// can be undone, error a failure or a loss for good.
#[derive(Clone, Copy, Debug, PartialEq, Eq, Structural)]
pub enum ToastKind {
    Success,
    Info,
    Error,
}

/// A notice for the person at the browser.
pub struct Toast {
    pub kind: ToastKind,
    pub title: String,
    pub message: String,
}

/// The content of a toast.
pub struct ToastText {
    pub kind: ToastKind,
    pub title: Seq<char>,
    pub message: Seq<char>,
}

impl View for Toast {
    type V = ToastText;

    open spec fn view(&self) -> ToastText {
        ToastText { kind: self.kind, title: self.title@, message: self.message@ }
    }
}

impl Toast {
    pub fn new(kind: ToastKind, title: &str, message: &str) -> (t: Toast)
        ensures
            t@ == (ToastText { kind, title: title@, message: message@ }),
    {
        Toast { kind, title: title.to_owned(), message: message.to_owned() }
    }
}

/// The toast of a finished action, by the action's token; `name` is who or what it was done to.
/// An unknown token has none.
pub open spec fn action_toast(action: Seq<char>, name: Seq<char>) -> Option<ToastText> {
    if action == "deactivated"@ {
        Some(
            ToastText {
                kind: ToastKind::Info,
                title: "Deactivated"@,
                message: name + " can no longer sign in."@,
            },
        )
    } else if action == "invite_revoked"@ {
        Some(
            ToastText {
                kind: ToastKind::Info,
                title: "Invitation revoked"@,
                message: "The pending invitation was revoked."@,
            },
        )
    } else if action == "invitation_reissued"@ {
        Some(
            ToastText {
                kind: ToastKind::Info,
                title: "Invitation reissued"@,
                message: "A fresh acceptance URL was generated."@,
            },
        )
    } else if action == "pending_deactivate"@ {
        Some(
            ToastText {
                kind: ToastKind::Info,
                title: "Awaiting review"@,
                message: "A 72-hour veto window has begun for the requested deactivation."@,
            },
        )
    } else if action == "pending_role_change"@ {
        Some(
            ToastText {
                kind: ToastKind::Info,
                title: "Awaiting review"@,
                message: "A 72-hour veto window has begun for the requested role change."@,
            },
        )
    } else if action == "reactivated"@ {
        Some(
            ToastText {
                kind: ToastKind::Success,
                title: "Reactivated"@,
                message: name + " can sign in again."@,
            },
        )
    } else if action == "role_changed"@ {
        Some(
            ToastText {
                kind: ToastKind::Success,
                title: "Role updated"@,
                message: name + "'s role has been updated."@,
            },
        )
    } else if action == "vetoed"@ {
        Some(
            ToastText {
                kind: ToastKind::Success,
                title: "Action vetoed"@,
                message: "The pending action was cancelled."@,
            },
        )
    } else if action == "anonymized"@ {
        Some(
            ToastText {
                kind: ToastKind::Error,
                title: "Account anonymized"@,
                message: name + "'s identity has been scrubbed."@,
            },
        )
    } else if action == "deleted"@ {
        Some(
            ToastText {
                kind: ToastKind::Error,
                title: "Account deleted"@,
                message: name + "'s account has been fully removed."@,
            },
        )
    } else if action == "pending_anonymize"@ {
        Some(
            ToastText {
                kind: ToastKind::Error,
                title: "Awaiting review"@,
                message: "A 72-hour veto window has begun for the requested anonymization."@,
            },
        )
    } else if action == "pending_delete"@ {
        Some(
            ToastText {
                kind: ToastKind::Error,
                title: "Awaiting review"@,
                message: "A 72-hour veto window has begun for the requested deletion."@,
            },
        )
    } else if action == "profile_updated"@ {
        Some(
            ToastText {
                kind: ToastKind::Success,
                title: "Profile updated"@,
                message: "Your display name has been saved."@,
            },
        )
    } else if action == "email_updated"@ {
        Some(
            ToastText {
                kind: ToastKind::Success,
                title: "Email updated"@,
                message: "Sign-in will use the new address from now on."@,
            },
        )
    } else if action == "email_unchanged"@ {
        Some(
            ToastText {
                kind: ToastKind::Info,
                title: "Nothing to update"@,
                message: "That's already your email."@,
            },
        )
    } else if action == "password_changed"@ {
        Some(
            ToastText {
                kind: ToastKind::Success,
                title: "Password changed"@,
                message: "Your password has been updated. Other devices were signed out."@,
            },
        )
    } else if action == "app_enabled"@ {
        Some(
            ToastText {
                kind: ToastKind::Success,
                title: "App enabled"@,
                message: name + " can create and modify resources again."@,
            },
        )
    } else if action == "app_disabled"@ {
        Some(
            ToastText {
                kind: ToastKind::Info,
                title: "App disabled"@,
                message: name + " can no longer create or modify resources. Its data is kept."@,
            },
        )
    } else if action == "app_uninstalled"@ {
        Some(
            ToastText {
                kind: ToastKind::Error,
                title: "App uninstalled"@,
                message: name + " and all of its stored data have been removed."@,
            },
        )
    } else if action == "resource_deleted"@ {
        Some(
            ToastText {
                kind: ToastKind::Error,
                title: "Resource deleted"@,
                message: "The resource was permanently removed."@,
            },
        )
    } else if action == "publisher_added"@ {
        Some(
            ToastText {
                kind: ToastKind::Success,
                title: "Publisher added"@,
                message: name + " can now sign app registrations."@,
            },
        )
    } else if action == "publisher_removed"@ {
        Some(
            ToastText {
                kind: ToastKind::Info,
                title: "Publisher removed"@,
                message: name + " can no longer sign new app registrations."@,
            },
        )
    } else {
        None
    }
}

/// Who or what an action was done to, where nothing better is known.
pub open spec fn target_name(target: Option<Seq<char>>) -> Seq<char> {
    match target {
        Some(t) => t,
        None => "This member"@,
    }
}

/// The toast of a finished action; `None` for an unknown token.
pub fn toast_for_action(action: &str, target: Option<&str>) -> (r: Option<Toast>)
    ensures
        match r {
            Some(t) => action_toast(action@, target_name(text::opt(target))) == Some(t@),
            None => action_toast(action@, target_name(text::opt(target))) is None,
        },
{
    let name: &str = match target {
        Some(t) => t,
        None => "This member",
    };
    let (kind, title, message): (ToastKind, &str, String) = if text::same(action, "deactivated") {
        (ToastKind::Info, "Deactivated", text::join(name, " can no longer sign in."))
    } else if text::same(action, "invite_revoked") {
        (ToastKind::Info, "Invitation revoked", "The pending invitation was revoked.".to_owned())
    } else if text::same(action, "invitation_reissued") {
        (ToastKind::Info, "Invitation reissued", "A fresh acceptance URL was generated.".to_owned())
    } else if text::same(action, "pending_deactivate") {
        (ToastKind::Info, "Awaiting review", "A 72-hour veto window has begun for the requested deactivation.".to_owned())
    } else if text::same(action, "pending_role_change") {
        (ToastKind::Info, "Awaiting review", "A 72-hour veto window has begun for the requested role change.".to_owned())
    } else if text::same(action, "reactivated") {
        (ToastKind::Success, "Reactivated", text::join(name, " can sign in again."))
    } else if text::same(action, "role_changed") {
        (ToastKind::Success, "Role updated", text::join(name, "'s role has been updated."))
    } else if text::same(action, "vetoed") {
        (ToastKind::Success, "Action vetoed", "The pending action was cancelled.".to_owned())
    } else if text::same(action, "anonymized") {
        (ToastKind::Error, "Account anonymized", text::join(name, "'s identity has been scrubbed."))
    } else if text::same(action, "deleted") {
        (ToastKind::Error, "Account deleted", text::join(name, "'s account has been fully removed."))
    } else if text::same(action, "pending_anonymize") {
        (ToastKind::Error, "Awaiting review", "A 72-hour veto window has begun for the requested anonymization.".to_owned())
    } else if text::same(action, "pending_delete") {
        (ToastKind::Error, "Awaiting review", "A 72-hour veto window has begun for the requested deletion.".to_owned())
    } else if text::same(action, "profile_updated") {
        (ToastKind::Success, "Profile updated", "Your display name has been saved.".to_owned())
    } else if text::same(action, "email_updated") {
        (ToastKind::Success, "Email updated", "Sign-in will use the new address from now on.".to_owned())
    } else if text::same(action, "email_unchanged") {
        (ToastKind::Info, "Nothing to update", "That's already your email.".to_owned())
    } else if text::same(action, "password_changed") {
        (ToastKind::Success, "Password changed", "Your password has been updated. Other devices were signed out.".to_owned())
    } else if text::same(action, "app_enabled") {
        (ToastKind::Success, "App enabled", text::join(name, " can create and modify resources again."))
    } else if text::same(action, "app_disabled") {
        (ToastKind::Info, "App disabled", text::join(name, " can no longer create or modify resources. Its data is kept."))
    } else if text::same(action, "app_uninstalled") {
        (ToastKind::Error, "App uninstalled", text::join(name, " and all of its stored data have been removed."))
    } else if text::same(action, "resource_deleted") {
        (ToastKind::Error, "Resource deleted", "The resource was permanently removed.".to_owned())
    } else if text::same(action, "publisher_added") {
        (ToastKind::Success, "Publisher added", text::join(name, " can now sign app registrations."))
    } else if text::same(action, "publisher_removed") {
        (ToastKind::Info, "Publisher removed", text::join(name, " can no longer sign new app registrations."))
    } else {
        return None;
    };
    Some(Toast { kind, title: title.to_owned(), message })
}

/// Whether an action takes something away for good, at once or once its veto window is over.
pub open spec fn destructive(action: Seq<char>) -> bool {
    ||| action == "anonymized"@
    ||| action == "deleted"@
    ||| action == "pending_anonymize"@
    ||| action == "pending_delete"@
    ||| action == "app_uninstalled"@
    ||| action == "resource_deleted"@
}

/// Red toasts are for losses: of the known actions exactly the destructive ones get one.
pub proof fn law_destructive_actions_are_red(action: Seq<char>, name: Seq<char>)
    requires
        action_toast(action, name) is Some,
    ensures
        action_toast(action, name)->0.kind == ToastKind::Error <==> destructive(action),
{
    reveal_strlit("deactivated");
    assert("deactivated"@.len() == 11);
    reveal_strlit("invite_revoked");
    assert("invite_revoked"@.len() == 14);
    reveal_strlit("invitation_reissued");
    assert("invitation_reissued"@.len() == 19);
    reveal_strlit("pending_deactivate");
    assert("pending_deactivate"@.len() == 18);
    reveal_strlit("pending_role_change");
    assert("pending_role_change"@.len() == 19);
    reveal_strlit("reactivated");
    assert("reactivated"@.len() == 11);
    reveal_strlit("role_changed");
    assert("role_changed"@.len() == 12);
    reveal_strlit("vetoed");
    assert("vetoed"@.len() == 6);
    reveal_strlit("anonymized");
    assert("anonymized"@.len() == 10);
    reveal_strlit("deleted");
    assert("deleted"@.len() == 7);
    reveal_strlit("pending_anonymize");
    assert("pending_anonymize"@.len() == 17);
    reveal_strlit("pending_delete");
    assert("pending_delete"@.len() == 14);
    reveal_strlit("profile_updated");
    assert("profile_updated"@.len() == 15);
    reveal_strlit("email_updated");
    assert("email_updated"@.len() == 13);
    reveal_strlit("email_unchanged");
    assert("email_unchanged"@.len() == 15);
    reveal_strlit("password_changed");
    assert("password_changed"@.len() == 16);
    reveal_strlit("app_enabled");
    assert("app_enabled"@.len() == 11);
    reveal_strlit("app_disabled");
    assert("app_disabled"@.len() == 12);
    reveal_strlit("app_uninstalled");
    assert("app_uninstalled"@.len() == 15);
    reveal_strlit("resource_deleted");
    assert("resource_deleted"@.len() == 16);
    reveal_strlit("publisher_added");
    assert("publisher_added"@.len() == 15);
    reveal_strlit("publisher_removed");
    assert("publisher_removed"@.len() == 17);
    assert("publisher_removed"@[1] != "pending_anonymize"@[1]);
    assert("invite_revoked"@[0] != "pending_delete"@[0]);
    assert("profile_updated"@[0] != "app_uninstalled"@[0]);
    assert("email_unchanged"@[0] != "app_uninstalled"@[0]);
    assert("publisher_added"@[0] != "app_uninstalled"@[0]);
    assert("password_changed"@[0] != "resource_deleted"@[0]);
}

/// The text behind an error code of the forms and row actions.
pub open spec fn error_text(error: Seq<char>) -> Seq<char> {
    if error == "cannot_target_self"@ {
        "You can't target yourself."@
    } else if error == "cannot_target_peer_or_higher"@ {
        "You can't target a peer or higher role."@
    } else if error == "already_deactivated"@ {
        "That member is already deactivated."@
    } else if error == "already_active"@ {
        "That member is already active."@
    } else if error == "already_in_role"@ {
        "That member is already in that role."@
    } else if error == "user_not_found"@ {
        "Member not found."@
    } else if error == "not_active"@ {
        "That member is in pending invite state and can't be acted on."@
    } else if error == "not_deactivated"@ {
        "That member isn't deactivated."@
    } else if error == "pending_action_exists"@ {
        "An action is already pending against that member."@
    } else if error == "forbidden"@ {
        "Only Owners can change roles."@
    } else if error == "invalid_recovery_code"@ {
        "Invalid recovery code."@
    } else if error == "invalid_password"@ {
        "Incorrect password. Please try again."@
    } else if error == "email_required"@ {
        "Enter an email address."@
    } else if error == "new_password_required"@ {
        "Enter a new password."@
    } else if error == "totp_setup_expired"@ {
        "Two-factor setup expired. Start again from Security."@
    } else if error == "cannot_invite_higher_role"@ {
        "You can't invite someone at a higher role than your own."@
    } else if error == "email_already_in_use"@ {
        "A member with that email already exists."@
    } else if error == "active_invite_exists"@ {
        "An open invitation already exists for that email."@
    } else if error == "invite_not_found"@ {
        "That invitation no longer exists."@
    } else if error == "invite_already_accepted"@ {
        "That invitation was already accepted."@
    } else if error == "invite_expired"@ {
        "That invitation has expired. Send a new one from the toolbar instead."@
    } else if error == "transition_not_found"@ {
        "That pending action no longer exists."@
    } else if error == "not_pending"@ {
        "That action is no longer pending. Another Owner may have just resolved it."@
    } else if error == "app_not_found"@ {
        "That app is no longer registered."@
    } else if error == "resource_not_found"@ {
        "That resource no longer exists."@
    } else if error == "publisher_name_required"@ {
        "Enter a publisher name."@
    } else if error == "invalid_publisher_key"@ {
        "Enter a 64-character hex Ed25519 public key."@
    } else if error == "publisher_not_found"@ {
        "That publisher is no longer in the list."@
    } else {
        "Something went wrong."@
    }
}

/// The text behind an error code of the forms and row actions.
pub fn error_banner_message(error: &str) -> (r: &'static str)
    ensures
        r@ == error_text(error@),
{
    if text::same(error, "cannot_target_self") {
        "You can't target yourself."
    } else if text::same(error, "cannot_target_peer_or_higher") {
        "You can't target a peer or higher role."
    } else if text::same(error, "already_deactivated") {
        "That member is already deactivated."
    } else if text::same(error, "already_active") {
        "That member is already active."
    } else if text::same(error, "already_in_role") {
        "That member is already in that role."
    } else if text::same(error, "user_not_found") {
        "Member not found."
    } else if text::same(error, "not_active") {
        "That member is in pending invite state and can't be acted on."
    } else if text::same(error, "not_deactivated") {
        "That member isn't deactivated."
    } else if text::same(error, "pending_action_exists") {
        "An action is already pending against that member."
    } else if text::same(error, "forbidden") {
        "Only Owners can change roles."
    } else if text::same(error, "invalid_recovery_code") {
        "Invalid recovery code."
    } else if text::same(error, "invalid_password") {
        "Incorrect password. Please try again."
    } else if text::same(error, "email_required") {
        "Enter an email address."
    } else if text::same(error, "new_password_required") {
        "Enter a new password."
    } else if text::same(error, "totp_setup_expired") {
        "Two-factor setup expired. Start again from Security."
    } else if text::same(error, "cannot_invite_higher_role") {
        "You can't invite someone at a higher role than your own."
    } else if text::same(error, "email_already_in_use") {
        "A member with that email already exists."
    } else if text::same(error, "active_invite_exists") {
        "An open invitation already exists for that email."
    } else if text::same(error, "invite_not_found") {
        "That invitation no longer exists."
    } else if text::same(error, "invite_already_accepted") {
        "That invitation was already accepted."
    } else if text::same(error, "invite_expired") {
        "That invitation has expired. Send a new one from the toolbar instead."
    } else if text::same(error, "transition_not_found") {
        "That pending action no longer exists."
    } else if text::same(error, "not_pending") {
        "That action is no longer pending. Another Owner may have just resolved it."
    } else if text::same(error, "app_not_found") {
        "That app is no longer registered."
    } else if text::same(error, "resource_not_found") {
        "That resource no longer exists."
    } else if text::same(error, "publisher_name_required") {
        "Enter a publisher name."
    } else if text::same(error, "invalid_publisher_key") {
        "Enter a 64-character hex Ed25519 public key."
    } else if text::same(error, "publisher_not_found") {
        "That publisher is no longer in the list."
    } else {
        "Something went wrong."
    }
}

/// The toast of a failed action.
pub open spec fn error_toast(code: Seq<char>) -> ToastText {
    ToastText { kind: ToastKind::Error, title: "Action failed"@, message: error_text(code) }
}

pub fn toast_for_error(error_code: &str) -> (t: Toast)
    ensures
        t@ == error_toast(error_code@),
{
    Toast::new(ToastKind::Error, "Action failed", error_banner_message(error_code))
}

// ---- On the wire -----------------------------------------------------------------------------

pub open spec fn kind_token(k: ToastKind) -> Seq<char> {
    match k {
        ToastKind::Success => "success"@,
        ToastKind::Info => "info"@,
        ToastKind::Error => "error"@,
    }
}

impl ToastKind {
    /// The token the browser knows the kind by.
    pub fn as_str(self) -> (r: &'static str)
        ensures
            r@ == kind_token(self),
    {
        match self {
            ToastKind::Success => "success",
            ToastKind::Info => "info",
            ToastKind::Error => "error",
        }
    }
}

pub const TOAST_EVENT: &'static str = "{\"hearth-toast\":{\"kind\":\"¤\",\"message\":¤,\"title\":¤}}";

/// The `HX-Trigger` value that hands a toast to the browser: a JSON object with one event.
pub open spec fn toast_event(t: ToastText) -> Seq<char> {
    html::template(TOAST_EVENT@).html(kind_token(t.kind)).html(json::quoted(t.message)).html(
        json::quoted(t.title),
    ).done()
}

pub fn toast_trigger(t: &Toast) -> (r: String)
    ensures
        r@ == toast_event(t@),
{
    let message = json::quote(t.message.as_str());
    let title = json::quote(t.title.as_str());
    Template::new(TOAST_EVENT).raw(t.kind.as_str()).raw(message.as_str()).raw(
        title.as_str(),
    ).done().into_string()
}

} // verus!
