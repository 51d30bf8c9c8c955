//! The forms and query strings that come in, and how their fields are cleaned.

use vstd::prelude::*;
use vstd::string::*;
use crate::model::{InstanceRole, Uuid};
use crate::text;

verus! {

// ---- Sign-in ---------------------------------------------------------------------------------

/// Query of `GET /login`: an email to start with.
#[derive(Default)]
pub struct LoginPrefill {
    pub email: Option<String>,
}

/// `POST /login`.
pub struct LoginForm {
    pub email: String,
    pub password: String,
}

/// `POST /login/passkey/finish`.
pub struct LoginPasskeyFinishForm {
    pub challenge_id: Uuid,
    pub passkey: String,
}

/// `POST /login/verify`: one of three second factors.
pub struct LoginVerifyForm {
    pub code: Option<String>,
    pub recovery_code: Option<String>,
    /// The assertion of a passkey, as JSON.
    pub passkey: Option<String>,
    pub challenge_id: Option<Uuid>,
}

/// `POST /logout`.
pub struct LogoutForm {
    pub csrf_token: String,
    pub next: Option<String>,
}

/// `POST /invite/{token}`.
pub struct AcceptInviteForm {
    pub display_name: String,
    pub password: String,
}

/// `POST /recover`.
pub struct RecoverForm {
    pub email: String,
    pub recovery_code: String,
}

/// `POST /recover/reset`.
pub struct RecoverResetForm {
    pub new_password: String,
    pub confirm_password: String,
}

// ---- Account ---------------------------------------------------------------------------------

/// `POST /me/reauth`.
pub struct MeReauthForm {
    pub csrf_token: String,
    pub password: Option<String>,
    pub code: Option<String>,
    pub challenge_id: Option<Uuid>,
    pub passkey: Option<String>,
    /// `1` where the action behind it is critical.
    pub critical: Option<String>,
}

/// `POST /me/profile`.
pub struct MeProfileForm {
    pub csrf_token: String,
    pub display_name: String,
}

/// `POST /me/email`.
pub struct MeEmailForm {
    pub csrf_token: String,
    pub email: String,
}

/// `POST /me/password`.
pub struct MePasswordForm {
    pub csrf_token: String,
    pub new_password: String,
}

/// A form that carries nothing of its own but needs a confirmed identity.
pub struct MeReauthOnlyForm {
    pub csrf_token: String,
}

/// Ends sessions.
pub struct SessionActionForm {
    pub csrf_token: String,
}

/// `POST /me/sessions/{id}/rename`.
pub struct SessionRenameForm {
    pub csrf_token: String,
    pub label: String,
}

/// `POST /me/totp/confirm`.
pub struct MeTotpConfirmForm {
    pub csrf_token: String,
    pub cred_id: Uuid,
    pub label: String,
    pub code: String,
}

/// Renames an authenticator or a passkey.
pub struct MeTotpRenameForm {
    pub csrf_token: String,
    pub label: String,
}

/// Removes an authenticator or a passkey.
pub struct MeTotpDeleteForm {
    pub csrf_token: String,
}

/// `POST /me/passkey/finish`.
pub struct MePasskeyFinishForm {
    pub csrf_token: String,
    pub challenge_id: Uuid,
    pub label: String,
    pub credential: String,
}

// ---- Members ---------------------------------------------------------------------------------

/// Query of `GET /members`.
#[derive(Default)]
pub struct MembersPageQuery {
    pub action: Option<String>,
    pub target: Option<String>,
    pub error: Option<String>,
    pub sort: Option<String>,
    pub dir: Option<String>,
    pub filter: Option<String>,
    /// The page asked for, counted from one.
    pub page: Option<u32>,
    /// Rows per page asked for.
    pub rows: Option<u32>,
}

/// An action on a member, an invitation or a pending transition.
pub struct LifecycleActionForm {
    pub csrf_token: String,
}

/// `POST /members/{id}/reactivate`.
pub struct ReactivateForm {
    pub csrf_token: String,
}

/// `POST /members/{id}/role`.
pub struct RoleChangeForm {
    pub csrf_token: String,
    pub role: InstanceRole,
}

/// `POST /members/invite`.
pub struct InviteForm {
    pub csrf_token: String,
    pub email: String,
    pub role: InstanceRole,
}

// ---- Pending transitions and events ----------------------------------------------------------

/// Query of `GET /pending`.
#[derive(Default)]
pub struct PendingPageQuery {
    pub action: Option<String>,
    pub error: Option<String>,
}

/// `POST /pending/{id}/force-apply`.
pub struct ForceApplyForm {
    pub csrf_token: String,
    pub recovery_code: String,
}

/// Query of `GET /events`.
pub struct EventsPageQuery {
    pub q: Option<String>,
    pub event_type: Option<String>,
    pub page: Option<u32>,
    pub rows: Option<u32>,
}

// ---- Apps ------------------------------------------------------------------------------------

/// An action on an app or a resource.
pub struct AppActionForm {
    pub csrf_token: String,
}

/// Query of `GET /apps/{id}/resources`.
pub struct ResourcesQuery {
    pub q: Option<String>,
    pub resource_type: Option<String>,
    pub deleted: Option<String>,
}

/// `POST /apps/publishers`.
pub struct PublishersAddForm {
    pub csrf_token: String,
    pub publisher: String,
    pub public_key: String,
}

/// `POST /apps/publishers/remove`.
pub struct RemovePublisherForm {
    pub csrf_token: String,
    pub publisher: String,
}

/// Query of `GET /apps/publishers/remove-modal`.
pub struct RemoveModalQuery {
    pub publisher: String,
}

// ---- Settings --------------------------------------------------------------------------------

/// `POST /settings/identity`.
pub struct SettingsIdentityForm {
    pub csrf_token: String,
    pub instance_name: String,
}

/// `POST /settings/notifications`.
pub struct SettingsNotificationsForm {
    pub csrf_token: String,
    pub mode: String,
    pub smtp_host: String,
    pub smtp_port: String,
    pub smtp_tls: String,
    pub smtp_username: String,
    pub smtp_password: String,
    pub smtp_from_email: String,
    pub smtp_from_name: String,
}

/// `POST /settings/notifications/test`.
pub struct SettingsTestForm {
    pub csrf_token: String,
}

/// `POST /settings/shutdown`.
pub struct SettingsShutdownForm {
    pub csrf_token: String,
}

// ---- Cleaning --------------------------------------------------------------------------------

/// A text without the white space around it, unless nothing is left of it.
pub open spec fn filled_in(s: Seq<char>) -> Option<Seq<char>> {
    if text::trimmed(s).len() == 0 {
        None
    } else {
        Some(text::trimmed(s))
    }
}

/// Trims a text; an empty one is none.
pub fn trim_to_option(s: &str) -> (r: Option<String>)
    ensures
        text::opt_string(r) == filled_in(s@),
{
    let t = text::trim(s);
    if t.as_str().is_empty() {
        None
    } else {
        Some(t)
    }
}

/// An optional text cleaned by [`clean`].
pub open spec fn cleaned(value: Option<String>) -> Option<Seq<char>> {
    match value {
        Some(s) => filled_in(s@),
        None => None,
    }
}

/// Trims an optional query value and drops it where nothing is left.
pub fn clean(value: Option<String>) -> (r: Option<String>)
    ensures
        text::opt_string(r) == cleaned(value),
{
    match value {
        Some(s) => trim_to_option(s.as_str()),
        None => None,
    }
}

/// Cleaning a query value once is enough.
pub proof fn law_clean_idempotent(s: Seq<char>)
    ensures
        filled_in(s) matches Some(t) ==> filled_in(t) == Some(t),
{
    text::law_trim_idempotent(s);
}

/// Characters kept of a name that a user gives to a device or a factor.
pub const LABEL_CHARS: usize = 60;

/// The name of a factor: the first sixty characters of what was entered, trimmed, or a default.
pub open spec fn factor_label(raw: Seq<char>) -> Seq<char> {
    match filled_in(raw) {
        Some(t) => text::first_chars(t, LABEL_CHARS as nat),
        None => "Authenticator"@,
    }
}

pub fn clean_label(raw: &str) -> (r: String)
    ensures
        r@ == factor_label(raw@),
{
    match trim_to_option(raw) {
        Some(t) => text::take_chars(t.as_str(), LABEL_CHARS),
        None => "Authenticator".to_owned(),
    }
}

/// The nickname of a device: the first sixty characters of what was entered, trimmed. An empty
/// one takes the nickname away.
pub open spec fn nickname(raw: Seq<char>) -> Option<Seq<char>> {
    match filled_in(raw) {
        Some(t) => Some(text::first_chars(t, LABEL_CHARS as nat)),
        None => None,
    }
}

pub fn device_nickname(raw: &str) -> (r: Option<String>)
    ensures
        text::opt_string(r) == nickname(raw@),
{
    match trim_to_option(raw) {
        Some(t) => Some(text::take_chars(t.as_str(), LABEL_CHARS)),
        None => None,
    }
}

/// The name of a factor is never empty and holds at most sixty characters.
pub proof fn law_label_bounds(raw: Seq<char>)
    ensures
        0 < factor_label(raw).len() <= LABEL_CHARS,
        nickname(raw) matches Some(t) ==> 0 < t.len() <= LABEL_CHARS,
{
    reveal_strlit("Authenticator");
}

/// Whether a text looks like an email: something before the first `@`, and behind it something
/// with a dot in it.
pub open spec fn email_shaped(s: Seq<char>) -> bool {
    match text::split_at_char(s, '@') {
        Some(parts) => parts.0.len() > 0 && parts.1.contains('.'),
        None => false,
    }
}

pub fn looks_like_email(s: &str) -> (r: bool)
    ensures
        r == email_shaped(s@),
{
    match text::split_once(s, '@') {
        Some((local, domain)) => {
            let dot = text::contains(domain.as_str(), ".");
            proof {
                reveal_strlit(".");
                let d = domain@;
                if d.contains('.') {
                    let i = choose|i: int| 0 <= i < d.len() && d[i] == '.';
                    assert(text::occurs_at(d, "."@, i)) by {
                        assert(d.subrange(i, i + 1) =~= "."@);
                    }
                }
                if text::contained(d, "."@) {
                    let i = choose|i: int| text::occurs_at(d, "."@, i);
                    assert(d.subrange(i, i + 1)[0] == "."@[0]);
                    assert(d[i] == '.');
                }
            }
            !local.as_str().is_empty() && dot
        },
        None => false,
    }
}

} // verus!
