//! The entries that the UI writes to the audit log.

use vstd::prelude::*;
use crate::model::Uuid;

verus! {

/// A value in the data of an entry.
pub enum FieldValue {
    Text(String),
    Id(Uuid),
    Count(u64),
    Flag(bool),
    Null,
}

pub enum FieldValueView {
    Text(Seq<char>),
    Id(Uuid),
    Count(u64),
    Flag(bool),
    Null,
}

impl View for FieldValue {
    type V = FieldValueView;

    open spec fn view(&self) -> FieldValueView {
        match *self {
            FieldValue::Text(s) => FieldValueView::Text(s@),
            FieldValue::Id(id) => FieldValueView::Id(id),
            FieldValue::Count(n) => FieldValueView::Count(n),
            FieldValue::Flag(b) => FieldValueView::Flag(b),
            FieldValue::Null => FieldValueView::Null,
        }
    }
}

/// A named value in the data of an entry.
pub struct Field {
    pub key: &'static str,
    pub value: FieldValue,
}

pub struct FieldView {
    pub key: Seq<char>,
    pub value: FieldValueView,
}

impl View for Field {
    type V = FieldView;

    open spec fn view(&self) -> FieldView {
        FieldView { key: self.key@, value: self.value@ }
    }
}

/// An entry: what happened, and its data.
pub struct AuditEntry {
    pub event_type: &'static str,
    pub data: Vec<Field>,
}

#[verifier::ext_equal]
pub struct EntryView {
    pub event_type: Seq<char>,
    pub data: Seq<FieldView>,
}

impl View for AuditEntry {
    type V = EntryView;

    open spec fn view(&self) -> EntryView {
        EntryView { event_type: self.event_type@, data: self.data@.map_values(|f: Field| f@) }
    }
}

/// An entry that may be missing.
pub open spec fn of(e: Option<AuditEntry>) -> Option<EntryView> {
    match e {
        Some(e) => Some(e@),
        None => None,
    }
}

/// An entry without data.
pub open spec fn entry(event_type: Seq<char>) -> EntryView {
    EntryView { event_type, data: Seq::empty() }
}

impl EntryView {
    pub open spec fn field(self, key: Seq<char>, value: FieldValueView) -> EntryView {
        EntryView { data: self.data.push(FieldView { key, value }), ..self }
    }

    pub open spec fn text(self, key: Seq<char>, value: Seq<char>) -> EntryView {
        self.field(key, FieldValueView::Text(value))
    }

    pub open spec fn id(self, key: Seq<char>, value: Uuid) -> EntryView {
        self.field(key, FieldValueView::Id(value))
    }

    pub open spec fn count(self, key: Seq<char>, value: u64) -> EntryView {
        self.field(key, FieldValueView::Count(value))
    }

    pub open spec fn flag(self, key: Seq<char>, value: bool) -> EntryView {
        self.field(key, FieldValueView::Flag(value))
    }
}

impl AuditEntry {
    fn new(event_type: &'static str) -> (e: AuditEntry)
        ensures
            e@ == entry(event_type@),
    {
        let e = AuditEntry { event_type, data: Vec::new() };
        assert(e@.data =~= Seq::empty());
        e
    }

    fn field(self, key: &'static str, value: FieldValue) -> (e: AuditEntry)
        ensures
            e@ == self@.field(key@, value@),
    {
        let ghost before = self@.data;
        let mut data = self.data;
        data.push(Field { key, value });
        let e = AuditEntry { event_type: self.event_type, data };
        assert(e@.data =~= before.push(FieldView { key: key@, value: value@ }));
        e
    }

    fn text(self, key: &'static str, value: &str) -> (e: AuditEntry)
        ensures
            e@ == self@.text(key@, value@),
    {
        self.field(key, FieldValue::Text(value.to_owned()))
    }

    fn id(self, key: &'static str, value: Uuid) -> (e: AuditEntry)
        ensures
            e@ == self@.id(key@, value),
    {
        self.field(key, FieldValue::Id(value))
    }

    fn count(self, key: &'static str, value: u64) -> (e: AuditEntry)
        ensures
            e@ == self@.count(key@, value),
    {
        self.field(key, FieldValue::Count(value))
    }

    fn flag(self, key: &'static str, value: bool) -> (e: AuditEntry)
        ensures
            e@ == self@.flag(key@, value),
    {
        self.field(key, FieldValue::Flag(value))
    }
}

// ---- Sign-in ---------------------------------------------------------------------------------

/// Someone signed in: with their password alone, or with this factor.
pub open spec fn signin_entry(email: Seq<char>, session_id: Uuid, factor: Option<Seq<char>>) -> EntryView {
    let e = entry("signin_success"@).text("email"@, email).id("session_id"@, session_id).text(
        "via"@,
        "web"@,
    );
    match factor {
        Some(name) => e.text("mfa"@, name),
        None => e,
    }
}

/// Someone signed in with their password alone.
pub fn signin_success(email: &str, session_id: Uuid) -> (e: AuditEntry)
    ensures
        e@ == signin_entry(email@, session_id, None),
{
    AuditEntry::new("signin_success").text("email", email).id("session_id", session_id).text(
        "via",
        "web",
    )
}

/// Someone signed in with a second factor.
pub fn signin_success_with(email: &str, session_id: Uuid, factor: &str) -> (e: AuditEntry)
    ensures
        e@ == signin_entry(email@, session_id, Some(factor@)),
{
    signin_success(email, session_id).text("mfa", factor)
}

/// A second factor was refused.
pub open spec fn mfa_failure(factor: Seq<char>) -> EntryView {
    entry("mfa_failed"@).text("via"@, "web"@).text("factor"@, factor)
}

pub fn mfa_failed(factor: &str) -> (e: AuditEntry)
    ensures
        e@ == mfa_failure(factor@),
{
    AuditEntry::new("mfa_failed").text("via", "web").text("factor", factor)
}

/// Someone signed out.
pub open spec fn signout_entry(session_id: Uuid) -> EntryView {
    entry("signout"@).id("session_id"@, session_id).text("via"@, "web"@)
}

pub fn signout(session_id: Uuid) -> (e: AuditEntry)
    ensures
        e@ == signout_entry(session_id),
{
    AuditEntry::new("signout").id("session_id", session_id).text("via", "web")
}

/// A user confirmed their identity, or failed to.
pub open spec fn reauth(factor: Seq<char>, success: bool) -> EntryView {
    entry(if success { "reauth_success"@ } else { "reauth_failed"@ }).text("factor"@, factor)
}

pub fn audit_reauth(factor: &str, success: bool) -> (e: AuditEntry)
    ensures
        e@ == reauth(factor@, success),
{
    let event_type: &'static str = if success { "reauth_success" } else { "reauth_failed" };
    AuditEntry::new(event_type).text("factor", factor)
}

// ---- Recovery --------------------------------------------------------------------------------

/// A recovery code was accepted or refused.
pub open spec fn recovery_attempt_entry(accepted: bool) -> EntryView {
    entry(if accepted { "recovery_started"@ } else { "recovery_failed"@ }).text(
        "via"@,
        "web"@,
    )
}

pub fn recovery_attempt(accepted: bool) -> (e: AuditEntry)
    ensures
        e@ == recovery_attempt_entry(accepted),
{
    let event_type: &'static str = if accepted { "recovery_started" } else { "recovery_failed" };
    AuditEntry::new(event_type).text("via", "web")
}

/// A recovery was tried for an address without an active account.
pub open spec fn recovery_without_account(email: Seq<char>) -> EntryView {
    entry("recovery_failed"@).text("email"@, email).text("reason"@, "unknown_or_inactive"@)
}

pub fn recovery_unknown(email: &str) -> (e: AuditEntry)
    ensures
        e@ == recovery_without_account(email@),
{
    AuditEntry::new("recovery_failed").text("email", email).text("reason", "unknown_or_inactive")
}

/// A recovery ended with a new password.
pub open spec fn recovery_succeeded_entry(sessions_revoked: u64, session_id: Uuid) -> EntryView {
    entry("recovery_succeeded"@).count("sessions_revoked"@, sessions_revoked).id(
        "session_id"@,
        session_id,
    )
}

pub fn recovery_succeeded(sessions_revoked: u64, session_id: Uuid) -> (e: AuditEntry)
    ensures
        e@ == recovery_succeeded_entry(sessions_revoked, session_id),
{
    AuditEntry::new("recovery_succeeded").count("sessions_revoked", sessions_revoked).id(
        "session_id",
        session_id,
    )
}

/// A user made a new recovery code.
pub open spec fn code_rotated_entry() -> EntryView {
    entry("recovery_code_rotated"@).text("via"@, "self_service"@)
}

pub fn recovery_code_rotated() -> (e: AuditEntry)
    ensures
        e@ == code_rotated_entry(),
{
    AuditEntry::new("recovery_code_rotated").text("via", "self_service")
}

// ---- Account ---------------------------------------------------------------------------------

/// A user changed their display name.
pub open spec fn profile_entry(old_name: Seq<char>, new_name: Seq<char>) -> EntryView {
    entry("profile_updated"@).text("old_display_name"@, old_name).text(
        "new_display_name"@,
        new_name,
    )
}

pub fn profile_updated(old_name: &str, new_name: &str) -> (e: AuditEntry)
    ensures
        e@ == profile_entry(old_name@, new_name@),
{
    AuditEntry::new("profile_updated").text("old_display_name", old_name).text(
        "new_display_name",
        new_name,
    )
}

/// A user changed their email.
pub open spec fn email_entry(old_email: Seq<char>, new_email: Seq<char>) -> EntryView {
    entry("email_changed"@).text("old_email"@, old_email).text("new_email"@, new_email)
}

pub fn email_changed(old_email: &str, new_email: &str) -> (e: AuditEntry)
    ensures
        e@ == email_entry(old_email@, new_email@),
{
    AuditEntry::new("email_changed").text("old_email", old_email).text("new_email", new_email)
}

/// A user changed their password, which ended their other sessions.
pub open spec fn password_entry(other_sessions_revoked: u64) -> EntryView {
    entry("password_changed"@).count("other_sessions_revoked"@, other_sessions_revoked)
}

pub fn password_changed(other_sessions_revoked: u64) -> (e: AuditEntry)
    ensures
        e@ == password_entry(other_sessions_revoked),
{
    AuditEntry::new("password_changed").count("other_sessions_revoked", other_sessions_revoked)
}

/// A user ended one of their sessions.
pub open spec fn session_revoked_entry(session_id: Uuid, current: Uuid) -> EntryView {
    entry("session_revoked_by_user"@).id("session_id"@, session_id).flag(
        "was_current"@,
        session_id == current,
    )
}

pub fn session_revoked(session_id: Uuid, current: Uuid) -> (e: AuditEntry)
    ensures
        e@ == session_revoked_entry(session_id, current),
{
    AuditEntry::new("session_revoked_by_user").id("session_id", session_id).flag(
        "was_current",
        session_id == current,
    )
}

/// A user ended their other sessions; there is nothing to report where there were none.
pub open spec fn sessions_revoked_entry(count: u64) -> Option<EntryView> {
    if count > 0 {
        Some(entry("sessions_revoked_by_user"@).count("count"@, count))
    } else {
        None
    }
}

pub fn sessions_revoked(count: u64) -> (r: Option<AuditEntry>)
    ensures
        of(r) == sessions_revoked_entry(count),
{
    if count > 0 {
        Some(AuditEntry::new("sessions_revoked_by_user").count("count", count))
    } else {
        None
    }
}

/// A user enrolled an authenticator.
pub open spec fn totp_enrolled_entry(credential_id: Uuid) -> EntryView {
    entry("totp_enrolled"@).id("credential_id"@, credential_id)
}

pub fn totp_enrolled(credential_id: Uuid) -> (e: AuditEntry)
    ensures
        e@ == totp_enrolled_entry(credential_id),
{
    AuditEntry::new("totp_enrolled").id("credential_id", credential_id)
}

/// A user removed an authenticator; there is nothing to report where it was not there.
pub open spec fn totp_removed_entry(removed: bool, credential_id: Uuid) -> Option<EntryView> {
    if removed {
        Some(entry("totp_removed"@).id("credential_id"@, credential_id))
    } else {
        None
    }
}

pub fn totp_removed(removed: bool, credential_id: Uuid) -> (r: Option<AuditEntry>)
    ensures
        of(r) == totp_removed_entry(removed, credential_id),
{
    if removed {
        Some(AuditEntry::new("totp_removed").id("credential_id", credential_id))
    } else {
        None
    }
}

/// A user enrolled a passkey.
pub open spec fn passkey_registered_entry() -> EntryView {
    entry("passkey_registered"@)
}

pub fn passkey_registered() -> (e: AuditEntry)
    ensures
        e@ == passkey_registered_entry(),
{
    AuditEntry::new("passkey_registered")
}

/// A user removed a passkey; there is nothing to report where it was not there.
pub open spec fn passkey_removed_entry(removed: bool, credential_id: Uuid) -> Option<EntryView> {
    if removed {
        Some(entry("passkey_removed"@).id("credential_id"@, credential_id))
    } else {
        None
    }
}

pub fn passkey_removed(removed: bool, credential_id: Uuid) -> (r: Option<AuditEntry>)
    ensures
        of(r) == passkey_removed_entry(removed, credential_id),
{
    if removed {
        Some(AuditEntry::new("passkey_removed").id("credential_id", credential_id))
    } else {
        None
    }
}

// ---- Apps ------------------------------------------------------------------------------------

/// An owner enabled or disabled an app; `status` is its new one.
pub open spec fn app_status_entry(enabled: bool, app_id: Uuid, identifier: Seq<char>, status: Seq<char>) -> EntryView {
    entry(if enabled { "app_enabled"@ } else { "app_disabled"@ }).id("app_id"@, app_id).text(
        "app_identifier"@,
        identifier,
    ).text("status"@, status)
}

pub fn app_status_changed(enabled: bool, app_id: Uuid, identifier: &str, status: &str) -> (e: AuditEntry)
    ensures
        e@ == app_status_entry(enabled, app_id, identifier@, status@),
{
    let event_type: &'static str = if enabled { "app_enabled" } else { "app_disabled" };
    AuditEntry::new(event_type).id("app_id", app_id).text("app_identifier", identifier).text(
        "status",
        status,
    )
}

/// An owner removed an app with everything it stored.
pub open spec fn app_uninstalled_entry(app_id: Uuid, identifier: Seq<char>) -> EntryView {
    entry("app_uninstalled"@).id("app_id"@, app_id).text("app_identifier"@, identifier)
}

pub fn app_uninstalled(app_id: Uuid, identifier: &str) -> (e: AuditEntry)
    ensures
        e@ == app_uninstalled_entry(app_id, identifier@),
{
    AuditEntry::new("app_uninstalled").id("app_id", app_id).text("app_identifier", identifier)
}

/// The key fields of a resource that was removed for good.
pub struct DeletedResource {
    pub id: Uuid,
    pub app_id: Uuid,
    pub resource_type: String,
    pub app_resource_id: Uuid,
    pub owner_user_id: Option<Uuid>,
}

/// An owner removed a resource for good.
pub open spec fn resource_deleted_entry(d: &DeletedResource) -> EntryView {
    entry("resource_deleted"@).id("resource_id"@, d.id).id("app_id"@, d.app_id).text(
        "resource_type"@,
        d.resource_type@,
    ).id("app_resource_id"@, d.app_resource_id).field(
        "owner_user_id"@,
        match d.owner_user_id {
            Some(id) => FieldValueView::Id(id),
            None => FieldValueView::Null,
        },
    )
}

pub fn resource_deleted(d: &DeletedResource) -> (e: AuditEntry)
    ensures
        e@ == resource_deleted_entry(d),
{
    let owner = match d.owner_user_id {
        Some(id) => FieldValue::Id(id),
        None => FieldValue::Null,
    };
    AuditEntry::new("resource_deleted").id("resource_id", d.id).id("app_id", d.app_id).text(
        "resource_type",
        d.resource_type.as_str(),
    ).id("app_resource_id", d.app_resource_id).field("owner_user_id", owner)
}

/// An owner added a publisher, or replaced its key.
pub open spec fn publisher_added_entry(publisher: Seq<char>) -> EntryView {
    entry("trusted_publisher_added"@).text("publisher"@, publisher)
}

pub fn trusted_publisher_added(publisher: &str) -> (e: AuditEntry)
    ensures
        e@ == publisher_added_entry(publisher@),
{
    AuditEntry::new("trusted_publisher_added").text("publisher", publisher)
}

/// An owner removed a publisher; there is nothing to report where it was not listed.
pub open spec fn publisher_removed_entry(removed: bool, publisher: Seq<char>) -> Option<EntryView> {
    if removed {
        Some(entry("trusted_publisher_removed"@).text("publisher"@, publisher))
    } else {
        None
    }
}

pub fn trusted_publisher_removed(removed: bool, publisher: &str) -> (r: Option<AuditEntry>)
    ensures
        of(r) == publisher_removed_entry(removed, publisher@),
{
    if removed {
        Some(AuditEntry::new("trusted_publisher_removed").text("publisher", publisher))
    } else {
        None
    }
}

} // verus!
