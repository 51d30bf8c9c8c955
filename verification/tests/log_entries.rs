use hearth_web::audit::{
    app_status_changed, app_uninstalled, audit_reauth, email_changed, mfa_failed,
    passkey_registered, passkey_removed, password_changed, profile_updated, recovery_attempt,
    recovery_code_rotated, recovery_succeeded, recovery_unknown, resource_deleted,
    session_revoked, sessions_revoked, signin_success, signin_success_with, signout,
    totp_enrolled, totp_removed, trusted_publisher_added, trusted_publisher_removed, AuditEntry,
    DeletedResource, FieldValue,
};
use hearth_web::flows::account::{EmailAsk, PasswordAsk, ProfileAsk, RotateCode};
use hearth_web::flows::apps::{AppChange, DeleteResource, NewPublisher, RemovePublisher};
use hearth_web::flows::devices::DeviceAsk;
use hearth_web::flows::factors::{ConfirmAsk, FactorAsk, FactorKind};
use hearth_web::flows::recovery::{RecoverAsk, ResetAsk};
use hearth_web::model::{RegisteredAppRow, Uuid};

const ID: Uuid = Uuid { value: 3 };

fn shown(e: &AuditEntry) -> String {
    let mut s = e.event_type.to_string();
    for f in &e.data {
        let v = match &f.value {
            FieldValue::Text(t) => t.clone(),
            FieldValue::Id(id) => format!("#{}", id.value),
            FieldValue::Count(n) => n.to_string(),
            FieldValue::Flag(b) => b.to_string(),
            FieldValue::Null => "null".to_string(),
        };
        s = format!("{s} {}={v}", f.key);
    }
    s
}

#[test]
fn entries_say_what_happened() {
    assert_eq!(shown(&signin_success("a@b.c", ID)), "signin_success email=a@b.c session_id=#3 via=web");
    assert_eq!(shown(&signin_success_with("a@b.c", ID, "totp")), "signin_success email=a@b.c session_id=#3 via=web mfa=totp");
    assert_eq!(shown(&signout(ID)), "signout session_id=#3 via=web");
    assert_eq!(shown(&mfa_failed("totp")), "mfa_failed via=web factor=totp");
    assert_eq!(shown(&audit_reauth("password", true)), "reauth_success factor=password");
    assert_eq!(shown(&audit_reauth("password", false)), "reauth_failed factor=password");
    assert_eq!(shown(&recovery_attempt(true)), "recovery_started via=web");
    assert_eq!(shown(&recovery_attempt(false)), "recovery_failed via=web");
    assert_eq!(shown(&recovery_unknown("a@b.c")), "recovery_failed email=a@b.c reason=unknown_or_inactive");
    assert_eq!(shown(&recovery_succeeded(2, ID)), "recovery_succeeded sessions_revoked=2 session_id=#3");
    assert_eq!(shown(&recovery_code_rotated()), "recovery_code_rotated via=self_service");
    assert_eq!(shown(&profile_updated("A", "B")), "profile_updated old_display_name=A new_display_name=B");
    assert_eq!(shown(&email_changed("a", "b")), "email_changed old_email=a new_email=b");
    assert_eq!(shown(&password_changed(4)), "password_changed other_sessions_revoked=4");
    assert_eq!(shown(&session_revoked(ID, ID)), "session_revoked_by_user session_id=#3 was_current=true");
    assert_eq!(shown(&session_revoked(ID, Uuid { value: 4 })), "session_revoked_by_user session_id=#3 was_current=false");
    assert_eq!(shown(&totp_enrolled(ID)), "totp_enrolled credential_id=#3");
    assert_eq!(shown(&passkey_registered()), "passkey_registered");
    assert_eq!(shown(&app_status_changed(true, ID, "x", "enabled")), "app_enabled app_id=#3 app_identifier=x status=enabled");
    assert_eq!(shown(&app_status_changed(false, ID, "x", "disabled")), "app_disabled app_id=#3 app_identifier=x status=disabled");
    assert_eq!(shown(&app_uninstalled(ID, "x")), "app_uninstalled app_id=#3 app_identifier=x");
    assert_eq!(shown(&trusted_publisher_added("P")), "trusted_publisher_added publisher=P");
    let d = DeletedResource { id: ID, app_id: Uuid { value: 4 }, resource_type: "note".to_string(), app_resource_id: Uuid { value: 5 }, owner_user_id: None };
    assert_eq!(shown(&resource_deleted(&d)), "resource_deleted resource_id=#3 app_id=#4 resource_type=note app_resource_id=#5 owner_user_id=null");
}

#[test]
fn actions_carry_their_entries() {
    let of = |e: Option<AuditEntry>| e.map(|e| shown(&e)).unwrap_or_default();
    let code = RecoverAsk::VerifyCode { user: ID, code: "c".to_string() };
    assert_eq!(of(code.entry(true)), "recovery_started via=web");
    assert_eq!(of(code.entry(false)), "recovery_failed via=web");
    assert_eq!(of(RecoverAsk::ResetToken(ID).entry(true)), "");
    let reset = ResetAsk::Apply { user: ID, hash: "h".to_string() };
    assert_eq!(of(reset.entry(2, ID)), "recovery_succeeded sessions_revoked=2 session_id=#3");
    assert_eq!(of(ResetAsk::User(ID).entry(2, ID)), "");
    let name = ProfileAsk::Rename { user: ID, old: "A".to_string(), name: "B".to_string() };
    assert_eq!(shown(&name.entry("B")), "profile_updated old_display_name=A new_display_name=B");
    let email = EmailAsk::Change { user: ID, old: "a".to_string(), email: "b".to_string() };
    assert_eq!(of(email.entry("b")), "email_changed old_email=a new_email=b");
    assert_eq!(of(EmailAsk::InUse("b".to_string()).entry("b")), "");
    let password = PasswordAsk::Change { user: ID, hash: "h".to_string(), keep: ID };
    assert_eq!(of(password.entry(4)), "password_changed other_sessions_revoked=4");
    assert_eq!(of(PasswordAsk::Hash("p".to_string()).entry(4)), "");
    assert_eq!(shown(&RotateCode { user: ID }.entry()), "recovery_code_rotated via=self_service");
    let device = DeviceAsk::Revoke { user: ID, session: ID, current: ID };
    assert_eq!(of(device.entry(1)), "session_revoked_by_user session_id=#3 was_current=true");
    let others = DeviceAsk::RevokeOthers { user: ID, keep: ID };
    assert_eq!(of(others.entry(2)), "sessions_revoked_by_user count=2");
    assert_eq!(of(others.entry(0)), "");
    assert_eq!(of(DeviceAsk::List(ID).entry(2)), "");
    let enrolled = ConfirmAsk::Confirm { user: ID, cred_id: ID, label: "L".to_string() };
    assert_eq!(of(enrolled.entry()), "totp_enrolled credential_id=#3");
    assert_eq!(of(ConfirmAsk::List(ID).entry()), "");
    for (kind, line) in [
        (FactorKind::Authenticator, "totp_removed credential_id=#3"),
        (FactorKind::Passkey, "passkey_removed credential_id=#3"),
    ] {
        let removal = FactorAsk::Remove { user: ID, kind, id: ID };
        assert_eq!(of(removal.entry(true)), line);
        assert_eq!(of(removal.entry(false)), "");
    }
    let app = RegisteredAppRow {
        id: ID,
        app_identifier: "x".to_string(),
        display_name: "X".to_string(),
        status: "enabled".to_string(),
        resource_types: Vec::new(),
    };
    let on = AppChange::SetStatus { id: ID, enabled: true, status: "enabled" };
    assert_eq!(shown(&on.entry(&app)), "app_enabled app_id=#3 app_identifier=x status=enabled");
    let off = AppChange::SetStatus { id: ID, enabled: false, status: "disabled" };
    assert_eq!(shown(&off.entry(&app)), "app_disabled app_id=#3 app_identifier=x status=disabled");
    assert_eq!(shown(&AppChange::Uninstall(ID).entry(&app)), "app_uninstalled app_id=#3 app_identifier=x");
    let d = DeletedResource { id: ID, app_id: ID, resource_type: "note".to_string(), app_resource_id: ID, owner_user_id: Some(ID) };
    assert_eq!(
        shown(&DeleteResource { app: ID, id: ID }.entry(&d)),
        "resource_deleted resource_id=#3 app_id=#3 resource_type=note app_resource_id=#3 owner_user_id=#3"
    );
    let added = NewPublisher { publisher: "P".to_string(), key: Vec::new() };
    assert_eq!(shown(&added.entry()), "trusted_publisher_added publisher=P");
    let gone = RemovePublisher { publisher: "P".to_string() };
    assert_eq!(of(gone.entry(true)), "trusted_publisher_removed publisher=P");
    assert_eq!(of(gone.entry(false)), "");
}

#[test]
fn nothing_done_is_nothing_logged() {
    assert!(sessions_revoked(0).is_none());
    assert_eq!(shown(&sessions_revoked(2).unwrap()), "sessions_revoked_by_user count=2");
    assert!(totp_removed(false, ID).is_none());
    assert_eq!(shown(&totp_removed(true, ID).unwrap()), "totp_removed credential_id=#3");
    assert!(passkey_removed(false, ID).is_none());
    assert_eq!(shown(&passkey_removed(true, ID).unwrap()), "passkey_removed credential_id=#3");
    assert!(trusted_publisher_removed(false, "P").is_none());
    assert_eq!(shown(&trusted_publisher_removed(true, "P").unwrap()), "trusted_publisher_removed publisher=P");
}
