use hearth_web::flows::account::{
    account_settings_modal, me_email_submit, me_page, me_password_submit, me_profile_submit,
    me_recovery_regenerate, pending_count_for, wants_pending_count, EmailAnswers, EmailAsk,
    NewRecoveryCode, PasswordAnswers, PasswordAsk, ProfileAsk, RotateCode, SettingsData,
};
use hearth_web::flows::devices::{
    active_sessions, me_session_rename, me_session_revoke, me_sessions_revoke_others,
    sessions_section_response, DeviceAsk,
};
use hearth_web::flows::factors::{
    image_or_empty, me_passkey_delete, me_passkey_finish, me_passkey_rename, me_passkey_start,
    me_totp_confirm, me_totp_delete, me_totp_rename, me_totp_start, passkey_section_response,
    render_qr_svg, totp_section_response, Ceremony, ConfirmAnswers, ConfirmAsk, EnrollAsk,
    Enrollment, FactorAsk, FactorKind, PasskeyFinishAsk,
};
use hearth_web::flows::login::Factors;
use hearth_web::flows::reauth::{me_reauth_submit, reauth_modal, ReauthAnswers, ReauthAsk};
use hearth_web::flows::step::{Asked, Finish, Step};
use hearth_web::forms::{
    clean, clean_label, device_nickname, looks_like_email, MeEmailForm, MePasskeyFinishForm,
    MePasswordForm, MeProfileForm, MeReauthForm, MeTotpConfirmForm, MeTotpRenameForm,
    SessionRenameForm,
};
use hearth_web::gate::Caller;
use hearth_web::model::{
    InstanceRole, Session, Timestamp, TotpCredential, User, UserLifecycle, Uuid,
    WebauthnCredentialRow,
};
use hearth_web::reply::{Content, Reply};
use hearth_web::views::security::{FactorLimits, SectionMode};
use hearth_web::views::shell::{ChromeContext, SiteInfo};

const USER: Uuid = Uuid { value: 42 };
const OTHER: Uuid = Uuid { value: 43 };

fn site() -> SiteInfo {
    SiteInfo { asset_version: "abc".to_string(), release: "1.2.3".to_string() }
}

fn at(secs: i64) -> Timestamp {
    Timestamp::new(secs, 0).unwrap()
}

fn user() -> User {
    User {
        id: USER,
        email: "ada@example.org".to_string(),
        display_name: "Ada".to_string(),
        instance_role: InstanceRole::Member,
        lifecycle: UserLifecycle::Active,
        created_at: at(0),
    }
}

fn ctx<'a>(site: &'a SiteInfo, user: &'a User) -> ChromeContext<'a> {
    ChromeContext { site, instance_name: "Home", user, csrf_token: "csrf", pending_count: None }
}

fn caller<'a>(site: &'a SiteInfo, csrf_ok: bool, sudo: Option<Uuid>) -> Caller<'a> {
    Caller { site, user_id: USER, role: InstanceRole::Member, csrf_ok, sudo, critical: None, htmx: true }
}

fn page(r: &Reply) -> (u16, &str) {
    match &r.content {
        Content::Page { status, html } => (*status, html.as_str()),
        _ => panic!("not a page"),
    }
}

fn finished<Q>(s: Step<Q>) -> Finish {
    match s {
        Step::Finish(f) => f,
        Step::Ask(_) => panic!("a question"),
    }
}

fn is_unconfirmed(r: &Reply) -> bool {
    matches!(&r.content, Content::Text { status: 403, text } if text == "Please confirm it's you and try again.")
}

#[test]
fn badges_are_for_owners() {
    assert!(wants_pending_count(InstanceRole::Owner));
    assert!(!wants_pending_count(InstanceRole::Admin));
    assert_eq!(pending_count_for(InstanceRole::Owner, Some(3)), Some(3));
    assert_eq!(pending_count_for(InstanceRole::Owner, None), None);
    assert_eq!(pending_count_for(InstanceRole::Admin, Some(3)), None);
}

#[test]
fn the_account_page_shows_the_account() {
    let (s, u) = (site(), user());
    let r = me_page(&ctx(&s, &u));
    let (status, html) = page(&r);
    assert_eq!(status, 200);
    assert!(html.starts_with("<!DOCTYPE html>"));
    assert!(html.contains("Ada"));
    let data = SettingsData {
        recovery: None,
        authenticators: Some(Vec::new()),
        passkeys: None,
        passkey_available: true,
        limits: FactorLimits { authenticators: 5, passkeys: 10 },
        sessions: Some(vec![session(1, 5, false), session(2, 50, false)]),
        current_session: OTHER,
        last_owner: false,
    };
    let r = account_settings_modal(&ctx(&s, &u), data, &at(10));
    assert!(page(&r).1.contains("ada@example.org"));
    assert!(page(&r).1.contains(&Uuid { value: 2 }.text()));
    assert!(!page(&r).1.contains(&Uuid { value: 1 }.text()));
}

#[test]
fn names_are_trimmed_and_never_blank() {
    let (s, u) = (site(), user());
    let c = caller(&s, true, None);
    let x = ctx(&s, &u);
    let f = |n: &str| MeProfileForm { csrf_token: String::new(), display_name: n.to_string() };
    let bad = caller(&s, false, None);
    assert_eq!(page(&finished(me_profile_submit(&bad, &x, &f("B"), &Asked::NotYet)).reply).0, 403);
    let done = finished(me_profile_submit(&c, &x, &f("  "), &Asked::NotYet));
    assert!(page(&done.reply).1.contains("Display name can't be blank."));
    assert!(matches!(
        me_profile_submit(&c, &x, &f(" Grace "), &Asked::NotYet),
        Step::Ask(ProfileAsk::Rename { user: USER, ref name, ref old }) if name == "Grace" && old == &u.display_name
    ));
    let renamed = User { display_name: "Grace".to_string(), ..user() };
    let done = finished(me_profile_submit(&c, &x, &f("Grace"), &Asked::Answer(renamed)));
    let html = page(&done.reply).1;
    assert!(html.contains("Profile updated.") && html.contains("value=\"Grace\""));
    let done = finished(me_profile_submit(&c, &x, &f("Grace"), &Asked::Failed));
    let html = page(&done.reply).1;
    assert!(html.contains("Something went wrong. Try again.") && html.contains("value=\"Ada\""));
}

#[test]
fn emails_change_after_a_confirmation() {
    let s = site();
    let f = |e: &str| MeEmailForm { csrf_token: String::new(), email: e.to_string() };
    let mut a = EmailAnswers { in_use: Asked::NotYet, changed: Asked::NotYet };
    let c = caller(&s, true, Some(USER));
    for other in [None, Some(OTHER)] {
        let unconfirmed = caller(&s, true, other);
        assert!(is_unconfirmed(&finished(me_email_submit(&unconfirmed, "a@b.c", &f("x@y.z"), &a)).reply));
    }
    for bad in ["", "x", "@y.z", "x@", "x@yz", "x@y@"] {
        let r = finished(me_email_submit(&c, "a@b.c", &f(bad), &a)).reply;
        assert_eq!(r.hx_redirect.as_deref(), Some("/me"));
        assert!(r.hx_trigger.unwrap().contains("Action failed"), "{bad}");
    }
    let r = finished(me_email_submit(&c, "a@b.c", &f(" a@b.c "), &a)).reply;
    assert!(r.hx_trigger.is_some());
    let plain = Caller { htmx: false, ..caller(&s, true, Some(USER)) };
    for (email, told) in [("x", "Action failed"), ("a@b.c", "hearth-toast")] {
        let r = finished(me_email_submit(&plain, "a@b.c", &f(email), &a)).reply;
        assert!(matches!(r.content, Content::Redirect { ref to } if to == "/me"));
        assert!(r.hx_trigger.unwrap().contains(told));
    }
    assert!(matches!(me_email_submit(&c, "a@b.c", &f(" x@y.z "), &a), Step::Ask(EmailAsk::InUse(ref e)) if e == "x@y.z"));
    a.in_use = Asked::Answer(true);
    let r = finished(me_email_submit(&c, "a@b.c", &f("x@y.z"), &a)).reply;
    assert!(r.hx_trigger.unwrap().contains("Action failed"));
    a.in_use = Asked::Answer(false);
    assert!(matches!(me_email_submit(&c, "a@b.c", &f("x@y.z"), &a), Step::Ask(EmailAsk::Change { user: USER, ref old, email: ref e }) if e == "x@y.z" && old == "a@b.c"));
    a.changed = Asked::Answer(());
    let r = finished(me_email_submit(&c, "a@b.c", &f("x@y.z"), &a)).reply;
    assert!(r.hx_trigger.unwrap().contains("success"));
    a.changed = Asked::Failed;
    assert_eq!(page(&finished(me_email_submit(&c, "a@b.c", &f("x@y.z"), &a)).reply).0, 500);
}

#[test]
fn passwords_change_after_a_confirmation() {
    let s = site();
    let f = |p: &str| MePasswordForm { csrf_token: String::new(), new_password: p.to_string() };
    let mut a = PasswordAnswers { hashed: Asked::NotYet, changed: Asked::NotYet };
    let c = caller(&s, true, Some(USER));
    let r = finished(me_password_submit(&caller(&s, true, None), OTHER, &f(""), &a)).reply;
    assert_eq!(r.hx_redirect.as_deref(), Some("/me"));
    let plain = Caller { htmx: false, ..caller(&s, true, None) };
    let r = finished(me_password_submit(&plain, OTHER, &f(""), &a)).reply;
    assert!(matches!(r.content, Content::Redirect { ref to } if to == "/me"));
    assert!(r.hx_trigger.unwrap().contains("Action failed"));
    assert!(is_unconfirmed(&finished(me_password_submit(&caller(&s, true, None), OTHER, &f("p"), &a)).reply));
    assert!(matches!(me_password_submit(&c, OTHER, &f(" p "), &a), Step::Ask(PasswordAsk::Hash(ref p)) if p == " p "));
    a.hashed = Asked::Answer("phc".to_string());
    assert!(matches!(me_password_submit(&c, OTHER, &f("p"), &a), Step::Ask(PasswordAsk::Change { user: USER, ref hash, keep: OTHER }) if hash == "phc"));
    a.changed = Asked::Answer(());
    assert_eq!(page(&finished(me_password_submit(&c, OTHER, &f("p"), &a)).reply).0, 200);
    a.hashed = Asked::Failed;
    assert_eq!(page(&finished(me_password_submit(&c, OTHER, &f("p"), &a)).reply).0, 500);
}

#[test]
fn a_new_recovery_code_is_shown_once() {
    let s = site();
    let c = caller(&s, true, Some(USER));
    assert!(is_unconfirmed(&finished(me_recovery_regenerate(&caller(&s, true, None), &Asked::NotYet)).reply));
    assert!(matches!(me_recovery_regenerate(&c, &Asked::NotYet), Step::Ask(RotateCode { user: USER })));
    let new = NewRecoveryCode { code: "AAAA-BBBB".to_string(), meta: None };
    let done = finished(me_recovery_regenerate(&c, &Asked::Answer(new)));
    assert!(page(&done.reply).1.contains("AAAA-BBBB"));
    assert_eq!(page(&finished(me_recovery_regenerate(&c, &Asked::Failed)).reply).0, 500);
}

fn reauth_form(password: Option<&str>, code: Option<&str>, passkey: Option<&str>, challenge: Option<Uuid>) -> MeReauthForm {
    MeReauthForm {
        csrf_token: String::new(),
        password: password.map(str::to_string),
        code: code.map(str::to_string),
        challenge_id: challenge,
        passkey: passkey.map(str::to_string),
        critical: None,
    }
}

fn reauth_answers(totp: bool, passkey: bool) -> ReauthAnswers {
    ReauthAnswers {
        factors: Some(Factors { totp, passkey }),
        allowed: Some(true),
        passkey: Asked::NotYet,
        password: Asked::NotYet,
        totp: Asked::NotYet,
        grant: None,
    }
}

#[test]
fn a_confirmation_is_as_strong_as_the_account() {
    let (s, u) = (site(), user());
    let x = ctx(&s, &u);
    let c = caller(&s, true, None);

    let mut a = reauth_answers(false, false);
    let f = reauth_form(Some("pw"), None, None, None);
    assert!(matches!(me_reauth_submit(&c, &x, false, &f, &a), Step::Ask(ReauthAsk::Password { user: USER, password: ref p }) if p == "pw"));
    a.password = Asked::Answer(true);
    assert!(matches!(me_reauth_submit(&c, &x, false, &f, &a), Step::Ask(ReauthAsk::Grant { user: USER, critical: false })));
    a.grant = Some("g".to_string());
    let done = finished(me_reauth_submit(&c, &x, true, &f, &a));
    assert!(matches!(done.reply.content, Content::Empty { status: 204 }));
    assert_eq!(done.reply.hx_trigger.as_deref(), Some("reauth-ok"));
    assert_eq!(done.reply.cookies, vec!["hearth_sudo=g; Path=/; Max-Age=300; HttpOnly; SameSite=Lax; Secure".to_string()]);
    assert_eq!(done.audit.unwrap().event_type, "reauth_success");

    let mut a = reauth_answers(true, true);
    let f = reauth_form(Some("pw"), Some(" 123 "), None, None);
    a.password = Asked::Answer(true);
    assert!(matches!(me_reauth_submit(&c, &x, false, &f, &a), Step::Ask(ReauthAsk::Totp { user: USER, code: ref t }) if t == "123"));
    a.totp = Asked::Answer(false);
    let done = finished(me_reauth_submit(&c, &x, false, &f, &a));
    assert_eq!(done.record_failure.as_deref(), Some("reauth:00000000-0000-0000-0000-00000000002a"));
    assert_eq!(done.audit.unwrap().event_type, "reauth_failed");
    assert!(page(&done.reply).1.contains("That authenticator code didn't match."));
    a.totp = Asked::Answer(true);
    assert!(matches!(me_reauth_submit(&c, &x, false, &f, &a), Step::Ask(ReauthAsk::Grant { user: USER, critical: false })));

    let a = reauth_answers(false, true);
    let done = finished(me_reauth_submit(&c, &x, false, &reauth_form(Some("pw"), None, None, None), &a));
    assert!(page(&done.reply).1.contains("Verify with your passkey to continue."));

    let mut a = reauth_answers(false, true);
    let f = reauth_form(None, None, Some("{}"), None);
    let done = finished(me_reauth_submit(&c, &x, false, &f, &a));
    assert!(page(&done.reply).1.contains("Passkey verification failed. Try again."));
    let f = reauth_form(None, None, Some("{}"), Some(OTHER));
    assert!(matches!(me_reauth_submit(&c, &x, false, &f, &a), Step::Ask(ReauthAsk::Passkey { user: USER, challenge_id, .. }) if challenge_id == OTHER));
    a.passkey = Asked::Answer(false);
    let done = finished(me_reauth_submit(&c, &x, false, &f, &a));
    assert_eq!(done.record_failure.as_deref(), Some("reauth:00000000-0000-0000-0000-00000000002a"));
    assert!(page(&done.reply).1.contains("That passkey didn't work. Try again."));
    a.passkey = Asked::Answer(true);
    assert!(matches!(me_reauth_submit(&c, &x, false, &f, &a), Step::Ask(ReauthAsk::Grant { user: USER, critical: false })));

    let mut a = reauth_answers(false, false);
    let done = finished(me_reauth_submit(&c, &x, false, &reauth_form(None, None, None, None), &a));
    assert!(page(&done.reply).1.contains("Enter your password to continue."));
    a.password = Asked::Answer(false);
    let done = finished(me_reauth_submit(&c, &x, false, &reauth_form(Some("x"), None, None, None), &a));
    assert!(page(&done.reply).1.contains("That password is incorrect."));
    a.allowed = Some(false);
    let done = finished(me_reauth_submit(&c, &x, false, &reauth_form(Some("x"), None, None, None), &a));
    assert!(page(&done.reply).1.contains("Too many attempts."));
    let bad = caller(&s, false, None);
    assert_eq!(page(&finished(me_reauth_submit(&bad, &x, false, &f, &a)).reply).0, 403);
}

#[test]
fn the_dialog_knows_a_fresh_confirmation() {
    let (s, u) = (site(), user());
    let x = ctx(&s, &u);
    let f = Factors { totp: false, passkey: false };
    let fresh = reauth_modal(&x, f, Some(USER), &None);
    let stale = reauth_modal(&x, f, Some(OTHER), &None);
    let none = reauth_modal(&x, f, None, &None);
    assert_ne!(page(&fresh).1, page(&stale).1);
    assert_eq!(page(&stale).1, page(&none).1);
    let critical = page(&reauth_modal(&x, f, Some(USER), &Some("1".to_string()))).1.to_string();
    assert!(page(&fresh).1.contains("data-sudo-fresh"));
    assert!(!critical.contains("data-sudo-fresh"));
    assert!(critical.contains("name=\"critical\" value=\"1\""));
    assert_eq!(page(&reauth_modal(&x, f, Some(USER), &Some("0".to_string()))).1, page(&fresh).1);
}

#[test]
fn a_critical_confirmation_stays_critical() {
    let (s, u) = (site(), user());
    let x = ctx(&s, &u);
    let c = caller(&s, true, None);
    let mut f = reauth_form(Some("pw"), None, None, None);
    let mut a = reauth_answers(false, false);
    for (field, critical) in [(Some("1"), true), (Some("yes"), false), (None, false)] {
        f.critical = field.map(str::to_string);
        a.password = Asked::Answer(false);
        let again = page(&finished(me_reauth_submit(&c, &x, false, &f, &a)).reply).1.to_string();
        assert_eq!(again.contains("name=\"critical\" value=\"1\""), critical);
        a.password = Asked::Answer(true);
        match me_reauth_submit(&c, &x, false, &f, &a) {
            Step::Ask(ReauthAsk::Grant { user: USER, critical: granted }) => assert_eq!(granted, critical),
            _ => panic!("nothing granted"),
        }
    }
}

fn session(n: u128, expires: i64, revoked: bool) -> Session {
    Session {
        id: Uuid { value: n },
        label: None,
        user_agent: Some("Mozilla/5.0 (Windows NT 10.0) Firefox/121.0".to_string()),
        ip_address: None,
        created_at: at(0),
        last_seen_at: None,
        expires_at: at(expires),
        revoked_at: if revoked { Some(at(1)) } else { None },
    }
}

#[test]
fn only_live_sessions_are_listed() {
    let now = at(100);
    let all = vec![session(1, 101, false), session(2, 100, false), session(3, 500, true), session(4, 500, false)];
    let ids: Vec<u128> = active_sessions(all, &now).iter().map(|s| s.id.value).collect();
    assert_eq!(ids, vec![1, 4]);
    let (s, u) = (site(), user());
    let x = ctx(&s, &u);
    let r = sessions_section_response(&x, Some(vec![session(1, 101, false)]), Uuid { value: 1 }, &now, SectionMode::Normal);
    assert!(page(&r).1.contains("Firefox on Windows"));
    let r = sessions_section_response(&x, None, Uuid { value: 1 }, &now, SectionMode::Normal);
    assert_eq!(page(&r).0, 200);
}

#[test]
fn device_actions_stay_with_their_owner() {
    let (s, u) = (site(), user());
    let x = ctx(&s, &u);
    let now = at(100);
    let c = caller(&s, true, None);
    let bad = caller(&s, false, None);
    let sid = Uuid { value: 5 };
    let f = SessionRenameForm { csrf_token: String::new(), label: " Laptop ".to_string() };
    assert!(matches!(
        me_session_rename(&c, &x, sid, &f, OTHER, &Asked::NotYet, None, &now),
        Step::Ask(DeviceAsk::SetLabel { user: USER, session, label: Some(ref l) }) if session == sid && l == "Laptop"
    ));
    let f = SessionRenameForm { csrf_token: String::new(), label: "  ".to_string() };
    assert!(matches!(
        me_session_rename(&c, &x, sid, &f, OTHER, &Asked::NotYet, None, &now),
        Step::Ask(DeviceAsk::SetLabel { user: USER, label: None, .. })
    ));
    assert!(matches!(
        me_session_rename(&c, &x, sid, &f, OTHER, &Asked::Answer(()), None, &now),
        Step::Ask(DeviceAsk::List(USER))
    ));
    let shown = Some(Some(vec![session(5, 200, false), session(6, 99, false)]));
    let done = finished(me_session_rename(&c, &x, sid, &f, OTHER, &Asked::Answer(()), shown, &now));
    assert!(page(&done.reply).1.contains(&sid.text()));
    assert!(!page(&done.reply).1.contains(&Uuid { value: 6 }.text()));
    let done = finished(me_session_rename(&c, &x, sid, &f, OTHER, &Asked::Failed, None, &now));
    assert_eq!(page(&done.reply).0, 500);
    let done = finished(me_session_rename(&bad, &x, sid, &f, OTHER, &Asked::NotYet, None, &now));
    assert_eq!(page(&done.reply).0, 403);

    let revoke = |owner| me_session_revoke(&c, &x, sid, OTHER, owner, &Asked::NotYet, None, &now);
    assert!(matches!(revoke(None), Step::Ask(DeviceAsk::Owner(id)) if id == sid));
    assert!(matches!(revoke(Some(Some(USER))), Step::Ask(DeviceAsk::Revoke { user: USER, session, current: OTHER }) if session == sid));
    assert!(matches!(revoke(Some(Some(OTHER))), Step::Ask(DeviceAsk::List(USER))));
    assert!(matches!(revoke(Some(None)), Step::Ask(DeviceAsk::List(USER))));
    let done = finished(me_session_revoke(&bad, &x, sid, OTHER, Some(Some(USER)), &Asked::NotYet, None, &now));
    assert_eq!(page(&done.reply).0, 403);
    assert!(matches!(
        me_sessions_revoke_others(&c, &x, OTHER, &Asked::NotYet, None, &now),
        Step::Ask(DeviceAsk::RevokeOthers { user: USER, keep }) if keep == OTHER
    ));
    let done = finished(me_sessions_revoke_others(&c, &x, OTHER, &Asked::Failed, None, &now));
    assert_eq!(page(&done.reply).0, 500);
    let done = finished(me_sessions_revoke_others(&bad, &x, OTHER, &Asked::NotYet, None, &now));
    assert_eq!(page(&done.reply).0, 403);
}

#[test]
fn a_qr_code_is_an_svg() {
    let svg = render_qr_svg("otpauth://totp/Home:ada?secret=ABC");
    assert!(svg.contains("<svg"));
    assert!(svg.contains("#101828") && svg.contains("#ffffff"));
    assert_ne!(svg, render_qr_svg("otpauth://totp/Home:ada?secret=ABD"));
    let long: String = "x".repeat(5000);
    assert_eq!(render_qr_svg(&long), "");
    assert_eq!(image_or_empty(None), "");
    assert_eq!(image_or_empty(Some("i".to_string())), "i");
}

fn totp(n: u128, label: &str) -> TotpCredential {
    TotpCredential { id: Uuid { value: n }, label: label.to_string(), created_at: at(0), last_used_at: None }
}

fn passkey(n: u128, label: &str) -> WebauthnCredentialRow {
    WebauthnCredentialRow { id: Uuid { value: n }, label: label.to_string(), created_at: at(0), last_used_at: None }
}

fn enrollment() -> Enrollment {
    Enrollment { cred_id: Uuid { value: 8 }, secret_b32: "JBSWY3DP".to_string(), uri: "otpauth://x".to_string() }
}

#[test]
fn authenticators_are_enrolled() {
    let (s, u) = (site(), user());
    let x = ctx(&s, &u);
    let c = caller(&s, true, Some(USER));
    assert!(is_unconfirmed(&finished(me_totp_start(&caller(&s, true, None), &x, 5, &Asked::NotYet, &Asked::NotYet)).reply));
    assert!(matches!(me_totp_start(&c, &x, 5, &Asked::NotYet, &Asked::NotYet), Step::Ask(EnrollAsk::Count(USER))));
    assert_eq!(page(&finished(me_totp_start(&c, &x, 5, &Asked::Answer(5), &Asked::NotYet)).reply).0, 200);
    assert!(matches!(me_totp_start(&c, &x, 5, &Asked::Answer(4), &Asked::NotYet), Step::Ask(EnrollAsk::Begin(USER))));
    let done = finished(me_totp_start(&c, &x, 5, &Asked::Answer(4), &Asked::Answer(enrollment())));
    assert!(page(&done.reply).1.contains("JBSWY3DP") && page(&done.reply).1.contains("<svg"));

    let f = MeTotpConfirmForm {
        csrf_token: String::new(),
        cred_id: Uuid { value: 8 },
        label: "  ".to_string(),
        code: " 123456 ".to_string(),
    };
    let c = caller(&s, true, None);
    let mut a = ConfirmAnswers { pending: Asked::NotYet, code_ok: None, confirmed: Asked::NotYet, list: None };
    assert!(matches!(me_totp_confirm(&c, &x, &f, 5, &a), Step::Ask(ConfirmAsk::Pending { user: USER, cred_id }) if cred_id.value == 8));
    a.pending = Asked::Answer(None);
    assert_eq!(finished(me_totp_confirm(&c, &x, &f, 5, &a)).reply.hx_redirect.as_deref(), Some("/me"));
    a.pending = Asked::Answer(Some(enrollment()));
    assert!(matches!(me_totp_confirm(&c, &x, &f, 5, &a), Step::Ask(ConfirmAsk::Check { ref secret_b32, ref code }) if secret_b32 == "JBSWY3DP" && code == "123456"));
    a.code_ok = Some(false);
    let done = finished(me_totp_confirm(&c, &x, &f, 5, &a));
    assert!(page(&done.reply).1.contains("That code didn't match. Try again."));
    a.code_ok = Some(true);
    assert!(matches!(me_totp_confirm(&c, &x, &f, 5, &a), Step::Ask(ConfirmAsk::Confirm { user: USER, cred_id, ref label }) if cred_id.value == 8 && label == "Authenticator"));
    a.confirmed = Asked::Answer(());
    assert!(matches!(me_totp_confirm(&c, &x, &f, 5, &a), Step::Ask(ConfirmAsk::List(USER))));
    a.list = Some(vec![totp(8, "Phone")]);
    let done = finished(me_totp_confirm(&c, &x, &f, 5, &a));
    assert!(page(&done.reply).1.contains("Phone"));
    a.confirmed = Asked::Failed;
    assert_eq!(page(&finished(me_totp_confirm(&c, &x, &f, 5, &a)).reply).0, 500);
}

#[test]
fn authenticators_are_named_and_removed() {
    let (s, u) = (site(), user());
    let x = ctx(&s, &u);
    let c = caller(&s, true, None);
    let f = MeTotpRenameForm { csrf_token: String::new(), label: " Work phone ".to_string() };
    let id = Uuid { value: 1 };
    assert!(matches!(
        me_totp_rename(&c, &x, id, &f, 5, &Asked::NotYet, None),
        Step::Ask(FactorAsk::Rename { user: USER, id: at, ref label }) if at == id && label == "Work phone"
    ));
    assert!(matches!(me_totp_rename(&c, &x, id, &f, 5, &Asked::Answer(()), None), Step::Ask(FactorAsk::List(USER))));
    let done = finished(me_totp_rename(&c, &x, id, &f, 5, &Asked::Answer(()), Some(Some(vec![totp(1, "Phone")]))));
    assert!(page(&done.reply).1.contains("Phone"));
    for (stored, list) in [(Asked::Failed, None), (Asked::Answer(()), Some(None))] {
        assert_eq!(page(&finished(me_totp_rename(&c, &x, id, &f, 5, &stored, list)).reply).0, 500);
    }
    let bad = caller(&s, false, None);
    assert_eq!(page(&finished(me_totp_rename(&bad, &x, id, &f, 5, &Asked::NotYet, None)).reply).0, 403);
    assert_eq!(page(&totp_section_response(&x, None, SectionMode::Normal, 5)).0, 500);

    let unconfirmed = finished(me_totp_delete(&c, &x, id, 5, &Asked::NotYet, None));
    assert!(matches!(
        unconfirmed.reply.content,
        Content::Text { status: 403, ref text } if text == "Please confirm it's you and try again."
    ));
    let c = caller(&s, true, Some(USER));
    assert!(matches!(me_totp_delete(&c, &x, id, 5, &Asked::NotYet, None), Step::Ask(FactorAsk::Remove { user: USER, kind: FactorKind::Authenticator, id: at }) if at == id));
    assert!(matches!(me_totp_delete(&c, &x, id, 5, &Asked::Answer(()), None), Step::Ask(FactorAsk::List(USER))));
    let done = finished(me_totp_delete(&c, &x, id, 5, &Asked::Answer(()), Some(Some(Vec::new()))));
    assert!(page(&done.reply).1.contains("That was your last authenticator app."));
    let done = finished(me_totp_delete(&c, &x, id, 5, &Asked::Answer(()), Some(Some(vec![totp(2, "P")]))));
    assert!(page(&done.reply).1.contains("The authenticator has been removed."));
    for (removed, list) in [(Asked::Failed, None), (Asked::Answer(()), Some(None))] {
        assert_eq!(page(&finished(me_totp_delete(&c, &x, id, 5, &removed, list)).reply).0, 500);
    }
}

#[test]
fn passkeys_are_enrolled_named_and_removed() {
    let (s, u) = (site(), user());
    let x = ctx(&s, &u);
    let c = caller(&s, true, Some(USER));
    assert!(matches!(me_passkey_start(&c, &x, 2, &Asked::NotYet, &Asked::NotYet), Step::Ask(EnrollAsk::Count(USER))));
    assert_eq!(page(&finished(me_passkey_start(&c, &x, 2, &Asked::Answer(2), &Asked::NotYet)).reply).0, 200);
    assert!(matches!(me_passkey_start(&c, &x, 2, &Asked::Answer(1), &Asked::NotYet), Step::Ask(EnrollAsk::Begin(USER))));
    let begun = Asked::Answer(Ceremony { challenge_id: OTHER, options_json: "{\"a\":1}".to_string() });
    let done = finished(me_passkey_start(&c, &x, 2, &Asked::Answer(1), &begun));
    assert!(page(&done.reply).1.contains(&OTHER.text()));

    let f = MePasskeyFinishForm {
        csrf_token: String::new(),
        challenge_id: OTHER,
        label: "Key".to_string(),
        credential: "{}".to_string(),
    };
    assert!(matches!(
        me_passkey_finish(&c, &x, &f, true, 2, None, &None),
        Step::Ask(PasskeyFinishAsk::Register { user: USER, challenge_id, ref label, .. }) if challenge_id == OTHER && label == "Key"
    ));
    let done = finished(me_passkey_finish(&c, &x, &f, true, 2, Some(false), &None));
    assert!(page(&done.reply).1.contains("We couldn't register that passkey. Please try again."));
    assert!(done.audit.is_none());
    assert!(matches!(me_passkey_finish(&c, &x, &f, true, 2, Some(true), &None), Step::Ask(PasskeyFinishAsk::List(USER))));
    let done = finished(me_passkey_finish(&c, &x, &f, true, 2, Some(true), &Some(vec![passkey(1, "Yubi")])));
    assert!(page(&done.reply).1.contains("Yubi"));
    assert_eq!(done.audit.unwrap().event_type, "passkey_registered");
    let f = MeTotpRenameForm { csrf_token: String::new(), label: "Yubi".to_string() };
    let id = Uuid { value: 1 };
    assert!(matches!(
        me_passkey_rename(&c, &x, id, &f, true, 2, &Asked::NotYet, None),
        Step::Ask(FactorAsk::Rename { user: USER, ref label, .. }) if label == "Yubi"
    ));
    let list = Some(Some(vec![passkey(1, "Yubi")]));
    let done = finished(me_passkey_rename(&c, &x, id, &f, true, 2, &Asked::Answer(()), list));
    assert!(page(&done.reply).1.contains("Yubi"));
    let done = finished(me_passkey_rename(&c, &x, id, &f, true, 2, &Asked::Failed, None));
    assert_eq!(page(&done.reply).0, 500);
    assert_eq!(page(&passkey_section_response(&x, None, SectionMode::Normal, true, 2)).0, 500);
    assert!(matches!(
        me_passkey_delete(&c, &x, id, true, 2, &Asked::NotYet, None),
        Step::Ask(FactorAsk::Remove { user: USER, kind: FactorKind::Passkey, id: at }) if at == id
    ));
    let done = finished(me_passkey_delete(&c, &x, id, true, 2, &Asked::Answer(()), Some(Some(Vec::new()))));
    assert!(page(&done.reply).1.contains("That was your last passkey."));
    let done = finished(me_passkey_delete(&c, &x, id, true, 2, &Asked::Answer(()), Some(Some(vec![passkey(2, "Y")]))));
    assert!(page(&done.reply).1.contains("The passkey has been removed."));
}

#[test]
fn fields_are_cleaned() {
    assert_eq!(clean(Some("  x ".to_string())).as_deref(), Some("x"));
    assert_eq!(clean(Some("   ".to_string())), None);
    assert_eq!(clean(None), None);
    assert_eq!(clean_label("  "), "Authenticator");
    assert_eq!(clean_label(&"é".repeat(70)), "é".repeat(60));
    assert_eq!(device_nickname(" x "), Some("x".to_string()));
    assert_eq!(device_nickname(""), None);
    assert!(looks_like_email("a@b.c"));
    assert!(looks_like_email("a@b@c.d"));
    assert!(!looks_like_email("a.b@c"));
}
