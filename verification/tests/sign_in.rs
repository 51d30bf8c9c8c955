use hearth_web::audit::FieldValue;
use hearth_web::flows::login::{
    enrolled_factors, login_page, login_passkey_finish, login_passkey_start, login_submit,
    login_verify_page, login_verify_passkey_start, login_verify_submit, logout_submit,
    me_reauth_passkey_start, rate_key, root_redirect, BeginCeremony, DiscoverAsk, Factors,
    LoginAnswers, LoginAsk, MfaFactor, OpenSession, PasskeyAnswers, PasskeyAsk, VerifyAnswers,
    VerifyAsk,
};
use hearth_web::flows::step::{Asked, Finish, Step};
use hearth_web::forms::{
    LoginForm, LoginPasskeyFinishForm, LoginPrefill, LoginVerifyForm, LogoutForm,
};
use hearth_web::gate::Caller;
use hearth_web::model::{InstanceRole, UserLifecycle, Uuid};
use hearth_web::reply::{Content, Reply};
use hearth_web::views::shell::SiteInfo;

const USER: Uuid = Uuid { value: 42 };

fn site() -> SiteInfo {
    SiteInfo { asset_version: "abc".to_string(), release: "1.2.3".to_string() }
}

fn page(r: &Reply) -> (u16, &str) {
    match &r.content {
        Content::Page { status, html } => (*status, html.as_str()),
        _ => panic!("not a page"),
    }
}

fn location(r: &Reply) -> &str {
    match &r.content {
        Content::Redirect { to } => to,
        _ => panic!("not a redirect"),
    }
}

fn finished<Q>(s: Step<Q>) -> Finish {
    match s {
        Step::Finish(f) => f,
        Step::Ask(_) => panic!("a question"),
    }
}

fn form() -> LoginForm {
    LoginForm { email: "ada@example.org".to_string(), password: "pw".to_string() }
}

fn passkey_form() -> LoginPasskeyFinishForm {
    LoginPasskeyFinishForm { challenge_id: USER, passkey: "signed".to_string() }
}

fn answers() -> LoginAnswers {
    LoginAnswers {
        allowed: None,
        credentials: Asked::NotYet,
        second_factor: Asked::NotYet,
        pending_token: None,
        session: Asked::NotYet,
    }
}

#[test]
fn visitors_are_sent_where_they_belong() {
    assert_eq!(location(&root_redirect(true)), "/me");
    assert_eq!(location(&root_redirect(false)), "/login");
    assert_eq!(location(&login_page(&site(), true, &LoginPrefill::default())), "/me");
    let r = login_page(&site(), false, &LoginPrefill { email: Some("a\"b".to_string()) });
    let (status, html) = page(&r);
    assert_eq!(status, 200);
    assert!(html.contains("value=\"a&quot;b\""));
    assert_eq!(rate_key("login", "127.0.0.1"), "login:127.0.0.1");
}

#[test]
fn a_password_opens_a_session() {
    let s = site();
    let f = form();
    let mut a = answers();
    assert!(matches!(login_submit(&s, &f, "10.0.0.1", true, &a), Step::Ask(LoginAsk::Allowed(ref key)) if key == "login:10.0.0.1"));
    a.allowed = Some(true);
    assert!(matches!(login_submit(&s, &f, "10.0.0.1", true, &a), Step::Ask(LoginAsk::Credentials { ref email, ref password }) if *email == f.email && *password == f.password));
    a.credentials = Asked::Answer(Some(USER));
    assert!(matches!(login_submit(&s, &f, "10.0.0.1", true, &a), Step::Ask(LoginAsk::SecondFactor(u)) if u == USER));
    a.second_factor = Asked::Answer(false);
    assert!(matches!(login_submit(&s, &f, "10.0.0.1", true, &a), Step::Ask(LoginAsk::Session(OpenSession { user: USER, factor: None }))));
    a.session = Asked::Answer("token".to_string());
    let done = finished(login_submit(&s, &f, "10.0.0.1", true, &a));
    assert_eq!(done.record_failure, None);
    assert_eq!(location(&done.reply), "/me");
    assert_eq!(done.reply.cookies, vec!["hearth_session=token; Path=/; HttpOnly; SameSite=Lax; Secure".to_string()]);
}

#[test]
fn a_second_factor_is_asked_for() {
    let s = site();
    let f = form();
    let mut a = answers();
    a.allowed = Some(true);
    a.credentials = Asked::Answer(Some(USER));
    a.second_factor = Asked::Answer(true);
    assert!(matches!(login_submit(&s, &f, "10.0.0.1", false, &a), Step::Ask(LoginAsk::PendingToken(u)) if u == USER));
    a.pending_token = Some("p".to_string());
    let done = finished(login_submit(&s, &f, "10.0.0.1", false, &a));
    assert_eq!(location(&done.reply), "/login/verify");
    assert_eq!(done.reply.cookies, vec!["hearth_mfa=p; Path=/; Max-Age=600; HttpOnly; SameSite=Lax".to_string()]);
}

#[test]
fn a_wrong_password_is_told_and_counted() {
    let s = site();
    let f = form();
    let mut a = answers();
    a.allowed = Some(true);
    a.credentials = Asked::Answer(None);
    let done = finished(login_submit(&s, &f, "10.0.0.1", false, &a));
    assert_eq!(done.record_failure.as_deref(), Some("login:10.0.0.1"));
    let (status, html) = page(&done.reply);
    assert_eq!(status, 200);
    assert!(html.contains("Invalid email or password."));
    assert!(html.contains("ada@example.org"));
    a.allowed = Some(false);
    let done = finished(login_submit(&s, &f, "10.0.0.1", false, &a));
    assert_eq!(done.record_failure, None);
    let (status, html) = page(&done.reply);
    assert_eq!(status, 429);
    assert!(html.contains("Too many attempts."));
    a.allowed = Some(true);
    a.credentials = Asked::Failed;
    assert_eq!(page(&finished(login_submit(&s, &f, "10.0.0.1", false, &a)).reply).0, 500);
}

#[test]
fn a_passkey_signs_in_active_accounts_only() {
    let s = site();
    let mut a = PasskeyAnswers {
        allowed: Some(true),
        assertion: Asked::NotYet,
        lifecycle: Asked::NotYet,
        session: Asked::NotYet,
    };
    assert!(matches!(login_passkey_finish(&s, &passkey_form(), "10.0.0.1", false, &a), Step::Ask(PasskeyAsk::Assertion { challenge_id, ref assertion }) if challenge_id == USER && assertion == "signed"));
    a.assertion = Asked::Answer(None);
    let done = finished(login_passkey_finish(&s, &passkey_form(), "10.0.0.1", false, &a));
    assert_eq!(done.record_failure.as_deref(), Some("login:10.0.0.1"));
    assert!(page(&done.reply).1.contains("Passkey sign-in didn't work."));
    a.assertion = Asked::Answer(Some(USER));
    assert!(matches!(login_passkey_finish(&s, &passkey_form(), "10.0.0.1", false, &a), Step::Ask(PasskeyAsk::Lifecycle(u)) if u == USER));
    for other in [None, Some(UserLifecycle::Deactivated), Some(UserLifecycle::Anonymized), Some(UserLifecycle::PendingInvite)] {
        a.lifecycle = Asked::Answer(other);
        let done = finished(login_passkey_finish(&s, &passkey_form(), "10.0.0.1", false, &a));
        assert_eq!(done.record_failure.as_deref(), Some("login:10.0.0.1"));
        assert!(page(&done.reply).1.contains("That account can't sign in."));
    }
    a.lifecycle = Asked::Answer(Some(UserLifecycle::Active));
    assert!(matches!(
        login_passkey_finish(&s, &passkey_form(), "10.0.0.1", false, &a),
        Step::Ask(PasskeyAsk::Session(OpenSession { user: USER, factor: Some(MfaFactor::Passkey) }))
    ));
    a.session = Asked::Answer("tok".to_string());
    let done = finished(login_passkey_finish(&s, &passkey_form(), "10.0.0.1", false, &a));
    assert_eq!(done.reply.cookies.len(), 2);
    assert!(done.reply.cookies[1].starts_with("hearth_mfa=; "));
    a.allowed = Some(false);
    assert_eq!(page(&finished(login_passkey_finish(&s, &passkey_form(), "10.0.0.1", false, &a)).reply).0, 429);
}

#[test]
fn passkey_ceremonies_begin() {
    let s = site();
    let start = |allowed, started: Asked<(Uuid, String)>| login_passkey_start(&s, "10.0.0.1", allowed, &started);
    assert!(matches!(
        start(None, Asked::NotYet),
        Step::Ask(DiscoverAsk::Allowed(ref key)) if key == "pklogin:10.0.0.1"
    ));
    let r = finished(start(Some(false), Asked::NotYet)).reply;
    assert!(matches!(r.content, Content::Text { status: 429, ref text } if text == "slow down"));
    assert!(matches!(start(Some(true), Asked::NotYet), Step::Ask(DiscoverAsk::Begin)));
    let r = finished(start(Some(true), Asked::Answer((USER, "{}".to_string())))).reply;
    assert!(matches!(r.content, Content::Json { .. }));
    assert_eq!(page(&finished(start(Some(true), Asked::Failed)).reply).0, 500);
    assert!(matches!(
        me_reauth_passkey_start(&s, USER, &Asked::NotYet),
        Step::Ask(BeginCeremony { user }) if user == USER
    ));
    let none = finished(me_reauth_passkey_start(&s, USER, &Asked::Answer(None)));
    assert!(matches!(none.reply.content, Content::Text { status: 400, ref text } if text == "no passkeys"));
    assert_eq!(page(&finished(me_reauth_passkey_start(&s, USER, &Asked::Failed)).reply).0, 500);
    let begun = Asked::Answer(Some((USER, "{\"a\":1}".to_string())));
    let done = finished(login_verify_passkey_start(&s, Some(USER), &begun));
    let json = format!("{{\"challenge_id\":\"{}\",\"options\":{{\"a\":1}}}}", USER.text());
    assert!(matches!(done.reply.content, Content::Json { json: ref j } if *j == json));
    let expired = finished(login_verify_passkey_start(&s, None, &begun));
    assert!(matches!(expired.reply.content, Content::Text { status: 401, ref text } if text == "session expired"));
}

fn verify_form(code: Option<&str>, recovery: Option<&str>, passkey: Option<&str>, challenge: Option<Uuid>) -> LoginVerifyForm {
    LoginVerifyForm {
        code: code.map(str::to_string),
        recovery_code: recovery.map(str::to_string),
        passkey: passkey.map(str::to_string),
        challenge_id: challenge,
    }
}

fn verify_answers() -> VerifyAnswers {
    VerifyAnswers {
        factors: Some(Factors { totp: true, passkey: true }),
        allowed: Some(true),
        user_found: Asked::Answer(true),
        passkey: Asked::NotYet,
        totp: Asked::NotYet,
        recovery: Asked::NotYet,
        session: Asked::NotYet,
    }
}

#[test]
fn the_second_factor_step_needs_a_pending_sign_in() {
    let s = site();
    let f = verify_form(Some("123"), None, None, None);
    let done = finished(login_verify_submit(&s, false, &f, None, &verify_answers()));
    assert_eq!(location(&done.reply), "/login");
    assert_eq!(location(&login_verify_page(&s, None)), "/login");
    assert_eq!(page(&login_verify_page(&s, Some(Factors { totp: true, passkey: false }))).0, 200);
    let mut a = verify_answers();
    a.user_found = Asked::Answer(false);
    assert_eq!(location(&finished(login_verify_submit(&s, false, &f, Some(USER), &a)).reply), "/login");
    a.factors = None;
    assert!(matches!(login_verify_submit(&s, false, &f, Some(USER), &a), Step::Ask(VerifyAsk::Factors(_))));
    a.factors = Some(Factors { totp: false, passkey: false });
    a.allowed = Some(false);
    assert_eq!(page(&finished(login_verify_submit(&s, false, &f, Some(USER), &a)).reply).0, 429);
}

#[test]
fn each_second_factor_is_judged() {
    let s = site();
    let mut a = verify_answers();

    let f = verify_form(Some("  123456 "), Some("rec"), Some(""), None);
    match login_verify_submit(&s, false, &f, Some(USER), &a) {
        Step::Ask(VerifyAsk::Totp { user, code }) => {
            assert_eq!(user, USER);
            assert_eq!(code, "123456");
        },
        _ => panic!("no code asked for"),
    }
    a.totp = Asked::Answer(None);
    let done = finished(login_verify_submit(&s, false, &f, Some(USER), &a));
    assert_eq!(done.record_failure.as_deref(), Some("mfa:00000000-0000-0000-0000-00000000002a"));
    assert_eq!(done.audit.unwrap().event_type, "mfa_failed");
    assert!(page(&done.reply).1.contains("That code didn't match. Try again."));
    let cred = Uuid { value: 9 };
    a.totp = Asked::Answer(Some(cred));
    assert!(matches!(
        login_verify_submit(&s, false, &f, Some(USER), &a),
        Step::Ask(VerifyAsk::Session(OpenSession { user: USER, factor: Some(MfaFactor::Totp(c)) })) if c == cred
    ));
    a.session = Asked::Answer("tok".to_string());
    let done = finished(login_verify_submit(&s, true, &f, Some(USER), &a));
    assert_eq!(location(&done.reply), "/me");
    assert_eq!(
        done.reply.cookies,
        vec![
            "hearth_session=tok; Path=/; HttpOnly; SameSite=Lax; Secure".to_string(),
            "hearth_mfa=; Path=/; Max-Age=0; HttpOnly; SameSite=Lax; Secure".to_string(),
        ]
    );

    let mut a = verify_answers();
    let f = verify_form(None, Some(" rec "), None, None);
    assert!(matches!(
        login_verify_submit(&s, false, &f, Some(USER), &a),
        Step::Ask(VerifyAsk::Recovery { ref code, .. }) if code == "rec"
    ));
    a.recovery = Asked::Answer(false);
    let done = finished(login_verify_submit(&s, false, &f, Some(USER), &a));
    assert!(page(&done.reply).1.contains("That recovery code didn't match."));
    a.recovery = Asked::Answer(true);
    assert!(matches!(
        login_verify_submit(&s, false, &f, Some(USER), &a),
        Step::Ask(VerifyAsk::Session(OpenSession { user: USER, factor: Some(MfaFactor::RecoveryCode) }))
    ));

    let mut a = verify_answers();
    let f = verify_form(Some("1"), None, Some("{}"), None);
    assert_eq!(location(&finished(login_verify_submit(&s, false, &f, Some(USER), &a)).reply), "/login/verify");
    let f = verify_form(Some("1"), None, Some("{}"), Some(cred));
    assert!(matches!(
        login_verify_submit(&s, false, &f, Some(USER), &a),
        Step::Ask(VerifyAsk::Passkey { challenge_id, .. }) if challenge_id == cred
    ));
    a.passkey = Asked::Answer(false);
    let done = finished(login_verify_submit(&s, false, &f, Some(USER), &a));
    assert_eq!(done.record_failure.as_deref(), Some("mfa:00000000-0000-0000-0000-00000000002a"));
    assert!(page(&done.reply).1.contains("That passkey didn't work. Try again."));
    a.passkey = Asked::Failed;
    assert_eq!(page(&finished(login_verify_submit(&s, false, &f, Some(USER), &a)).reply).0, 500);

    let f = verify_form(Some(" "), Some(""), None, None);
    let done = finished(login_verify_submit(&s, false, &f, Some(USER), &verify_answers()));
    assert_eq!(done.record_failure, None);
    assert!(page(&done.reply).1.contains("Choose a verification method to continue."));
}

#[test]
fn factors_that_cannot_be_looked_up_count_as_missing() {
    assert_eq!(enrolled_factors(None, Some(true)), Factors { totp: false, passkey: true });
    assert_eq!(enrolled_factors(Some(true), Some(false)), Factors { totp: true, passkey: false });
    assert_eq!(MfaFactor::Totp(USER).label(), "totp");
    assert_eq!(MfaFactor::Passkey.label(), "passkey");
    assert_eq!(MfaFactor::RecoveryCode.label(), "recovery_code");
}

#[test]
fn signing_out_needs_the_form_token() {
    let s = site();
    let mut c = Caller {
        site: &s,
        user_id: USER,
        role: InstanceRole::Member,
        csrf_ok: false,
        sudo: None,
        critical: None,
        htmx: false,
    };
    let f = LogoutForm { csrf_token: String::new(), next: Some("//evil".to_string()) };
    let here = Uuid { value: 7 };
    for tried in [false, true] {
        let refused = finished(logout_submit(&c, here, &f, false, tried)).reply;
        assert_eq!(page(&refused).0, 403);
        assert!(refused.cookies.is_empty());
    }
    c.csrf_ok = true;
    match logout_submit(&c, here, &f, false, false) {
        Step::Ask(q) => {
            assert!(q.user == USER && q.session == here);
            assert_eq!(q.entry.event_type, "signout");
        },
        Step::Finish(_) => panic!("the session stays open"),
    }
    let r = finished(logout_submit(&c, here, &f, false, true)).reply;
    assert_eq!(location(&r), "/login");
    assert_eq!(r.cookies, vec!["hearth_session=; Path=/; Max-Age=0; HttpOnly; SameSite=Lax".to_string()]);
}

#[test]
fn sessions_are_logged_with_their_factor() {
    let cred = Uuid { value: 9 };
    let with = |factor| OpenSession { user: USER, factor };
    let plain = with(None).entry("a@b.c", cred);
    assert_eq!((plain.event_type, plain.data.len()), ("signin_success", 3));
    for (factor, name, stamp) in [
        (MfaFactor::Totp(cred), "totp", Some(cred)),
        (MfaFactor::Passkey, "passkey", None),
        (MfaFactor::RecoveryCode, "recovery_code", None),
    ] {
        let e = with(Some(factor)).entry("a@b.c", cred);
        let last = &e.data[3];
        assert!(last.key == "mfa" && matches!(&last.value, FieldValue::Text(t) if t == name));
        assert_eq!(with(Some(factor)).stamp(), stamp);
    }
    assert_eq!(with(None).stamp(), None);
}
